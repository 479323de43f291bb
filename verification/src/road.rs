//! The running simulation: the vehicles on the road, the spawn cooldown, and the
//! decisions taken on a key press and on every frame.

use std::collections::VecDeque;
use vstd::prelude::*;
use rand::Rng;
use rand::rngs::ThreadRng;
use crate::traffic;
use crate::utils::{Key, spawn_fits, spawn_params, spawn_spot};
use crate::vehicule::{Direction, Vehicule, collides, fresh, within_reach};
use crate::{DISTANCE, SAFE_DISTANCE};

verus! {

/// `rand::rngs::ThreadRng`, the handle on a thread's random generator, carried
/// through as an opaque value.
#[verifier::external_type_specification]
#[verifier::external_body]
pub struct ExThreadRng(ThreadRng);

/// Calls `rand::thread_rng`, the handle on the thread's lazily seeded generator.
/// Nothing is stated of the handle.
#[verifier::external_body]
fn thread_rng() -> ThreadRng {
    rand::thread_rng()
}

/// Calls `Rng::gen_range` on the range `0..bound`. The crate documents that it
/// panics on an empty range (so `bound` must be positive) and that the value lies
/// in the range; which value comes out is left to chance and is not stated.
#[verifier::external_body]
fn gen_below(rng: &mut ThreadRng, bound: usize) -> (r: usize)
    requires
        bound > 0,
    ensures
        r < bound,
{
    rng.gen_range(0..bound)
}

/// Frames that have to pass after a spawn before the next vehicle may be added.
pub const COOLDOWN_FRAMES: i32 = 350;

/// The heading of a straight-driving vehicle that corresponds to a spawn heading.
pub open spec fn heading(d: traffic::Direction) -> Direction {
    match d {
        traffic::Direction::Up => Direction::Up,
        traffic::Direction::Down => Direction::Down,
        traffic::Direction::Left => Direction::Left,
        traffic::Direction::Right => Direction::Right,
    }
}

fn to_heading(d: traffic::Direction) -> (r: Direction)
    ensures
        r == heading(d),
{
    match d {
        traffic::Direction::Up => Direction::Up,
        traffic::Direction::Down => Direction::Down,
        traffic::Direction::Left => Direction::Left,
        traffic::Direction::Right => Direction::Right,
    }
}

/// The arrow key that the `R` key stands for when the random pick is `i`.
pub open spec fn arrow(i: int) -> Key {
    if i == 0 {
        Key::Up
    } else if i == 1 {
        Key::Down
    } else if i == 2 {
        Key::Left
    } else {
        Key::Right
    }
}

/// The vehicle has driven off the visible 800 x 800 area, past a 10 pixel margin.
pub open spec fn gone(v: Vehicule) -> bool {
    match v.direction {
        Direction::Up => v.y < -10,
        Direction::Down => v.y > 810,
        Direction::Left => v.x < -10,
        Direction::Right => v.x > 810,
    }
}

/// Some other vehicle of `s` stops vehicle `i`.
pub open spec fn held(s: Seq<Vehicule>, i: int) -> bool {
    exists|j: int| 0 <= j < s.len() && j != i && #[trigger] collides(s[i], s[j], DISTANCE as int)
}

/// Some other vehicle of `s` is within `SAFE_DISTANCE` ahead of vehicle `i`.
pub open spec fn cautious(s: Seq<Vehicule>, i: int) -> bool {
    exists|j: int|
        0 <= j < s.len() && j != i && #[trigger] collides(s[i], s[j], SAFE_DISTANCE as int)
}

/// Vehicle `i` after one frame: a stopped vehicle stays as it is; a free one
/// drives every tenth frame, at speed 1 when cautious and 3 otherwise, and
/// counts frames in between.
pub open spec fn moved(s: Seq<Vehicule>, i: int) -> Vehicule {
    let v = s[i];
    if held(s, i) {
        v
    } else if v.frame_count >= 10 {
        Vehicule {
            frame_count: 0,
            ..Vehicule { speed: if cautious(s, i) { 1 } else { 3 }, ..v }.advanced()
        }
    } else {
        Vehicule { frame_count: (v.frame_count + 1) as u32, ..v }
    }
}

/// The vehicles of `s` after one frame, in order, without those that have left the screen.
pub open spec fn next_frame(s: Seq<Vehicule>) -> Seq<Vehicule> {
    Seq::new(s.len(), |i: int| moved(s, i)).filter(|v: Vehicule| !gone(v))
}

/// Vehicle `i` is compared with vehicle `j`: no vehicle before `j` stops it.
pub open spec fn compared(s: Seq<Vehicule>, i: int, j: int) -> bool {
    &&& 0 <= j < s.len()
    &&& j != i
    &&& forall|k: int| 0 <= k < j && k != i ==> !#[trigger] collides(s[i], s[k], DISTANCE as int)
}

/// One frame of `s` stays within `i32`.
pub open spec fn frame_in_range(s: Seq<Vehicule>) -> bool {
    &&& forall|i: int, j: int| 0 <= i < s.len() && #[trigger] compared(s, i, j) ==> within_reach(s[i], s[j])
    &&& forall|i: int|
        0 <= i < s.len() && !held(s, i) && s[i].frame_count >= 10 ==> (Vehicule {
            speed: if cautious(s, i) { 1 } else { 3 },
            ..s[i]
        }).can_advance()
}

/// The cooldown after one frame, as (spawning locked, frames counted).
pub open spec fn cooled(locked: bool, count: int) -> (bool, int) {
    if !locked {
        (false, count)
    } else if count + 1 >= COOLDOWN_FRAMES {
        (false, 0)
    } else {
        (true, count + 1)
    }
}

/// The cooldown after `n` frames.
pub open spec fn cooled_after(locked: bool, count: int, n: nat) -> (bool, int)
    decreases n,
{
    if n == 0 {
        (locked, count)
    } else {
        let c = cooled(locked, count);
        cooled_after(c.0, c.1, (n - 1) as nat)
    }
}

/// Once spawning is locked with `count` frames counted, it stays locked for each
/// of the next frames until `COOLDOWN_FRAMES` have been counted in all, and it is
/// unlocked, with the count back at zero, on exactly that frame.
pub proof fn lemma_cooldown_unlocks(count: int, k: nat)
    requires
        0 <= count < COOLDOWN_FRAMES,
        count + k <= COOLDOWN_FRAMES,
    ensures
        count + k < COOLDOWN_FRAMES ==> cooled_after(true, count, k) == (true, count + k),
        count + k == COOLDOWN_FRAMES ==> cooled_after(true, count, k) == (false, 0int),
    decreases k,
{
    if k > 0 {
        if count + 1 < COOLDOWN_FRAMES {
            lemma_cooldown_unlocks(count + 1, (k - 1) as nat);
        } else {
            assert(cooled_after(false, 0, 0) == (false, 0int));
        }
    }
}

/// A stopped vehicle keeps its place and its state for the frame, and a vehicle
/// never drives against its heading.
pub proof fn lemma_stopped_vehicle_stays(s: Seq<Vehicule>, i: int)
    requires
        0 <= i < s.len(),
        frame_in_range(s),
    ensures
        held(s, i) ==> moved(s, i) == s[i],
        moved(s, i).direction == s[i].direction,
        s[i].direction is Up ==> moved(s, i).y <= s[i].y,
        s[i].direction is Down ==> moved(s, i).y >= s[i].y,
        s[i].direction is Left ==> moved(s, i).x <= s[i].x,
        s[i].direction is Right ==> moved(s, i).x >= s[i].x,
{
}

/// Vehicle `i` stays as it is for the frame when any other vehicle of the list,
/// before or after it, is within `DISTANCE` ahead in its lane. When none is, it
/// counts one more frame in place, or every tenth frame drives 1 pixel (someone
/// within `SAFE_DISTANCE` ahead) or 3 pixels along its heading and restarts its count.
pub proof fn lemma_frame_for_vehicle(s: Seq<Vehicule>, i: int, j: int)
    requires
        0 <= i < s.len(),
        frame_in_range(s),
    ensures
        0 <= j < s.len() && j != i && collides(s[i], s[j], DISTANCE as int) ==> moved(s, i) == s[i],
        (forall|k: int| 0 <= k < s.len() && k != i ==> !collides(s[i], #[trigger] s[k], DISTANCE as int)) ==> {
            &&& s[i].frame_count < 10 ==> moved(s, i) == (Vehicule { frame_count: (s[i].frame_count + 1) as u32, ..s[i] })
            &&& s[i].frame_count >= 10 ==> {
                let sp: int = if (exists|k: int| 0 <= k < s.len() && k != i && collides(s[i], #[trigger] s[k], SAFE_DISTANCE as int)) { 1 } else { 3 };
                &&& moved(s, i).frame_count == 0
                &&& moved(s, i).speed == sp
                &&& moved(s, i).distance == s[i].distance + sp
                &&& moved(s, i).direction == s[i].direction
                &&& s[i].direction is Up ==> moved(s, i).x == s[i].x && moved(s, i).y == s[i].y - sp
                &&& s[i].direction is Down ==> moved(s, i).x == s[i].x && moved(s, i).y == s[i].y + sp
                &&& s[i].direction is Left ==> moved(s, i).y == s[i].y && moved(s, i).x == s[i].x - sp
                &&& s[i].direction is Right ==> moved(s, i).y == s[i].y && moved(s, i).x == s[i].x + sp
            }
        },
{
    if 0 <= j < s.len() && j != i && collides(s[i], s[j], DISTANCE as int) {
        assert(held(s, i));
    }
    if forall|k: int| 0 <= k < s.len() && k != i ==> !collides(s[i], #[trigger] s[k], DISTANCE as int) {
        assert(!held(s, i));
    }
}

/// A vehicle is dropped only past the edge it drives towards, by more than 10
/// pixels; anywhere on the visible 800 x 800 area it stays.
pub proof fn lemma_gone_edges(v: Vehicule)
    ensures
        0 <= v.x <= 800 && 0 <= v.y <= 800 ==> !gone(v),
        v.direction is Up ==> (gone(v) <==> v.y < -10),
        v.direction is Down ==> (gone(v) <==> v.y > 810),
        v.direction is Left ==> (gone(v) <==> v.x < -10),
        v.direction is Right ==> (gone(v) <==> v.x > 810),
{
}

/// After a frame, every vehicle left is on screen, every moved vehicle that is on
/// screen is still there, and no vehicle is added.
pub proof fn lemma_frame_keeps_on_screen(s: Seq<Vehicule>)
    ensures
        forall|k: int| 0 <= k < next_frame(s).len() ==> !gone(#[trigger] next_frame(s)[k]),
        forall|i: int| 0 <= i < s.len() && !gone(moved(s, i)) ==> next_frame(s).contains(#[trigger] moved(s, i)),
        next_frame(s).len() <= s.len(),
{
    let keep = |v: Vehicule| !gone(v);
    let all = Seq::new(s.len(), |i: int| moved(s, i));
    assert(next_frame(s) == all.filter(keep));
    assert forall|k: int| 0 <= k < next_frame(s).len() implies !gone(#[trigger] next_frame(s)[k]) by {
        all.lemma_filter_pred(keep, k);
    }
    assert forall|i: int| 0 <= i < s.len() && !gone(moved(s, i)) implies next_frame(s).contains(#[trigger] moved(s, i)) by {
        assert(all[i] == moved(s, i));
        all.lemma_filter_contains(keep, i);
    }
    all.lemma_filter_len(keep);
}

/// A key press that adds a vehicle puts it at the screen edge facing the key's
/// arrow (`R` standing for the arrow of its pick), on one of three lanes 45 pixels
/// apart, at speed 3 with a clean record and no frame counted.
pub proof fn lemma_spawned_vehicle(key: Key, pick: int, lane: int)
    requires
        0 <= pick < 4,
        0 <= lane < 3,
        !(key is Other),
    ensures
        ({
            let v = spawned(resolve(key, pick), lane_offset(lane));
            &&& v.speed == 3
            &&& v.states
            &&& v.frame_count == 0
            &&& !v.turning
            &&& v.distance == 0
            &&& !gone(v)
            &&& (resolve(key, pick) is Up ==> v.direction is Up && v.y == 800 && v.x == 410 + 45 * lane && v.angle == 0)
            &&& (resolve(key, pick) is Down ==> v.direction is Down && v.y == 0 && v.x == 275 + 45 * lane && v.angle == 180)
            &&& (resolve(key, pick) is Left ==> v.direction is Left && v.x == 800 && v.y == 270 + 45 * lane && v.angle == -90)
            &&& (resolve(key, pick) is Right ==> v.direction is Right && v.x == 0 && v.y == 400 + 45 * lane && v.angle == 90)
        }),
        key is R ==> resolve(key, pick) == (if pick == 0 { Key::Up } else if pick == 1 { Key::Down } else if pick == 2 { Key::Left } else { Key::Right }),
        !(key is R) ==> resolve(key, pick) == key,
{
}

/// The key a press stands for once `R` has been given its random arrow `pick`.
pub open spec fn resolve(key: Key, pick: int) -> Key {
    if key is R {
        arrow(pick)
    } else {
        key
    }
}

/// The sideways shift of lane number `lane`.
pub open spec fn lane_offset(lane: int) -> int {
    lane * 45
}

/// The vehicle that `key` summons, shifted sideways by `ranger`.
pub open spec fn spawned(key: Key, ranger: int) -> Vehicule {
    let t = spawn_spot(key, ranger)->0;
    fresh(t.0 as i32, t.1 as i32, heading(t.2), t.3 as i32)
}

/// Whether vehicle `i` of `cars` is stopped, and, when it is not, whether it is cautious.
fn look_ahead(cars: &VecDeque<Vehicule>, i: usize) -> (r: (bool, bool))
    requires
        i < cars@.len(),
        forall|j: int| #[trigger] compared(cars@, i as int, j) ==> within_reach(cars@[i as int], cars@[j]),
    ensures
        r.0 == held(cars@, i as int),
        !r.0 ==> r.1 == cautious(cars@, i as int),
{
    let ghost s = cars@;
    let n = cars.len();
    let v = cars[i];
    let mut slow = false;
    let mut j: usize = 0;
    while j < n
        invariant
            n == s.len(),
            s == cars@,
            i < n,
            v == s[i as int],
            j <= n,
            forall|j: int| #[trigger] compared(s, i as int, j) ==> within_reach(s[i as int], s[j]),
            forall|k: int| 0 <= k < j && k != i ==> !#[trigger] collides(s[i as int], s[k], DISTANCE as int),
            slow == exists|k: int| 0 <= k < j && k != i && #[trigger] collides(s[i as int], s[k], SAFE_DISTANCE as int),
        decreases n - j,
    {
        if i != j {
            assert(compared(s, i as int, j as int));
            let other = cars[j];
            if v.collitions(&other, SAFE_DISTANCE) {
                slow = true;
            }
            if v.collitions(&other, DISTANCE) {
                assert(held(s, i as int));
                return (true, slow);
            }
        }
        j = j + 1;
    }
    (false, slow)
}

/// The part of `frame_in_range` that concerns vehicle `i`.
pub open spec fn car_in_range(s: Seq<Vehicule>, i: int) -> bool {
    &&& forall|j: int| #[trigger] compared(s, i, j) ==> within_reach(s[i], s[j])
    &&& !held(s, i) && s[i].frame_count >= 10 ==> (Vehicule {
        speed: if cautious(s, i) { 1 } else { 3 },
        ..s[i]
    }).can_advance()
}

fn reachable(a: &Vehicule, b: &Vehicule) -> (r: bool)
    ensures
        r == within_reach(*a, *b),
{
    let dx = (a.x as i64) - (b.x as i64);
    let dy = (a.y as i64) - (b.y as i64);
    (i32::MIN as i64) < dx && dx <= (i32::MAX as i64) && (i32::MIN as i64) < dy && dy <= (i32::MAX as i64)
}

fn advance_fits(v: &Vehicule) -> (r: bool)
    ensures
        r == v.can_advance(),
{
    let x = v.x as i64;
    let y = v.y as i64;
    let sp = v.speed as i64;
    let (px, py) = match v.direction {
        Direction::Up => (x, y - sp),
        Direction::Down => (x, y + sp),
        Direction::Left => (x - sp, y),
        Direction::Right => (x + sp, y),
    };
    let d = (v.distance as i64) + sp;
    (i32::MIN as i64) <= px && px <= (i32::MAX as i64) && (i32::MIN as i64) <= py && py <= (
    i32::MAX as i64) && (i32::MIN as i64) <= d && d <= (i32::MAX as i64)
}

/// Whether vehicle `i` of `cars` can take its step of the frame within `i32`.
fn car_fits(cars: &VecDeque<Vehicule>, i: usize) -> (r: bool)
    requires
        i < cars@.len(),
    ensures
        r == car_in_range(cars@, i as int),
{
    let ghost s = cars@;
    let n = cars.len();
    let v = cars[i];
    let mut slow = false;
    let mut j: usize = 0;
    while j < n
        invariant
            n == s.len(),
            s == cars@,
            i < n,
            v == s[i as int],
            j <= n,
            forall|jj: int| 0 <= jj < j && #[trigger] compared(s, i as int, jj) ==> within_reach(s[i as int], s[jj]),
            forall|k: int| 0 <= k < j && k != i ==> !#[trigger] collides(s[i as int], s[k], DISTANCE as int),
            slow == exists|k: int| 0 <= k < j && k != i && #[trigger] collides(s[i as int], s[k], SAFE_DISTANCE as int),
        decreases n - j,
    {
        if i != j {
            let other = cars[j];
            if !reachable(&v, &other) {
                assert(compared(s, i as int, j as int));
                return false;
            }
            if v.collitions(&other, SAFE_DISTANCE) {
                slow = true;
            }
            if v.collitions(&other, DISTANCE) {
                assert(held(s, i as int));
                assert forall|jj: int| #[trigger] compared(s, i as int, jj) implies within_reach(s[i as int], s[jj]) by {
                    if jj > j {
                        assert(collides(s[i as int], s[j as int], DISTANCE as int));
                    }
                }
                return true;
            }
        }
        j = j + 1;
    }
    assert(!held(s, i as int));
    let mut w = v;
    w.speed = if slow { 1 } else { 3 };
    v.frame_count < 10 || advance_fits(&w)
}

/// The simulation state: the vehicles in the order they were added, and whether
/// spawning is locked (`can_add`, named after what it guards) with its frame count.
pub struct Road {
    pub cars: VecDeque<Vehicule>,
    pub can_add: bool,
    pub cooldown_time: i32,
    pub rng: ThreadRng,
}

impl Road {
    pub fn new() -> (r: Road)
        ensures
            r.cars@ == Seq::<Vehicule>::empty(),
            !r.can_add,
            r.cooldown_time == 0,
    {
        Road { cars: VecDeque::new(), can_add: false, cooldown_time: 0, rng: thread_rng() }
    }

    /// Adds the vehicle that `key` summons, shifted by `ranger`, unless spawning is locked.
    pub fn place(&mut self, key: Key, ranger: i32) -> (added: bool)
        requires
            !old(self).can_add ==> spawn_fits(key, ranger as int),
        ensures
            added == (!old(self).can_add && spawn_spot(key, ranger as int) is Some),
            final(self).cooldown_time == old(self).cooldown_time,
            added ==> {
                &&& final(self).can_add
                &&& final(self).cars@ == old(self).cars@.push(spawned(key, ranger as int))
            },
            !added ==> final(self).cars@ == old(self).cars@ && final(self).can_add == old(self).can_add,
    {
        if self.can_add {
            return false;
        }
        match spawn_params(key, ranger) {
            Some((x, y, dir, angle)) => {
                let v = Vehicule::new(x, y, to_heading(dir), angle);
                self.cars.push_back(v);
                self.can_add = true;
                true
            },
            None => false,
        }
    }

    /// Reacts to a key press: unless spawning is locked, `R` is given a random
    /// arrow, a random lane among three is drawn, and the arrow's vehicle is added.
    pub fn on_key(&mut self, key: Key) -> (added: bool)
        ensures
            added == (!old(self).can_add && !(key is Other)),
            final(self).cooldown_time == old(self).cooldown_time,
            !added ==> final(self).cars@ == old(self).cars@ && final(self).can_add == old(self).can_add,
            added ==> final(self).can_add,
            added ==> exists|pick: int, lane: int|
                0 <= pick < 4 && 0 <= lane < 3 && final(self).cars@ == old(self).cars@.push(
                    #[trigger] spawned(resolve(key, pick), #[trigger] lane_offset(lane)),
                ),
    {
        if self.can_add {
            return false;
        }
        let pick = if key == Key::R {
            gen_below(&mut self.rng, 4)
        } else {
            0
        };
        let lane = gen_below(&mut self.rng, 3);
        self.place_drawn(key, pick, lane)
    }

    /// Adds the vehicle for a key press once the random draws are known: `pick`
    /// chooses the arrow that `R` stands for (Up, Down, Left, Right), `lane` the
    /// lane among three; nothing is added while spawning is locked or for other keys.
    pub fn place_drawn(&mut self, key: Key, pick: usize, lane: usize) -> (added: bool)
        requires
            pick < 4,
            lane < 3,
        ensures
            added == (!old(self).can_add && !(key is Other)),
            final(self).cooldown_time == old(self).cooldown_time,
            !added ==> final(self).cars@ == old(self).cars@ && final(self).can_add == old(self).can_add,
            added ==> final(self).can_add,
            added ==> final(self).cars@ == old(self).cars@.push(
                spawned(resolve(key, pick as int), lane_offset(lane as int)),
            ),
    {
        if self.can_add {
            return false;
        }
        let k = if key == Key::R {
            if pick == 0 {
                Key::Up
            } else if pick == 1 {
                Key::Down
            } else if pick == 2 {
                Key::Left
            } else {
                Key::Right
            }
        } else {
            key
        };
        let ranger = (lane as i32) * 45;
        self.place(k, ranger)
    }

    /// Counts one frame of the spawn cooldown; spawning unlocks after `COOLDOWN_FRAMES`.
    pub fn tick_cooldown(&mut self)
        requires
            old(self).can_add ==> old(self).cooldown_time < i32::MAX,
        ensures
            (final(self).can_add, final(self).cooldown_time as int) == cooled(
                old(self).can_add,
                old(self).cooldown_time as int,
            ),
            final(self).cars@ == old(self).cars@,
    {
        if self.can_add {
            self.cooldown_time = self.cooldown_time + 1;
            if self.cooldown_time >= COOLDOWN_FRAMES {
                self.can_add = false;
                self.cooldown_time = 0;
            }
        }
    }

    /// Whether the next frame stays within `i32`, that is whether `advance` may be called.
    pub fn frame_ok(&self) -> (r: bool)
        ensures
            r == frame_in_range(self.cars@),
    {
        let ghost s = self.cars@;
        let n = self.cars.len();
        let mut i: usize = 0;
        while i < n
            invariant
                n == s.len(),
                s == self.cars@,
                i <= n,
                forall|k: int| 0 <= k < i ==> #[trigger] car_in_range(s, k),
            decreases n - i,
        {
            if !car_fits(&self.cars, i) {
                assert(!frame_in_range(s)) by {
                    assert(!car_in_range(s, i as int));
                }
                return false;
            }
            i = i + 1;
        }
        assert(frame_in_range(s)) by {
            assert forall|a: int, b: int| 0 <= a < s.len() && #[trigger] compared(s, a, b) implies within_reach(s[a], s[b]) by {
                assert(car_in_range(s, a));
            }
            assert forall|a: int| 0 <= a < s.len() && !held(s, a) && s[a].frame_count >= 10 implies (Vehicule {
                speed: if cautious(s, a) { 1 } else { 3 },
                ..s[a]
            }).can_advance() by {
                assert(car_in_range(s, a));
            }
        }
        true
    }

    /// Moves every vehicle by one frame and drops those that have left the screen.
    pub fn advance(&mut self)
        requires
            frame_in_range(old(self).cars@),
        ensures
            final(self).cars@ == next_frame(old(self).cars@),
            final(self).can_add == old(self).can_add,
            final(self).cooldown_time == old(self).cooldown_time,
    {
        let ghost s = self.cars@;
        let ghost all = Seq::new(s.len(), |i: int| moved(s, i));
        let ghost keep = |v: Vehicule| !gone(v);
        let n = self.cars.len();
        let mut new_cars: VecDeque<Vehicule> = VecDeque::new();
        let mut i: usize = 0;
        while i < n
            invariant
                n == s.len(),
                s == self.cars@,
                i <= n,
                frame_in_range(s),
                all == Seq::new(s.len(), |i: int| moved(s, i)),
                keep == (|v: Vehicule| !gone(v)),
                new_cars@ == all.take(i as int).filter(keep),
            decreases n - i,
        {
            let mut v = self.cars[i];
            let (stopped, slow) = look_ahead(&self.cars, i);
            if !stopped {
                if v.frame_count >= 10 {
                    v.speed = if slow { 1 } else { 3 };
                    v.update();
                    v.frame_count = 0;
                } else {
                    v.frame_count = v.frame_count + 1;
                }
            }
            proof {
                reveal_with_fuel(Seq::<_>::filter, 1);
                assert(all.take(i as int + 1).drop_last() =~= all.take(i as int));
                assert(all.take(i as int + 1).last() == v);
            }
            let out = match v.direction {
                Direction::Up => v.y < -10,
                Direction::Down => v.y > 810,
                Direction::Left => v.x < -10,
                Direction::Right => v.x > 810,
            };
            if !out {
                new_cars.push_back(v);
            }
            i = i + 1;
        }
        assert(all.take(n as int) =~= all);
        self.cars = new_cars;
    }
} // impl

} // verus!
