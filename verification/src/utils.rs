//! Spawning, leaving the screen, and one frame of traffic for turning vehicles.

use std::collections::VecDeque;
use vstd::prelude::*;
use crate::traffic::{Direction, Vehicule, collides, within_reach};
use crate::{DISTANCE, SAFE_DISTANCE};

verus! {

/// The keys that the simulation reacts to; every other key is `Other`.
#[derive(Clone, Copy, PartialEq, Eq, Structural, Debug)]
pub enum Key {
    Up,
    Down,
    Left,
    Right,
    R,
    Other,
}

/// The vehicle has driven off the visible 800 x 800 area, past a 10 pixel margin.
pub open spec fn off_screen(v: Vehicule) -> bool {
    match v.direction {
        Direction::Up => v.y < -10,
        Direction::Down => v.y > 810,
        Direction::Left => v.x < -10,
        Direction::Right => v.x > 810,
    }
}

pub fn is_off_screen(v: &Vehicule) -> (r: bool)
    ensures
        r == off_screen(*v),
{
    match v.direction {
        Direction::Up => v.y < -10,
        Direction::Down => v.y > 810,
        Direction::Left => v.x < -10,
        Direction::Right => v.x > 810,
    }
}

/// Where a vehicle summoned by an arrow key enters: position, heading and angle.
/// `ranger` shifts it sideways onto one of the lanes of its road.
pub open spec fn spawn_spot(key: Key, ranger: int) -> Option<(int, int, Direction, int)> {
    match key {
        Key::Up => Some((410 + ranger, 800, Direction::Up, 0)),
        Key::Down => Some((275 + ranger, 0, Direction::Down, 180)),
        Key::Left => Some((800, 270 + ranger, Direction::Left, -90)),
        Key::Right => Some((0, 400 + ranger, Direction::Right, 90)),
        _ => None,
    }
}

/// The lane offset keeps the entry coordinate within `i32`.
pub open spec fn spawn_fits(key: Key, ranger: int) -> bool {
    match spawn_spot(key, ranger) {
        Some(t) => i32::MIN <= t.0 <= i32::MAX && i32::MIN <= t.1 <= i32::MAX,
        None => true,
    }
}

pub fn spawn_params(key: Key, ranger: i32) -> (r: Option<(i32, i32, Direction, i32)>)
    requires
        spawn_fits(key, ranger as int),
    ensures
        r is Some <==> spawn_spot(key, ranger as int) is Some,
        r matches Some(t) ==> {
            let e = spawn_spot(key, ranger as int)->0;
            t.0 == e.0 && t.1 == e.1 && t.2 == e.2 && t.3 == e.3
        },
{
    match key {
        Key::Up => Some((410 + ranger, 800, Direction::Up, 0)),
        Key::Down => Some((275 + ranger, 0, Direction::Down, 180)),
        Key::Left => Some((800, 270 + ranger, Direction::Left, -90)),
        Key::Right => Some((0, 400 + ranger, Direction::Right, 90)),
        _ => None,
    }
}


/// Some other vehicle of `s` stops vehicle `i`: it is within `DISTANCE` of its way.
pub open spec fn blocked(s: Seq<Vehicule>, i: int) -> bool {
    exists|j: int| 0 <= j < s.len() && j != i && #[trigger] collides(s[i], s[j], DISTANCE as int)
}

/// Some other vehicle of `s` is within `SAFE_DISTANCE` of vehicle `i`'s way.
pub open spec fn slowed(s: Seq<Vehicule>, i: int) -> bool {
    exists|j: int|
        0 <= j < s.len() && j != i && #[trigger] collides(s[i], s[j], SAFE_DISTANCE as int)
}

/// The speed a free vehicle drives at: slow when someone is near its way.
pub open spec fn chosen_speed(s: Seq<Vehicule>, i: int) -> i32 {
    if slowed(s, i) {
        1
    } else {
        3
    }
}

/// Vehicle `i` after one frame: a stopped vehicle loses its clean record; a free
/// one drives every tenth frame, at the chosen speed, and counts frames otherwise.
pub open spec fn stepped(s: Seq<Vehicule>, i: int) -> Vehicule {
    let v = s[i];
    if blocked(s, i) {
        Vehicule { states: false, ..v }
    } else if v.frame_count >= 10 {
        Vehicule { frame_count: 0, ..Vehicule { speed: chosen_speed(s, i), ..v }.after_update() }
    } else {
        Vehicule { frame_count: (v.frame_count + 1) as u32, ..v }
    }
}

/// Every vehicle of `s` after one frame, in order.
pub open spec fn stepped_all(s: Seq<Vehicule>) -> Seq<Vehicule> {
    Seq::new(s.len(), |i: int| stepped(s, i))
}

/// The vehicles of `s` after one frame, without those that have left the screen.
pub open spec fn after_frame(s: Seq<Vehicule>) -> Seq<Vehicule> {
    stepped_all(s).filter(|v: Vehicule| !off_screen(v))
}

/// Number of vehicles among the first `n` of `s` that are stopped while their record is clean.
pub open spec fn close_calls_in(s: Seq<Vehicule>, n: int) -> int
    decreases n,
{
    if n <= 0 {
        0
    } else {
        close_calls_in(s, n - 1) + if blocked(s, n - 1) && s[n - 1].states {
            1int
        } else {
            0int
        }
    }
}

/// Vehicle `i` is compared with vehicle `j`: no vehicle before `j` stops it.
pub open spec fn pair_checked(s: Seq<Vehicule>, i: int, j: int) -> bool {
    &&& 0 <= j < s.len()
    &&& j != i
    &&& forall|k: int| 0 <= k < j && k != i ==> !#[trigger] collides(s[i], s[k], DISTANCE as int)
}

/// One frame of `s` stays within `i32`: the compared coordinates are close enough
/// to subtract, and every vehicle that drives can do so.
pub open spec fn frame_fits(s: Seq<Vehicule>) -> bool {
    &&& forall|i: int, j: int| 0 <= i < s.len() && #[trigger] pair_checked(s, i, j) ==> within_reach(s[i], s[j])
    &&& forall|i: int|
        0 <= i < s.len() && !blocked(s, i) && s[i].frame_count >= 10 ==> (Vehicule {
            speed: chosen_speed(s, i),
            ..s[i]
        }).after_turn().can_advance()
}

/// A stopped vehicle keeps its place for the frame, and a vehicle whose record
/// was marked by a close call never gets a clean record back.
pub proof fn lemma_frame_keeps_stopped_and_marks(s: Seq<Vehicule>, i: int)
    requires
        0 <= i < s.len(),
    ensures
        blocked(s, i) ==> stepped(s, i).x == s[i].x && stepped(s, i).y == s[i].y,
        stepped(s, i).states ==> s[i].states,
{
}

/// Vehicle `i` is stopped for the frame by any other vehicle of the list, before
/// or after it, that is within `DISTANCE` in its way: it keeps its place, its
/// record is marked, and a close call is counted when its record was clean.
/// When no other vehicle is within `DISTANCE`, nothing is counted for it, its
/// record is kept, and it either counts one more frame in place or, every tenth
/// frame, restarts its count and either takes its turn, standing still, or drives
/// at speed 1 (someone within `SAFE_DISTANCE`) or 3 along its heading.
pub proof fn lemma_frame_for_vehicle(s: Seq<Vehicule>, i: int, j: int)
    requires
        0 <= i < s.len(),
        frame_fits(s),
    ensures
        0 <= j < s.len() && j != i && collides(s[i], s[j], DISTANCE as int) ==> {
            &&& stepped(s, i).x == s[i].x
            &&& stepped(s, i).y == s[i].y
            &&& stepped(s, i).direction == s[i].direction
            &&& !stepped(s, i).states
            &&& close_calls_in(s, i + 1) == close_calls_in(s, i) + if s[i].states { 1int } else { 0int }
        },
        (forall|k: int| 0 <= k < s.len() && k != i ==> !collides(s[i], #[trigger] s[k], DISTANCE as int)) ==> {
            &&& stepped(s, i).states == s[i].states
            &&& close_calls_in(s, i + 1) == close_calls_in(s, i)
            &&& s[i].frame_count < 10 ==> stepped(s, i) == (Vehicule { frame_count: (s[i].frame_count + 1) as u32, ..s[i] })
            &&& s[i].frame_count >= 10 ==> {
                let sp: int = if (exists|k: int| 0 <= k < s.len() && k != i && collides(s[i], #[trigger] s[k], SAFE_DISTANCE as int)) { 1 } else { 3 };
                &&& stepped(s, i).frame_count == 0
                &&& s[i].turn_target() matches Some(d) ==> {
                    &&& stepped(s, i).direction == d
                    &&& stepped(s, i).speed == 0
                    &&& !stepped(s, i).turning
                    &&& stepped(s, i).x == s[i].x
                    &&& stepped(s, i).y == s[i].y
                }
                &&& s[i].turn_target() is None ==> {
                    &&& stepped(s, i).speed == sp
                    &&& stepped(s, i).direction == s[i].direction
                    &&& stepped(s, i).distance == s[i].distance + sp
                    &&& s[i].direction is Up ==> stepped(s, i).x == s[i].x && stepped(s, i).y == s[i].y - sp
                    &&& s[i].direction is Down ==> stepped(s, i).x == s[i].x && stepped(s, i).y == s[i].y + sp
                    &&& s[i].direction is Left ==> stepped(s, i).y == s[i].y && stepped(s, i).x == s[i].x - sp
                    &&& s[i].direction is Right ==> stepped(s, i).y == s[i].y && stepped(s, i).x == s[i].x + sp
                }
            }
        },
{
    if 0 <= j < s.len() && j != i && collides(s[i], s[j], DISTANCE as int) {
        assert(blocked(s, i));
    }
    if forall|k: int| 0 <= k < s.len() && k != i ==> !collides(s[i], #[trigger] s[k], DISTANCE as int) {
        assert(!blocked(s, i));
    }
}

/// A vehicle is dropped only past the edge it drives towards, by more than 10
/// pixels; anywhere on the visible 800 x 800 area it stays.
pub proof fn lemma_off_screen_edges(v: Vehicule)
    ensures
        0 <= v.x <= 800 && 0 <= v.y <= 800 ==> !off_screen(v),
        v.direction is Up ==> (off_screen(v) <==> v.y < -10),
        v.direction is Down ==> (off_screen(v) <==> v.y > 810),
        v.direction is Left ==> (off_screen(v) <==> v.x < -10),
        v.direction is Right ==> (off_screen(v) <==> v.x > 810),
{
}

/// After a frame, every vehicle left is on screen and every stepped vehicle that
/// is on screen is still there; no vehicle is added, and none is counted before the first.
pub proof fn lemma_frame_keeps_on_screen(s: Seq<Vehicule>)
    ensures
        forall|k: int| 0 <= k < after_frame(s).len() ==> !off_screen(#[trigger] after_frame(s)[k]),
        forall|i: int| 0 <= i < s.len() && !off_screen(stepped(s, i)) ==> after_frame(s).contains(#[trigger] stepped(s, i)),
        after_frame(s).len() <= s.len(),
        close_calls_in(s, 0) == 0,
{
    let keep = |v: Vehicule| !off_screen(v);
    let all = stepped_all(s);
    assert(after_frame(s) == all.filter(keep));
    assert forall|k: int| 0 <= k < after_frame(s).len() implies !off_screen(#[trigger] after_frame(s)[k]) by {
        all.lemma_filter_pred(keep, k);
    }
    assert forall|i: int| 0 <= i < s.len() && !off_screen(stepped(s, i)) implies after_frame(s).contains(#[trigger] stepped(s, i)) by {
        assert(all[i] == stepped(s, i));
        all.lemma_filter_contains(keep, i);
    }
    all.lemma_filter_len(keep);
}

/// A vehicle summoned by an arrow key enters at the edge it faces away from, on
/// screen, heading into the screen with the matching angle.
pub proof fn lemma_spawn_enters_screen(key: Key, ranger: int)
    requires
        0 <= ranger <= 90,
    ensures
        key is Up ==> spawn_spot(key, ranger) == Some((410 + ranger, 800int, Direction::Up, 0int)),
        key is Down ==> spawn_spot(key, ranger) == Some((275 + ranger, 0int, Direction::Down, 180int)),
        key is Left ==> spawn_spot(key, ranger) == Some((800int, 270 + ranger, Direction::Left, -90int)),
        key is Right ==> spawn_spot(key, ranger) == Some((0int, 400 + ranger, Direction::Right, 90int)),
        key is R || key is Other ==> spawn_spot(key, ranger) is None,
        spawn_spot(key, ranger) matches Some(t) ==> 0 <= t.0 <= 800 && 0 <= t.1 <= 800 && t.3 == t.2.angle(),
{
}

proof fn lemma_close_calls_monotone(s: Seq<Vehicule>, m: int, n: int)
    requires
        0 <= m <= n,
    ensures
        close_calls_in(s, m) <= close_calls_in(s, n),
    decreases n - m,
{
    if m < n {
        lemma_close_calls_monotone(s, m, n - 1);
    }
}

/// Whether vehicle `i` of `cars` is stopped, and, when it is not, whether it is slowed.
fn scan_others(cars: &VecDeque<Vehicule>, i: usize) -> (r: (bool, bool))
    requires
        i < cars@.len(),
        forall|j: int| #[trigger] pair_checked(cars@, i as int, j) ==> within_reach(cars@[i as int], cars@[j]),
    ensures
        r.0 == blocked(cars@, i as int),
        !r.0 ==> r.1 == slowed(cars@, i as int),
{
    let ghost s = cars@;
    let n = cars.len();
    let v = cars[i];
    let mut slow = false;
    let mut j: usize = 0;
    while j < n
        invariant
            n == s.len(),
            s == cars@,
            i < n,
            v == s[i as int],
            j <= n,
            forall|j: int| #[trigger] pair_checked(s, i as int, j) ==> within_reach(s[i as int], s[j]),
            forall|k: int| 0 <= k < j && k != i ==> !#[trigger] collides(s[i as int], s[k], DISTANCE as int),
            slow == exists|k: int| 0 <= k < j && k != i && #[trigger] collides(s[i as int], s[k], SAFE_DISTANCE as int),
        decreases n - j,
    {
        if i != j {
            assert(pair_checked(s, i as int, j as int));
            let other = cars[j];
            if v.collitions(&other, SAFE_DISTANCE) {
                slow = true;
            }
            if v.collitions(&other, DISTANCE) {
                assert(blocked(s, i as int));
                return (true, slow);
            }
        }
        j = j + 1;
    }
    (false, slow)
}

pub fn step_traffic(rect: &mut VecDeque<Vehicule>, close_calls: &mut i32)
    requires
        frame_fits(old(rect)@),
        *old(close_calls) + close_calls_in(old(rect)@, old(rect)@.len() as int) <= i32::MAX,
    ensures
        final(rect)@ == after_frame(old(rect)@),
        *final(close_calls) == *old(close_calls) + close_calls_in(old(rect)@, old(rect)@.len() as int),
{
    let ghost s = rect@;
    let ghost keep = |v: Vehicule| !off_screen(v);
    let n = rect.len();
    let mut new_cars: VecDeque<Vehicule> = VecDeque::new();
    let mut i: usize = 0;
    while i < n
        invariant
            n == s.len(),
            s == rect@,
            i <= n,
            frame_fits(s),
            keep == (|v: Vehicule| !off_screen(v)),
            *old(close_calls) + close_calls_in(s, n as int) <= i32::MAX,
            *close_calls == *old(close_calls) + close_calls_in(s, i as int),
            new_cars@ == stepped_all(s).take(i as int).filter(keep),
        decreases n - i,
    {
        proof {
            lemma_close_calls_monotone(s, i as int + 1, n as int);
        }
        let mut v = rect[i];
        let (stopped, slow) = scan_others(rect, i);
        if stopped {
            if v.states {
                *close_calls = *close_calls + 1;
            }
            v.states = false;
        } else {
            if v.frame_count >= 10 {
                v.speed = if slow { 1 } else { 3 };
                v.update();
                v.frame_count = 0;
            } else {
                v.frame_count = v.frame_count + 1;
            }
        }
        assert(v == stepped(s, i as int));
        proof {
            reveal_with_fuel(Seq::<_>::filter, 1);
            assert(stepped_all(s).take(i as int + 1).drop_last() =~= stepped_all(s).take(i as int));
            assert(stepped_all(s).take(i as int + 1).last() == v);
        }
        if !is_off_screen(&v) {
            new_cars.push_back(v);
        }
        i = i + 1;
    }
    assert(stepped_all(s).take(n as int) =~= stepped_all(s));
    *rect = new_cars;
}

} // verus!
