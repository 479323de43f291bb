//! Vehicles that drive straight through, keeping their distance to the car ahead.

use vstd::prelude::*;
use crate::traffic::abs;

verus! {

/// Half-open width of a lane, in pixels, for vehicles driving vertically.
pub const CAR_WIDTH: u32 = 25;

/// Half-open height of a lane, in pixels, for vehicles driving horizontally.
pub const CAR_HEIGHT: u32 = 30;

/// The heading of a vehicle on screen (y grows downwards).
#[derive(Clone, Copy, PartialEq, Eq, Structural, Debug)]
pub enum Direction {
    Up,
    Down,
    Left,
    Right,
}

/// A vehicle: its position, heading and the state that the driving rules read.
#[derive(Clone, Copy)]
pub struct Vehicule {
    pub x: i32,
    pub y: i32,
    pub direction: Direction,
    pub speed: i32,
    pub distance: i32,
    pub states: bool,
    pub frame_count: u32,
    pub angle: i32,
    pub turning: bool,
}

/// Both coordinate differences of two vehicles, and their negations, are `i32` values.
pub open spec fn within_reach(a: Vehicule, b: Vehicule) -> bool {
    &&& i32::MIN < a.x - b.x <= i32::MAX
    &&& i32::MIN < a.y - b.y <= i32::MAX
}

/// `b` is in `a`'s lane, in front of `a` (or level with it), at most `safe` pixels
/// away: `a` has to yield to it.
pub open spec fn collides(a: Vehicule, b: Vehicule, safe: int) -> bool {
    let dx = abs(a.x - b.x);
    let dy = abs(a.y - b.y);
    match a.direction {
        Direction::Down => b.y >= a.y && dy <= safe && dx < CAR_WIDTH,
        Direction::Up => a.y >= b.y && dy <= safe && dx < CAR_WIDTH,
        Direction::Left => a.x >= b.x && dx <= safe && dy < CAR_HEIGHT,
        Direction::Right => b.x >= a.x && dx <= safe && dy < CAR_HEIGHT,
    }
}

/// A vehicle as it enters the road: at speed 3, odometer at zero, clean record,
/// no frame counted, not turning.
pub open spec fn fresh(x: i32, y: i32, direction: Direction, angle: i32) -> Vehicule {
    Vehicule {
        x,
        y,
        direction,
        speed: 3,
        distance: 0,
        states: true,
        frame_count: 0,
        angle,
        turning: false,
    }
}

/// `b` lies behind `a` along `a`'s heading.
pub open spec fn behind(a: Vehicule, b: Vehicule) -> bool {
    match a.direction {
        Direction::Up => b.y > a.y,
        Direction::Down => b.y < a.y,
        Direction::Left => b.x > a.x,
        Direction::Right => b.x < a.x,
    }
}

/// A vehicle that yields to another at some distance also yields to it at any larger distance.
pub proof fn lemma_yield_monotone(a: Vehicule, b: Vehicule, near: int, far: int)
    requires
        near <= far,
        collides(a, b, near),
    ensures
        collides(a, b, far),
{
}

/// A vehicle never yields to one behind it.
pub proof fn lemma_behind_ignored(a: Vehicule, b: Vehicule, safe: int)
    requires
        behind(a, b),
    ensures
        !collides(a, b, safe),
{
}

/// A vehicle never yields to one outside its lane.
pub proof fn lemma_other_lane_ignored(a: Vehicule, b: Vehicule, safe: int)
    requires
        (a.direction is Up || a.direction is Down) ==> abs(a.x - b.x) >= CAR_WIDTH,
        (a.direction is Left || a.direction is Right) ==> abs(a.y - b.y) >= CAR_HEIGHT,
    ensures
        !collides(a, b, safe),
{
}

/// A straight-through vehicle yields to `b` exactly when `b` is in its lane (less
/// than a lane's width aside) and ahead of it, at most `safe` pixels along its heading.
pub proof fn lemma_yield_exact(a: Vehicule, b: Vehicule, safe: int)
    ensures
        a.direction is Up ==> (collides(a, b, safe) <==> (0 <= a.y - b.y <= safe && -25 < a.x - b.x < 25)),
        a.direction is Down ==> (collides(a, b, safe) <==> (0 <= b.y - a.y <= safe && -25 < a.x - b.x < 25)),
        a.direction is Left ==> (collides(a, b, safe) <==> (0 <= a.x - b.x <= safe && -30 < a.y - b.y < 30)),
        a.direction is Right ==> (collides(a, b, safe) <==> (0 <= b.x - a.x <= safe && -30 < a.y - b.y < 30)),
{
}

/// A vehicle farther ahead than `safe` pixels along the heading is no reason to yield at `safe`.
pub proof fn lemma_far_ahead_ignored(a: Vehicule, b: Vehicule, safe: int)
    requires
        a.direction is Up ==> a.y - b.y > safe,
        a.direction is Down ==> b.y - a.y > safe,
        a.direction is Left ==> a.x - b.x > safe,
        a.direction is Right ==> b.x - a.x > safe,
    ensures
        !collides(a, b, safe),
{
}

/// One update moves a vehicle `speed` pixels along its heading and adds `speed`
/// to its odometer, leaving everything else as it was.
pub proof fn lemma_update_moves(v: Vehicule)
    requires
        v.can_advance(),
    ensures
        v.advanced().direction == v.direction,
        v.advanced().speed == v.speed,
        v.advanced().states == v.states,
        v.advanced().frame_count == v.frame_count,
        v.advanced().angle == v.angle,
        v.advanced().distance == v.distance + v.speed,
        v.direction is Up ==> v.advanced().x == v.x && v.advanced().y == v.y - v.speed,
        v.direction is Down ==> v.advanced().x == v.x && v.advanced().y == v.y + v.speed,
        v.direction is Left ==> v.advanced().y == v.y && v.advanced().x == v.x - v.speed,
        v.direction is Right ==> v.advanced().y == v.y && v.advanced().x == v.x + v.speed,
{
}

impl Vehicule {
    /// The position reached by driving `speed` pixels along the heading.
    pub open spec fn position_after(self) -> (int, int) {
        match self.direction {
            Direction::Up => (self.x as int, self.y - self.speed),
            Direction::Down => (self.x as int, self.y + self.speed),
            Direction::Left => (self.x - self.speed, self.y as int),
            Direction::Right => (self.x + self.speed, self.y as int),
        }
    }

    /// Driving `speed` pixels keeps the position and the odometer within `i32`.
    pub open spec fn can_advance(self) -> bool {
        let p = self.position_after();
        &&& i32::MIN <= p.0 <= i32::MAX
        &&& i32::MIN <= p.1 <= i32::MAX
        &&& i32::MIN <= self.distance + self.speed <= i32::MAX
    }

    /// The vehicle after driving `speed` pixels along its heading.
    pub open spec fn advanced(self) -> Vehicule {
        let p = self.position_after();
        Vehicule { x: p.0 as i32, y: p.1 as i32, distance: (self.distance + self.speed) as i32, ..self }
    }

    pub fn new(x: i32, y: i32, direction: Direction, angle: i32) -> (v: Self)
        ensures
            v == fresh(x, y, direction, angle),
    {
        Vehicule {
            x,
            y,
            direction,
            angle,
            speed: 3,
            distance: 0,
            states: true,
            frame_count: 0,
            turning: false,
        }
    }

    pub fn update(&mut self)
        requires
            old(self).can_advance(),
        ensures
            *final(self) == old(self).advanced(),
    {
        match self.direction {
            Direction::Up => self.y = self.y - self.speed,
            Direction::Down => self.y = self.y + self.speed,
            Direction::Left => self.x = self.x - self.speed,
            Direction::Right => self.x = self.x + self.speed,
        }
        self.distance = self.distance + self.speed;
    }

    pub fn collitions(&self, other: &Vehicule, safe_distance: i32) -> (r: bool)
        requires
            within_reach(*self, *other),
        ensures
            r == collides(*self, *other, safe_distance as int),
    {
        let ddx = self.x - other.x;
        let dx = if ddx < 0 { -ddx } else { ddx };
        let ddy = self.y - other.y;
        let dy = if ddy < 0 { -ddy } else { ddy };

        match self.direction {
            Direction::Down => other.y >= self.y && dy <= safe_distance && dx < CAR_WIDTH as i32,
            Direction::Up => self.y >= other.y && dy <= safe_distance && dx < CAR_WIDTH as i32,
            Direction::Left => self.x >= other.x && dx <= safe_distance && dy < CAR_HEIGHT as i32,
            Direction::Right => other.x >= self.x && dx <= safe_distance && dy < CAR_HEIGHT as i32,
        }
    }
}

} // verus!
