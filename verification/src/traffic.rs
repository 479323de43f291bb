//! Vehicles that may turn at the intersection and that give way to crossing traffic.

use vstd::prelude::*;

verus! {

/// Half-open width of a lane, in pixels, for vehicles driving vertically.
pub const CAR_WIDTH: u32 = 25;

/// Half-open height of a lane, in pixels, for vehicles driving horizontally.
pub const CAR_HEIGHT: u32 = 30;

/// The heading of a vehicle on screen (y grows downwards).
#[derive(Clone, Copy, PartialEq, Eq, Structural, Debug)]
pub enum Direction {
    Up,
    Down,
    Left,
    Right,
}

impl Direction {
    /// Rank of a heading (Up, Down, Left, Right): at the crossing, of two vehicles
    /// as near to the point, the one of higher rank gives way.
    pub open spec fn rank(self) -> int {
        match self {
            Direction::Up => 0,
            Direction::Down => 1,
            Direction::Left => 2,
            Direction::Right => 3,
        }
    }

    /// Whether the heading is along the y axis.
    pub open spec fn is_vertical(self) -> bool {
        self is Up || self is Down
    }

    /// Rotation, in degrees, with which a vehicle with this heading is drawn.
    pub open spec fn angle(self) -> int {
        match self {
            Direction::Up => 0,
            Direction::Down => 180,
            Direction::Left => -90,
            Direction::Right => 90,
        }
    }

    pub fn index(&self) -> (r: usize)
        ensures
            r == self.rank(),
    {
        match self {
            Direction::Up => 0,
            Direction::Down => 1,
            Direction::Left => 2,
            Direction::Right => 3,
        }
    }
}


/// A vehicle: its position, heading and the state that the driving rules read.
#[derive(Clone, Copy)]
pub struct Vehicule {
    pub x: i32,
    pub y: i32,
    pub direction: Direction,
    pub speed: i32,
    pub distance: i32,
    pub states: bool,
    pub frame_count: u32,
    pub angle: i32,
    pub turning: bool,
}

/// Absolute value of an integer.
pub open spec fn abs(v: int) -> int {
    if v < 0 {
        -v
    } else {
        v
    }
}

/// Both coordinate differences of two vehicles, and their negations, are `i32` values.
pub open spec fn within_reach(a: Vehicule, b: Vehicule) -> bool {
    &&& i32::MIN < a.x - b.x <= i32::MAX
    &&& i32::MIN < a.y - b.y <= i32::MAX
}

/// `b` is in `a`'s lane, in front of `a` (or level with it), at most `safe` pixels away.
pub open spec fn ahead_in_lane(a: Vehicule, b: Vehicule, safe: int) -> bool {
    let dx = abs(a.x - b.x);
    let dy = abs(a.y - b.y);
    match a.direction {
        Direction::Down => b.y >= a.y && dy <= safe && dx < CAR_WIDTH,
        Direction::Up => a.y >= b.y && dy <= safe && dx < CAR_WIDTH,
        Direction::Left => a.x >= b.x && dx <= safe && dy < CAR_HEIGHT,
        Direction::Right => b.x >= a.x && dx <= safe && dy < CAR_HEIGHT,
    }
}

/// The two vehicles drive along different axes.
pub open spec fn perpendicular(a: Vehicule, b: Vehicule) -> bool {
    a.direction.is_vertical() != b.direction.is_vertical()
}

/// How far `mover` still has to drive, along its heading, to reach the line on
/// which `other` drives (negative once it has passed it).
pub open spec fn remaining(mover: Vehicule, other: Vehicule) -> int {
    match mover.direction {
        Direction::Up => mover.y - other.y,
        Direction::Down => other.y - mover.y,
        Direction::Left => mover.x - other.x,
        Direction::Right => other.x - mover.x,
    }
}

/// `a` and `b` drive on crossing roads towards the same crossing point, both
/// within `safe` pixels of it, and `a` is the one that gives way: it is nearer
/// the point, or as near and of higher rank.
pub open spec fn crossing_conflict(a: Vehicule, b: Vehicule, safe: int) -> bool {
    let ra = remaining(a, b);
    let rb = remaining(b, a);
    &&& perpendicular(a, b)
    &&& 0 <= ra <= safe
    &&& 0 <= rb <= safe
    &&& (ra < rb || (ra == rb && a.direction.rank() > b.direction.rank()))
}

/// `a` has to yield to `b` at the distance `safe`.
pub open spec fn collides(a: Vehicule, b: Vehicule, safe: int) -> bool {
    ahead_in_lane(a, b, safe) || crossing_conflict(a, b, safe)
}

/// A vehicle as it enters the road: at speed 4, odometer at zero, clean record,
/// no frame counted, not turning.
pub open spec fn fresh(x: i32, y: i32, direction: Direction, angle: i32) -> Vehicule {
    Vehicule {
        x,
        y,
        direction,
        speed: 4,
        distance: 0,
        states: true,
        frame_count: 0,
        angle,
        turning: false,
    }
}

/// A vehicle that yields to another at some distance also yields to it at any larger distance.
pub proof fn lemma_yield_monotone(a: Vehicule, b: Vehicule, near: int, far: int)
    requires
        near <= far,
        collides(a, b, near),
    ensures
        collides(a, b, far),
{
}

/// Of two vehicles on crossing roads that both are within `safe` pixels of the
/// crossing point and have not passed it, exactly one gives way by the crossing
/// rule; when either is out of range or past the point, neither does.
pub proof fn lemma_crossing_one_yields(a: Vehicule, b: Vehicule, safe: int)
    requires
        perpendicular(a, b),
    ensures
        (if crossing_conflict(a, b, safe) { 1int } else { 0int }) + (if crossing_conflict(b, a, safe) { 1int } else { 0int })
            == (if 0 <= remaining(a, b) <= safe && 0 <= remaining(b, a) <= safe { 1int } else { 0int }),
{
}

/// A vehicle never yields to a vehicle whose line it has already passed.
pub proof fn lemma_passed_ignored(a: Vehicule, b: Vehicule, safe: int)
    requires
        remaining(a, b) < 0,
    ensures
        !collides(a, b, safe),
{
}

/// A vehicle never yields to one driving along the same axis in another lane.
pub proof fn lemma_other_lane_ignored(a: Vehicule, b: Vehicule, safe: int)
    requires
        !perpendicular(a, b),
        a.direction.is_vertical() ==> abs(a.x - b.x) >= CAR_WIDTH,
        !a.direction.is_vertical() ==> abs(a.y - b.y) >= CAR_HEIGHT,
    ensures
        !collides(a, b, safe),
{
}

/// A vehicle yields to any vehicle, whatever its heading, that is in its lane
/// (less than a lane's width aside) and ahead of it by at most `safe` pixels.
pub proof fn lemma_lane_ahead_yields(a: Vehicule, b: Vehicule, safe: int)
    requires
        a.direction is Up ==> 0 <= a.y - b.y <= safe && -25 < a.x - b.x < 25,
        a.direction is Down ==> 0 <= b.y - a.y <= safe && -25 < a.x - b.x < 25,
        a.direction is Left ==> 0 <= a.x - b.x <= safe && -30 < a.y - b.y < 30,
        a.direction is Right ==> 0 <= b.x - a.x <= safe && -30 < a.y - b.y < 30,
    ensures
        collides(a, b, safe),
{
}

/// Between two vehicles on the same axis, one yields to the other exactly when the
/// other is in its lane and ahead of it by at most `safe` pixels.
pub proof fn lemma_same_axis_yield_exact(a: Vehicule, b: Vehicule, safe: int)
    requires
        a.direction.is_vertical() == b.direction.is_vertical(),
    ensures
        a.direction is Up ==> (collides(a, b, safe) <==> (0 <= a.y - b.y <= safe && -25 < a.x - b.x < 25)),
        a.direction is Down ==> (collides(a, b, safe) <==> (0 <= b.y - a.y <= safe && -25 < a.x - b.x < 25)),
        a.direction is Left ==> (collides(a, b, safe) <==> (0 <= a.x - b.x <= safe && -30 < a.y - b.y < 30)),
        a.direction is Right ==> (collides(a, b, safe) <==> (0 <= b.x - a.x <= safe && -30 < a.y - b.y < 30)),
{
}

/// The turning table: a turning vehicle turns on reaching the turning line of
/// its lane, and at every point past it, onto the road it turns into; a vehicle
/// that is not turning, or is elsewhere, keeps its heading.
pub proof fn lemma_turning_table(v: Vehicule)
    ensures
        !v.turning ==> v.turn_target() is None,
        v.turning && v.direction is Up && v.x == 410 ==> (v.turn_target() == if v.y <= 355 { Some(Direction::Left) } else { None::<Direction> }),
        v.turning && v.direction is Up && v.x == 500 ==> (v.turn_target() == if v.y <= 490 { Some(Direction::Right) } else { None::<Direction> }),
        v.turning && v.direction is Up && v.x != 410 && v.x != 500 ==> v.turn_target() is None,
        v.turning && v.direction is Down && v.x == 365 ==> (v.turn_target() == if v.y >= 405 { Some(Direction::Right) } else { None::<Direction> }),
        v.turning && v.direction is Down && v.x == 275 ==> (v.turn_target() == if v.y >= 270 { Some(Direction::Left) } else { None::<Direction> }),
        v.turning && v.direction is Down && v.x != 365 && v.x != 275 ==> v.turn_target() is None,
        v.turning && v.direction is Left && v.y == 270 ==> (v.turn_target() == if v.x <= 500 { Some(Direction::Up) } else { None::<Direction> }),
        v.turning && v.direction is Left && v.y == 360 ==> (v.turn_target() == if v.x <= 365 { Some(Direction::Down) } else { None::<Direction> }),
        v.turning && v.direction is Left && v.y != 270 && v.y != 360 ==> v.turn_target() is None,
        v.turning && v.direction is Right && v.y == 400 ==> (v.turn_target() == if v.x >= 405 { Some(Direction::Up) } else { None::<Direction> }),
        v.turning && v.direction is Right && v.y == 490 ==> (v.turn_target() == if v.x >= 275 { Some(Direction::Down) } else { None::<Direction> }),
        v.turning && v.direction is Right && v.y != 400 && v.y != 490 ==> v.turn_target() is None,
        v.turn_target() matches Some(d) ==> d.is_vertical() != v.direction.is_vertical(),
{
}

/// Ranks follow the order Up, Down, Left, Right, and `index` reports them.
pub proof fn lemma_rank_order()
    ensures
        Direction::Up.rank() == 0,
        Direction::Down.rank() == 1,
        Direction::Left.rank() == 2,
        Direction::Right.rank() == 3,
{
}

/// `remaining` is the distance left along the mover's heading to the line on which
/// the other drives: it shrinks as the mover advances and is negative once passed.
pub proof fn lemma_remaining_along_heading(a: Vehicule, b: Vehicule)
    ensures
        a.direction is Up ==> remaining(a, b) == a.y - b.y,
        a.direction is Down ==> remaining(a, b) == b.y - a.y,
        a.direction is Left ==> remaining(a, b) == a.x - b.x,
        a.direction is Right ==> remaining(a, b) == b.x - a.x,
        a.can_advance() && a.speed > 0 ==> remaining(a.advanced(), b) == remaining(a, b) - a.speed,
{
}

/// At the crossing (the other vehicle not ahead in the lane), a vehicle yields
/// exactly when both are in range of the crossing point and it is the nearer one,
/// or as near and of higher rank.
pub proof fn lemma_crossing_exact(a: Vehicule, b: Vehicule, safe: int)
    requires
        perpendicular(a, b),
        !ahead_in_lane(a, b, safe),
    ensures
        collides(a, b, safe) <==> {
            &&& 0 <= remaining(a, b) <= safe
            &&& 0 <= remaining(b, a) <= safe
            &&& (remaining(a, b) < remaining(b, a) || (remaining(a, b) == remaining(b, a)
                && a.direction.rank() > b.direction.rank()))
        },
{
}

/// One update of a vehicle that does not turn moves it `speed` pixels along its
/// heading and adds `speed` to its odometer; a vehicle that turns takes the new
/// heading with the matching angle, stops turning, and stays where it is.
pub proof fn lemma_update_moves(v: Vehicule)
    requires
        v.after_turn().can_advance(),
    ensures
        v.turn_target() is None ==> {
            &&& v.after_update().direction == v.direction
            &&& v.after_update().speed == v.speed
            &&& v.after_update().distance == v.distance + v.speed
            &&& v.direction is Up ==> v.after_update().x == v.x && v.after_update().y == v.y - v.speed
            &&& v.direction is Down ==> v.after_update().x == v.x && v.after_update().y == v.y + v.speed
            &&& v.direction is Left ==> v.after_update().y == v.y && v.after_update().x == v.x - v.speed
            &&& v.direction is Right ==> v.after_update().y == v.y && v.after_update().x == v.x + v.speed
        },
        v.turn_target() matches Some(d) ==> {
            &&& v.after_update().direction == d
            &&& v.after_update().speed == 0
            &&& !v.after_update().turning
            &&& v.after_update().x == v.x
            &&& v.after_update().y == v.y
            &&& v.after_update().distance == v.distance
            &&& (d is Up ==> v.after_update().angle == 0)
            &&& (d is Down ==> v.after_update().angle == 180)
            &&& (d is Left ==> v.after_update().angle == -90)
            &&& (d is Right ==> v.after_update().angle == 90)
        },
        v.after_update().states == v.states,
        v.after_update().frame_count == v.frame_count,
{
}

impl Vehicule {
    /// The heading a turning vehicle takes at its turning point, if it stands on one.
    pub open spec fn turn_target(self) -> Option<Direction> {
        if !self.turning {
            None
        } else {
            match self.direction {
                Direction::Up => if self.x == 410 && self.y <= 355 {
                    Some(Direction::Left)
                } else if self.x == 500 && self.y <= 490 {
                    Some(Direction::Right)
                } else {
                    None
                },
                Direction::Down => if self.x == 365 && self.y >= 405 {
                    Some(Direction::Right)
                } else if self.x == 275 && self.y >= 270 {
                    Some(Direction::Left)
                } else {
                    None
                },
                Direction::Left => if self.y == 270 && self.x <= 500 {
                    Some(Direction::Up)
                } else if self.y == 360 && self.x <= 365 {
                    Some(Direction::Down)
                } else {
                    None
                },
                Direction::Right => if self.y == 400 && self.x >= 405 {
                    Some(Direction::Up)
                } else if self.y == 490 && self.x >= 275 {
                    Some(Direction::Down)
                } else {
                    None
                },
            }
        }
    }

    /// The vehicle after it has taken its turn, if any: new heading, matching
    /// angle, no longer turning, standing still for this frame.
    pub open spec fn after_turn(self) -> Vehicule {
        match self.turn_target() {
            Some(d) => Vehicule {
                direction: d,
                angle: d.angle() as i32,
                turning: false,
                speed: 0,
                ..self
            },
            None => self,
        }
    }

    /// The position reached by driving `speed` pixels along the heading.
    pub open spec fn position_after(self) -> (int, int) {
        match self.direction {
            Direction::Up => (self.x as int, self.y - self.speed),
            Direction::Down => (self.x as int, self.y + self.speed),
            Direction::Left => (self.x - self.speed, self.y as int),
            Direction::Right => (self.x + self.speed, self.y as int),
        }
    }

    /// Driving `speed` pixels keeps the position and the odometer within `i32`.
    pub open spec fn can_advance(self) -> bool {
        let p = self.position_after();
        &&& i32::MIN <= p.0 <= i32::MAX
        &&& i32::MIN <= p.1 <= i32::MAX
        &&& i32::MIN <= self.distance + self.speed <= i32::MAX
    }

    /// The vehicle after driving `speed` pixels along its heading.
    pub open spec fn advanced(self) -> Vehicule {
        let p = self.position_after();
        Vehicule { x: p.0 as i32, y: p.1 as i32, distance: (self.distance + self.speed) as i32, ..self }
    }

    /// The vehicle after one update: turn if on a turning point, then drive.
    pub open spec fn after_update(self) -> Vehicule {
        self.after_turn().advanced()
    }

    pub fn new(x: i32, y: i32, direction: Direction, angle: i32) -> (v: Self)
        ensures
            v == fresh(x, y, direction, angle),
    {
        Vehicule {
            x,
            y,
            direction,
            angle,
            speed: 4,
            distance: 0,
            states: true,
            frame_count: 0,
            turning: false,
        }
    }

    pub fn update(&mut self)
        requires
            old(self).after_turn().can_advance(),
        ensures
            *final(self) == old(self).after_update(),
    {
        if let Some(new_dir) = self.should_turning() {
            self.direction = new_dir;
            self.angle = match new_dir {
                Direction::Up => 0,
                Direction::Down => 180,
                Direction::Left => -90,
                Direction::Right => 90,
            };
            self.turning = false;
            self.speed = 0;
        }
        match self.direction {
            Direction::Up => self.y = self.y - self.speed,
            Direction::Down => self.y = self.y + self.speed,
            Direction::Left => self.x = self.x - self.speed,
            Direction::Right => self.x = self.x + self.speed,
        }
        self.distance = self.distance + self.speed;
    }

    pub fn should_turning(&self) -> (r: Option<Direction>)
        ensures
            r == self.turn_target(),
    {
        if !self.turning {
            return None;
        }
        match self.direction {
            Direction::Up if self.x == 410 && self.y <= 355 => Some(Direction::Left),
            Direction::Up if self.x == 500 && self.y <= 490 => Some(Direction::Right),
            Direction::Down if self.x == 365 && self.y >= 405 => Some(Direction::Right),
            Direction::Down if self.x == 275 && self.y >= 270 => Some(Direction::Left),
            Direction::Left if self.y == 270 && self.x <= 500 => Some(Direction::Up),
            Direction::Left if self.y == 360 && self.x <= 365 => Some(Direction::Down),
            Direction::Right if self.y == 400 && self.x >= 405 => Some(Direction::Up),
            Direction::Right if self.y == 490 && self.x >= 275 => Some(Direction::Down),
            _ => None,
        }
    }

    pub fn collitions(&self, other: &Vehicule, safe_distance: i32) -> (r: bool)
        requires
            within_reach(*self, *other),
        ensures
            r == collides(*self, *other, safe_distance as int),
    {
        let ddx = self.x - other.x;
        let dx = if ddx < 0 { -ddx } else { ddx };
        let ddy = self.y - other.y;
        let dy = if ddy < 0 { -ddy } else { ddy };

        let ahead = match self.direction {
            Direction::Down => other.y >= self.y && dy <= safe_distance && dx < CAR_WIDTH as i32,
            Direction::Up => self.y >= other.y && dy <= safe_distance && dx < CAR_WIDTH as i32,
            Direction::Left => self.x >= other.x && dx <= safe_distance && dy < CAR_HEIGHT as i32,
            Direction::Right => other.x >= self.x && dx <= safe_distance && dy < CAR_HEIGHT as i32,
        };

        if ahead {
            return true;
        }

        let self_vertical = match self.direction {
            Direction::Up | Direction::Down => true,
            Direction::Left | Direction::Right => false,
        };
        let other_vertical = match other.direction {
            Direction::Up | Direction::Down => true,
            Direction::Left | Direction::Right => false,
        };
        let perpendicular = self_vertical != other_vertical;

        if !perpendicular {
            return false;
        }

        let self_remaining = match self.direction {
            Direction::Up => self.y - other.y,
            Direction::Down => other.y - self.y,
            Direction::Left => self.x - other.x,
            Direction::Right => other.x - self.x,
        };
        let other_remaining = match other.direction {
            Direction::Up => other.y - self.y,
            Direction::Down => self.y - other.y,
            Direction::Left => other.x - self.x,
            Direction::Right => self.x - other.x,
        };

        let in_range = self_remaining >= 0 && self_remaining <= safe_distance && other_remaining >= 0
            && other_remaining <= safe_distance;
        if !in_range {
            return false;
        }

        self_remaining < other_remaining || (self_remaining == other_remaining
            && self.direction.index() > other.direction.index())
    }
}

} // verus!
