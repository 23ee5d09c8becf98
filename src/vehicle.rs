//! Vehicles and what happens to one when it is allowed to move for a tick:
//! crossing the intersection, the single turn its route calls for, and the
//! advance along its heading.
use vstd::prelude::*;
use crate::geometry::{
    Direction, Point, Route, out_of_bounds, spawn_point, in_lane, CENTER_X, CENTER_Y, TURN_OFFSET,
    INTERSECTION_LEFT, STOP_LINE_TOLERANCE, VEHICLE_WIDTH, VEHICLE_SPEED, NORTH_LANE_X,
    SOUTH_LANE_X, EAST_LANE_Y, WEST_LANE_Y,
};

verus! {

/// A vehicle: where it is, where it heads now, the route it was given at
/// spawn, and how far through the intersection it has come.
#[derive(Clone, Copy, Debug, PartialEq, Eq, Structural)]
pub struct Vehicle {
    pub position: Point,
    pub direction: Direction,
    pub route: Route,
    pub has_turned: bool,
    pub has_passed_intersection: bool,
}

/// Whether a vehicle heading `d` along `r` has come far enough at `p` to
/// count as through the intersection. A tight (right-hand) movement clears at
/// another line than a straight or left one on some approaches.
pub open spec fn clears_intersection(d: Direction, r: Route, p: Point) -> bool {
    match d {
        Direction::North => if r == Route::Right {
            p.y <= CENTER_Y - TURN_OFFSET
        } else {
            p.y <= CENTER_Y
        },
        Direction::South => p.y >= CENTER_Y - TURN_OFFSET,
        Direction::East => if r == Route::Right {
            p.x >= CENTER_X
        } else {
            p.x >= CENTER_X - TURN_OFFSET
        },
        Direction::West => if r == Route::Left {
            p.x <= CENTER_X
        } else {
            p.x <= CENTER_X - TURN_OFFSET
        },
    }
}

fn test_clears_intersection(d: Direction, r: Route, p: Point) -> (b: bool)
    ensures
        b == clears_intersection(d, r, p),
{
    match d {
        Direction::North => if r == Route::Right {
            p.y <= CENTER_Y - TURN_OFFSET
        } else {
            p.y <= CENTER_Y
        },
        Direction::South => p.y >= CENTER_Y - TURN_OFFSET,
        Direction::East => if r == Route::Right {
            p.x >= CENTER_X
        } else {
            p.x >= CENTER_X - TURN_OFFSET
        },
        Direction::West => if r == Route::Left {
            p.x <= CENTER_X
        } else {
            p.x <= CENTER_X - TURN_OFFSET
        },
    }
}

/// Line a vehicle's leading side must reach before an eastbound or a
/// southbound vehicle turns.
pub open spec fn early_turn_line() -> int {
    INTERSECTION_LEFT - 2 * STOP_LINE_TOLERANCE
}

/// Whether a vehicle heading `d` along `r` has reached, at `p`, the point of
/// its turn. Never for a straight route.
pub open spec fn turn_reached(d: Direction, r: Route, p: Point) -> bool {
    if r == Route::Straight {
        false
    } else {
        match d {
            Direction::North => p.y <= CENTER_Y,
            Direction::South => if r == Route::Left {
                p.y + VEHICLE_WIDTH >= early_turn_line()
            } else {
                p.y >= CENTER_Y
            },
            Direction::East => p.x + VEHICLE_WIDTH >= early_turn_line(),
            Direction::West => p.x <= CENTER_X,
        }
    }
}

fn test_turn_reached(d: Direction, r: Route, p: Point) -> (b: bool)
    ensures
        b == turn_reached(d, r, p),
{
    let line = INTERSECTION_LEFT - 2 * STOP_LINE_TOLERANCE - VEHICLE_WIDTH;
    if r == Route::Straight {
        false
    } else {
        match d {
            Direction::North => p.y <= CENTER_Y,
            Direction::South => if r == Route::Left {
                p.y >= line
            } else {
                p.y >= CENTER_Y
            },
            Direction::East => p.x >= line,
            Direction::West => p.x <= CENTER_X,
        }
    }
}

/// Heading after the turn that route `r` makes from heading `d`.
pub open spec fn heading_after(d: Direction, r: Route) -> Direction {
    match (d, r) {
        (_, Route::Straight) => d,
        (Direction::North, Route::Left) => Direction::West,
        (Direction::North, Route::Right) => Direction::East,
        (Direction::South, Route::Left) => Direction::East,
        (Direction::South, Route::Right) => Direction::West,
        (Direction::East, Route::Left) => Direction::North,
        (Direction::East, Route::Right) => Direction::South,
        (Direction::West, Route::Left) => Direction::South,
        (Direction::West, Route::Right) => Direction::North,
    }
}

/// Where a vehicle is put when it turns from heading `d` along `r`: the lane
/// of its new heading, at the crossing with the lane it leaves.
pub open spec fn turn_point(d: Direction, r: Route) -> Point {
    match (d, r) {
        (Direction::North, Route::Left) => Point { x: NORTH_LANE_X, y: WEST_LANE_Y },
        (Direction::North, Route::Right) => Point { x: NORTH_LANE_X, y: EAST_LANE_Y },
        (Direction::South, Route::Left) => Point { x: SOUTH_LANE_X, y: EAST_LANE_Y },
        (Direction::South, Route::Right) => Point { x: SOUTH_LANE_X, y: WEST_LANE_Y },
        (Direction::East, Route::Left) => Point { x: NORTH_LANE_X, y: EAST_LANE_Y },
        (Direction::East, Route::Right) => Point { x: SOUTH_LANE_X, y: EAST_LANE_Y },
        (Direction::West, Route::Left) => Point { x: SOUTH_LANE_X, y: WEST_LANE_Y },
        (Direction::West, Route::Right) => Point { x: NORTH_LANE_X, y: WEST_LANE_Y },
        (_, Route::Straight) => Point { x: 0, y: 0 },
    }
}

/// The turn table: the new heading and position for a turning route.
pub fn turn_target(d: Direction, r: Route) -> (t: (Direction, Point))
    requires
        r != Route::Straight,
    ensures
        t.0 == heading_after(d, r),
        t.1 == turn_point(d, r),
{
    match (d, r) {
        (Direction::North, Route::Left) => (Direction::West, Point::new(NORTH_LANE_X, WEST_LANE_Y)),
        (Direction::North, Route::Right) => (Direction::East, Point::new(NORTH_LANE_X, EAST_LANE_Y)),
        (Direction::South, Route::Left) => (Direction::East, Point::new(SOUTH_LANE_X, EAST_LANE_Y)),
        (Direction::South, Route::Right) => (Direction::West, Point::new(SOUTH_LANE_X, WEST_LANE_Y)),
        (Direction::East, Route::Left) => (Direction::North, Point::new(NORTH_LANE_X, EAST_LANE_Y)),
        (Direction::East, Route::Right) => (Direction::South, Point::new(SOUTH_LANE_X, EAST_LANE_Y)),
        (Direction::West, Route::Left) => (Direction::South, Point::new(SOUTH_LANE_X, WEST_LANE_Y)),
        (Direction::West, Route::Right) => (Direction::North, Point::new(NORTH_LANE_X, WEST_LANE_Y)),
        (_, Route::Straight) => (d, Point::new(0, 0)),
    }
}

/// `p` moved one tick's distance along heading `d`.
pub open spec fn advance(d: Direction, p: Point) -> Point {
    match d {
        Direction::North => Point { x: p.x, y: (p.y - VEHICLE_SPEED) as i32 },
        Direction::South => Point { x: p.x, y: (p.y + VEHICLE_SPEED) as i32 },
        Direction::East => Point { x: (p.x + VEHICLE_SPEED) as i32, y: p.y },
        Direction::West => Point { x: (p.x - VEHICLE_SPEED) as i32, y: p.y },
    }
}

impl Vehicle {
    /// A vehicle as it enters on approach `d` with route `r`.
    pub open spec fn fresh(d: Direction, r: Route) -> Vehicle {
        Vehicle {
            position: spawn_point(d),
            direction: d,
            route: r,
            has_turned: false,
            has_passed_intersection: false,
        }
    }

    /// The vehicle with its passed flag set if it has just cleared the
    /// intersection.
    pub open spec fn marked_passed(self) -> Vehicle {
        if !self.has_passed_intersection && clears_intersection(
            self.direction,
            self.route,
            self.position,
        ) {
            Vehicle { has_passed_intersection: true, ..self }
        } else {
            self
        }
    }

    /// Whether the vehicle makes its turn now: it is through, has not turned
    /// yet, and has reached its route's turning point.
    pub open spec fn turns_now(self) -> bool {
        self.has_passed_intersection && !self.has_turned && turn_reached(
            self.direction,
            self.route,
            self.position,
        )
    }

    /// The vehicle after the turn, if it makes it now.
    pub open spec fn turned(self) -> Vehicle {
        if self.turns_now() {
            Vehicle {
                position: turn_point(self.direction, self.route),
                direction: heading_after(self.direction, self.route),
                has_turned: true,
                ..self
            }
        } else {
            self
        }
    }

    /// The vehicle after one tick in which it is allowed to move.
    pub open spec fn moved(self) -> Vehicle {
        let v = self.marked_passed().turned();
        Vehicle { position: advance(v.direction, v.position), ..v }
    }

    /// The vehicle sits on the lane of its heading.
    pub open spec fn in_own_lane(self) -> bool {
        in_lane(self.direction, self.position)
    }

    /// The progress flags agree: a vehicle turns only once through, and a
    /// straight one never.
    pub open spec fn flags_consistent(self) -> bool {
        &&& self.has_turned ==> self.has_passed_intersection
        &&& self.route == Route::Straight ==> !self.has_turned
    }

    /// Builds a vehicle as it enters on approach `direction` with `route`.
    pub fn spawned(direction: Direction, route: Route) -> (v: Vehicle)
        ensures
            v == Vehicle::fresh(direction, route),
    {
        Vehicle {
            position: crate::geometry::entry_point(direction),
            direction,
            route,
            has_turned: false,
            has_passed_intersection: false,
        }
    }

    /// Moves the vehicle for one tick: marks it through the intersection at its
    /// route's line, makes its turn once it is due, and advances it.
    pub fn move_one_tick(&self) -> (w: Vehicle)
        requires
            !out_of_bounds(self.position),
        ensures
            w == self.moved(),
    {
        let mut v = *self;
        if !v.has_passed_intersection && test_clears_intersection(
            v.direction,
            v.route,
            v.position,
        ) {
            v.has_passed_intersection = true;
        }
        if v.has_passed_intersection && !v.has_turned && test_turn_reached(
            v.direction,
            v.route,
            v.position,
        ) {
            let (heading, at) = turn_target(v.direction, v.route);
            v.direction = heading;
            v.position = at;
            v.has_turned = true;
        }
        match v.direction {
            Direction::North => v.position.y = v.position.y - VEHICLE_SPEED,
            Direction::South => v.position.y = v.position.y + VEHICLE_SPEED,
            Direction::East => v.position.x = v.position.x + VEHICLE_SPEED,
            Direction::West => v.position.x = v.position.x - VEHICLE_SPEED,
        }
        v
    }
}

} // verus!
