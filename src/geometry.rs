//! The fixed layout of the intersection: canvas, road, lanes, stop lines and
//! spawn points, all derived from a handful of dimensions.
use vstd::prelude::*;

verus! {

/// Width of the simulated canvas.
pub const WINDOW_WIDTH: i32 = 900;

/// Height of the simulated canvas.
pub const WINDOW_HEIGHT: i32 = 800;

/// Width of each of the two crossing roads.
pub const ROAD_WIDTH: i32 = 70;

/// Extent of a vehicle across its lane.
pub const VEHICLE_WIDTH: i32 = 25;

/// Extent of a vehicle along its lane.
pub const VEHICLE_HEIGHT: i32 = 35;

/// Distance a moving vehicle covers in one tick.
pub const VEHICLE_SPEED: i32 = 2;

/// Smallest gap kept to the vehicle ahead in the same lane.
pub const MIN_VEHICLE_DISTANCE: i32 = 50;

/// How far a light is drawn from the corner of the intersection.
pub const TRAFFIC_LIGHT_POS_OFFSET: i32 = 20;

/// How far before the centre a tight (right-hand) movement counts as through.
pub const TURN_OFFSET: i32 = 30;

/// Width of the band at a stop line in which a vehicle halts for a red light.
pub const STOP_LINE_TOLERANCE: i32 = 5;

/// How far outside the canvas a vehicle may travel before it is removed.
pub const DESPAWN_MARGIN: i32 = 100;

/// Horizontal centre of the intersection (half the canvas width).
pub const CENTER_X: i32 = 450;

/// Vertical centre of the intersection (half the canvas height).
pub const CENTER_Y: i32 = 400;

/// Half the road width.
pub const HALF_ROAD: i32 = 35;

/// A quarter of the road width, rounded down: the offset of a lane's centre.
pub const QUARTER_ROAD: i32 = 17;

/// Half a vehicle's width, rounded down.
pub const HALF_VEHICLE_WIDTH: i32 = 12;

/// Half a vehicle's height, rounded down.
pub const HALF_VEHICLE_HEIGHT: i32 = 17;

/// Left edge of the intersection box.
pub const INTERSECTION_LEFT: i32 = CENTER_X - HALF_ROAD;

/// Right edge of the intersection box.
pub const INTERSECTION_RIGHT: i32 = CENTER_X + HALF_ROAD;

/// Top edge of the intersection box.
pub const INTERSECTION_TOP: i32 = CENTER_Y - HALF_ROAD;

/// Bottom edge of the intersection box.
pub const INTERSECTION_BOTTOM: i32 = CENTER_Y + HALF_ROAD;

/// x of the northbound lane (left half of the vertical road).
pub const NORTH_LANE_X: i32 = CENTER_X - QUARTER_ROAD - HALF_VEHICLE_WIDTH;

/// x of the southbound lane (right half of the vertical road).
pub const SOUTH_LANE_X: i32 = CENTER_X + QUARTER_ROAD - HALF_VEHICLE_WIDTH;

/// y of the eastbound lane (upper half of the horizontal road).
pub const EAST_LANE_Y: i32 = CENTER_Y - QUARTER_ROAD - HALF_VEHICLE_HEIGHT;

/// y of the westbound lane (lower half of the horizontal road).
pub const WEST_LANE_Y: i32 = CENTER_Y + QUARTER_ROAD - HALF_VEHICLE_HEIGHT;

/// A point on the canvas; for a vehicle, the top-left corner of its box.
#[derive(Clone, Copy, Debug, PartialEq, Eq, Structural)]
pub struct Point {
    pub x: i32,
    pub y: i32,
}

impl Point {
    pub fn new(x: i32, y: i32) -> (p: Point)
        ensures
            p.x == x,
            p.y == y,
    {
        Point { x, y }
    }
}

/// One of the four approaches, and the heading of a vehicle travelling on it.
#[derive(Clone, Copy, Debug, PartialEq, Eq, Hash, Structural)]
pub enum Direction {
    North,
    South,
    East,
    West,
}

impl Direction {
    /// Place of the approach in the fixed order North, South, East, West.
    pub open spec fn index(self) -> int {
        match self {
            Direction::North => 0,
            Direction::South => 1,
            Direction::East => 2,
            Direction::West => 3,
        }
    }

    /// The approach at place `i` of the fixed order.
    pub open spec fn at(i: int) -> Direction {
        if i == 0 {
            Direction::North
        } else if i == 1 {
            Direction::South
        } else if i == 2 {
            Direction::East
        } else {
            Direction::West
        }
    }

    pub fn to_index(self) -> (i: usize)
        ensures
            i == self.index(),
            i < 4,
            Direction::at(i as int) == self,
    {
        match self {
            Direction::North => 0,
            Direction::South => 1,
            Direction::East => 2,
            Direction::West => 3,
        }
    }

    pub fn from_index(i: usize) -> (d: Direction)
        requires
            i < 4,
        ensures
            d == Direction::at(i as int),
            d.index() == i,
    {
        if i == 0 {
            Direction::North
        } else if i == 1 {
            Direction::South
        } else if i == 2 {
            Direction::East
        } else {
            Direction::West
        }
    }
}

/// The movement a vehicle makes through the intersection.
#[derive(Clone, Copy, Debug, PartialEq, Eq, Hash, Structural)]
pub enum Route {
    Straight,
    Left,
    Right,
}

impl Route {
    /// The route at place `i` of the order Straight, Left, Right.
    pub open spec fn at(i: int) -> Route {
        if i == 0 {
            Route::Straight
        } else if i == 1 {
            Route::Left
        } else {
            Route::Right
        }
    }

    pub fn from_index(i: usize) -> (r: Route)
        requires
            i < 3,
        ensures
            r == Route::at(i as int),
    {
        if i == 0 {
            Route::Straight
        } else if i == 1 {
            Route::Left
        } else {
            Route::Right
        }
    }
}

/// Whether a vehicle on approach `d` at `p` has not yet crossed the approach's
/// stop line, so that it counts toward the approach's queue.
pub open spec fn in_queue_zone(d: Direction, p: Point) -> bool {
    match d {
        Direction::North => p.y >= INTERSECTION_BOTTOM - STOP_LINE_TOLERANCE,
        Direction::South => p.y <= INTERSECTION_TOP,
        Direction::East => p.x <= INTERSECTION_LEFT - STOP_LINE_TOLERANCE,
        Direction::West => p.x >= INTERSECTION_RIGHT - STOP_LINE_TOLERANCE,
    }
}

pub fn is_in_queue_zone(d: Direction, p: Point) -> (r: bool)
    ensures
        r == in_queue_zone(d, p),
{
    match d {
        Direction::North => p.y >= INTERSECTION_BOTTOM - STOP_LINE_TOLERANCE,
        Direction::South => p.y <= INTERSECTION_TOP,
        Direction::East => p.x <= INTERSECTION_LEFT - STOP_LINE_TOLERANCE,
        Direction::West => p.x >= INTERSECTION_RIGHT - STOP_LINE_TOLERANCE,
    }
}

/// Whether a vehicle heading `d` at `p` stands in the narrow band at its stop
/// line where it halts for a red light.
pub open spec fn in_stop_band(d: Direction, p: Point) -> bool {
    let tol = STOP_LINE_TOLERANCE;
    match d {
        Direction::North => {
            let line = INTERSECTION_BOTTOM - tol;
            line <= p.y <= line + tol
        },
        Direction::South => {
            let line = INTERSECTION_TOP - VEHICLE_HEIGHT;
            line <= p.y <= line + tol
        },
        Direction::East => {
            let line = INTERSECTION_LEFT - tol - VEHICLE_WIDTH;
            line <= p.x <= line + tol
        },
        Direction::West => {
            let line = INTERSECTION_RIGHT - tol;
            line <= p.x <= line + tol
        },
    }
}

pub fn is_in_stop_band(d: Direction, p: Point) -> (r: bool)
    ensures
        r == in_stop_band(d, p),
{
    let tol = STOP_LINE_TOLERANCE;
    match d {
        Direction::North => {
            let line = INTERSECTION_BOTTOM - tol;
            line <= p.y && p.y <= line + tol
        },
        Direction::South => {
            let line = INTERSECTION_TOP - VEHICLE_HEIGHT;
            line <= p.y && p.y <= line + tol
        },
        Direction::East => {
            let line = INTERSECTION_LEFT - tol - VEHICLE_WIDTH;
            line <= p.x && p.x <= line + tol
        },
        Direction::West => {
            let line = INTERSECTION_RIGHT - tol;
            line <= p.x && p.x <= line + tol
        },
    }
}

/// Whether `p` lies beyond the margin around the canvas, on any side.
pub open spec fn out_of_bounds(p: Point) -> bool {
    ||| p.x < -DESPAWN_MARGIN
    ||| p.x > WINDOW_WIDTH + DESPAWN_MARGIN
    ||| p.y < -DESPAWN_MARGIN
    ||| p.y > WINDOW_HEIGHT + DESPAWN_MARGIN
}

pub fn is_out_of_bounds(p: Point) -> (r: bool)
    ensures
        r == out_of_bounds(p),
{
    p.x < -DESPAWN_MARGIN || p.x > WINDOW_WIDTH + DESPAWN_MARGIN || p.y < -DESPAWN_MARGIN || p.y
        > WINDOW_HEIGHT + DESPAWN_MARGIN
}

/// Whether the centre of a vehicle box at `p` lies strictly inside the
/// intersection box.
pub open spec fn in_intersection(p: Point) -> bool {
    let cx = p.x + HALF_VEHICLE_WIDTH;
    let cy = p.y + HALF_VEHICLE_HEIGHT;
    &&& INTERSECTION_LEFT < cx < INTERSECTION_RIGHT
    &&& INTERSECTION_TOP < cy < INTERSECTION_BOTTOM
}

pub fn is_in_intersection(p: Point) -> (r: bool)
    ensures
        r == in_intersection(p),
{
    let cx = p.x as i64 + HALF_VEHICLE_WIDTH as i64;
    let cy = p.y as i64 + HALF_VEHICLE_HEIGHT as i64;
    INTERSECTION_LEFT as i64 <= cx - 1 && cx < INTERSECTION_RIGHT as i64 && INTERSECTION_TOP as i64
        <= cy - 1 && cy < INTERSECTION_BOTTOM as i64
}

/// The off-canvas point where vehicles of approach `d` enter.
pub open spec fn spawn_point(d: Direction) -> Point {
    match d {
        Direction::North => Point { x: NORTH_LANE_X, y: WINDOW_HEIGHT },
        Direction::South => Point { x: SOUTH_LANE_X, y: -VEHICLE_HEIGHT as i32 },
        Direction::East => Point { x: -VEHICLE_WIDTH as i32, y: EAST_LANE_Y },
        Direction::West => Point { x: WINDOW_WIDTH, y: WEST_LANE_Y },
    }
}

pub fn entry_point(d: Direction) -> (p: Point)
    ensures
        p == spawn_point(d),
{
    match d {
        Direction::North => Point { x: NORTH_LANE_X, y: WINDOW_HEIGHT },
        Direction::South => Point { x: SOUTH_LANE_X, y: 0 - VEHICLE_HEIGHT },
        Direction::East => Point { x: 0 - VEHICLE_WIDTH, y: EAST_LANE_Y },
        Direction::West => Point { x: WINDOW_WIDTH, y: WEST_LANE_Y },
    }
}

/// Whether a vehicle of approach `d` at `p` is still so close to the entry
/// point that a new vehicle would not keep the following distance from it.
pub open spec fn near_entry(d: Direction, p: Point) -> bool {
    match d {
        Direction::North => p.y > WINDOW_HEIGHT - VEHICLE_HEIGHT - MIN_VEHICLE_DISTANCE,
        Direction::South => p.y < MIN_VEHICLE_DISTANCE,
        Direction::East => p.x < MIN_VEHICLE_DISTANCE,
        Direction::West => p.x > WINDOW_WIDTH - VEHICLE_WIDTH - MIN_VEHICLE_DISTANCE,
    }
}

pub fn is_near_entry(d: Direction, p: Point) -> (r: bool)
    ensures
        r == near_entry(d, p),
{
    match d {
        Direction::North => p.y > WINDOW_HEIGHT - VEHICLE_HEIGHT - MIN_VEHICLE_DISTANCE,
        Direction::South => p.y < MIN_VEHICLE_DISTANCE,
        Direction::East => p.x < MIN_VEHICLE_DISTANCE,
        Direction::West => p.x > WINDOW_WIDTH - VEHICLE_WIDTH - MIN_VEHICLE_DISTANCE,
    }
}

/// Whether a vehicle heading `d` at `p` sits on the lane of that heading.
pub open spec fn in_lane(d: Direction, p: Point) -> bool {
    match d {
        Direction::North => p.x == NORTH_LANE_X,
        Direction::South => p.x == SOUTH_LANE_X,
        Direction::East => p.y == EAST_LANE_Y,
        Direction::West => p.y == WEST_LANE_Y,
    }
}

/// Where a light governing approach `d` is drawn.
pub open spec fn light_position(d: Direction) -> Point {
    let near = (INTERSECTION_LEFT - TRAFFIC_LIGHT_POS_OFFSET) as i32;
    let far = (INTERSECTION_TOP - TRAFFIC_LIGHT_POS_OFFSET) as i32;
    match d {
        Direction::North => Point { x: near, y: INTERSECTION_BOTTOM },
        Direction::South => Point { x: INTERSECTION_RIGHT, y: far },
        Direction::East => Point { x: near, y: far },
        Direction::West => Point { x: INTERSECTION_RIGHT, y: INTERSECTION_BOTTOM },
    }
}

pub fn light_anchor(d: Direction) -> (p: Point)
    ensures
        p == light_position(d),
{
    let near = INTERSECTION_LEFT - TRAFFIC_LIGHT_POS_OFFSET;
    let far = INTERSECTION_TOP - TRAFFIC_LIGHT_POS_OFFSET;
    match d {
        Direction::North => Point { x: near, y: INTERSECTION_BOTTOM },
        Direction::South => Point { x: INTERSECTION_RIGHT, y: far },
        Direction::East => Point { x: near, y: far },
        Direction::West => Point { x: INTERSECTION_RIGHT, y: INTERSECTION_BOTTOM },
    }
}

/// The halved and quartered dimensions agree with the configured ones, and the
/// derived layout takes these values.
pub proof fn lemma_layout_values()
    ensures
        CENTER_X == WINDOW_WIDTH / 2 && CENTER_Y == WINDOW_HEIGHT / 2,
        HALF_ROAD == ROAD_WIDTH / 2 && QUARTER_ROAD == ROAD_WIDTH / 4,
        HALF_VEHICLE_WIDTH == VEHICLE_WIDTH / 2 && HALF_VEHICLE_HEIGHT == VEHICLE_HEIGHT / 2,
        CENTER_X == 450 && CENTER_Y == 400,
        INTERSECTION_LEFT == 415 && INTERSECTION_RIGHT == 485,
        INTERSECTION_TOP == 365 && INTERSECTION_BOTTOM == 435,
        NORTH_LANE_X == 421 && SOUTH_LANE_X == 455,
        EAST_LANE_Y == 366 && WEST_LANE_Y == 400,
{
}

} // verus!
