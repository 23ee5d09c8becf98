//! One motion pass: every vehicle, judged against the positions all vehicles
//! held at the start of the tick, is removed, held or moved.
use vstd::prelude::*;
use crate::geometry::{
    Direction, Point, in_intersection, in_stop_band, is_in_intersection, is_in_stop_band,
    is_out_of_bounds, out_of_bounds, MIN_VEHICLE_DISTANCE, VEHICLE_HEIGHT, VEHICLE_WIDTH,
};
use crate::scheduler::{TrafficLight, TrafficLightState, light_for, lights_wf};
use crate::vehicle::Vehicle;

verus! {

/// Whether a vehicle at `o` is ahead of `v` in `v`'s lane, closer than the
/// following distance (bumper to bumper).
pub open spec fn leader_close(v: Vehicle, o: Point) -> bool {
    let p = v.position;
    match v.direction {
        Direction::North => p.x == o.x && p.y > o.y && p.y - o.y - VEHICLE_HEIGHT
            < MIN_VEHICLE_DISTANCE,
        Direction::South => p.x == o.x && p.y < o.y && o.y - p.y - VEHICLE_HEIGHT
            < MIN_VEHICLE_DISTANCE,
        Direction::East => p.y == o.y && p.x < o.x && o.x - p.x - VEHICLE_WIDTH
            < MIN_VEHICLE_DISTANCE,
        Direction::West => p.y == o.y && p.x > o.x && p.x - o.x - VEHICLE_WIDTH
            < MIN_VEHICLE_DISTANCE,
    }
}

/// Whether some other vehicle with the same heading as `vs[i]` is close ahead.
pub open spec fn blocked_by_leader(vs: Seq<Vehicle>, i: int) -> bool {
    exists|j: int|
        0 <= j < vs.len() && j != i && (#[trigger] vs[j]).direction == vs[i].direction
            && leader_close(vs[i], vs[j].position)
}

/// Whether some other vehicle with another heading than `vs[i]` is inside the
/// intersection.
pub open spec fn cross_traffic_inside(vs: Seq<Vehicle>, i: int) -> bool {
    exists|j: int|
        0 <= j < vs.len() && j != i && (#[trigger] vs[j]).direction != vs[i].direction
            && in_intersection(vs[j].position)
}

/// Whether `v` halts for its light: not yet through, in its stop band, and the
/// light is not green.
pub open spec fn stops_for_light(v: Vehicle, lights: Seq<TrafficLight>) -> bool {
    &&& !v.has_passed_intersection
    &&& light_for(lights, v.direction).state != TrafficLightState::Green
    &&& in_stop_band(v.direction, v.position)
}

/// Whether `vs[i]` waits at its stop line on green because cross traffic
/// occupies the intersection.
pub open spec fn waits_for_clear(vs: Seq<Vehicle>, i: int, lights: Seq<TrafficLight>) -> bool {
    &&& in_stop_band(vs[i].direction, vs[i].position)
    &&& light_for(lights, vs[i].direction).state == TrafficLightState::Green
    &&& cross_traffic_inside(vs, i)
}

/// Whether `vs[i]` may move this tick.
pub open spec fn may_move(vs: Seq<Vehicle>, i: int, lights: Seq<TrafficLight>) -> bool {
    &&& !stops_for_light(vs[i], lights)
    &&& !blocked_by_leader(vs, i)
    &&& !waits_for_clear(vs, i, lights)
}

/// What becomes of `vs[i]` in this tick: removed (`None`) once beyond the
/// margin, moved if nothing holds it, else left as it is.
pub open spec fn step_vehicle(vs: Seq<Vehicle>, lights: Seq<TrafficLight>, i: int) -> Option<
    Vehicle,
> {
    if out_of_bounds(vs[i].position) {
        None
    } else if may_move(vs, i, lights) {
        Some(vs[i].moved())
    } else {
        Some(vs[i])
    }
}

/// The vehicles after the pass over the first `n` of `vs`, in their order.
pub open spec fn step_prefix(vs: Seq<Vehicle>, lights: Seq<TrafficLight>, n: int) -> Seq<Vehicle>
    decreases n,
{
    if n <= 0 {
        Seq::empty()
    } else {
        step_prefix(vs, lights, n - 1) + match step_vehicle(vs, lights, n - 1) {
            Some(w) => seq![w],
            None => Seq::empty(),
        }
    }
}

/// The vehicles after a whole motion pass.
pub open spec fn step_all(vs: Seq<Vehicle>, lights: Seq<TrafficLight>) -> Seq<Vehicle> {
    step_prefix(vs, lights, vs.len() as int)
}

fn is_leader_close(v: &Vehicle, o: Point) -> (b: bool)
    ensures
        b == leader_close(*v, o),
{
    let px = v.position.x as i64;
    let py = v.position.y as i64;
    let ox = o.x as i64;
    let oy = o.y as i64;
    let h = VEHICLE_HEIGHT as i64;
    let w = VEHICLE_WIDTH as i64;
    let gap = MIN_VEHICLE_DISTANCE as i64;
    match v.direction {
        Direction::North => px == ox && py > oy && py - oy - h < gap,
        Direction::South => px == ox && py < oy && oy - py - h < gap,
        Direction::East => py == oy && px < ox && ox - px - w < gap,
        Direction::West => py == oy && px > ox && px - ox - w < gap,
    }
}

fn has_close_leader(vs: &Vec<Vehicle>, i: usize) -> (b: bool)
    requires
        i < vs.len(),
    ensures
        b == blocked_by_leader(vs@, i as int),
{
    let n = vs.len();
    let v = vs[i];
    for j in 0..n
        invariant
            n == vs@.len(),
            i < n,
            v == vs@[i as int],
            forall|k: int|
                0 <= k < j ==> !(k != i && (#[trigger] vs@[k]).direction == v.direction
                    && leader_close(v, vs@[k].position)),
    {
        let o = vs[j];
        if j != i && o.direction == v.direction && is_leader_close(&v, o.position) {
            assert(vs@[j as int] == o);
            return true;
        }
    }
    false
}

fn has_cross_traffic_inside(vs: &Vec<Vehicle>, i: usize) -> (b: bool)
    requires
        i < vs.len(),
    ensures
        b == cross_traffic_inside(vs@, i as int),
{
    let n = vs.len();
    let v = vs[i];
    for j in 0..n
        invariant
            n == vs@.len(),
            i < n,
            v == vs@[i as int],
            forall|k: int|
                0 <= k < j ==> !(k != i && (#[trigger] vs@[k]).direction != v.direction
                    && in_intersection(vs@[k].position)),
    {
        let o = vs[j];
        if j != i && o.direction != v.direction && is_in_intersection(o.position) {
            assert(vs@[j as int] == o);
            return true;
        }
    }
    false
}

/// Decides what becomes of `vehicles[i]` in this tick; see `step_vehicle`.
pub fn step_one(vehicles: &Vec<Vehicle>, lights: &Vec<TrafficLight>, i: usize) -> (r: Option<
    Vehicle,
>)
    requires
        lights_wf(lights@),
        i < vehicles.len(),
    ensures
        r == step_vehicle(vehicles@, lights@, i as int),
{
    let v = vehicles[i];
    if is_out_of_bounds(v.position) {
        return None;
    }
    let blocked = has_close_leader(vehicles, i);
    let light = lights[v.direction.to_index()].state;
    let at_line = is_in_stop_band(v.direction, v.position);
    let stop_at_light = !v.has_passed_intersection && light != TrafficLightState::Green && at_line;
    let wait_for_clear = at_line && light == TrafficLightState::Green && has_cross_traffic_inside(
        vehicles,
        i,
    );
    if !stop_at_light && !blocked && !wait_for_clear {
        Some(v.move_one_tick())
    } else {
        Some(v)
    }
}

/// Runs one motion pass over `vehicles` under `lights`: each vehicle is judged
/// against the positions at the start of the pass, and those beyond the margin
/// are left out of the result, which keeps the order of the rest.
pub fn step_vehicles(vehicles: &Vec<Vehicle>, lights: &Vec<TrafficLight>) -> (out: Vec<Vehicle>)
    requires
        lights_wf(lights@),
    ensures
        out@ == step_all(vehicles@, lights@),
{
    let mut out: Vec<Vehicle> = Vec::new();
    let n = vehicles.len();
    for i in 0..n
        invariant
            n == vehicles@.len(),
            lights_wf(lights@),
            out@ == step_prefix(vehicles@, lights@, i as int),
    {
        let r = step_one(vehicles, lights, i);
        match r {
            Some(w) => {
                out.push(w);
                assert(out@ =~= step_prefix(vehicles@, lights@, i + 1));
            },
            None => {
                assert(out@ =~= step_prefix(vehicles@, lights@, i + 1));
            },
        }
    }
    out
}

} // verus!
