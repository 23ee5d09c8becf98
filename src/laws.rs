//! Properties of the simulation that hold for every input, proved over the
//! models that the operations' contracts use.
use vstd::prelude::*;
use crate::geometry::{
    Direction, Route, in_stop_band, near_entry, MIN_VEHICLE_DISTANCE, VEHICLE_HEIGHT, VEHICLE_SPEED,
    VEHICLE_WIDTH,
};
use crate::motion::{step_all, step_prefix, step_vehicle, stops_for_light};
use crate::scheduler::{
    TrafficLight, TrafficLightState, WaitingCounts, decided_lights, light_for, lights_wf,
};
use crate::system::{SPAWN_COOLDOWN_MS, SystemView, entry_blocked, spawn_outcome};
use crate::vehicle::Vehicle;

verus! {

/// Every vehicle after a motion pass is what the pass made of one vehicle
/// before it, so the per-vehicle facts below hold of the whole pass.
pub proof fn lemma_step_all_source(vs: Seq<Vehicle>, lights: Seq<TrafficLight>, k: int)
    requires
        0 <= k < step_all(vs, lights).len(),
    ensures
        exists|i: int|
            0 <= i < vs.len() && #[trigger] step_vehicle(vs, lights, i) == Some(
                step_all(vs, lights)[k],
            ),
{
    lemma_step_prefix_source(vs, lights, vs.len() as int, k);
}

proof fn lemma_step_prefix_source(vs: Seq<Vehicle>, lights: Seq<TrafficLight>, n: int, k: int)
    requires
        0 <= n <= vs.len(),
        0 <= k < step_prefix(vs, lights, n).len(),
    ensures
        exists|i: int|
            0 <= i < n && #[trigger] step_vehicle(vs, lights, i) == Some(
                step_prefix(vs, lights, n)[k],
            ),
    decreases n,
{
    if n > 0 {
        let pre = step_prefix(vs, lights, n - 1);
        if k < pre.len() {
            lemma_step_prefix_source(vs, lights, n - 1, k);
            assert(step_prefix(vs, lights, n)[k] == pre[k]);
        } else {
            assert(step_vehicle(vs, lights, n - 1) == Some(step_prefix(vs, lights, n)[k]));
        }
    }
}

/// A vehicle keeps the route it was given: a tick never changes it.
pub proof fn lemma_route_kept(vs: Seq<Vehicle>, lights: Seq<TrafficLight>, i: int)
    requires
        0 <= i < vs.len(),
    ensures
        step_vehicle(vs, lights, i) is Some ==> step_vehicle(vs, lights, i)->0.route
            == vs[i].route,
{
}

/// A vehicle turns at most once: once turned it stays turned and keeps its
/// heading; its heading changes only in the tick in which it turns; a
/// straight vehicle never turns; and a vehicle turns only once through.
pub proof fn lemma_single_turn(vs: Seq<Vehicle>, lights: Seq<TrafficLight>, i: int)
    requires
        0 <= i < vs.len(),
    ensures
        step_vehicle(vs, lights, i) matches Some(w) ==> {
            &&& vs[i].has_turned ==> w.has_turned && w.direction == vs[i].direction
            &&& w.direction != vs[i].direction ==> !vs[i].has_turned && w.has_turned
            &&& vs[i].route == Route::Straight ==> w.direction == vs[i].direction
                && w.has_turned == vs[i].has_turned
            &&& vs[i].flags_consistent() ==> w.flags_consistent()
        },
{
}

/// A vehicle that is not yet through, stands in its stop band and faces a red
/// light does not move in the tick: it stays as it is, unless it lies beyond
/// the margin and leaves.
pub proof fn lemma_no_motion_on_red(vs: Seq<Vehicle>, lights: Seq<TrafficLight>, i: int)
    requires
        lights_wf(lights),
        0 <= i < vs.len(),
        !vs[i].has_passed_intersection,
        in_stop_band(vs[i].direction, vs[i].position),
        light_for(lights, vs[i].direction).state == TrafficLightState::Red,
    ensures
        step_vehicle(vs, lights, i) matches Some(w) ==> w == vs[i],
{
    assert(stops_for_light(vs[i], lights));
}

/// Vehicles stay on the lane of their heading, through moves and turns.
pub proof fn lemma_lane_kept(vs: Seq<Vehicle>, lights: Seq<TrafficLight>, i: int)
    requires
        0 <= i < vs.len(),
        vs[i].in_own_lane(),
    ensures
        step_vehicle(vs, lights, i) matches Some(w) ==> w.in_own_lane(),
{
}

/// Every vehicle sits on the lane of its heading and has consistent flags.
pub open spec fn vehicles_wf(vs: Seq<Vehicle>) -> bool {
    forall|k: int| 0 <= k < vs.len() ==> (#[trigger] vs[k]).in_own_lane() && vs[k].flags_consistent()
}

/// A motion pass keeps every vehicle on its lane with consistent flags.
pub proof fn lemma_step_all_wf(vs: Seq<Vehicle>, lights: Seq<TrafficLight>)
    requires
        vehicles_wf(vs),
    ensures
        vehicles_wf(step_all(vs, lights)),
{
    let out = step_all(vs, lights);
    assert forall|k: int| 0 <= k < out.len() implies (#[trigger] out[k]).in_own_lane()
        && out[k].flags_consistent() by {
        lemma_step_all_source(vs, lights, k);
        let i = choose|i: int|
            0 <= i < vs.len() && #[trigger] step_vehicle(vs, lights, i) == Some(out[k]);
        assert(vs[i].in_own_lane() && vs[i].flags_consistent());
        lemma_lane_kept(vs, lights, i);
        lemma_single_turn(vs, lights, i);
    }
}

/// What one tick can make of a vehicle that stays: the vehicle itself, or the
/// vehicle moved.
pub open spec fn tick_result(a: Vehicle, b: Vehicle) -> bool {
    b == a || b == a.moved()
}

/// A motion pass leaves each remaining vehicle as it was, or moves it.
pub proof fn lemma_step_is_tick_result(vs: Seq<Vehicle>, lights: Seq<TrafficLight>, i: int)
    requires
        0 <= i < vs.len(),
    ensures
        step_vehicle(vs, lights, i) matches Some(w) ==> tick_result(vs[i], w),
{
}

/// Whether the state of a vehicle at tick `k + 1` of `h` is what tick `k`
/// made of it.
pub open spec fn follows_at(h: Seq<Vehicle>, k: int) -> bool {
    tick_result(h[k], h[k + 1])
}

/// The states of one vehicle, tick by tick, from its spawn to its last tick.
pub open spec fn is_life(h: Seq<Vehicle>) -> bool {
    &&& h.len() > 0
    &&& forall|k: int| 0 <= k < h.len() - 1 ==> #[trigger] follows_at(h, k)
}

proof fn lemma_life_turned_stays(h: Seq<Vehicle>, k: int, m: int)
    requires
        is_life(h),
        0 <= k <= m < h.len(),
        h[k].has_turned,
    ensures
        h[m].has_turned,
        h[m].direction == h[k].direction,
    decreases m - k,
{
    if k < m {
        lemma_life_turned_stays(h, k, m - 1);
        assert(follows_at(h, m - 1));
    }
}

/// A vehicle's route is the same at every tick of its life as at its spawn.
pub proof fn lemma_life_route(h: Seq<Vehicle>, k: int)
    requires
        is_life(h),
        0 <= k < h.len(),
    ensures
        h[k].route == h[0].route,
    decreases k,
{
    if k > 0 {
        lemma_life_route(h, k - 1);
        assert(follows_at(h, k - 1));
    }
}

/// Over its whole life a vehicle changes heading at most once: after the tick
/// in which it turns, it keeps its heading and stays turned.
pub proof fn lemma_life_single_turn(h: Seq<Vehicle>, k1: int, k2: int)
    requires
        is_life(h),
        0 <= k1 < k2 < h.len() - 1,
        h[k1 + 1].direction != h[k1].direction,
    ensures
        h[k2 + 1].direction == h[k2].direction,
        h[k2 + 1].has_turned,
{
    assert(follows_at(h, k1));
    lemma_life_turned_stays(h, k1 + 1, k2);
    assert(follows_at(h, k2));
}

/// Bumper-to-bumper distance between two vehicles of one heading, along it.
pub open spec fn gap_along(a: Vehicle, b: Vehicle) -> int {
    match a.direction {
        Direction::North | Direction::South => {
            let d = a.position.y - b.position.y;
            (if d >= 0 {
                d
            } else {
                -d
            }) - VEHICLE_HEIGHT
        },
        Direction::East | Direction::West => {
            let d = a.position.x - b.position.x;
            (if d >= 0 {
                d
            } else {
                -d
            }) - VEHICLE_WIDTH
        },
    }
}

/// Two vehicles are at least the following distance less one tick's travel
/// apart.
pub open spec fn spaced(a: Vehicle, b: Vehicle) -> bool {
    gap_along(a, b) >= MIN_VEHICLE_DISTANCE - VEHICLE_SPEED
}

/// Two vehicles that share a heading and its lane, and are spaced before a
/// tick, are still spaced after it, unless one of them leaves or turns in
/// that tick. The leader test that holds a vehicle reads the positions of the last
/// tick, so the gap may fall below the following distance, but by no more
/// than one tick's travel.
pub proof fn lemma_same_lane_spacing(vs: Seq<Vehicle>, lights: Seq<TrafficLight>, i: int, j: int)
    requires
        0 <= i < vs.len(),
        0 <= j < vs.len(),
        i != j,
        vs[i].direction == vs[j].direction,
        vs[i].in_own_lane(),
        vs[j].in_own_lane(),
        spaced(vs[i], vs[j]),
        step_vehicle(vs, lights, i) is Some,
        step_vehicle(vs, lights, j) is Some,
        step_vehicle(vs, lights, i)->0.direction == vs[i].direction,
        step_vehicle(vs, lights, j)->0.direction == vs[j].direction,
    ensures
        spaced(step_vehicle(vs, lights, i)->0, step_vehicle(vs, lights, j)->0),
{
    let a = vs[i];
    let b = vs[j];
    assert(vs[j] == b);
    assert(vs[i] == a);
}

/// A vehicle that enters stands on its lane, spaced from every vehicle of its
/// heading on that lane.
pub proof fn lemma_spawn_spacing(s: SystemView, d: Direction, r: Route, now: u64, j: int)
    requires
        spawn_outcome(s, d, r, now).vehicles.len() > s.vehicles.len(),
        0 <= j < s.vehicles.len(),
        s.vehicles[j].direction == d,
        s.vehicles[j].in_own_lane(),
    ensures
        Vehicle::fresh(d, r).in_own_lane(),
        spaced(Vehicle::fresh(d, r), s.vehicles[j]),
        spawn_outcome(s, d, r, now).vehicles.last() == Vehicle::fresh(d, r),
{
    assert(!entry_blocked(s.vehicles, d));
    assert(!near_entry(d, s.vehicles[j].position));
}

/// When no approach has a waiting vehicle, the scheduler pass turns every
/// light red.
pub proof fn lemma_idle_blackout(lights: Seq<TrafficLight>, vs: Seq<Vehicle>, now: u64)
    requires
        lights_wf(lights),
        WaitingCounts::of(vs).total() == 0,
    ensures
        forall|i: int|
            0 <= i < 4 ==> (#[trigger] decided_lights(lights, vs, now)[i]).state
                == TrafficLightState::Red,
{
}

/// Two spawn requests less than the cooldown apart add at most one vehicle.
pub proof fn lemma_spawn_cooldown(
    s: SystemView,
    d1: Direction,
    r1: Route,
    t1: u64,
    d2: Direction,
    r2: Route,
    t2: u64,
)
    requires
        t2 < t1 + SPAWN_COOLDOWN_MS,
    ensures
        spawn_outcome(spawn_outcome(s, d1, r1, t1), d2, r2, t2).vehicles.len() <= s.vehicles.len()
            + 1,
{
}

} // verus!
