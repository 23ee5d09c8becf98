//! The simulation state: the vehicles, the four lights and the spawn clock,
//! with the commands of the input source and the tick of the driver.
use vstd::prelude::*;
use crate::geometry::{Direction, Route, is_near_entry, light_position, near_entry};
use crate::motion::{step_all, step_vehicles};
use crate::random::random_below;
use crate::scheduler::{
    TrafficLight, current_green, decide_lights, decided_lights, elapsed_between, elapsed_ms,
    initial_lights, lights_wf,
};
use crate::laws::{lemma_step_all_wf, vehicles_wf};
use crate::vehicle::Vehicle;

verus! {

/// Least time between two spawns, on any approaches, in ms.
pub const SPAWN_COOLDOWN_MS: u64 = 1000;

/// The state of a simulation as a mathematical value.
pub struct SystemView {
    pub vehicles: Seq<Vehicle>,
    pub lights: Seq<TrafficLight>,
    pub last_spawn_time: u64,
    pub paused: bool,
}

impl SystemView {
    /// The lights are well formed, and every vehicle is on the lane of its
    /// heading with consistent flags.
    pub open spec fn wf(self) -> bool {
        &&& lights_wf(self.lights)
        &&& vehicles_wf(self.vehicles)
    }
}

/// Whether the cooldown since the last spawn at `last` is over at `now`.
pub open spec fn spawn_ready(last: u64, now: u64) -> bool {
    elapsed_ms(now, last) >= SPAWN_COOLDOWN_MS
}

/// Whether a vehicle of approach `d` is still too close to the entry point for
/// another to enter.
pub open spec fn entry_blocked(vs: Seq<Vehicle>, d: Direction) -> bool {
    exists|j: int|
        0 <= j < vs.len() && (#[trigger] vs[j]).direction == d && near_entry(d, vs[j].position)
}

/// The state after a request to spawn a vehicle with route `r` on approach `d`
/// at `now`: the vehicle enters, and the spawn clock is set, unless the
/// cooldown is not over or the entry is blocked; then nothing changes.
pub open spec fn spawn_outcome(s: SystemView, d: Direction, r: Route, now: u64) -> SystemView {
    if spawn_ready(s.last_spawn_time, now) && !entry_blocked(s.vehicles, d) {
        SystemView {
            vehicles: s.vehicles.push(Vehicle::fresh(d, r)),
            last_spawn_time: now,
            ..s
        }
    } else {
        s
    }
}

/// The state after one tick at `now`: unless paused, a scheduler pass, then a
/// motion pass under the new lights.
pub open spec fn tick_outcome(s: SystemView, now: u64) -> SystemView {
    if s.paused {
        s
    } else {
        let lights = decided_lights(s.lights, s.vehicles, now);
        SystemView { lights, vehicles: step_all(s.vehicles, lights), ..s }
    }
}

/// The simulation: it owns the vehicles (in spawn order), the four lights and
/// the time of the last spawn.
pub struct TrafficSystem {
    vehicles: Vec<Vehicle>,
    traffic_lights: Vec<TrafficLight>,
    last_spawn_time: u64,
    paused: bool,
}

impl View for TrafficSystem {
    type V = SystemView;

    closed spec fn view(&self) -> SystemView {
        SystemView {
            vehicles: self.vehicles@,
            lights: self.traffic_lights@,
            last_spawn_time: self.last_spawn_time,
            paused: self.paused,
        }
    }
}

impl TrafficSystem {
    /// A simulation started at `now`: no vehicles, East green and the other
    /// lights red, and no spawn before the cooldown has passed.
    pub fn new(now: u64) -> (s: TrafficSystem)
        ensures
            s@.wf(),
            s@.vehicles.len() == 0,
            current_green(s@.lights) == Some(Direction::East),
            forall|i: int|
                0 <= i < 4 ==> (#[trigger] s@.lights[i]).last_change == now && s@.lights[i].position
                    == light_position(Direction::at(i)),
            s@.last_spawn_time == now,
            !s@.paused,
    {
        TrafficSystem {
            vehicles: Vec::new(),
            traffic_lights: initial_lights(now),
            last_spawn_time: now,
            paused: false,
        }
    }

    pub fn vehicles(&self) -> (r: &Vec<Vehicle>)
        ensures
            r@ == self@.vehicles,
    {
        &self.vehicles
    }

    pub fn traffic_lights(&self) -> (r: &Vec<TrafficLight>)
        ensures
            r@ == self@.lights,
    {
        &self.traffic_lights
    }

    pub fn last_spawn_time(&self) -> (t: u64)
        ensures
            t == self@.last_spawn_time,
    {
        self.last_spawn_time
    }

    pub fn is_paused(&self) -> (p: bool)
        ensures
            p == self@.paused,
    {
        self.paused
    }

    /// Stops or resumes the simulation.
    pub fn toggle_pause(&mut self)
        ensures
            old(self)@.wf() ==> final(self)@.wf(),
            final(self)@ == (SystemView { paused: !old(self)@.paused, ..old(self)@ }),
    {
        self.paused = !self.paused;
    }

    /// Whether a vehicle may enter on approach `direction` at `now`.
    pub fn can_spawn(&self, direction: Direction, now: u64) -> (b: bool)
        ensures
            b == (spawn_ready(self@.last_spawn_time, now) && !entry_blocked(
                self@.vehicles,
                direction,
            )),
    {
        if elapsed_between(now, self.last_spawn_time) < SPAWN_COOLDOWN_MS {
            return false;
        }
        let n = self.vehicles.len();
        for j in 0..n
            invariant
                n == self.vehicles@.len(),
                forall|k: int|
                    0 <= k < j ==> !((#[trigger] self.vehicles@[k]).direction == direction
                        && near_entry(direction, self.vehicles@[k].position)),
        {
            let v = self.vehicles[j];
            if v.direction == direction && is_near_entry(direction, v.position) {
                assert(self.vehicles@[j as int] == v);
                return false;
            }
        }
        true
    }

    /// Spawns a vehicle with `route` on approach `direction` at `now`, unless
    /// the cooldown is not over or the entry is blocked; see `spawn_outcome`.
    pub fn spawn_vehicle_with_route(&mut self, direction: Direction, route: Route, now: u64)
        ensures
            final(self)@ == spawn_outcome(old(self)@, direction, route, now),
            old(self)@.wf() ==> final(self)@.wf(),
    {
        if self.can_spawn(direction, now) {
            self.vehicles.push(Vehicle::spawned(direction, route));
            self.last_spawn_time = now;
        }
    }

    /// Spawns a vehicle on approach `direction` at `now` with a route drawn at
    /// random, unless the cooldown is not over or the entry is blocked.
    pub fn spawn_vehicle(&mut self, direction: Direction, now: u64)
        ensures
            exists|r: Route| final(self)@ == #[trigger] spawn_outcome(old(self)@, direction, r, now),
            old(self)@.wf() ==> final(self)@.wf(),
    {
        if !self.can_spawn(direction, now) {
            assert(self@ == spawn_outcome(self@, direction, Route::Straight, now));
            return ;
        }
        let route = Route::from_index(random_below(3));
        self.spawn_vehicle_with_route(direction, route, now);
    }

    /// Spawns a vehicle on an approach drawn at random; see `spawn_vehicle`.
    pub fn spawn_random_vehicle(&mut self, now: u64)
        ensures
            exists|d: Direction, r: Route|
                final(self)@ == #[trigger] spawn_outcome(old(self)@, d, r, now),
            old(self)@.wf() ==> final(self)@.wf(),
    {
        let direction = Direction::from_index(random_below(4));
        self.spawn_vehicle(direction, now);
    }

    /// Runs the scheduler for this tick; see `decided_lights`.
    pub fn update_traffic_lights(&mut self, now: u64)
        requires
            old(self)@.wf(),
        ensures
            final(self)@.wf(),
            final(self)@ == (SystemView {
                lights: decided_lights(old(self)@.lights, old(self)@.vehicles, now),
                ..old(self)@
            }),
    {
        decide_lights(&mut self.traffic_lights, &self.vehicles, now);
    }

    /// Runs the motion pass for this tick; see `step_all`.
    pub fn update_vehicles(&mut self)
        requires
            old(self)@.wf(),
        ensures
            final(self)@.wf(),
            final(self)@ == (SystemView {
                vehicles: step_all(old(self)@.vehicles, old(self)@.lights),
                ..old(self)@
            }),
    {
        proof {
            lemma_step_all_wf(self.vehicles@, self.traffic_lights@);
        }
        self.vehicles = step_vehicles(&self.vehicles, &self.traffic_lights);
    }

    /// One tick at `now`: unless paused, the scheduler pass and then the
    /// motion pass; see `tick_outcome`.
    pub fn advance_tick(&mut self, now: u64)
        requires
            old(self)@.wf(),
        ensures
            final(self)@.wf(),
            final(self)@ == tick_outcome(old(self)@, now),
    {
        if !self.paused {
            self.update_traffic_lights(now);
            self.update_vehicles();
        }
    }
}

} // verus!
