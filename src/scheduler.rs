//! The traffic lights and the policy that decides, each tick, which approach
//! (if any) has the green light, from the queues and the time the current
//! green has lasted.
use vstd::prelude::*;
use crate::geometry::{Direction, Point, in_queue_zone, is_in_queue_zone, light_anchor, light_position};
use crate::vehicle::Vehicle;

verus! {

/// The longest a light stays green while other approaches compete, in ms.
pub const MAX_GREEN_TIME_MS: u64 = 4000;

/// A queue at least this long may take the green from a short one.
pub const PRIORITY_THRESHOLD: usize = 4;

/// A green approach whose queue is shorter than this may lose the green to a
/// queue at the priority threshold.
pub const SHORT_QUEUE_LIMIT: usize = 3;

/// The signal a light shows.
#[derive(Clone, Copy, Debug, PartialEq, Eq, Hash, Structural)]
pub enum TrafficLightState {
    Red,
    Green,
}

/// The light governing one approach, with the time (ms) of its last change.
#[derive(Clone, Copy, Debug, PartialEq, Eq, Structural)]
pub struct TrafficLight {
    pub position: Point,
    pub state: TrafficLightState,
    pub direction: Direction,
    pub last_change: u64,
}

/// The four lights stand in the order North, South, East, West, each
/// governing the approach of its place, and at most one is green.
pub open spec fn lights_wf(lights: Seq<TrafficLight>) -> bool {
    &&& lights.len() == 4
    &&& forall|i: int| 0 <= i < 4 ==> #[trigger] lights[i].direction == Direction::at(i)
    &&& forall|i: int, j: int|
        0 <= i < 4 && 0 <= j < 4 && #[trigger] lights[i].state == TrafficLightState::Green
            && #[trigger] lights[j].state == TrafficLightState::Green ==> i == j
}

/// The light that governs approach `d`.
pub open spec fn light_for(lights: Seq<TrafficLight>, d: Direction) -> TrafficLight {
    lights[d.index()]
}

/// The approach whose light is green, if any.
pub open spec fn current_green(lights: Seq<TrafficLight>) -> Option<Direction> {
    if lights[0].state == TrafficLightState::Green {
        Some(Direction::North)
    } else if lights[1].state == TrafficLightState::Green {
        Some(Direction::South)
    } else if lights[2].state == TrafficLightState::Green {
        Some(Direction::East)
    } else if lights[3].state == TrafficLightState::Green {
        Some(Direction::West)
    } else {
        None
    }
}

/// Time from `since` to `now`; nothing if the clock reads earlier.
pub open spec fn elapsed_ms(now: u64, since: u64) -> int {
    if now >= since {
        now - since
    } else {
        0
    }
}

pub fn elapsed_between(now: u64, since: u64) -> (e: u64)
    ensures
        e == elapsed_ms(now, since),
{
    if now >= since {
        now - since
    } else {
        0
    }
}

/// How long the current green light has been green at `now` (0 if none is).
pub open spec fn green_elapsed(lights: Seq<TrafficLight>, now: u64) -> int {
    match current_green(lights) {
        Some(g) => elapsed_ms(now, light_for(lights, g).last_change),
        None => 0,
    }
}

/// Whether `v` waits on approach `d`: it heads that way, has not passed the
/// intersection, and has not crossed the approach's stop line.
pub open spec fn is_waiting(v: Vehicle, d: Direction) -> bool {
    &&& v.direction == d
    &&& !v.has_passed_intersection
    &&& in_queue_zone(d, v.position)
}

/// Number of vehicles of `vs` waiting on approach `d`.
pub open spec fn waiting_count(vs: Seq<Vehicle>, d: Direction) -> nat
    decreases vs.len(),
{
    if vs.len() == 0 {
        0
    } else {
        waiting_count(vs.drop_last(), d) + if is_waiting(vs.last(), d) {
            1nat
        } else {
            0nat
        }
    }
}

/// A queue never holds more vehicles than there are.
pub proof fn lemma_waiting_count_bound(vs: Seq<Vehicle>, d: Direction)
    ensures
        waiting_count(vs, d) <= vs.len(),
    decreases vs.len(),
{
    if vs.len() > 0 {
        lemma_waiting_count_bound(vs.drop_last(), d);
    }
}

/// The length of the queue on each approach.
#[derive(Clone, Copy, Debug, PartialEq, Eq, Structural)]
pub struct WaitingCounts {
    pub north: usize,
    pub south: usize,
    pub east: usize,
    pub west: usize,
}

impl WaitingCounts {
    pub open spec fn count(self, d: Direction) -> int {
        match d {
            Direction::North => self.north as int,
            Direction::South => self.south as int,
            Direction::East => self.east as int,
            Direction::West => self.west as int,
        }
    }

    pub open spec fn total(self) -> int {
        self.north + self.south + self.east + self.west
    }

    /// The queue lengths of the vehicles `vs`.
    pub open spec fn of(vs: Seq<Vehicle>) -> WaitingCounts {
        WaitingCounts {
            north: waiting_count(vs, Direction::North) as usize,
            south: waiting_count(vs, Direction::South) as usize,
            east: waiting_count(vs, Direction::East) as usize,
            west: waiting_count(vs, Direction::West) as usize,
        }
    }

    pub fn get(&self, d: Direction) -> (n: usize)
        ensures
            n == self.count(d),
    {
        match d {
            Direction::North => self.north,
            Direction::South => self.south,
            Direction::East => self.east,
            Direction::West => self.west,
        }
    }
}

/// Counts the vehicles waiting on each approach.
pub fn count_waiting(vehicles: &Vec<Vehicle>) -> (c: WaitingCounts)
    ensures
        c == WaitingCounts::of(vehicles@),
        forall|d: Direction| #[trigger] c.count(d) == waiting_count(vehicles@, d),
{
    let mut c = WaitingCounts { north: 0, south: 0, east: 0, west: 0 };
    let n = vehicles.len();
    for i in 0..n
        invariant
            n == vehicles.len(),
            c.north <= i && c.south <= i && c.east <= i && c.west <= i,
            c.north == waiting_count(vehicles@.subrange(0, i as int), Direction::North),
            c.south == waiting_count(vehicles@.subrange(0, i as int), Direction::South),
            c.east == waiting_count(vehicles@.subrange(0, i as int), Direction::East),
            c.west == waiting_count(vehicles@.subrange(0, i as int), Direction::West),
    {
        let v = vehicles[i];
        proof {
            let pre = vehicles@.subrange(0, i + 1);
            assert(pre.drop_last() =~= vehicles@.subrange(0, i as int));
            assert(pre.last() == v);
        }
        if !v.has_passed_intersection && is_in_queue_zone(v.direction, v.position) {
            match v.direction {
                Direction::North => c.north = c.north + 1,
                Direction::South => c.south = c.south + 1,
                Direction::East => c.east = c.east + 1,
                Direction::West => c.west = c.west + 1,
            }
        }
    }
    assert(vehicles@.subrange(0, n as int) =~= vehicles@);
    c
}

/// Whether approach `d`, other than the green `g`, has a queue long enough to
/// claim priority.
pub open spec fn starved(c: WaitingCounts, d: Direction, g: Direction) -> bool {
    d != g && c.count(d) >= PRIORITY_THRESHOLD
}

/// The first approach, in the order North, South, East, West, that may take
/// the green from `g` by priority.
pub open spec fn first_starved(c: WaitingCounts, g: Direction) -> Option<Direction> {
    if starved(c, Direction::North, g) {
        Some(Direction::North)
    } else if starved(c, Direction::South, g) {
        Some(Direction::South)
    } else if starved(c, Direction::East, g) {
        Some(Direction::East)
    } else if starved(c, Direction::West, g) {
        Some(Direction::West)
    } else {
        None
    }
}

/// The approach that takes the green by priority: only when a green approach
/// has a short queue, the first other approach at the priority threshold.
pub open spec fn priority_candidate(c: WaitingCounts, green: Option<Direction>) -> Option<
    Direction,
> {
    match green {
        Some(g) => if c.count(g) < SHORT_QUEUE_LIMIT {
            first_starved(c, g)
        } else {
            None
        },
        None => None,
    }
}

/// The longest queue; the first in the order North, South, East, West among
/// equal ones, and North when all are empty.
pub open spec fn busiest(c: WaitingCounts) -> Direction {
    let m = vstd::math::max(
        vstd::math::max(c.north as int, c.south as int),
        vstd::math::max(c.east as int, c.west as int),
    );
    if c.north == m {
        Direction::North
    } else if c.south == m {
        Direction::South
    } else if c.east == m {
        Direction::East
    } else {
        Direction::West
    }
}

/// Whether the green approach `g` gives way: it has been green for the
/// longest time allowed, or its queue is empty.
pub open spec fn green_yields(c: WaitingCounts, g: Direction, elapsed: int) -> bool {
    elapsed >= MAX_GREEN_TIME_MS || c.count(g) == 0
}

/// The approach that is green after this tick, given the queues, the approach
/// green now and for how long: none when every queue is empty; else the
/// priority candidate; else the current green unless it gives way; else the
/// longest queue.
pub open spec fn next_green(c: WaitingCounts, green: Option<Direction>, elapsed: int) -> Option<
    Direction,
> {
    if c.total() == 0 {
        None
    } else {
        match priority_candidate(c, green) {
            Some(p) => Some(p),
            None => match green {
                Some(g) => if green_yields(c, g, elapsed) {
                    Some(busiest(c))
                } else {
                    Some(g)
                },
                None => Some(busiest(c)),
            },
        }
    }
}

fn find_first_starved(c: &WaitingCounts, g: Direction) -> (r: Option<Direction>)
    ensures
        r == first_starved(*c, g),
{
    let starved_at = |d: Direction| -> (b: bool)
        ensures
            b == starved(*c, d, g),
        { d != g && c.get(d) >= PRIORITY_THRESHOLD };
    if starved_at(Direction::North) {
        Some(Direction::North)
    } else if starved_at(Direction::South) {
        Some(Direction::South)
    } else if starved_at(Direction::East) {
        Some(Direction::East)
    } else if starved_at(Direction::West) {
        Some(Direction::West)
    } else {
        None
    }
}

fn find_busiest(c: &WaitingCounts) -> (r: Direction)
    ensures
        r == busiest(*c),
{
    let mut best = Direction::North;
    let mut max: usize = 0;
    let mut i: usize = 0;
    while i < 4
        invariant
            i <= 4,
            forall|k: int| 0 <= k < i ==> c.count(#[trigger] Direction::at(k)) <= max,
            max == 0 ==> best == Direction::North,
            max > 0 ==> c.count(best) == max && best.index() < i,
            forall|k: int| 0 <= k < best.index() ==> c.count(#[trigger] Direction::at(k)) < max,
        decreases 4 - i,
    {
        let d = Direction::from_index(i);
        let n = c.get(d);
        if n > max {
            max = n;
            best = d;
        }
        i = i + 1;
    }
    assert(c.count(Direction::at(0)) <= max);
    assert(c.count(Direction::at(1)) <= max);
    assert(c.count(Direction::at(2)) <= max);
    assert(c.count(Direction::at(3)) <= max);
    best
}

/// Decides which approach is green after this tick; see `next_green`.
pub fn choose_green(c: &WaitingCounts, green: Option<Direction>, elapsed: u64) -> (r: Option<
    Direction,
>)
    ensures
        r == next_green(*c, green, elapsed as int),
{
    if c.north == 0 && c.south == 0 && c.east == 0 && c.west == 0 {
        return None;
    }
    let priority = match green {
        Some(g) => if c.get(g) < SHORT_QUEUE_LIMIT {
            find_first_starved(c, g)
        } else {
            None
        },
        None => None,
    };
    match priority {
        Some(p) => Some(p),
        None => match green {
            Some(g) => if elapsed >= MAX_GREEN_TIME_MS || c.get(g) == 0 {
                Some(find_busiest(c))
            } else {
                Some(g)
            },
            None => Some(find_busiest(c)),
        },
    }
}

fn find_green(lights: &Vec<TrafficLight>) -> (g: Option<Direction>)
    requires
        lights_wf(lights@),
    ensures
        g == current_green(lights@),
{
    let mut i: usize = 0;
    while i < 4
        invariant
            lights_wf(lights@),
            i <= 4,
            forall|k: int| 0 <= k < i ==> #[trigger] lights@[k].state == TrafficLightState::Red,
        decreases 4 - i,
    {
        if lights[i].state == TrafficLightState::Green {
            return Some(Direction::from_index(i));
        }
        i = i + 1;
    }
    None
}

/// The four lights as the simulation starts: East green, the rest red, all
/// changed at `now`.
pub fn initial_lights(now: u64) -> (lights: Vec<TrafficLight>)
    ensures
        lights_wf(lights@),
        current_green(lights@) == Some(Direction::East),
        forall|i: int|
            0 <= i < 4 ==> (#[trigger] lights@[i]).last_change == now && lights@[i].position
                == light_position(Direction::at(i)),
{
    let mut lights: Vec<TrafficLight> = Vec::new();
    let mut i: usize = 0;
    while i < 4
        invariant
            i <= 4,
            lights@.len() == i,
            forall|k: int|
                0 <= k < i ==> {
                    &&& (#[trigger] lights@[k]).direction == Direction::at(k)
                    &&& lights@[k].last_change == now
                    &&& lights@[k].position == light_position(Direction::at(k))
                    &&& (lights@[k].state == TrafficLightState::Green <==> k == 2)
                },
        decreases 4 - i,
    {
        let d = Direction::from_index(i);
        let state = if i == 2 {
            TrafficLightState::Green
        } else {
            TrafficLightState::Red
        };
        lights.push(TrafficLight { position: light_anchor(d), state, direction: d, last_change: now });
        i = i + 1;
    }
    lights
}

/// Whether the scheduler pass keeps the approach that is green now green, so
/// that no light changes.
pub open spec fn keeps_green(lights: Seq<TrafficLight>, vs: Seq<Vehicle>, now: u64) -> bool {
    let next = next_green(WaitingCounts::of(vs), current_green(lights), green_elapsed(lights, now));
    next is Some && next == current_green(lights)
}

/// The lights after a scheduler pass over the queues of `vs` at `now`. When
/// the green approach stays green, nothing changes and every light keeps its
/// last change, so the green time keeps growing. Otherwise the approach chosen
/// by `next_green` (if any) turns green, every other light red, and all four
/// record `now` as their last change.
pub open spec fn decided_lights(lights: Seq<TrafficLight>, vs: Seq<Vehicle>, now: u64) -> Seq<
    TrafficLight,
> {
    let next = next_green(WaitingCounts::of(vs), current_green(lights), green_elapsed(lights, now));
    if keeps_green(lights, vs, now) {
        lights
    } else {
        Seq::new(
        4,
        |i: int|
            TrafficLight {
                position: lights[i].position,
                state: if next == Some(Direction::at(i)) {
                    TrafficLightState::Green
                } else {
                    TrafficLightState::Red
                },
                direction: lights[i].direction,
                last_change: now,
            },
        )
    }
}

/// Sets the lights for this tick; see `decided_lights`.
pub fn decide_lights(lights: &mut Vec<TrafficLight>, vehicles: &Vec<Vehicle>, now: u64)
    requires
        lights_wf(old(lights)@),
    ensures
        lights_wf(final(lights)@),
        final(lights)@ == decided_lights(old(lights)@, vehicles@, now),
        WaitingCounts::of(vehicles@).total() == 0 ==> forall|i: int|
            0 <= i < 4 ==> (#[trigger] final(lights)@[i]).state == TrafficLightState::Red,
        keeps_green(old(lights)@, vehicles@, now) ==> final(lights)@ == old(lights)@,
{
    let c = count_waiting(vehicles);
    let green = find_green(lights);
    let elapsed = match green {
        Some(g) => elapsed_between(now, lights[g.to_index()].last_change),
        None => 0,
    };
    let next = choose_green(&c, green, elapsed);
    if next.is_some() && next == green {
        return;
    }
    let ghost before = lights@;
    let mut i: usize = 0;
    while i < 4
        invariant
            i <= 4,
            lights@.len() == 4,
            lights_wf(before),
            forall|k: int| i <= k < 4 ==> #[trigger] lights@[k] == before[k],
            forall|k: int|
                0 <= k < i ==> {
                    &&& (#[trigger] lights@[k]).direction == before[k].direction
                    &&& lights@[k].position == before[k].position
                    &&& lights@[k].last_change == now
                    &&& (lights@[k].state == TrafficLightState::Green <==> next == Some(
                        Direction::at(k),
                    ))
                },
        decreases 4 - i,
    {
        let mut light = lights[i];
        let here = Direction::from_index(i);
        light.state = if next == Some(here) {
            TrafficLightState::Green
        } else {
            TrafficLightState::Red
        };
        light.last_change = now;
        lights.set(i, light);
        i = i + 1;
    }
    assert(lights@ =~= decided_lights(before, vehicles@, now));
}

} // verus!
