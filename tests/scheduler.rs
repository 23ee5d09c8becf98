use traffic_intersection::geometry::{Direction, Point, Route};
use traffic_intersection::scheduler::{
    choose_green, count_waiting, decide_lights, initial_lights, TrafficLight, TrafficLightState,
    WaitingCounts,
};
use traffic_intersection::vehicle::Vehicle;

fn counts(north: usize, south: usize, east: usize, west: usize) -> WaitingCounts {
    WaitingCounts { north, south, east, west }
}

fn waiting(direction: Direction) -> Vehicle {
    let position = match direction {
        Direction::North => Point::new(421, 500),
        Direction::South => Point::new(455, 300),
        Direction::East => Point::new(300, 366),
        Direction::West => Point::new(600, 400),
    };
    Vehicle { position, direction, route: Route::Straight, has_turned: false, has_passed_intersection: false }
}

fn lights_with_green(green: Option<Direction>, since: u64) -> Vec<TrafficLight> {
    let mut lights = initial_lights(since);
    for light in lights.iter_mut() {
        light.state = if Some(light.direction) == green {
            TrafficLightState::Green
        } else {
            TrafficLightState::Red
        };
    }
    lights
}

fn green_of(lights: &Vec<TrafficLight>) -> Vec<Direction> {
    lights.iter().filter(|l| l.state == TrafficLightState::Green).map(|l| l.direction).collect()
}

#[test]
fn priority_override_counts() {
    let c = counts(4, 0, 1, 0);
    assert_eq!(choose_green(&c, Some(Direction::East), 100), Some(Direction::North));
}

#[test]
fn priority_override_lights() {
    let mut vehicles = Vec::new();
    for k in 0..4 {
        let mut v = waiting(Direction::North);
        v.position.y = 500 + 100 * k;
        vehicles.push(v);
    }
    vehicles.push(waiting(Direction::East));
    let mut lights = lights_with_green(Some(Direction::East), 0);
    decide_lights(&mut lights, &vehicles, 100);
    assert_eq!(green_of(&lights), vec![Direction::North]);
    for (i, light) in lights.iter().enumerate() {
        assert_eq!(light.last_change, 100);
        assert_eq!(light.direction.to_index(), i);
    }
    assert_eq!(lights[1].state, TrafficLightState::Red);
    assert_eq!(lights[2].state, TrafficLightState::Red);
    assert_eq!(lights[3].state, TrafficLightState::Red);
}

#[test]
fn priority_takes_first_candidate_in_order() {
    let c = counts(0, 4, 5, 1);
    assert_eq!(choose_green(&c, Some(Direction::West), 0), Some(Direction::South));
}

#[test]
fn priority_needs_short_green_queue() {
    let c = counts(5, 0, 3, 0);
    assert_eq!(choose_green(&c, Some(Direction::East), 100), Some(Direction::East));
}

#[test]
fn priority_needs_a_green_light() {
    let c = counts(2, 0, 5, 4);
    assert_eq!(choose_green(&c, None, 0), Some(Direction::East));
}

#[test]
fn max_green_timeout_switches_to_longest_queue() {
    let c = counts(0, 2, 1, 0);
    assert_eq!(choose_green(&c, Some(Direction::East), 4000), Some(Direction::South));
    assert_eq!(choose_green(&c, Some(Direction::East), 9000), Some(Direction::South));
}

#[test]
fn max_green_timeout_lights() {
    let mut vehicles = vec![waiting(Direction::East)];
    let mut w = waiting(Direction::West);
    vehicles.push(w);
    w.position.x = 700;
    vehicles.push(w);
    let mut lights = lights_with_green(Some(Direction::East), 1000);
    decide_lights(&mut lights, &vehicles, 5000);
    assert_eq!(green_of(&lights), vec![Direction::West]);
}

#[test]
fn green_kept_before_timeout() {
    let c = counts(0, 2, 1, 0);
    assert_eq!(choose_green(&c, Some(Direction::East), 3999), Some(Direction::East));
    let vehicles = vec![waiting(Direction::East), waiting(Direction::South)];
    let mut lights = lights_with_green(Some(Direction::East), 1000);
    decide_lights(&mut lights, &vehicles, 4999);
    assert_eq!(green_of(&lights), vec![Direction::East]);
}

#[test]
fn empty_green_queue_yields() {
    let c = counts(0, 1, 0, 0);
    assert_eq!(choose_green(&c, Some(Direction::East), 0), Some(Direction::South));
}

#[test]
fn ties_favour_earlier_approach() {
    assert_eq!(choose_green(&counts(2, 2, 2, 2), None, 0), Some(Direction::North));
    assert_eq!(choose_green(&counts(0, 3, 3, 1), None, 0), Some(Direction::South));
    assert_eq!(choose_green(&counts(0, 0, 1, 1), Some(Direction::North), 0), Some(Direction::East));
    assert_eq!(choose_green(&counts(0, 0, 0, 1), None, 0), Some(Direction::West));
}

#[test]
fn idle_blackout_counts() {
    assert_eq!(choose_green(&counts(0, 0, 0, 0), Some(Direction::East), 0), None);
    assert_eq!(choose_green(&counts(0, 0, 0, 0), None, 10_000), None);
}

#[test]
fn idle_blackout_lights() {
    let mut passed = waiting(Direction::North);
    passed.has_passed_intersection = true;
    let vehicles = vec![passed];
    let mut lights = lights_with_green(Some(Direction::East), 0);
    decide_lights(&mut lights, &vehicles, 50);
    assert!(green_of(&lights).is_empty());
    assert!(lights.iter().all(|l| l.last_change == 50));
}

#[test]
fn elapsed_reads_zero_when_clock_is_behind() {
    let vehicles = vec![waiting(Direction::East), waiting(Direction::South)];
    let mut lights = lights_with_green(Some(Direction::East), 9000);
    decide_lights(&mut lights, &vehicles, 100);
    assert_eq!(green_of(&lights), vec![Direction::East]);
}

#[test]
fn counting_waiting_vehicles() {
    let mut vehicles = Vec::new();
    vehicles.push(waiting(Direction::North));
    let mut at_line = waiting(Direction::North);
    at_line.position.y = 430;
    vehicles.push(at_line);
    let mut over_line = waiting(Direction::North);
    over_line.position.y = 429;
    vehicles.push(over_line);
    let mut passed = waiting(Direction::South);
    passed.has_passed_intersection = true;
    vehicles.push(passed);
    let mut south_line = waiting(Direction::South);
    south_line.position.y = 365;
    vehicles.push(south_line);
    let mut east_line = waiting(Direction::East);
    east_line.position.x = 410;
    vehicles.push(east_line);
    let mut east_over = waiting(Direction::East);
    east_over.position.x = 411;
    vehicles.push(east_over);
    let mut west_line = waiting(Direction::West);
    west_line.position.x = 480;
    vehicles.push(west_line);
    let mut west_over = waiting(Direction::West);
    west_over.position.x = 479;
    vehicles.push(west_over);
    let c = count_waiting(&vehicles);
    assert_eq!(c, counts(2, 1, 1, 1));
    assert_eq!(c.get(Direction::North), 2);
    assert_eq!(count_waiting(&Vec::new()), counts(0, 0, 0, 0));
}

#[test]
fn initial_lights_layout() {
    let lights = initial_lights(7);
    assert_eq!(green_of(&lights), vec![Direction::East]);
    assert_eq!(lights[0].position, Point::new(395, 435));
    assert_eq!(lights[1].position, Point::new(485, 345));
    assert_eq!(lights[2].position, Point::new(395, 345));
    assert_eq!(lights[3].position, Point::new(485, 435));
    assert!(lights.iter().all(|l| l.last_change == 7));
}

#[test]
fn kept_green_keeps_its_timestamp() {
    let vehicles = vec![waiting(Direction::East), waiting(Direction::South)];
    let mut lights = lights_with_green(Some(Direction::East), 1000);
    let before = lights.clone();
    let mut now = 1000;
    while now + 16 < 5000 {
        now += 16;
        decide_lights(&mut lights, &vehicles, now);
        assert_eq!(lights, before);
    }
    decide_lights(&mut lights, &vehicles, 5000);
    assert_eq!(green_of(&lights), vec![Direction::South]);
    assert!(lights.iter().all(|l| l.last_change == 5000));
    decide_lights(&mut lights, &vehicles, 5016);
    assert_eq!(green_of(&lights), vec![Direction::South]);
    assert!(lights.iter().all(|l| l.last_change == 5000));
}
