use traffic_intersection::geometry::{Direction, Point, Route};
use traffic_intersection::scheduler::TrafficLightState;
use traffic_intersection::system::TrafficSystem;
use traffic_intersection::vehicle::Vehicle;

fn green(s: &TrafficSystem) -> Vec<Direction> {
    s.traffic_lights()
        .iter()
        .filter(|l| l.state == TrafficLightState::Green)
        .map(|l| l.direction)
        .collect()
}

#[test]
fn new_system_starts_east_green() {
    let s = TrafficSystem::new(0);
    assert!(s.vehicles().is_empty());
    assert_eq!(green(&s), vec![Direction::East]);
    assert_eq!(s.last_spawn_time(), 0);
    assert!(!s.is_paused());
}

#[test]
fn spawn_cooldown() {
    let mut s = TrafficSystem::new(0);
    s.spawn_vehicle_with_route(Direction::North, Route::Left, 999);
    assert!(s.vehicles().is_empty());
    s.spawn_vehicle_with_route(Direction::North, Route::Left, 1000);
    assert_eq!(s.vehicles().len(), 1);
    assert_eq!(s.last_spawn_time(), 1000);
    s.spawn_vehicle_with_route(Direction::South, Route::Straight, 1999);
    assert_eq!(s.vehicles().len(), 1);
    s.spawn_vehicle_with_route(Direction::South, Route::Straight, 2000);
    assert_eq!(s.vehicles().len(), 2);
    s.spawn_vehicle_with_route(Direction::East, Route::Straight, 500);
    assert_eq!(s.vehicles().len(), 2);
}

#[test]
fn spawned_vehicles_enter_at_their_entry() {
    let mut s = TrafficSystem::new(0);
    let dirs = [Direction::North, Direction::South, Direction::East, Direction::West];
    for (k, d) in dirs.iter().enumerate() {
        s.spawn_vehicle_with_route(*d, Route::Right, 1000 * (k as u64 + 1));
    }
    let expected = [
        Point::new(421, 800),
        Point::new(455, -35),
        Point::new(-25, 366),
        Point::new(900, 400),
    ];
    assert_eq!(s.vehicles().len(), 4);
    for (k, v) in s.vehicles().iter().enumerate() {
        assert_eq!(
            *v,
            Vehicle {
                position: expected[k],
                direction: dirs[k],
                route: Route::Right,
                has_turned: false,
                has_passed_intersection: false,
            }
        );
    }
}

#[test]
fn entry_blocked_by_vehicle_near_it() {
    let mut s = TrafficSystem::new(0);
    s.spawn_vehicle_with_route(Direction::North, Route::Straight, 1000);
    assert!(!s.can_spawn(Direction::North, 2000));
    assert!(s.can_spawn(Direction::South, 2000));
    s.spawn_vehicle_with_route(Direction::North, Route::Straight, 2000);
    assert_eq!(s.vehicles().len(), 1);
    assert_eq!(s.last_spawn_time(), 1000);
    // 43 ticks take the first vehicle from 800 to 714, past the entry zone.
    for t in 0..42 {
        s.advance_tick(1000 + t);
    }
    assert_eq!(s.vehicles()[0].position.y, 716);
    assert!(!s.can_spawn(Direction::North, 3000));
    s.advance_tick(1100);
    assert!(s.can_spawn(Direction::North, 3000));
    s.spawn_vehicle_with_route(Direction::North, Route::Straight, 3000);
    assert_eq!(s.vehicles().len(), 2);
}

#[test]
fn random_routes_cover_all_three() {
    let mut seen = [false; 3];
    for _ in 0..200 {
        let mut s = TrafficSystem::new(0);
        s.spawn_vehicle(Direction::West, 1000);
        assert_eq!(s.vehicles().len(), 1);
        let v = s.vehicles()[0];
        assert_eq!(v.direction, Direction::West);
        assert_eq!(v.position, Point::new(900, 400));
        let k = match v.route {
            Route::Straight => 0,
            Route::Left => 1,
            Route::Right => 2,
        };
        seen[k] = true;
    }
    assert_eq!(seen, [true, true, true]);
}

#[test]
fn random_approaches_cover_all_four() {
    let mut seen = [false; 4];
    for _ in 0..300 {
        let mut s = TrafficSystem::new(0);
        s.spawn_random_vehicle(999);
        assert!(s.vehicles().is_empty());
        s.spawn_random_vehicle(1000);
        assert_eq!(s.vehicles().len(), 1);
        seen[s.vehicles()[0].direction.to_index()] = true;
    }
    assert_eq!(seen, [true, true, true, true]);
}

#[test]
fn pause_freezes_ticks() {
    let mut s = TrafficSystem::new(0);
    s.spawn_vehicle_with_route(Direction::East, Route::Straight, 1000);
    s.toggle_pause();
    assert!(s.is_paused());
    s.advance_tick(1016);
    assert_eq!(s.vehicles()[0].position, Point::new(-25, 366));
    assert_eq!(green(&s), vec![Direction::East]);
    s.toggle_pause();
    s.advance_tick(1032);
    assert_eq!(s.vehicles()[0].position, Point::new(-23, 366));
}

#[test]
fn tick_runs_scheduler_then_motion() {
    let mut s = TrafficSystem::new(0);
    s.spawn_vehicle_with_route(Direction::South, Route::Straight, 1000);
    s.update_traffic_lights(1016);
    assert_eq!(green(&s), vec![Direction::South]);
    assert!(s.traffic_lights().iter().all(|l| l.last_change == 1016));
    s.update_vehicles();
    assert_eq!(s.vehicles()[0].position, Point::new(455, -33));
}

#[test]
fn turn_transition_through_the_simulation() {
    let mut s = TrafficSystem::new(0);
    s.spawn_vehicle_with_route(Direction::North, Route::Left, 1000);
    let mut now = 1000;
    let mut turned_at = None;
    let mut tick = 0;
    while !s.vehicles().is_empty() {
        let before = s.vehicles()[0];
        now += 16;
        s.advance_tick(now);
        tick += 1;
        assert!(tick < 5000);
        if let Some(v) = s.vehicles().first() {
            assert_eq!(v.route, Route::Left);
            if v.direction != before.direction {
                assert!(turned_at.is_none());
                turned_at = Some(tick);
                assert_eq!(before.position, Point::new(421, 400));
                assert_eq!(v.direction, Direction::West);
                assert_eq!(v.position, Point::new(419, 400));
                assert!(v.has_turned && v.has_passed_intersection);
            }
        }
    }
    assert_eq!(turned_at, Some(201));
}

#[test]
fn idle_intersection_goes_all_red() {
    let mut s = TrafficSystem::new(0);
    s.advance_tick(16);
    assert!(green(&s).is_empty());
}

fn gap(a: &Vehicle, b: &Vehicle) -> i32 {
    match a.direction {
        Direction::North | Direction::South => (a.position.y - b.position.y).abs() - 35,
        Direction::East | Direction::West => (a.position.x - b.position.x).abs() - 25,
    }
}

#[test]
fn same_lane_spacing_in_busy_traffic() {
    let mut s = TrafficSystem::new(0);
    let dirs = [Direction::North, Direction::East, Direction::South, Direction::West];
    let mut now: u64 = 0;
    for tick in 0..6000u64 {
        now += 16;
        if tick % 70 == 0 {
            let d = dirs[((tick / 70) % 4) as usize];
            s.spawn_vehicle_with_route(d, Route::Straight, now);
        }
        s.advance_tick(now);
        let vs = s.vehicles();
        for i in 0..vs.len() {
            for j in 0..vs.len() {
                if i != j && vs[i].direction == vs[j].direction {
                    assert!(gap(&vs[i], &vs[j]) >= 48, "tick {}: {:?} {:?}", tick, vs[i], vs[j]);
                }
            }
        }
    }
}

#[test]
fn max_green_fires_in_a_running_simulation() {
    let mut s = TrafficSystem::new(0);
    s.spawn_vehicle_with_route(Direction::East, Route::Straight, 1000);
    let mut switched = false;
    for k in 1..=200u64 {
        let now = 1000 + 16 * k;
        if k == 63 {
            s.spawn_vehicle_with_route(Direction::South, Route::Straight, now);
            assert_eq!(s.vehicles().len(), 2);
        }
        s.advance_tick(now);
        if now < 4000 {
            assert_eq!(green(&s), vec![Direction::East]);
            assert!(s.traffic_lights().iter().all(|l| l.last_change == 0));
        } else {
            assert_eq!(now, 4008);
            assert_eq!(green(&s), vec![Direction::South]);
            assert!(s.traffic_lights().iter().all(|l| l.last_change == 4008));
            switched = true;
            break;
        }
    }
    assert!(switched);
}
