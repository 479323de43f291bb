use std::collections::VecDeque;

use smart_road::road::{Road, COOLDOWN_FRAMES};
use smart_road::traffic::{Direction, Vehicule};
use smart_road::utils::{is_off_screen, spawn_params, step_traffic, Key};
use smart_road::vehicule;
use smart_road::{DISTANCE, SAFE_DISTANCE};

#[test]
fn direction_index_ranks() {
    assert_eq!(Direction::Up.index(), 0);
    assert_eq!(Direction::Down.index(), 1);
    assert_eq!(Direction::Left.index(), 2);
    assert_eq!(Direction::Right.index(), 3);
}

#[test]
fn traffic_new_vehicle_fields() {
    let v = Vehicule::new(12, -7, Direction::Left, -90);
    assert_eq!((v.x, v.y, v.direction, v.angle), (12, -7, Direction::Left, -90));
    assert_eq!(v.speed, 4);
    assert_eq!(v.distance, 0);
    assert!(v.states);
    assert_eq!(v.frame_count, 0);
    assert!(!v.turning);
}

#[test]
fn traffic_update_moves_along_heading() {
    let mut up = Vehicule::new(100, 100, Direction::Up, 0);
    up.update();
    assert_eq!((up.x, up.y, up.distance), (100, 96, 4));
    let mut down = Vehicule::new(100, 100, Direction::Down, 180);
    down.update();
    assert_eq!((down.x, down.y, down.distance), (100, 104, 4));
    let mut left = Vehicule::new(100, 100, Direction::Left, -90);
    left.speed = 3;
    left.update();
    assert_eq!((left.x, left.y, left.distance), (97, 100, 3));
    let mut right = Vehicule::new(100, 100, Direction::Right, 90);
    right.speed = 1;
    right.update();
    right.update();
    assert_eq!((right.x, right.y, right.distance), (102, 100, 2));
}

#[test]
fn traffic_update_turns_at_turning_point() {
    let mut v = Vehicule::new(410, 355, Direction::Up, 0);
    v.turning = true;
    v.distance = 445;
    assert_eq!(v.should_turning(), Some(Direction::Left));
    v.update();
    assert_eq!(v.direction, Direction::Left);
    assert_eq!(v.angle, -90);
    assert!(!v.turning);
    assert_eq!(v.speed, 0);
    assert_eq!((v.x, v.y, v.distance), (410, 355, 445));
}

#[test]
fn traffic_should_turning_table() {
    let mut v = Vehicule::new(410, 400, Direction::Up, 0);
    v.turning = true;
    assert_eq!(v.should_turning(), None);
    v.x = 500;
    v.y = 490;
    assert_eq!(v.should_turning(), Some(Direction::Right));
    let mut d = Vehicule::new(365, 405, Direction::Down, 180);
    d.turning = true;
    assert_eq!(d.should_turning(), Some(Direction::Right));
    d.x = 275;
    d.y = 270;
    assert_eq!(d.should_turning(), Some(Direction::Left));
    let mut l = Vehicule::new(500, 270, Direction::Left, -90);
    l.turning = true;
    assert_eq!(l.should_turning(), Some(Direction::Up));
    l.x = 365;
    l.y = 360;
    assert_eq!(l.should_turning(), Some(Direction::Down));
    let mut r = Vehicule::new(405, 400, Direction::Right, 90);
    r.turning = true;
    assert_eq!(r.should_turning(), Some(Direction::Up));
    r.x = 275;
    r.y = 490;
    assert_eq!(r.should_turning(), Some(Direction::Down));
    r.turning = false;
    assert_eq!(r.should_turning(), None);
}

#[test]
fn traffic_yield_grows_with_distance() {
    let me = Vehicule::new(410, 500, Direction::Up, 0);
    let other = Vehicule::new(410, 400, Direction::Up, 0);
    assert!(!me.collitions(&other, 40));
    assert!(me.collitions(&other, 100));
    assert!(me.collitions(&other, 300));
}

#[test]
fn traffic_crossing_one_yields() {
    let up_car = Vehicule::new(410, 450, Direction::Up, 0);
    let left_car = Vehicule::new(550, 400, Direction::Left, -90);
    assert!(!left_car.collitions(&up_car, 300));
    assert!(!left_car.collitions(&up_car, 100));
    assert!(!up_car.collitions(&left_car, 100));

    let tie_left = Vehicule::new(460, 400, Direction::Left, -90);
    assert!(tie_left.collitions(&up_car, 300));
    assert!(!up_car.collitions(&tie_left, 300));

    let down_car = Vehicule::new(365, 300, Direction::Down, 180);
    let right_car = Vehicule::new(200, 400, Direction::Right, 90);
    assert!(down_car.collitions(&right_car, 300));
    assert!(!right_car.collitions(&down_car, 300));
}

#[test]
fn traffic_passed_vehicle_ignored() {
    let right_car = Vehicule::new(500, 400, Direction::Right, 90);
    let down_car = Vehicule::new(410, 380, Direction::Down, 180);
    assert!(!right_car.collitions(&down_car, 300));
}

#[test]
fn traffic_other_lane_horizontal_ignored() {
    let me = Vehicule::new(500, 400, Direction::Left, -90);
    let other = Vehicule::new(450, 430, Direction::Left, -90);
    assert!(!me.collitions(&other, 300));
    let near = Vehicule::new(450, 429, Direction::Left, -90);
    assert!(me.collitions(&near, 300));
}

#[test]
fn vehicule_new_and_update() {
    let mut v = vehicule::Vehicule::new(275, 0, vehicule::Direction::Down, 180);
    assert_eq!(v.speed, 3);
    assert_eq!(v.distance, 0);
    assert!(v.states);
    v.update();
    assert_eq!((v.x, v.y, v.distance), (275, 3, 3));
}

#[test]
fn vehicule_collitions_ahead_behind_lane() {
    let me = vehicule::Vehicule::new(0, 400, vehicule::Direction::Right, 90);
    let ahead = vehicule::Vehicule::new(35, 400, vehicule::Direction::Right, 90);
    let behind = vehicule::Vehicule::new(-35, 400, vehicule::Direction::Right, 90);
    let other_lane = vehicule::Vehicule::new(35, 445, vehicule::Direction::Right, 90);
    assert!(me.collitions(&ahead, 40));
    assert!(!me.collitions(&behind, 300));
    assert!(!me.collitions(&other_lane, 300));
    let crossing = vehicule::Vehicule::new(100, 350, vehicule::Direction::Down, 180);
    assert!(!me.collitions(&crossing, 300));
}

#[test]
fn off_screen_edges() {
    let mut v = Vehicule::new(410, -10, Direction::Up, 0);
    assert!(!is_off_screen(&v));
    v.y = -11;
    assert!(is_off_screen(&v));
    let mut d = Vehicule::new(275, 810, Direction::Down, 180);
    assert!(!is_off_screen(&d));
    d.y = 811;
    assert!(is_off_screen(&d));
    let l = Vehicule::new(-11, 270, Direction::Left, -90);
    assert!(is_off_screen(&l));
    let r = Vehicule::new(811, 400, Direction::Right, 90);
    assert!(is_off_screen(&r));
    let r2 = Vehicule::new(-500, 400, Direction::Right, 90);
    assert!(!is_off_screen(&r2));
}

#[test]
fn spawn_params_per_key() {
    assert_eq!(spawn_params(Key::Up, 45), Some((455, 800, Direction::Up, 0)));
    assert_eq!(spawn_params(Key::Down, 0), Some((275, 0, Direction::Down, 180)));
    assert_eq!(spawn_params(Key::Left, 90), Some((800, 360, Direction::Left, -90)));
    assert_eq!(spawn_params(Key::Right, 45), Some((0, 445, Direction::Right, 90)));
    assert_eq!(spawn_params(Key::R, 0), None);
    assert_eq!(spawn_params(Key::Other, 0), None);
}

#[test]
fn step_traffic_stops_counts_and_marks() {
    let mut front = Vehicule::new(410, 470, Direction::Up, 0);
    front.frame_count = 3;
    let mut rear = Vehicule::new(410, 500, Direction::Up, 0);
    rear.frame_count = 10;
    let mut cars = VecDeque::new();
    cars.push_back(front);
    cars.push_back(rear);
    let mut close_calls = 5;
    step_traffic(&mut cars, &mut close_calls);
    assert_eq!(close_calls, 6);
    assert_eq!(cars.len(), 2);
    assert_eq!((cars[0].y, cars[0].frame_count, cars[0].states), (470, 4, true));
    assert_eq!((cars[1].y, cars[1].frame_count, cars[1].states), (500, 10, false));
    step_traffic(&mut cars, &mut close_calls);
    assert_eq!(close_calls, 6);
    assert!(!cars[1].states);
}

#[test]
fn step_traffic_speed_choice_and_removal() {
    let mut free = Vehicule::new(100, 500, Direction::Up, 0);
    free.frame_count = 10;
    let mut slowed = Vehicule::new(410, 700, Direction::Up, 0);
    slowed.frame_count = 12;
    let far_ahead = Vehicule::new(410, 500, Direction::Up, 0);
    let mut leaving = Vehicule::new(810, 270, Direction::Right, 90);
    leaving.frame_count = 10;
    let mut cars = VecDeque::new();
    cars.push_back(free);
    cars.push_back(slowed);
    cars.push_back(far_ahead);
    cars.push_back(leaving);
    let mut close_calls = 0;
    step_traffic(&mut cars, &mut close_calls);
    assert_eq!(close_calls, 0);
    assert_eq!(cars.len(), 3);
    assert_eq!((cars[0].y, cars[0].speed, cars[0].frame_count, cars[0].distance), (497, 3, 0, 3));
    assert_eq!((cars[1].y, cars[1].speed, cars[1].frame_count, cars[1].distance), (699, 1, 0, 1));
    assert_eq!((cars[2].y, cars[2].frame_count), (500, 1));
}

#[test]
fn distances_are_ordered() {
    assert_eq!(DISTANCE, 40);
    assert_eq!(SAFE_DISTANCE, 300);
}

#[test]
fn road_place_and_lock() {
    let mut road = Road::new();
    assert!(road.cars.is_empty());
    assert!(!road.can_add);
    assert!(!road.place(Key::Other, 0));
    assert!(road.cars.is_empty());
    assert!(road.place(Key::Right, 90));
    assert!(road.can_add);
    assert_eq!(road.cars.len(), 1);
    let v = road.cars[0];
    assert_eq!((v.x, v.y, v.direction, v.angle, v.speed), (0, 490, vehicule::Direction::Right, 90, 3));
    assert!(!road.place(Key::Up, 0));
    assert!(!road.on_key(Key::Up));
    assert_eq!(road.cars.len(), 1);
}

#[test]
fn road_on_key_draws_a_lane() {
    for _ in 0..50 {
        let mut road = Road::new();
        assert!(road.on_key(Key::Up));
        let v = road.cars[0];
        assert!(v.x == 410 || v.x == 455 || v.x == 500, "x = {}", v.x);
        assert_eq!(v.y, 800);
        assert_eq!(v.direction, vehicule::Direction::Up);
    }
    for _ in 0..50 {
        let mut road = Road::new();
        assert!(road.on_key(Key::R));
        let v = road.cars[0];
        let ok = match v.direction {
            vehicule::Direction::Up => [410, 455, 500].contains(&v.x) && v.y == 800,
            vehicule::Direction::Down => [275, 320, 365].contains(&v.x) && v.y == 0,
            vehicule::Direction::Left => v.x == 800 && [270, 315, 360].contains(&v.y),
            vehicule::Direction::Right => v.x == 0 && [400, 445, 490].contains(&v.y),
        };
        assert!(ok);
    }
    let mut road = Road::new();
    assert!(!road.on_key(Key::Other));
    assert!(!road.can_add);
}

#[test]
fn road_cooldown_unlocks_after_350_frames() {
    let mut road = Road::new();
    assert!(road.place(Key::Down, 0));
    for _ in 0..(COOLDOWN_FRAMES - 1) {
        road.tick_cooldown();
        assert!(road.can_add);
    }
    assert_eq!(road.cooldown_time, 349);
    road.tick_cooldown();
    assert!(!road.can_add);
    assert_eq!(road.cooldown_time, 0);
    road.tick_cooldown();
    assert_eq!(road.cooldown_time, 0);
    assert!(road.place(Key::Left, 0));
}

#[test]
fn road_advance_moves_and_removes() {
    let mut road = Road::new();
    let mut a = vehicule::Vehicule::new(410, 500, vehicule::Direction::Up, 0);
    a.frame_count = 10;
    let mut b = vehicule::Vehicule::new(410, 470, vehicule::Direction::Up, 0);
    b.frame_count = 10;
    let mut gone = vehicule::Vehicule::new(275, 810, vehicule::Direction::Down, 180);
    gone.frame_count = 10;
    road.cars.push_back(a);
    road.cars.push_back(b);
    road.cars.push_back(gone);
    assert!(road.frame_ok());
    road.advance();
    assert_eq!(road.cars.len(), 2);
    assert_eq!((road.cars[0].y, road.cars[0].frame_count, road.cars[0].states), (500, 10, true));
    assert_eq!((road.cars[1].y, road.cars[1].frame_count, road.cars[1].speed), (467, 0, 3));
    road.advance();
    assert_eq!(road.cars[0].frame_count, 10);
    assert_eq!(road.cars[0].y, 500);
}

#[test]
fn road_frame_ok_is_exact() {
    let mut road = Road::new();
    road.cars.push_back(vehicule::Vehicule::new(2_000_000, 0, vehicule::Direction::Left, -90));
    assert!(road.frame_ok());
    road.cars.push_back(vehicule::Vehicule::new(-2_147_483_000, 0, vehicule::Direction::Left, -90));
    assert!(!road.frame_ok());

    let mut edge = Road::new();
    let mut v = vehicule::Vehicule::new(0, i32::MIN + 2, vehicule::Direction::Up, 0);
    v.frame_count = 9;
    edge.cars.push_back(v);
    assert!(edge.frame_ok());
    edge.cars[0].frame_count = 10;
    assert!(!edge.frame_ok());
    edge.cars[0].y = i32::MIN + 3;
    assert!(edge.frame_ok());
}

#[test]
fn road_place_drawn_maps_pick_and_lane() {
    let expected = [
        (vehicule::Direction::Up, 500, 800),
        (vehicule::Direction::Down, 365, 0),
        (vehicule::Direction::Left, 800, 360),
        (vehicule::Direction::Right, 0, 490),
    ];
    for (pick, (dir, x, y)) in expected.iter().enumerate() {
        let mut road = Road::new();
        assert!(road.place_drawn(Key::R, pick, 2));
        let v = road.cars[0];
        assert_eq!((v.direction, v.x, v.y), (*dir, *x, *y));
    }
    let mut road = Road::new();
    assert!(road.place_drawn(Key::Left, 3, 1));
    let v = road.cars[0];
    assert_eq!((v.direction, v.x, v.y, v.angle), (vehicule::Direction::Left, 800, 315, -90));
    assert!(!road.place_drawn(Key::Up, 0, 0));
    assert_eq!(road.cars.len(), 1);
    let mut other = Road::new();
    assert!(!other.place_drawn(Key::Other, 0, 0));
    assert!(other.cars.is_empty());
    assert!(!other.can_add);
}
