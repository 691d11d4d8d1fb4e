//! Whole-tick scenarios driving the mapper and all three integrator
//! phases in their fixed order, with the transcendental samples
//! evaluated the way a host would (here on a straight road, where they
//! are exact constants).

use teslite::car::{spawn_car, CarPhysics, ControlInput, SurfaceProperties, TransmissionMode};
use teslite::control::control_car;
use teslite::physics::{update_car_kinematics, update_car_physics, update_car_position};

const ROAD: SurfaceProperties = SurfaceProperties { friction_coefficient: 1_000_000 };
const DT: i64 = 16_667; // about one sixtieth of a second

fn no_keys() -> ControlInput {
    ControlInput {
        park_pressed: false,
        drive_pressed: false,
        reverse_pressed: false,
        accelerate_held: false,
        brake_held: false,
        steer_left_held: false,
        steer_right_held: false,
    }
}

/// One whole tick on a straight road: steering and heading stay zero, so
/// tan, cos and sin are the exact constants 0, 1 and 0, and the brake
/// response sample is 0 while the brake pedal sits at zero.
fn straight_tick(car: &mut CarPhysics, input: &ControlInput) {
    control_car(car, input, DT);
    assert_eq!(car.brake, 0, "these scenarios never touch the brake");
    update_car_physics(car, &ROAD, 0, DT);
    update_car_kinematics(car, 0, DT);
    update_car_position(car, 1_000_000, 0, DT);
}

#[test]
fn press_drive_and_floor_it() {
    let mut car = spawn_car();

    let mut shift = no_keys();
    shift.drive_pressed = true;
    shift.accelerate_held = true;
    straight_tick(&mut car, &shift);
    assert_eq!(car.mode, TransmissionMode::Drive);

    let mut floor = no_keys();
    floor.accelerate_held = true;

    let mut ramp_ticks = 1;
    while car.accelerator < 1_000_000 {
        straight_tick(&mut car, &floor);
        ramp_ticks += 1;
        assert!(ramp_ticks <= 9, "the 8/s ramp must reach full scale within 9 ticks");
    }

    // Two simulated seconds of full throttle: strictly increasing,
    // never above the speed limit.
    let mut previous = car.speed;
    for _ in 0..120 {
        straight_tick(&mut car, &floor);
        assert!(car.speed > previous, "speed must rise strictly every tick");
        assert!(car.speed <= 200_000_000);
        previous = car.speed;
    }
    assert!(car.position_x > 0);
    assert_eq!(car.position_y, 0);
    assert_eq!(car.heading, 0);
}

#[test]
fn shifting_to_park_halts_immediately() {
    let mut car = spawn_car();
    car.mode = TransmissionMode::Drive;
    car.speed = 80_000_000;

    let mut stop = no_keys();
    stop.park_pressed = true;
    let x_before = car.position_x;
    straight_tick(&mut car, &stop);
    assert_eq!(car.mode, TransmissionMode::Park);
    assert_eq!(car.speed, 0);
    assert_eq!(car.position_x, x_before);

    // Park is absorbing: further ticks move nothing.
    let before = car;
    straight_tick(&mut car, &no_keys());
    assert_eq!(car, before);
}

#[test]
fn zero_dt_tick_changes_nothing() {
    let mut car = spawn_car();
    car.mode = TransmissionMode::Drive;
    car.speed = 42_000_000;
    car.steering_angle = 7_000;
    car.target_steering_angle = 12_000;
    car.accelerator = 250_000;
    car.heading = 123_456;
    car.position_x = -9_999;
    car.position_y = 88;

    let before = car;
    let mut held = no_keys();
    held.accelerate_held = true;
    held.steer_right_held = true;
    control_car(&mut car, &held, 0);
    update_car_physics(&mut car, &ROAD, 321_654, 0);
    update_car_kinematics(&mut car, 7_000, 0);
    update_car_position(&mut car, 999_999, 1_414, 0);
    assert_eq!(car, before);
}

#[test]
fn release_pedals_and_settle_to_creep() {
    let mut car = spawn_car();
    car.mode = TransmissionMode::Drive;
    car.speed = 50_000_000;

    let coast = no_keys();
    for _ in 0..1200 {
        straight_tick(&mut car, &coast);
        assert!(car.speed >= 30_000_000);
        assert!(car.speed <= 50_000_000);
    }
    assert!(car.speed - 30_000_000 <= 60);
}
