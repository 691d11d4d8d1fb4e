//! Tests for the physics integrator phases: steering relaxation, speed
//! integration, and the kinematic update.

use teslite::car::{spawn_car, CarPhysics, SurfaceProperties, TransmissionMode};
use teslite::physics::{update_car_kinematics, update_car_physics, update_car_position};

const FULL_GRIP: SurfaceProperties = SurfaceProperties { friction_coefficient: 1_000_000 };

fn drive_car() -> CarPhysics {
    let mut car = spawn_car();
    car.mode = TransmissionMode::Drive;
    car
}

#[test]
fn spawned_car_has_designer_parameters() {
    let car = spawn_car();
    assert_eq!(car.mode, TransmissionMode::Park);
    assert_eq!(car.speed, 0);
    assert_eq!(car.accelerator, 0);
    assert_eq!(car.brake, 0);
    assert_eq!(car.max_steering_angle, 20_000);
    assert_eq!(car.steering_angle_speed, 2_000_000);
    assert_eq!(car.max_speed, 200_000_000);
    assert_eq!(car.wheelbase, 2_500_000);
    assert_eq!(car.mass, 1_000_000);
    assert_eq!(car.tire_grip, 1_000_000);
    assert_eq!(car.accel_ramp_up, 8_000_000);
    assert_eq!(car.accel_ramp_down, 8_000_000);
    assert_eq!(car.brake_ramp_up, 40_000_000);
    assert_eq!(car.brake_ramp_down, 10_000_000);
    assert_eq!(car.max_acceleration, 80_000_000);
    assert_eq!(car.max_braking, 300_000_000);
    assert_eq!(car.idle_speed_forward, 30_000_000);
    assert_eq!(car.idle_speed_reverse, -30_000_000);
}

#[test]
fn heading_saturates_at_the_representation_rim() {
    let mut car = drive_car();
    car.speed = 200_000_000;
    car.wheelbase = 1;
    car.steering_angle = 20_000;
    car.heading = i64::MAX - 5;
    update_car_kinematics(&mut car, 1_000_000_000_000, 1_000_000_000);
    assert_eq!(car.heading, i64::MAX);
}

#[test]
fn steering_snaps_exactly_when_gap_equals_step() {
    // rate 2 rad/s, dt 0.005 s: capped step 10_000 equals the gap.
    let mut car = spawn_car();
    car.target_steering_angle = 10_000;
    update_car_physics(&mut car, &FULL_GRIP, 0, 5_000);
    assert_eq!(car.steering_angle, 10_000);
}

#[test]
fn steering_moves_by_capped_step() {
    let mut car = spawn_car();
    car.target_steering_angle = 20_000;
    update_car_physics(&mut car, &FULL_GRIP, 0, 5_000);
    assert_eq!(car.steering_angle, 10_000);
    update_car_physics(&mut car, &FULL_GRIP, 0, 5_000);
    assert_eq!(car.steering_angle, 20_000);
    // and back down toward a lowered target
    car.target_steering_angle = 15_000;
    update_car_physics(&mut car, &FULL_GRIP, 0, 5_000);
    assert_eq!(car.steering_angle, 15_000);
}

#[test]
fn park_forces_speed_to_zero() {
    let mut car = drive_car();
    car.speed = 50_000_000;
    car.mode = TransmissionMode::Park;
    let heading_before = car.heading;
    let x_before = car.position_x;
    update_car_physics(&mut car, &FULL_GRIP, 0, 16_667);
    update_car_kinematics(&mut car, 0, 16_667);
    update_car_position(&mut car, 1_000_000, 0, 16_667);
    assert_eq!(car.speed, 0);
    assert_eq!(car.heading, heading_before);
    assert_eq!(car.position_x, x_before);
}

#[test]
fn idle_creep_pulls_to_idle_speed_in_one_long_tick() {
    // Pedals released: the pull is proportional with unit gain per
    // second, so a one-second tick lands exactly on the idle speed.
    let mut car = drive_car();
    update_car_physics(&mut car, &FULL_GRIP, 0, 1_000_000);
    assert_eq!(car.speed, 30_000_000);
}

#[test]
fn idle_creep_never_overshoots_from_above() {
    let mut car = drive_car();
    car.speed = 50_000_000;
    let mut previous = car.speed;
    for _ in 0..1200 {
        update_car_physics(&mut car, &FULL_GRIP, 0, 16_667);
        assert!(car.speed <= previous, "speed must fall monotonically");
        assert!(car.speed >= 30_000_000, "speed must not cross the idle speed");
        previous = car.speed;
    }
    // After twenty seconds the speed has settled at the idle speed up
    // to the truncation stall of the fixed-point pull.
    assert!(car.speed - 30_000_000 <= 60);
}

#[test]
fn full_accelerator_integrates_exactly() {
    let mut car = drive_car();
    car.accelerator = 1_000_000;
    // 80 units/s^2 over 1/60 s (dt 16_667 raw): 1_333_360 raw.
    update_car_physics(&mut car, &FULL_GRIP, 0, 16_667);
    assert_eq!(car.speed, 1_333_360);
}

#[test]
fn reverse_accelerates_backward() {
    let mut car = drive_car();
    car.mode = TransmissionMode::Reverse;
    car.accelerator = 1_000_000;
    update_car_physics(&mut car, &FULL_GRIP, 0, 16_667);
    assert_eq!(car.speed, -1_333_360);
}

#[test]
fn brake_opposes_forward_motion() {
    let mut car = drive_car();
    car.speed = 10_000_000;
    car.brake = 500_000;
    // A brake-response sample of 0.5: braking force 150 units/s^2
    // against the motion, over 1/60 s.
    update_car_physics(&mut car, &FULL_GRIP, 500_000, 16_667);
    assert_eq!(car.speed, 10_000_000 - 2_500_050);
}

#[test]
fn brake_opposes_backward_motion() {
    let mut car = drive_car();
    car.mode = TransmissionMode::Reverse;
    car.speed = -10_000_000;
    car.brake = 500_000;
    update_car_physics(&mut car, &FULL_GRIP, 500_000, 16_667);
    assert_eq!(car.speed, -10_000_000 + 2_500_050);
}

#[test]
fn speed_clamps_at_max_speed() {
    let mut car = drive_car();
    car.speed = 199_500_000;
    car.accelerator = 1_000_000;
    update_car_physics(&mut car, &FULL_GRIP, 0, 1_000_000);
    assert_eq!(car.speed, 200_000_000);
}

#[test]
fn zero_friction_freezes_speed_in_both_branches() {
    let ice = SurfaceProperties { friction_coefficient: 0 };

    // Idle-seeking branch: the pull itself is scaled to zero.
    let mut coasting = drive_car();
    coasting.speed = 50_000_000;
    update_car_physics(&mut coasting, &ice, 0, 16_667);
    assert_eq!(coasting.speed, 50_000_000);

    // Pedal branch: driving and braking forces are scaled to zero too.
    let mut flooring = drive_car();
    flooring.speed = 50_000_000;
    flooring.accelerator = 1_000_000;
    flooring.brake = 1_000_000;
    update_car_physics(&mut flooring, &ice, 950_213, 16_667);
    assert_eq!(flooring.speed, 50_000_000);
}

#[test]
fn straight_steering_gives_no_yaw() {
    let mut car = drive_car();
    car.speed = 10_000_000;
    car.steering_angle = 1; // within the epsilon guard
    update_car_kinematics(&mut car, 123_456, 16_667);
    assert_eq!(car.heading, 0);
}

#[test]
fn yaw_follows_bicycle_model() {
    let mut car = drive_car();
    car.speed = 10_000_000;
    car.steering_angle = 20_000;
    // speed / wheelbase = 4; with tan(steering) sampled as 0.020003,
    // the yaw rate is 4 * 0.020003 = 0.080012 rad/s over one second.
    update_car_kinematics(&mut car, 20_003, 1_000_000);
    assert_eq!(car.heading, 80_012);
}

#[test]
fn position_advances_along_heading() {
    let mut car = drive_car();
    car.speed = 10_000_000;
    update_car_position(&mut car, 1_000_000, 0, 1_000_000);
    assert_eq!(car.position_x, 10_000_000);
    assert_eq!(car.position_y, 0);

    update_car_position(&mut car, 707_107, 707_107, 1_000_000);
    assert_eq!(car.position_x, 10_000_000 + 7_071_070);
    assert_eq!(car.position_y, 7_071_070);
}
