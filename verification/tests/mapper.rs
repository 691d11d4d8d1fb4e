//! Tests for the control mapper: mode edges, pedal ramping, steering
//! target adjustment, and the HUD readouts.

use teslite::car::{spawn_car, ControlInput, TransmissionMode};
use teslite::control::control_car;

fn idle_input() -> ControlInput {
    ControlInput {
        park_pressed: false,
        drive_pressed: false,
        reverse_pressed: false,
        accelerate_held: false,
        brake_held: false,
        steer_left_held: false,
        steer_right_held: false,
    }
}

#[test]
fn mode_shift_on_edge_only() {
    let mut car = spawn_car();
    assert_eq!(car.mode, TransmissionMode::Park);

    let mut input = idle_input();
    input.drive_pressed = true;
    control_car(&mut car, &input, 16_667);
    assert_eq!(car.mode, TransmissionMode::Drive);

    // Without a fresh edge the mode stays, whatever else is held.
    let mut held = idle_input();
    held.accelerate_held = true;
    control_car(&mut car, &held, 16_667);
    assert_eq!(car.mode, TransmissionMode::Drive);

    let mut reverse = idle_input();
    reverse.reverse_pressed = true;
    control_car(&mut car, &reverse, 16_667);
    assert_eq!(car.mode, TransmissionMode::Reverse);
}

#[test]
fn mode_simultaneous_presses_last_selector_wins() {
    let mut car = spawn_car();
    let mut input = idle_input();
    input.park_pressed = true;
    input.drive_pressed = true;
    input.reverse_pressed = true;
    control_car(&mut car, &input, 16_667);
    assert_eq!(car.mode, TransmissionMode::Reverse);
}

#[test]
fn accelerator_ramps_up_and_saturates() {
    // ramp up 8/s, dt 0.05 s: 0.4 of full scale each tick.
    let mut car = spawn_car();
    let mut input = idle_input();
    input.accelerate_held = true;

    control_car(&mut car, &input, 50_000);
    assert_eq!(car.accelerator, 400_000);
    control_car(&mut car, &input, 50_000);
    assert_eq!(car.accelerator, 800_000);
    control_car(&mut car, &input, 50_000);
    assert_eq!(car.accelerator, 1_000_000); // clamped at the target, no overshoot
    control_car(&mut car, &input, 50_000);
    assert_eq!(car.accelerator, 1_000_000);
}

#[test]
fn accelerator_releases_to_zero() {
    let mut car = spawn_car();
    car.accelerator = 1_000_000;
    let input = idle_input();

    // ramp down 8/s, dt 0.05 s: 0.4 of full scale each tick.
    control_car(&mut car, &input, 50_000);
    assert_eq!(car.accelerator, 600_000);
    control_car(&mut car, &input, 50_000);
    assert_eq!(car.accelerator, 200_000);
    control_car(&mut car, &input, 50_000);
    assert_eq!(car.accelerator, 0); // stops at zero, no undershoot
}

#[test]
fn brake_attack_and_release_are_asymmetric() {
    // brake ramp up 40/s but down 10/s: full bite in one 0.05 s tick,
    // four ticks to let go.
    let mut car = spawn_car();
    let mut pressed = idle_input();
    pressed.brake_held = true;

    control_car(&mut car, &pressed, 50_000);
    assert_eq!(car.brake, 1_000_000);

    let released = idle_input();
    control_car(&mut car, &released, 50_000);
    assert_eq!(car.brake, 500_000);
    control_car(&mut car, &released, 50_000);
    assert_eq!(car.brake, 0);
}

#[test]
fn steering_target_moves_left_and_right() {
    // At standstill the increment is the full base rate: 0.1 rad/s.
    let mut car = spawn_car();
    let mut left = idle_input();
    left.steer_left_held = true;
    control_car(&mut car, &left, 100_000);
    assert_eq!(car.target_steering_angle, 10_000);

    let mut right = idle_input();
    right.steer_right_held = true;
    control_car(&mut car, &right, 100_000);
    assert_eq!(car.target_steering_angle, 0);
    control_car(&mut car, &right, 100_000);
    assert_eq!(car.target_steering_angle, -10_000);
}

#[test]
fn steering_target_both_keys_cancel() {
    let mut car = spawn_car();
    let mut both = idle_input();
    both.steer_left_held = true;
    both.steer_right_held = true;
    control_car(&mut car, &both, 100_000);
    assert_eq!(car.target_steering_angle, 0);
}

#[test]
fn steering_target_clamped_at_limit() {
    let mut car = spawn_car();
    car.target_steering_angle = 15_000; // limit is 20_000
    let mut left = idle_input();
    left.steer_left_held = true;
    control_car(&mut car, &left, 100_000);
    assert_eq!(car.target_steering_angle, 20_000);
    control_car(&mut car, &left, 100_000);
    assert_eq!(car.target_steering_angle, 20_000);
}

#[test]
fn steering_authority_halves_at_top_speed() {
    let mut car = spawn_car();
    car.speed = 200_000_000; // at max_speed the rate factor is 1/2
    let mut left = idle_input();
    left.steer_left_held = true;
    control_car(&mut car, &left, 100_000);
    assert_eq!(car.target_steering_angle, 5_000);
}

#[test]
fn zero_dt_mapper_changes_no_level() {
    let mut car = spawn_car();
    car.accelerator = 300_000;
    car.brake = 700_000;
    car.target_steering_angle = -4_000;
    let before = car;
    let mut input = idle_input();
    input.accelerate_held = true;
    input.brake_held = true;
    input.steer_left_held = true;
    control_car(&mut car, &input, 0);
    assert_eq!(car, before);
}

#[test]
fn hud_readouts() {
    let mut car = spawn_car();
    car.accelerator = 400_000;
    car.brake = 1_000_000;
    assert_eq!(car.accelerator_percent(), 40);
    assert_eq!(car.brake_percent(), 100);
    assert_eq!(car.mode_label(), "Park");
    car.mode = TransmissionMode::Drive;
    assert_eq!(car.mode_label(), "Drive");
    car.mode = TransmissionMode::Reverse;
    assert_eq!(car.mode_label(), "Reverse");
}
