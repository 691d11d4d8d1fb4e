//! The vehicle state, the environment, and the per-tick input snapshot.

use vstd::prelude::*;

use crate::fixed::{DT_LIMIT, PARAM_LIMIT, SCALE};

verus! {

/// Transmission selector. `Park` is absorbing for motion: it forces the
/// speed to zero and suppresses the kinematic update.
#[derive(Clone, Copy, PartialEq, Eq, Structural, Debug)]
pub enum TransmissionMode {
    Park,
    Drive,
    Reverse,
}

/// The full per-car state, all quantities in raw fixed-point units.
///
/// The fields up to `mode` are mutated by the per-tick functions; the
/// remaining fields are configuration parameters, fixed at construction.
#[derive(Clone, Copy, PartialEq, Eq, Structural, Debug)]
pub struct CarPhysics {
    /// Signed longitudinal speed; the sign encodes forward/reverse.
    pub speed: i64,
    /// World-frame yaw angle in radians; accumulates without wrapping.
    pub heading: i64,
    /// World-frame coordinates.
    pub position_x: i64,
    pub position_y: i64,
    /// Current and desired front-wheel angle.
    pub steering_angle: i64,
    pub target_steering_angle: i64,
    /// Smoothed pedal levels, in `[0, SCALE]`.
    pub accelerator: i64,
    pub brake: i64,
    pub mode: TransmissionMode,

    pub max_steering_angle: i64,
    pub steering_angle_speed: i64,
    pub max_speed: i64,
    pub wheelbase: i64,
    pub mass: i64,
    pub tire_grip: i64,
    pub accel_ramp_up: i64,
    pub accel_ramp_down: i64,
    pub brake_ramp_up: i64,
    pub brake_ramp_down: i64,
    pub max_acceleration: i64,
    pub max_braking: i64,
    pub idle_speed_forward: i64,
    pub idle_speed_reverse: i64,
}

/// Environment-wide surface description, shared read-only within a tick.
#[derive(Clone, Copy, Debug)]
pub struct SurfaceProperties {
    /// Multiplier on the net driving/braking force; zero models ice.
    pub friction_coefficient: i64,
}

/// One tick's worth of discrete driver input. The mode selectors are
/// edge-triggered (true only on the tick the key went down); the others
/// report whether the key is held.
#[derive(Clone, Copy, Debug)]
pub struct ControlInput {
    pub park_pressed: bool,
    pub drive_pressed: bool,
    pub reverse_pressed: bool,
    pub accelerate_held: bool,
    pub brake_held: bool,
    pub steer_left_held: bool,
    pub steer_right_held: bool,
}

/// Construction-time invariant on the configuration parameters: the
/// divisors are strictly positive, everything is bounded so that the
/// tick arithmetic stays within `i128` intermediates, and the creep
/// speeds point the way their transmission mode drives.
pub open spec fn valid_params(c: CarPhysics) -> bool {
    &&& 0 < c.max_speed <= PARAM_LIMIT
    &&& 0 <= c.max_steering_angle <= PARAM_LIMIT
    &&& 0 <= c.steering_angle_speed <= PARAM_LIMIT
    &&& 0 < c.wheelbase <= PARAM_LIMIT
    &&& 0 < c.mass <= PARAM_LIMIT
    &&& 0 <= c.tire_grip <= PARAM_LIMIT
    &&& 0 <= c.accel_ramp_up <= PARAM_LIMIT
    &&& 0 <= c.accel_ramp_down <= PARAM_LIMIT
    &&& 0 <= c.brake_ramp_up <= PARAM_LIMIT
    &&& 0 <= c.brake_ramp_down <= PARAM_LIMIT
    &&& 0 <= c.max_acceleration <= PARAM_LIMIT
    &&& 0 <= c.max_braking <= PARAM_LIMIT
    &&& 0 <= c.idle_speed_forward <= c.max_speed
    &&& -c.max_speed <= c.idle_speed_reverse <= 0
}

/// Tick invariant: the parameters are valid and every bounded dynamic
/// quantity lies in its range.
pub open spec fn valid_state(c: CarPhysics) -> bool {
    &&& valid_params(c)
    &&& -c.max_speed <= c.speed <= c.max_speed
    &&& 0 <= c.accelerator <= SCALE
    &&& 0 <= c.brake <= SCALE
    &&& -c.max_steering_angle <= c.steering_angle <= c.max_steering_angle
    &&& -c.max_steering_angle <= c.target_steering_angle <= c.max_steering_angle
}

/// The two components never touch the configuration fields.
pub open spec fn same_params(a: CarPhysics, b: CarPhysics) -> bool {
    &&& a.max_steering_angle == b.max_steering_angle
    &&& a.steering_angle_speed == b.steering_angle_speed
    &&& a.max_speed == b.max_speed
    &&& a.wheelbase == b.wheelbase
    &&& a.mass == b.mass
    &&& a.tire_grip == b.tire_grip
    &&& a.accel_ramp_up == b.accel_ramp_up
    &&& a.accel_ramp_down == b.accel_ramp_down
    &&& a.brake_ramp_up == b.brake_ramp_up
    &&& a.brake_ramp_down == b.brake_ramp_down
    &&& a.max_acceleration == b.max_acceleration
    &&& a.max_braking == b.max_braking
    &&& a.idle_speed_forward == b.idle_speed_forward
    &&& a.idle_speed_reverse == b.idle_speed_reverse
}

/// A surface usable by the integrator.
pub open spec fn valid_surface(s: SurfaceProperties) -> bool {
    0 <= s.friction_coefficient <= PARAM_LIMIT
}

/// A time step the tick functions accept: non-negative and bounded.
pub open spec fn valid_dt(dt: int) -> bool {
    0 <= dt <= DT_LIMIT
}

/// Builds the car the simulation spawns at start-up, at the origin, in
/// `Park`, with the designer-chosen parameters (raw units: one millionth
/// of a physical unit).
pub fn spawn_car() -> (c: CarPhysics)
    ensures
        valid_state(c),
        c.speed == 0,
        c.heading == 0,
        c.position_x == 0,
        c.position_y == 0,
        c.steering_angle == 0,
        c.target_steering_angle == 0,
        c.accelerator == 0,
        c.brake == 0,
        c.mode == TransmissionMode::Park,
        c.max_steering_angle == 20_000,
        c.steering_angle_speed == 2_000_000,
        c.max_speed == 200_000_000,
        c.wheelbase == 2_500_000,
        c.mass == 1_000_000,
        c.tire_grip == 1_000_000,
        c.accel_ramp_up == 8_000_000,
        c.accel_ramp_down == 8_000_000,
        c.brake_ramp_up == 40_000_000,
        c.brake_ramp_down == 10_000_000,
        c.max_acceleration == 80_000_000,
        c.max_braking == 300_000_000,
        c.idle_speed_forward == 30_000_000,
        c.idle_speed_reverse == -30_000_000,
{
    CarPhysics {
        speed: 0,
        heading: 0,
        position_x: 0,
        position_y: 0,
        steering_angle: 0,
        target_steering_angle: 0,
        accelerator: 0,
        brake: 0,
        mode: TransmissionMode::Park,
        max_steering_angle: 20_000,
        steering_angle_speed: 2_000_000,
        max_speed: 200_000_000,
        wheelbase: 2_500_000,
        mass: 1_000_000,
        tire_grip: 1_000_000,
        accel_ramp_up: 8_000_000,
        accel_ramp_down: 8_000_000,
        brake_ramp_up: 40_000_000,
        brake_ramp_down: 10_000_000,
        max_acceleration: 80_000_000,
        max_braking: 300_000_000,
        idle_speed_forward: 30_000_000,
        idle_speed_reverse: -30_000_000,
    }
}

impl CarPhysics {
    /// Accelerator level as a whole-number percentage, for the HUD bar.
    pub fn accelerator_percent(&self) -> (r: i64)
        requires
            0 <= self.accelerator <= SCALE,
        ensures
            r == crate::fixed::div_t((self.accelerator as int) * 100, SCALE as int),
            0 <= r <= 100,
    {
        (self.accelerator * 100) / SCALE
    }

    /// Brake level as a whole-number percentage, for the HUD bar.
    pub fn brake_percent(&self) -> (r: i64)
        requires
            0 <= self.brake <= SCALE,
        ensures
            r == crate::fixed::div_t((self.brake as int) * 100, SCALE as int),
            0 <= r <= 100,
    {
        (self.brake * 100) / SCALE
    }

    /// The transmission mode's HUD label.
    pub fn mode_label(&self) -> (r: &'static str)
        ensures
            self.mode == TransmissionMode::Park ==> r@ == "Park"@,
            self.mode == TransmissionMode::Drive ==> r@ == "Drive"@,
            self.mode == TransmissionMode::Reverse ==> r@ == "Reverse"@,
    {
        match self.mode {
            TransmissionMode::Park => "Park",
            TransmissionMode::Drive => "Drive",
            TransmissionMode::Reverse => "Reverse",
        }
    }
}

} // verus!
