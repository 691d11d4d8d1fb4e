//! A verified 2D vehicle-dynamics core.
//!
//! Once per simulation tick the host first feeds the current key snapshot
//! to the control mapper ([`control::control_car`]), then lets the physics
//! integrator advance the state ([`physics::update_car_physics`],
//! [`physics::update_car_kinematics`], [`physics::update_car_position`]).
//! All quantities are fixed-point numbers ([`fixed::SCALE`] raw units per
//! physical unit); the few transcendental samples the integrator needs
//! (brake response curve, tangent of the steering angle, cosine and sine
//! of the heading) are evaluated by the host between the phases and handed
//! in as plain values, and the contracts state what is done with them for
//! every value they may take.

pub mod car;
pub mod control;
pub mod fixed;
pub mod laws;
pub mod physics;
