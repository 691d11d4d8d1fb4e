//! Physics integrator: steering relaxation, longitudinal speed, and the
//! bicycle-model kinematic update.
//!
//! The integrator is split into three phases because the transcendental
//! samples it consumes depend on values produced mid-tick: the host calls
//! [`update_car_physics`] with the brake-response sample for the current
//! brake level, then evaluates `tan` of the fresh steering angle for
//! [`update_car_kinematics`], then `cos`/`sin` of the fresh heading for
//! [`update_car_position`].

use vstd::prelude::*;

use crate::car::{
    valid_dt, valid_state, valid_surface, CarPhysics, SurfaceProperties, TransmissionMode,
};
use crate::fixed::{abs_s, clamp_s, div_t, sat64, sgn_s, SCALE};

verus! {

/// Steering angles at most this far (in raw units) from zero are treated
/// as zero in the yaw-rate formula, guarding the near-zero numerical
/// region (one raw unit is 1e-6 rad).
pub const STEER_EPSILON: i64 = 1;

/// Bound the host must keep on a tangent sample handed to the
/// kinematic update (one million in physical units).
pub const TRIG_LIMIT: i64 = 1_000_000_000_000;

/// Steering relaxation: move the current angle toward the target at a
/// rate capped by `steering_angle_speed * dt`; when the remaining gap is
/// smaller than the capped step, snap exactly to the target.
pub open spec fn steering_after(current: int, target: int, rate: int, dt: int) -> int {
    let max_change = div_t(rate * dt, SCALE as int);
    let diff = target - current;
    if abs_s(diff) < max_change {
        target
    } else {
        current + max_change * sgn_s(diff)
    }
}

/// The mode-dependent creep speed the car seeks with both pedals
/// released.
pub open spec fn idle_speed_of(c: CarPhysics) -> int {
    match c.mode {
        TransmissionMode::Park => 0,
        TransmissionMode::Drive => c.idle_speed_forward as int,
        TransmissionMode::Reverse => c.idle_speed_reverse as int,
    }
}

/// The force-equivalent term before traction scaling, for a car not in
/// `Park`. With both pedals released it is a proportional pull toward the
/// idle speed; otherwise the accelerator pushes in the mode's direction
/// and the brake (through the host-supplied response sample
/// `brake_curve`) pushes toward zero speed.
pub open spec fn raw_accel(c: CarPhysics, brake_curve: int) -> int {
    if c.accelerator == 0 && c.brake == 0 {
        idle_speed_of(c) - c.speed
    } else {
        let pedal_accel = div_t((c.accelerator as int) * (c.max_acceleration as int), SCALE as int);
        let pedal_brake = div_t(brake_curve * (c.max_braking as int), SCALE as int);
        let driven: int = if c.mode == TransmissionMode::Drive {
            pedal_accel
        } else {
            -pedal_accel
        };
        let braking: int = if c.speed > 0 {
            -pedal_brake
        } else if c.speed < 0 {
            pedal_brake
        } else {
            0
        };
        driven + braking
    }
}

/// Speed change over the tick: the raw term scaled by traction
/// (`friction * tire_grip`), divided by the mass, integrated over `dt`.
pub open spec fn speed_delta(c: CarPhysics, friction: int, brake_curve: int, dt: int) -> int {
    let traction = div_t(friction * (c.tire_grip as int), SCALE as int);
    let scaled = div_t(raw_accel(c, brake_curve) * traction, SCALE as int);
    let accel = div_t(scaled * (SCALE as int), c.mass as int);
    div_t(accel * dt, SCALE as int)
}

/// New speed: `Park` forces exactly zero; otherwise the integrated speed
/// clamped to `[-max_speed, max_speed]`.
pub open spec fn speed_after(c: CarPhysics, friction: int, brake_curve: int, dt: int) -> int {
    if c.mode == TransmissionMode::Park {
        0
    } else {
        clamp_s(
            c.speed + speed_delta(c, friction, brake_curve, dt),
            -c.max_speed as int,
            c.max_speed as int,
        )
    }
}

/// The steering-and-speed phase as a whole: only `steering_angle` and
/// `speed` change.
pub open spec fn physics_step(
    c: CarPhysics,
    friction: int,
    brake_curve: int,
    dt: int,
) -> CarPhysics {
    CarPhysics {
        steering_angle: steering_after(
            c.steering_angle as int,
            c.target_steering_angle as int,
            c.steering_angle_speed as int,
            dt,
        ) as i64,
        speed: speed_after(c, friction, brake_curve, dt) as i64,
        ..c
    }
}

/// Bicycle-model yaw rate, with `tan_steering` the tangent of the current
/// steering angle: `(speed / wheelbase) * tan(steering_angle)`, except
/// that steering angles within [`STEER_EPSILON`] of zero give no yaw.
pub open spec fn yaw_rate(c: CarPhysics, tan_steering: int) -> int {
    if abs_s(c.steering_angle as int) > STEER_EPSILON as int {
        div_t(div_t((c.speed as int) * (SCALE as int), c.wheelbase as int) * tan_steering, SCALE as int)
    } else {
        0
    }
}

/// New heading: unchanged in `Park`, otherwise the yaw rate integrated
/// over `dt`, saturating at the representation's rim.
pub open spec fn heading_after(c: CarPhysics, tan_steering: int, dt: int) -> int {
    if c.mode == TransmissionMode::Park {
        c.heading as int
    } else {
        sat64(c.heading + div_t(yaw_rate(c, tan_steering) * dt, SCALE as int))
    }
}

/// The heading phase as a whole: only `heading` changes.
pub open spec fn kinematics_step(c: CarPhysics, tan_steering: int, dt: int) -> CarPhysics {
    CarPhysics { heading: heading_after(c, tan_steering, dt) as i64, ..c }
}

/// Displacement of one coordinate: `speed * trig * dt`, where `trig` is
/// the cosine (for x) or sine (for y) of the heading.
pub open spec fn position_delta(speed: int, trig: int, dt: int) -> int {
    div_t(div_t(speed * trig, SCALE as int) * (dt as int), SCALE as int)
}

/// The position phase as a whole: in `Park` nothing moves; otherwise the
/// position advances along the heading, saturating at the
/// representation's rim.
pub open spec fn position_step(c: CarPhysics, cos_heading: int, sin_heading: int, dt: int) -> CarPhysics {
    if c.mode == TransmissionMode::Park {
        c
    } else {
        CarPhysics {
            position_x: sat64(c.position_x + position_delta(c.speed as int, cos_heading, dt)) as i64,
            position_y: sat64(c.position_y + position_delta(c.speed as int, sin_heading, dt)) as i64,
            ..c
        }
    }
}

/// The steering-and-speed phase keeps the state invariant and leaves all
/// other fields and the parameters alone.
pub proof fn lemma_physics_step_valid(c: CarPhysics, friction: int, brake_curve: int, dt: int)
    requires
        valid_state(c),
        0 <= friction,
        dt >= 0,
    ensures
        valid_state(physics_step(c, friction, brake_curve, dt)),
        physics_step(c, friction, brake_curve, dt).heading == c.heading,
        physics_step(c, friction, brake_curve, dt).position_x == c.position_x,
        physics_step(c, friction, brake_curve, dt).position_y == c.position_y,
        physics_step(c, friction, brake_curve, dt).accelerator == c.accelerator,
        physics_step(c, friction, brake_curve, dt).brake == c.brake,
        physics_step(c, friction, brake_curve, dt).target_steering_angle == c.target_steering_angle,
        physics_step(c, friction, brake_curve, dt).mode == c.mode,
        crate::car::same_params(c, physics_step(c, friction, brake_curve, dt)),
{
    crate::fixed::lemma_div_t_shrinks((c.steering_angle_speed as int) * dt, SCALE as int);
    assert((c.steering_angle_speed as int) * dt >= 0) by (nonlinear_arith)
        requires
            c.steering_angle_speed >= 0,
            dt >= 0,
    ;
    let max_change = div_t((c.steering_angle_speed as int) * dt, SCALE as int);
    let diff = (c.target_steering_angle as int) - (c.steering_angle as int);
    if !(abs_s(diff) < max_change) {
        assert(
            -c.max_steering_angle <= (c.steering_angle as int) + max_change * sgn_s(diff)
                <= c.max_steering_angle
        ) by (nonlinear_arith)
            requires
                0 <= max_change <= abs_s(diff),
                diff == (c.target_steering_angle as int) - (c.steering_angle as int),
                -c.max_steering_angle <= c.steering_angle <= c.max_steering_angle,
                -c.max_steering_angle <= c.target_steering_angle <= c.max_steering_angle,
        ;
    }
}

/// Steering relaxation and longitudinal speed update (the first
/// integrator phase). `brake_curve` is the host-evaluated brake response
/// `1 - exp(-k * brake)` for the car's current brake level, a value in
/// `[0, SCALE]`; the contract holds for every such sample.
pub fn update_car_physics(
    car: &mut CarPhysics,
    surface: &SurfaceProperties,
    brake_curve: i64,
    dt: i64,
)
    requires
        valid_state(*old(car)),
        valid_surface(*surface),
        0 <= brake_curve <= SCALE,
        valid_dt(dt as int),
    ensures
        *final(car) == physics_step(
            *old(car),
            surface.friction_coefficient as int,
            brake_curve as int,
            dt as int,
        ),
        valid_state(*final(car)),
{
    proof {
        lemma_physics_step_valid(
            *car,
            surface.friction_coefficient as int,
            brake_curve as int,
            dt as int,
        );
        assert(0 <= (car.steering_angle_speed as int) * (dt as int)
            <= 1_000_000_000_000_000_000int) by (nonlinear_arith)
            requires
                0 <= car.steering_angle_speed <= 1_000_000_000,
                0 <= dt <= 1_000_000_000,
        ;
        crate::fixed::lemma_div_t_shrinks(
            (car.steering_angle_speed as int) * (dt as int),
            SCALE as int,
        );
    }

    let diff: i64 = car.target_steering_angle - car.steering_angle;
    let abs_diff: i64 = if diff >= 0 {
        diff
    } else {
        -diff
    };
    let max_change: i128 = (car.steering_angle_speed as i128) * (dt as i128) / (SCALE as i128);
    if (abs_diff as i128) < max_change {
        car.steering_angle = car.target_steering_angle;
    } else {
        let capped: i64 = max_change as i64;
        if diff > 0 {
            car.steering_angle = car.steering_angle + capped;
        } else if diff < 0 {
            car.steering_angle = car.steering_angle - capped;
        }
    }

    if car.mode == TransmissionMode::Park {
        car.speed = 0;
    } else {
        let idle_speed: i64 = if car.mode == TransmissionMode::Drive {
            car.idle_speed_forward
        } else {
            car.idle_speed_reverse
        };

        let base: i64 = if car.accelerator == 0 && car.brake == 0 {
            idle_speed - car.speed
        } else {
            proof {
                assert(0 <= (car.accelerator as int) * (car.max_acceleration as int)
                    <= 1_000_000_000_000_000int) by (nonlinear_arith)
                    requires
                        0 <= car.accelerator <= 1_000_000,
                        0 <= car.max_acceleration <= 1_000_000_000,
                ;
                assert(0 <= (brake_curve as int) * (car.max_braking as int)
                    <= 1_000_000_000_000_000int) by (nonlinear_arith)
                    requires
                        0 <= brake_curve <= 1_000_000,
                        0 <= car.max_braking <= 1_000_000_000,
                ;
                crate::fixed::lemma_div_t_ordered(
                    (car.accelerator as int) * (car.max_acceleration as int),
                    1_000_000_000_000_000int,
                    SCALE as int,
                );
                crate::fixed::lemma_div_t_ordered(
                    (brake_curve as int) * (car.max_braking as int),
                    1_000_000_000_000_000int,
                    SCALE as int,
                );
                crate::fixed::lemma_div_t_shrinks(
                    (car.accelerator as int) * (car.max_acceleration as int),
                    SCALE as int,
                );
                crate::fixed::lemma_div_t_shrinks(
                    (brake_curve as int) * (car.max_braking as int),
                    SCALE as int,
                );
            }
            let pedal_accel: i128 =
                (car.accelerator as i128) * (car.max_acceleration as i128) / (SCALE as i128);
            let pedal_brake: i128 =
                (brake_curve as i128) * (car.max_braking as i128) / (SCALE as i128);
            let driven: i128 = if car.mode == TransmissionMode::Drive {
                pedal_accel
            } else {
                -pedal_accel
            };
            let braking: i128 = if car.speed > 0 {
                -pedal_brake
            } else if car.speed < 0 {
                pedal_brake
            } else {
                0
            };
            let combined: i128 = driven + braking;
            proof {
                assert(0 <= pedal_accel <= 1_000_000_000);
                assert(0 <= pedal_brake <= 1_000_000_000);
                assert(combined == raw_accel(*old(car), brake_curve as int));
            }
            combined as i64
        };

        proof {
            assert((surface.friction_coefficient as int) * (car.tire_grip as int)
                <= 1_000_000_000_000_000_000int) by (nonlinear_arith)
                requires
                    0 <= surface.friction_coefficient <= 1_000_000_000,
                    0 <= car.tire_grip <= 1_000_000_000,
            ;
            assert((surface.friction_coefficient as int) * (car.tire_grip as int) >= 0)
                by (nonlinear_arith)
                requires
                    0 <= surface.friction_coefficient,
                    0 <= car.tire_grip,
            ;
            crate::fixed::lemma_div_t_ordered(
                (surface.friction_coefficient as int) * (car.tire_grip as int),
                1_000_000_000_000_000_000int,
                SCALE as int,
            );
            crate::fixed::lemma_div_t_shrinks(
                (surface.friction_coefficient as int) * (car.tire_grip as int),
                SCALE as int,
            );
        }
        let traction: i128 =
            (surface.friction_coefficient as i128) * (car.tire_grip as i128) / (SCALE as i128);
        proof {
            assert(
                -2_000_000_000_000_000_000_000int <= (base as int) * (traction as int)
                    <= 2_000_000_000_000_000_000_000int
            ) by (nonlinear_arith)
                requires
                    -2_000_000_000 <= base <= 2_000_000_000,
                    0 <= traction <= 1_000_000_000_000int,
            ;
            crate::fixed::lemma_div_t_shrinks((base as int) * (traction as int), SCALE as int);
        }
        let scaled: i128 = ((base as i128) * traction) / (SCALE as i128);
        proof {
            crate::fixed::lemma_div_t_shrinks((scaled as int) * (SCALE as int), car.mass as int);
        }
        let accel: i128 = (scaled * (SCALE as i128)) / (car.mass as i128);
        proof {
            assert(
                -2_000_000_000_000_000_000_000_000_000_000_000_000int
                    <= (accel as int) * (dt as int)
                    <= 2_000_000_000_000_000_000_000_000_000_000_000_000int
            ) by (nonlinear_arith)
                requires
                    -2_000_000_000_000_000_000_000_000_000int <= accel
                        <= 2_000_000_000_000_000_000_000_000_000int,
                    0 <= dt <= 1_000_000_000,
            ;
            crate::fixed::lemma_div_t_shrinks((accel as int) * (dt as int), SCALE as int);
        }
        let delta: i128 = (accel * (dt as i128)) / (SCALE as i128);
        let next: i128 = (car.speed as i128) + delta;
        let hi: i64 = car.max_speed;
        let lo: i64 = -car.max_speed;
        car.speed = if next > (hi as i128) {
            hi
        } else if next < (lo as i128) {
            lo
        } else {
            next as i64
        };
    }
}

/// Heading update (the second integrator phase). `tan_steering` is the
/// host-evaluated tangent of the car's current steering angle; the
/// contract holds for every sample within [`TRIG_LIMIT`].
pub fn update_car_kinematics(car: &mut CarPhysics, tan_steering: i64, dt: i64)
    requires
        valid_state(*old(car)),
        -TRIG_LIMIT <= tan_steering <= TRIG_LIMIT,
        valid_dt(dt as int),
    ensures
        *final(car) == kinematics_step(*old(car), tan_steering as int, dt as int),
        valid_state(*final(car)),
{
    if car.mode == TransmissionMode::Park {
        return ;
    }
    let steer_abs: i64 = if car.steering_angle >= 0 {
        car.steering_angle
    } else {
        -car.steering_angle
    };
    let mut delta: i128 = 0;
    if steer_abs > STEER_EPSILON {
        proof {
            crate::fixed::lemma_div_t_shrinks(
                (car.speed as int) * (SCALE as int),
                car.wheelbase as int,
            );
        }
        let turn: i128 = ((car.speed as i128) * (SCALE as i128)) / (car.wheelbase as i128);
        proof {
            assert(
                -1_000_000_000_000_000_000_000_000_000int <= (turn as int) * (tan_steering as int)
                    <= 1_000_000_000_000_000_000_000_000_000int
            ) by (nonlinear_arith)
                requires
                    -1_000_000_000_000_000int <= turn <= 1_000_000_000_000_000int,
                    -1_000_000_000_000int <= tan_steering <= 1_000_000_000_000int,
            ;
            crate::fixed::lemma_div_t_shrinks((turn as int) * (tan_steering as int), SCALE as int);
        }
        let yaw: i128 = (turn * (tan_steering as i128)) / (SCALE as i128);
        proof {
            assert(
                -1_000_000_000_000_000_000_000_000_000_000_000_000int
                    <= (yaw as int) * (dt as int)
                    <= 1_000_000_000_000_000_000_000_000_000_000_000_000int
            ) by (nonlinear_arith)
                requires
                    -1_000_000_000_000_000_000_000_000_000int <= yaw
                        <= 1_000_000_000_000_000_000_000_000_000int,
                    0 <= dt <= 1_000_000_000,
            ;
            crate::fixed::lemma_div_t_shrinks((yaw as int) * (dt as int), SCALE as int);
        }
        delta = (yaw * (dt as i128)) / (SCALE as i128);
    }
    proof {
        assert(delta == div_t(
            yaw_rate(*old(car), tan_steering as int) * (dt as int),
            SCALE as int,
        ));
    }
    let next: i128 = (car.heading as i128) + delta;
    car.heading = if next > (i64::MAX as i128) {
        i64::MAX
    } else if next < (i64::MIN as i128) {
        i64::MIN
    } else {
        next as i64
    };
    proof {
        assert(car.heading == heading_after(*old(car), tan_steering as int, dt as int) as i64);
        assert(*car == kinematics_step(*old(car), tan_steering as int, dt as int));
    }
}

/// Position update (the last integrator phase). `cos_heading` and
/// `sin_heading` are the host-evaluated cosine and sine of the car's
/// current heading, each within `[-SCALE, SCALE]`; the contract holds for
/// every such pair.
pub fn update_car_position(car: &mut CarPhysics, cos_heading: i64, sin_heading: i64, dt: i64)
    requires
        valid_state(*old(car)),
        -SCALE <= cos_heading <= SCALE,
        -SCALE <= sin_heading <= SCALE,
        valid_dt(dt as int),
    ensures
        *final(car) == position_step(*old(car), cos_heading as int, sin_heading as int, dt as int),
        valid_state(*final(car)),
{
    if car.mode == TransmissionMode::Park {
        return ;
    }
    let dx: i128 = coordinate_delta(car.speed, cos_heading, dt);
    let dy: i128 = coordinate_delta(car.speed, sin_heading, dt);
    let next_x: i128 = (car.position_x as i128) + dx;
    let next_y: i128 = (car.position_y as i128) + dy;
    car.position_x = if next_x > (i64::MAX as i128) {
        i64::MAX
    } else if next_x < (i64::MIN as i128) {
        i64::MIN
    } else {
        next_x as i64
    };
    car.position_y = if next_y > (i64::MAX as i128) {
        i64::MAX
    } else if next_y < (i64::MIN as i128) {
        i64::MIN
    } else {
        next_y as i64
    };
}

/// One coordinate's displacement over the tick.
fn coordinate_delta(speed: i64, trig: i64, dt: i64) -> (r: i128)
    requires
        -1_000_000_000 <= speed <= 1_000_000_000,
        -SCALE <= trig <= SCALE,
        0 <= dt <= 1_000_000_000,
    ensures
        r == position_delta(speed as int, trig as int, dt as int),
        -1_000_000_000_000_000_000_000_000int <= r <= 1_000_000_000_000_000_000_000_000int,
{
    proof {
        assert(
            -1_000_000_000_000_000int <= (speed as int) * (trig as int)
                <= 1_000_000_000_000_000int
        ) by (nonlinear_arith)
            requires
                -1_000_000_000 <= speed <= 1_000_000_000,
                -1_000_000 <= trig <= 1_000_000,
        ;
        crate::fixed::lemma_div_t_shrinks((speed as int) * (trig as int), SCALE as int);
    }
    let along: i128 = ((speed as i128) * (trig as i128)) / (SCALE as i128);
    proof {
        assert(
            -1_000_000_000_000_000_000_000_000int <= (along as int) * (dt as int)
                <= 1_000_000_000_000_000_000_000_000int
        ) by (nonlinear_arith)
            requires
                -1_000_000_000_000_000int <= along <= 1_000_000_000_000_000int,
                0 <= dt <= 1_000_000_000,
        ;
        crate::fixed::lemma_div_t_shrinks((along as int) * (dt as int), SCALE as int);
    }
    (along * (dt as i128)) / (SCALE as i128)
}

} // verus!
