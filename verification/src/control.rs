//! Control mapper: turns the per-tick key snapshot into the transmission
//! mode, the smoothed pedal levels and the steering target.

use vstd::prelude::*;

use crate::car::{valid_dt, valid_state, CarPhysics, ControlInput, TransmissionMode};
use crate::fixed::{abs_s, clamp_s, div_t, min_s, SCALE};

verus! {

/// Base steering-target rate (0.1 rad/s in raw units), before the
/// reduction of steering authority at speed.
pub const STEER_BASE: i64 = 100_000;

/// Mode selection is edge-triggered; the selectors are applied in the
/// fixed order park, drive, reverse, so the last one pressed on the same
/// tick wins. Without an edge the mode stays.
pub open spec fn mode_after(mode: TransmissionMode, input: ControlInput) -> TransmissionMode {
    if input.reverse_pressed {
        TransmissionMode::Reverse
    } else if input.drive_pressed {
        TransmissionMode::Drive
    } else if input.park_pressed {
        TransmissionMode::Park
    } else {
        mode
    }
}

/// The binary pedal target: full scale while the key is held.
pub open spec fn pedal_target(held: bool) -> int {
    if held {
        SCALE as int
    } else {
        0
    }
}

/// One step of the rate-limited tracking filter: move `level` toward
/// `target` by at most `up * dt` when rising and `down * dt` when
/// falling, never overshooting the target.
pub open spec fn ramp_step(level: int, target: int, up: int, down: int, dt: int) -> int {
    if target > level {
        level + min_s(target - level, div_t(up * dt, SCALE as int))
    } else {
        level - min_s(level - target, div_t(down * dt, SCALE as int))
    }
}

/// Per-tick steering-target increment: the base rate divided by
/// `1 + |speed| / max_speed`, so steering authority decays with speed,
/// scaled by the time step.
pub open spec fn steer_increment(speed: int, max_speed: int, dt: int) -> int {
    let ratio = div_t(abs_s(speed) * (SCALE as int), max_speed);
    let rate = div_t((STEER_BASE as int) * (SCALE as int), (SCALE as int) + ratio);
    div_t(rate * dt, SCALE as int)
}

/// New steering target: the right key subtracts the increment, the left
/// key adds it (both held cancel exactly), and the result is clamped to
/// the steering range unconditionally.
pub open spec fn steer_target_after(
    st: int,
    left: bool,
    right: bool,
    inc: int,
    max_angle: int,
) -> int {
    let st1 = if right {
        st - inc
    } else {
        st
    };
    let st2 = if left {
        st1 + inc
    } else {
        st1
    };
    clamp_s(st2, -max_angle, max_angle)
}

/// The whole control-mapper step: it updates `mode`, `accelerator`,
/// `brake` and `target_steering_angle` and touches nothing else.
pub open spec fn control_step(c: CarPhysics, input: ControlInput, dt: int) -> CarPhysics {
    CarPhysics {
        mode: mode_after(c.mode, input),
        accelerator: ramp_step(
            c.accelerator as int,
            pedal_target(input.accelerate_held),
            c.accel_ramp_up as int,
            c.accel_ramp_down as int,
            dt,
        ) as i64,
        brake: ramp_step(
            c.brake as int,
            pedal_target(input.brake_held),
            c.brake_ramp_up as int,
            c.brake_ramp_down as int,
            dt,
        ) as i64,
        target_steering_angle: steer_target_after(
            c.target_steering_angle as int,
            input.steer_left_held,
            input.steer_right_held,
            steer_increment(c.speed as int, c.max_speed as int, dt),
            c.max_steering_angle as int,
        ) as i64,
        ..c
    }
}

/// A ramp step keeps the level between the old level and the target.
pub proof fn lemma_ramp_step_range(level: int, target: int, up: int, down: int, dt: int)
    requires
        up >= 0,
        down >= 0,
        dt >= 0,
    ensures
        target > level ==> level <= ramp_step(level, target, up, down, dt) <= target,
        target <= level ==> target <= ramp_step(level, target, up, down, dt) <= level,
{
    crate::fixed::lemma_div_t_shrinks(up * dt, SCALE as int);
    crate::fixed::lemma_div_t_shrinks(down * dt, SCALE as int);
    assert(up * dt >= 0) by (nonlinear_arith)
        requires
            up >= 0,
            dt >= 0,
    ;
    assert(down * dt >= 0) by (nonlinear_arith)
        requires
            down >= 0,
            dt >= 0,
    ;
}

/// The control step keeps the state invariant and leaves the integrator's
/// fields and the parameters alone.
pub proof fn lemma_control_step_valid(c: CarPhysics, input: ControlInput, dt: int)
    requires
        valid_state(c),
        valid_dt(dt),
    ensures
        valid_state(control_step(c, input, dt)),
        control_step(c, input, dt).speed == c.speed,
        control_step(c, input, dt).heading == c.heading,
        control_step(c, input, dt).position_x == c.position_x,
        control_step(c, input, dt).position_y == c.position_y,
        control_step(c, input, dt).steering_angle == c.steering_angle,
        crate::car::same_params(c, control_step(c, input, dt)),
{
    lemma_ramp_step_range(
        c.accelerator as int,
        pedal_target(input.accelerate_held),
        c.accel_ramp_up as int,
        c.accel_ramp_down as int,
        dt,
    );
    lemma_ramp_step_range(
        c.brake as int,
        pedal_target(input.brake_held),
        c.brake_ramp_up as int,
        c.brake_ramp_down as int,
        dt,
    );
}

/// Updates `mode`, `accelerator`, `brake` and `target_steering_angle` in
/// place from the tick's input snapshot; never touches speed, heading,
/// position or the current steering angle.
pub fn control_car(car: &mut CarPhysics, input: &ControlInput, dt: i64)
    requires
        valid_state(*old(car)),
        valid_dt(dt as int),
    ensures
        *final(car) == control_step(*old(car), *input, dt as int),
        valid_state(*final(car)),
{
    proof {
        lemma_control_step_valid(*car, *input, dt as int);
    }
    if input.park_pressed {
        car.mode = TransmissionMode::Park;
    }
    if input.drive_pressed {
        car.mode = TransmissionMode::Drive;
    }
    if input.reverse_pressed {
        car.mode = TransmissionMode::Reverse;
    }

    proof {
        assert((car.accel_ramp_up as int) * (dt as int) <= 1_000_000_000_000_000_000int)
            by (nonlinear_arith)
            requires
                0 <= car.accel_ramp_up <= 1_000_000_000,
                0 <= dt <= 1_000_000_000,
        ;
        assert((car.accel_ramp_down as int) * (dt as int) <= 1_000_000_000_000_000_000int)
            by (nonlinear_arith)
            requires
                0 <= car.accel_ramp_down <= 1_000_000_000,
                0 <= dt <= 1_000_000_000,
        ;
        assert((car.brake_ramp_up as int) * (dt as int) <= 1_000_000_000_000_000_000int)
            by (nonlinear_arith)
            requires
                0 <= car.brake_ramp_up <= 1_000_000_000,
                0 <= dt <= 1_000_000_000,
        ;
        assert((car.brake_ramp_down as int) * (dt as int) <= 1_000_000_000_000_000_000int)
            by (nonlinear_arith)
            requires
                0 <= car.brake_ramp_down <= 1_000_000_000,
                0 <= dt <= 1_000_000_000,
        ;
    }

    let accel_target: i64 = if input.accelerate_held {
        SCALE
    } else {
        0
    };
    if accel_target > car.accelerator {
        let diff: i64 = accel_target - car.accelerator;
        let max_change: i128 = (car.accel_ramp_up as i128) * (dt as i128) / (SCALE as i128);
        let step: i64 = if (diff as i128) <= max_change {
            diff
        } else {
            max_change as i64
        };
        car.accelerator = car.accelerator + step;
    } else {
        let diff: i64 = car.accelerator - accel_target;
        let max_change: i128 = (car.accel_ramp_down as i128) * (dt as i128) / (SCALE as i128);
        let step: i64 = if (diff as i128) <= max_change {
            diff
        } else {
            max_change as i64
        };
        car.accelerator = car.accelerator - step;
    }

    let brake_target: i64 = if input.brake_held {
        SCALE
    } else {
        0
    };
    if brake_target > car.brake {
        let diff: i64 = brake_target - car.brake;
        let max_change: i128 = (car.brake_ramp_up as i128) * (dt as i128) / (SCALE as i128);
        let step: i64 = if (diff as i128) <= max_change {
            diff
        } else {
            max_change as i64
        };
        car.brake = car.brake + step;
    } else {
        let diff: i64 = car.brake - brake_target;
        let max_change: i128 = (car.brake_ramp_down as i128) * (dt as i128) / (SCALE as i128);
        let step: i64 = if (diff as i128) <= max_change {
            diff
        } else {
            max_change as i64
        };
        car.brake = car.brake - step;
    }

    let speed_abs: i64 = if car.speed >= 0 {
        car.speed
    } else {
        -car.speed
    };
    let ratio: i128 = (speed_abs as i128) * (SCALE as i128) / (car.max_speed as i128);
    proof {
        crate::fixed::lemma_div_t_shrinks((speed_abs as int) * (SCALE as int), car.max_speed as int);
    }
    let rate: i128 = (STEER_BASE as i128) * (SCALE as i128) / ((SCALE as i128) + ratio);
    proof {
        crate::fixed::lemma_div_t_shrinks(
            (STEER_BASE as int) * (SCALE as int),
            (SCALE as int) + ratio as int,
        );
        assert(rate * (dt as int) <= 100_000_000_000_000_000_000int) by (nonlinear_arith)
            requires
                0 <= rate <= 100_000_000_000int,
                0 <= dt <= 1_000_000_000,
        ;
        assert(rate * (dt as int) >= 0) by (nonlinear_arith)
            requires
                0 <= rate,
                0 <= dt,
        ;
    }
    let increment: i128 = rate * (dt as i128) / (SCALE as i128);
    proof {
        crate::fixed::lemma_div_t_shrinks(rate as int * (dt as int), SCALE as int);
    }
    let mut st: i128 = car.target_steering_angle as i128;
    if input.steer_right_held {
        st = st - increment;
    }
    if input.steer_left_held {
        st = st + increment;
    }
    let hi: i64 = car.max_steering_angle;
    let lo: i64 = -car.max_steering_angle;
    car.target_steering_angle = if st > (hi as i128) {
        hi
    } else if st < (lo as i128) {
        lo
    } else {
        st as i64
    };
}

} // verus!
