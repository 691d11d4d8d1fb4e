//! The library's stated laws: proof functions relating the control
//! mapper and the integrator phases across a whole tick.

use vstd::prelude::*;

use crate::car::{same_params, valid_dt, valid_state, CarPhysics, ControlInput, TransmissionMode};
use crate::control::{control_step, lemma_control_step_valid};
use crate::fixed::{abs_s, div_t, max_s, min_s, SCALE};
use crate::physics::{
    idle_speed_of, kinematics_step, physics_step, position_step, raw_accel, speed_after,
    speed_delta, steering_after,
};
use vstd::arithmetic::div_mod::{
    lemma_div_pos_is_pos, lemma_fundamental_div_mod, lemma_mod_division_less_than_divisor,
    lemma_multiply_divide_le,
};

verus! {

/// One whole simulation tick: the control mapper, then the three
/// integrator phases in their fixed order. `brake_curve`, `tan_steering`,
/// `cos_heading` and `sin_heading` stand for the transcendental samples
/// the host takes between the phases; the laws below hold for every
/// value of them.
pub open spec fn tick_step(
    c: CarPhysics,
    input: ControlInput,
    friction: int,
    brake_curve: int,
    tan_steering: int,
    cos_heading: int,
    sin_heading: int,
    dt: int,
) -> CarPhysics {
    position_step(
        kinematics_step(
            physics_step(control_step(c, input, dt), friction, brake_curve, dt),
            tan_steering,
            dt,
        ),
        cos_heading,
        sin_heading,
        dt,
    )
}

/// The tick invariant: from any valid state, a whole tick keeps every
/// bounded quantity in range — `|speed| <= max_speed`, both steering
/// angles within `max_steering_angle`, both pedal levels within the unit
/// scale — whatever the input and whatever samples the host hands in.
pub proof fn lemma_tick_keeps_invariant(
    c: CarPhysics,
    input: ControlInput,
    friction: int,
    brake_curve: int,
    tan_steering: int,
    cos_heading: int,
    sin_heading: int,
    dt: int,
)
    requires
        valid_state(c),
        0 <= friction,
        valid_dt(dt),
    ensures
        valid_state(
            tick_step(c, input, friction, brake_curve, tan_steering, cos_heading, sin_heading, dt),
        ),
{
    lemma_control_step_valid(c, input, dt);
    crate::physics::lemma_physics_step_valid(control_step(c, input, dt), friction, brake_curve, dt);
}

/// With a zero time step and no fresh mode request, a tick changes no
/// field of the state. (A car freshly shifted into `Park` with residual
/// speed is the one exception the hypothesis excludes: its first tick
/// zeroes the speed; after that tick `Park` implies zero speed, as
/// [`lemma_park_is_absorbing`] states.)
pub proof fn lemma_zero_dt_changes_nothing(
    c: CarPhysics,
    input: ControlInput,
    friction: int,
    brake_curve: int,
    tan_steering: int,
    cos_heading: int,
    sin_heading: int,
)
    requires
        valid_state(c),
        !input.park_pressed,
        !input.drive_pressed,
        !input.reverse_pressed,
        c.mode == TransmissionMode::Park ==> c.speed == 0,
    ensures
        tick_step(c, input, friction, brake_curve, tan_steering, cos_heading, sin_heading, 0)
            == c,
        control_step(c, input, 0) == c,
        physics_step(c, friction, brake_curve, 0) == c,
        kinematics_step(c, tan_steering, 0) == c,
        position_step(c, cos_heading, sin_heading, 0) == c,
{
    assert(control_step(c, input, 0) == c) by {
        assert(control_step(c, input, 0).accelerator == c.accelerator);
        assert(control_step(c, input, 0).brake == c.brake);
        assert(control_step(c, input, 0).target_steering_angle == c.target_steering_angle);
    }
    assert(physics_step(c, friction, brake_curve, 0) == c) by {
        assert(steering_after(
            c.steering_angle as int,
            c.target_steering_angle as int,
            c.steering_angle_speed as int,
            0,
        ) == c.steering_angle as int);
        assert(speed_after(c, friction, brake_curve, 0) == c.speed as int);
    }
    assert(kinematics_step(c, tan_steering, 0) == c);
    assert(position_step(c, cos_heading, sin_heading, 0) == c);
}

/// `Park` is absorbing for motion: however the car entered a tick, if it
/// leaves the control mapper in `Park` then the tick ends with speed
/// exactly zero and with heading and position untouched.
pub proof fn lemma_park_is_absorbing(
    c: CarPhysics,
    input: ControlInput,
    friction: int,
    brake_curve: int,
    tan_steering: int,
    cos_heading: int,
    sin_heading: int,
    dt: int,
)
    requires
        valid_state(c),
        valid_dt(dt),
        control_step(c, input, dt).mode == TransmissionMode::Park,
    ensures
        tick_step(c, input, friction, brake_curve, tan_steering, cos_heading, sin_heading, dt)
            .mode == TransmissionMode::Park,
        tick_step(c, input, friction, brake_curve, tan_steering, cos_heading, sin_heading, dt)
            .speed == 0,
        tick_step(c, input, friction, brake_curve, tan_steering, cos_heading, sin_heading, dt)
            .heading == c.heading,
        tick_step(c, input, friction, brake_curve, tan_steering, cos_heading, sin_heading, dt)
            .position_x == c.position_x,
        tick_step(c, input, friction, brake_curve, tan_steering, cos_heading, sin_heading, dt)
            .position_y == c.position_y,
{
    lemma_control_step_valid(c, input, dt);
}

/// Steering snap: when the remaining gap to the steering target is at
/// most the capped step `steering_angle_speed * dt`, the integrator sets
/// the steering angle exactly to the target, with no overshoot and no
/// residual gap.
pub proof fn lemma_steering_snap(c: CarPhysics, friction: int, brake_curve: int, dt: int)
    requires
        valid_state(c),
        dt >= 0,
        abs_s(c.target_steering_angle - c.steering_angle) <= div_t(
            (c.steering_angle_speed as int) * dt,
            SCALE as int,
        ),
    ensures
        physics_step(c, friction, brake_curve, dt).steering_angle == c.target_steering_angle,
{
    let max_change = div_t((c.steering_angle_speed as int) * dt, SCALE as int);
    let diff = (c.target_steering_angle as int) - (c.steering_angle as int);
    if !(abs_s(diff) < max_change) {
        assert(abs_s(diff) == max_change);
        assert(max_change * crate::fixed::sgn_s(diff) == diff) by (nonlinear_arith)
            requires
                abs_s(diff) == max_change,
        ;
    }
}

/// On a frictionless surface no driving or braking force at all is
/// applied: the whole accumulated force term, the idle-seeking branch
/// included, is scaled by `friction * tire_grip`, so a zero friction
/// coefficient leaves the speed exactly as it was.
pub proof fn lemma_zero_friction_freezes_speed(c: CarPhysics, brake_curve: int, dt: int)
    requires
        valid_state(c),
        valid_dt(dt),
        c.mode == TransmissionMode::Park ==> c.speed == 0,
    ensures
        speed_after(c, 0, brake_curve, dt) == c.speed,
{
    if c.mode != TransmissionMode::Park {
        assert(div_t(0 * (c.tire_grip as int), SCALE as int) == 0);
        assert(speed_delta(c, 0, brake_curve, dt) == 0);
    }
}

/// The state after `n` control-mapper steps under an unchanging input
/// snapshot and time step.
pub open spec fn iter_control(c: CarPhysics, input: ControlInput, dt: int, n: nat) -> CarPhysics
    decreases n,
{
    if n == 0 {
        c
    } else {
        control_step(iter_control(c, input, dt, (n - 1) as nat), input, dt)
    }
}

/// Pedal ramp under a held accelerator key: after `n` ticks the level is
/// exactly `min(level + n * increment, full scale)` — so the sequence of
/// levels is non-decreasing, and once `n * increment` covers the gap
/// (in particular whenever the increment is non-zero and `n` reaches
/// `SCALE`) the level sits exactly at full scale.
pub proof fn lemma_accel_ramp_hold(c: CarPhysics, input: ControlInput, dt: int, n: nat)
    requires
        valid_state(c),
        valid_dt(dt),
        input.accelerate_held,
    ensures
        valid_state(iter_control(c, input, dt, n)),
        same_params(c, iter_control(c, input, dt, n)),
        iter_control(c, input, dt, n).accelerator == min_s(
            c.accelerator + n * div_t((c.accel_ramp_up as int) * dt, SCALE as int),
            SCALE as int,
        ),
        div_t((c.accel_ramp_up as int) * dt, SCALE as int) >= 1 && n >= SCALE
            ==> iter_control(c, input, dt, n).accelerator == SCALE,
    decreases n,
{
    let inc = div_t((c.accel_ramp_up as int) * dt, SCALE as int);
    assert(0 <= (c.accel_ramp_up as int) * dt) by (nonlinear_arith)
        requires
            0 <= c.accel_ramp_up,
            0 <= dt,
    ;
    assert(0 <= (c.accel_ramp_down as int) * dt) by (nonlinear_arith)
        requires
            0 <= c.accel_ramp_down,
            0 <= dt,
    ;
    crate::fixed::lemma_div_t_shrinks((c.accel_ramp_up as int) * dt, SCALE as int);
    crate::fixed::lemma_div_t_shrinks((c.accel_ramp_down as int) * dt, SCALE as int);
    if n == 0 {
        assert(n * inc == 0) by (nonlinear_arith)
            requires
                n == 0,
        ;
    } else {
        let m = (n - 1) as nat;
        lemma_accel_ramp_hold(c, input, dt, m);
        let prev = iter_control(c, input, dt, m);
        lemma_control_step_valid(prev, input, dt);
        assert(control_step(prev, input, dt).accelerator == min_s(
            prev.accelerator + inc,
            SCALE as int,
        ));
        assert(n * inc == m * inc + inc) by (nonlinear_arith)
            requires
                n == m + 1,
        ;
    }
    if inc >= 1 && n >= SCALE {
        assert(n * inc >= n) by (nonlinear_arith)
            requires
                inc >= 1,
                n >= 0,
        ;
    }
}

/// Pedal ramp after the accelerator key is released: after `n` ticks the
/// level is exactly `max(level - n * decrement, 0)` — a non-increasing
/// sequence that reaches zero once `n * decrement` covers the level.
pub proof fn lemma_accel_ramp_release(c: CarPhysics, input: ControlInput, dt: int, n: nat)
    requires
        valid_state(c),
        valid_dt(dt),
        !input.accelerate_held,
    ensures
        valid_state(iter_control(c, input, dt, n)),
        same_params(c, iter_control(c, input, dt, n)),
        iter_control(c, input, dt, n).accelerator == max_s(
            c.accelerator - n * div_t((c.accel_ramp_down as int) * dt, SCALE as int),
            0,
        ),
        div_t((c.accel_ramp_down as int) * dt, SCALE as int) >= 1 && n >= SCALE
            ==> iter_control(c, input, dt, n).accelerator == 0,
    decreases n,
{
    let dec = div_t((c.accel_ramp_down as int) * dt, SCALE as int);
    assert(0 <= (c.accel_ramp_up as int) * dt) by (nonlinear_arith)
        requires
            0 <= c.accel_ramp_up,
            0 <= dt,
    ;
    assert(0 <= (c.accel_ramp_down as int) * dt) by (nonlinear_arith)
        requires
            0 <= c.accel_ramp_down,
            0 <= dt,
    ;
    crate::fixed::lemma_div_t_shrinks((c.accel_ramp_up as int) * dt, SCALE as int);
    crate::fixed::lemma_div_t_shrinks((c.accel_ramp_down as int) * dt, SCALE as int);
    if n == 0 {
        assert(n * dec == 0) by (nonlinear_arith)
            requires
                n == 0,
        ;
    } else {
        let m = (n - 1) as nat;
        lemma_accel_ramp_release(c, input, dt, m);
        let prev = iter_control(c, input, dt, m);
        lemma_control_step_valid(prev, input, dt);
        assert(control_step(prev, input, dt).accelerator == max_s(prev.accelerator - dec, 0));
        assert(n * dec == m * dec + dec) by (nonlinear_arith)
            requires
                n == m + 1,
        ;
    }
    if dec >= 1 && n >= SCALE {
        assert(n * dec >= n) by (nonlinear_arith)
            requires
                dec >= 1,
                n >= 0,
        ;
    }
}

/// With the brake released (and hence a zero brake-response sample) the
/// accelerator never slows the car: in `Drive` the speed cannot drop
/// over the phase, in `Reverse` it cannot rise toward forward motion.
pub proof fn lemma_accelerator_never_opposes(c: CarPhysics, friction: int, dt: int)
    requires
        valid_state(c),
        0 <= friction,
        valid_dt(dt),
        c.brake == 0,
        c.accelerator > 0,
    ensures
        c.mode == TransmissionMode::Drive ==> speed_after(c, friction, 0, dt) >= c.speed,
        c.mode == TransmissionMode::Reverse ==> speed_after(c, friction, 0, dt) <= c.speed,
{
    let s = SCALE as int;
    if c.mode != TransmissionMode::Park {
        assert(0 <= (c.accelerator as int) * (c.max_acceleration as int)) by (nonlinear_arith)
            requires
                0 <= c.accelerator,
                0 <= c.max_acceleration,
        ;
        crate::fixed::lemma_div_t_shrinks((c.accelerator as int) * (c.max_acceleration as int), s);
        assert(div_t(0 * (c.max_braking as int), s) == 0);
        let base = raw_accel(c, 0);
        assert(0 <= friction * (c.tire_grip as int)) by (nonlinear_arith)
            requires
                0 <= friction,
                0 <= c.tire_grip,
        ;
        crate::fixed::lemma_div_t_shrinks(friction * (c.tire_grip as int), s);
        let traction = div_t(friction * (c.tire_grip as int), s);
        assert(base >= 0 ==> base * traction >= 0) by (nonlinear_arith)
            requires
                traction >= 0,
        ;
        assert(base <= 0 ==> base * traction <= 0) by (nonlinear_arith)
            requires
                traction >= 0,
        ;
        crate::fixed::lemma_div_t_shrinks(base * traction, s);
        let scaled = div_t(base * traction, s);
        crate::fixed::lemma_div_t_shrinks(scaled * s, c.mass as int);
        let accel = div_t(scaled * s, c.mass as int);
        assert(accel >= 0 ==> accel * dt >= 0) by (nonlinear_arith)
            requires
                dt >= 0,
        ;
        assert(accel <= 0 ==> accel * dt <= 0) by (nonlinear_arith)
            requires
                dt >= 0,
        ;
        crate::fixed::lemma_div_t_shrinks(accel * dt, s);
    }
}

/// Steering angles within the epsilon guard produce no yaw at all: the
/// heading phase leaves the whole state untouched.
pub proof fn lemma_straight_wheels_no_yaw(c: CarPhysics, tan_steering: int, dt: int)
    requires
        abs_s(c.steering_angle as int) <= crate::physics::STEER_EPSILON as int,
    ensures
        kinematics_step(c, tan_steering, dt) == c,
{
    assert(crate::physics::yaw_rate(c, tan_steering) == 0);
    assert(div_t(0 * dt, SCALE as int) == 0);
}

/// The idle-seeking pull, one scalar step: the integrated change keeps
/// its sign toward the gap and never exceeds the gap, provided the
/// per-tick gain `traction * dt / (mass * SCALE)` is at most one.
proof fn lemma_pull_step_bound(gap: int, traction: int, mass: int, dt: int)
    requires
        0 <= traction,
        1 <= mass,
        0 <= dt,
        traction * dt <= mass * (SCALE as int),
    ensures
        gap >= 0 ==> 0 <= div_t(
            div_t(div_t(gap * traction, SCALE as int) * (SCALE as int), mass) * dt,
            SCALE as int,
        ) <= gap,
        gap <= 0 ==> gap <= div_t(
            div_t(div_t(gap * traction, SCALE as int) * (SCALE as int), mass) * dt,
            SCALE as int,
        ) <= 0,
    decreases (if gap >= 0 {
        0int
    } else {
        1int
    }),
{
    let s = SCALE as int;
    if gap >= 0 {
        assert(0 <= gap * traction) by (nonlinear_arith)
            requires
                0 <= gap,
                0 <= traction,
        ;
        let a1 = (gap * traction) / s;
        lemma_div_pos_is_pos(gap * traction, s);
        let a2 = (a1 * s) / mass;
        lemma_div_pos_is_pos(a1 * s, mass);
        assert(0 <= a2 * dt) by (nonlinear_arith)
            requires
                0 <= a2,
                0 <= dt,
        ;
        let dv = (a2 * dt) / s;
        lemma_div_pos_is_pos(a2 * dt, s);
        lemma_fundamental_div_mod(gap * traction, s);
        lemma_mod_division_less_than_divisor(gap * traction, s);
        assert(s * a1 <= gap * traction);
        lemma_fundamental_div_mod(a1 * s, mass);
        lemma_mod_division_less_than_divisor(a1 * s, mass);
        assert(mass * a2 <= a1 * s);
        assert(a2 * dt <= s * gap) by (nonlinear_arith)
            requires
                mass * a2 <= a1 * s,
                s * a1 <= gap * traction,
                traction * dt <= mass * s,
                0 <= gap,
                0 <= traction,
                0 <= dt,
                1 <= mass,
                0 <= a1,
                0 <= a2,
                s == SCALE as int,
        ;
        lemma_multiply_divide_le(a2 * dt, s, gap);
        assert(div_t(gap * traction, s) == a1);
        assert(div_t(a1 * s, mass) == a2);
        assert(div_t(a2 * dt, s) == dv);
    } else {
        let e = -gap;
        lemma_pull_step_bound(e, traction, mass, dt);
        assert(gap * traction == -(e * traction)) by (nonlinear_arith)
            requires
                gap == -e,
        ;
        let a1p = div_t(e * traction, s);
        assert(div_t(gap * traction, s) == -a1p);
        assert((-a1p) * s == -(a1p * s));
        let a2p = div_t(a1p * s, mass);
        assert(div_t(-(a1p * s), mass) == -a2p);
        let dvp = div_t(a2p * dt, s);
        assert((-a2p) * dt == -(a2p * dt)) by (nonlinear_arith);
        assert(div_t(-(a2p * dt), s) == -dvp);
    }
}

/// Released-pedal creep: with both pedals at zero and a per-tick gain of
/// at most one (`traction * dt <= mass * SCALE`), the speed moves
/// monotonically toward the mode's idle speed and never overshoots past
/// it.
pub proof fn lemma_idle_seek_no_overshoot(c: CarPhysics, friction: int, brake_curve: int, dt: int)
    requires
        valid_state(c),
        0 <= friction,
        valid_dt(dt),
        c.mode != TransmissionMode::Park,
        c.accelerator == 0,
        c.brake == 0,
        div_t(friction * (c.tire_grip as int), SCALE as int) * dt <= (c.mass as int) * (
        SCALE as int),
    ensures
        c.speed <= idle_speed_of(c) ==> c.speed <= speed_after(c, friction, brake_curve, dt)
            <= idle_speed_of(c),
        idle_speed_of(c) <= c.speed ==> idle_speed_of(c) <= speed_after(
            c,
            friction,
            brake_curve,
            dt,
        ) <= c.speed,
{
    let s = SCALE as int;
    let traction = div_t(friction * (c.tire_grip as int), s);
    assert(0 <= friction * (c.tire_grip as int)) by (nonlinear_arith)
        requires
            0 <= friction,
            0 <= c.tire_grip,
    ;
    crate::fixed::lemma_div_t_shrinks(friction * (c.tire_grip as int), s);
    let gap = idle_speed_of(c) - c.speed;
    lemma_pull_step_bound(gap, traction, c.mass as int, dt);
    assert(speed_delta(c, friction, brake_curve, dt) == div_t(
        div_t(div_t(gap * traction, s) * s, c.mass as int) * dt,
        s,
    ));
}

} // verus!

