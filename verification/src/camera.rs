//! Camera-follow control strategies: inert, fixed, proportional, and PID,
//! in 1D (per axis, and angular) and 2D (two independent axes).

use crate::fixed::{
    add_sat, div_fx, fx_add, fx_div, fx_mul, fx_sub, in_range, mul_fx, sub_sat, Vec2, PI_FX,
    FX_MAX, FX_MIN, TWO_PI_FX,
};
use crate::parallax::{clamp_spec, Limit, ParallaxMoveEvent};
use vstd::arithmetic::div_mod::{
    lemma_fundamental_div_mod, lemma_fundamental_div_mod_converse_mod,
    lemma_mod_division_less_than_divisor, lemma_mod_multiples_vanish, lemma_small_mod,
};
use vstd::prelude::*;

verus! {

/// The signed difference between two angles, reduced to `(-PI_FX, PI_FX]`:
/// the unique representative of `d` modulo a full turn in that half-open
/// interval.
pub open spec fn norm_angle(d: int) -> int {
    let m = d % (TWO_PI_FX as int);
    if m > PI_FX {
        m - TWO_PI_FX
    } else {
        m
    }
}

/// The shortest signed rotation from angle `b` to angle `a`, in fixed-point
/// radians; always in `(-PI_FX, PI_FX]`.
pub fn shortest_angle(a: i64, b: i64) -> (r: i64)
    ensures
        r as int == norm_angle(a as int - b as int),
        -PI_FX < r <= PI_FX,
{
    let d: i128 = a as i128 - b as i128;
    let tp: i128 = TWO_PI_FX as i128;
    let m: i128 = if d >= 0 {
        ((d as u128) % (tp as u128)) as i128
    } else {
        let rr: u128 = (((-d) as u128) % (tp as u128));
        proof {
            lemma_fundamental_div_mod(-d as int, tp as int);
            lemma_mod_division_less_than_divisor(-d as int, tp as int);
            let q: int = (-d as int) / (tp as int);
            if rr == 0 {
                lemma_fundamental_div_mod_converse_mod(d as int, tp as int, -q, 0);
            } else {
                assert(d as int == (-q - 1) * (tp as int) + ((tp as int) - rr)) by {
                    assert((-q - 1) * (tp as int) == -(q * (tp as int)) - (tp as int))
                        by (nonlinear_arith);
                }
                lemma_fundamental_div_mod_converse_mod(
                    d as int,
                    tp as int,
                    -q - 1,
                    (tp as int) - rr,
                );
            }
        }
        if rr == 0 {
            0
        } else {
            tp - (rr as i128)
        }
    };
    proof {
        lemma_mod_division_less_than_divisor(d as int, tp as int);
    }
    if m > PI_FX as i128 {
        (m - tp) as i64
    } else {
        m as i64
    }
}

/// The shortest signed angle always lies in the half-open interval
/// `(-PI_FX, PI_FX]`.
pub proof fn lemma_shortest_angle_range(a: int, b: int)
    ensures
        -PI_FX < norm_angle(a - b) <= PI_FX,
{
    lemma_mod_division_less_than_divisor(a - b, TWO_PI_FX as int);
}

/// The shortest signed angle between an angle and itself is zero.
pub proof fn lemma_shortest_angle_identity(theta: int)
    ensures
        norm_angle(theta - theta) == 0,
{
    lemma_small_mod(0, TWO_PI_FX as nat);
}

/// Adding any whole number of full turns to either angle leaves the
/// shortest signed angle unchanged.
pub proof fn lemma_shortest_angle_periodic(a: int, b: int, k: int)
    ensures
        norm_angle((a + k * (TWO_PI_FX as int)) - b) == norm_angle(a - b),
{
    lemma_mod_multiples_vanish(k, a - b, TWO_PI_FX as int);
    assert((TWO_PI_FX as int) * k + (a - b) == (a + k * (TWO_PI_FX as int)) - b)
        by (nonlinear_arith);
}

/// The sign of an error signal; zero counts as positive.
pub open spec fn sign(x: int) -> int {
    if x >= 0 {
        1int
    } else {
        -1int
    }
}

/// The derivative term of a PID step: the error slope over this frame,
/// weighted by `kd`; zero on a degenerate frame to avoid dividing by zero.
pub open spec fn pid_d_term(e: int, last: int, dt: int, kd: int) -> int {
    if dt != 0 {
        fx_mul(fx_div(fx_sub(e, last), dt), kd)
    } else {
        0
    }
}

/// The accumulated integral after a PID step: discharged on a sign change
/// when the Clegg integrator is on, otherwise accumulated and clamped into
/// the windup limit.
pub open spec fn pid_integral_next(
    e: int,
    last: int,
    integral: int,
    dt: int,
    clegg: bool,
    lim: Limit,
) -> int {
    if clegg && sign(e) != sign(last) {
        0
    } else {
        clamp_spec(lim, fx_add(integral, fx_mul(e, dt)))
    }
}

/// The output of a PID step: proportional, integral and derivative terms
/// summed in that order.
pub open spec fn pid_output(
    e: int,
    last: int,
    next_integral: int,
    dt: int,
    kp: int,
    ki: int,
    kd: int,
) -> int {
    fx_add(fx_add(fx_mul(e, kp), fx_mul(next_integral, ki)), pid_d_term(e, last, dt, kd))
}

/// The linear-axis strategy a PID configuration builds: fresh state and an
/// unbounded default integral limit.
pub open spec fn linear_strategy_of(p: PID) -> LinearAxisStrategy {
    LinearAxisStrategy::PID {
        kp: p.kp,
        ki: p.ki,
        kd: p.kd,
        last_error: 0i64,
        integral: 0i64,
        clegg_integrator: p.clegg_integrator,
        integral_limit: match p.integral_limit {
            Some(limit) => limit,
            None => Limit { min: FX_MIN, max: FX_MAX },
        },
    }
}

/// The angular strategy a PID configuration builds: fresh state and a
/// default integral limit of one half turn either way.
pub open spec fn radial_strategy_of(p: PID) -> RotationStrategy {
    RotationStrategy::PID {
        kp: p.kp,
        ki: p.ki,
        kd: p.kd,
        last_error: 0i64,
        integral: 0i64,
        clegg_integrator: p.clegg_integrator,
        integral_limit: match p.integral_limit {
            Some(limit) => limit,
            None => Limit { min: (-PI_FX) as i64, max: PI_FX },
        },
    }
}

/// PID configuration used to build concrete strategies.
#[derive(Clone, Copy, Debug, PartialEq, Eq, Structural)]
pub struct PID {
    pub kp: i64,
    pub ki: i64,
    pub kd: i64,
    pub clegg_integrator: bool,
    pub integral_limit: Option<Limit>,
}

impl Default for PID {
    /// Gentle default gains.
    fn default() -> (r: Self)
        ensures
            r == (PID {
                kp: 100_000i64,
                ki: 100_000i64,
                kd: 1_000i64,
                clegg_integrator: false,
                integral_limit: Option::<Limit>::None,
            }),
    {
        Self {
            kp: 100_000,
            ki: 100_000,
            kd: 1_000,
            clegg_integrator: false,
            integral_limit: None,
        }
    }
}

impl PID {
    pub fn new(kp: i64, ki: i64, kd: i64) -> (r: Self)
        ensures
            r == (PID {
                kp,
                ki,
                kd,
                clegg_integrator: false,
                integral_limit: Option::<Limit>::None,
            }),
    {
        Self { kp, ki, kd, clegg_integrator: false, integral_limit: None }
    }

    /// Bound the accumulated integral term to prevent windup.
    pub fn with_integral_limit(self, limit: Limit) -> (r: Self)
        ensures
            r == (PID { integral_limit: Some(limit), ..self }),
    {
        Self { integral_limit: Some(limit), ..self }
    }

    /// An angular PID strategy with this configuration; the integral limit
    /// defaults to one half turn either way.
    pub fn create_radial(&self) -> (r: RotationStrategy)
        ensures
            r == radial_strategy_of(*self),
    {
        RotationStrategy::PID {
            kp: self.kp,
            ki: self.ki,
            kd: self.kd,
            last_error: 0,
            integral: 0,
            clegg_integrator: self.clegg_integrator,
            integral_limit: match &self.integral_limit {
                Some(limit) => *limit,
                None => Limit::new(-PI_FX, PI_FX),
            },
        }
    }

    /// A linear-axis PID strategy with this configuration; the integral
    /// limit defaults to unbounded.
    pub fn create_linear(&self) -> (r: LinearAxisStrategy)
        ensures
            r == linear_strategy_of(*self),
    {
        LinearAxisStrategy::PID {
            kp: self.kp,
            ki: self.ki,
            kd: self.kd,
            last_error: 0,
            integral: 0,
            clegg_integrator: self.clegg_integrator,
            integral_limit: match &self.integral_limit {
                Some(limit) => *limit,
                None => Limit::default(),
            },
        }
    }
}

/// How a camera's facing tracks its target's yaw.  `Inactive` leaves
/// rotation alone entirely.
#[derive(Clone, Copy, Debug, PartialEq, Eq, Structural)]
pub enum RotationStrategy {
    Inactive,
    Fixed,
    P(i64),
    PID {
        kp: i64,
        ki: i64,
        kd: i64,
        last_error: i64,
        integral: i64,
        clegg_integrator: bool,
        integral_limit: Limit,
    },
}

/// The rotation delta a strategy returns for one frame; the error signal is
/// the shortest signed angle from the current to the target yaw.
pub open spec fn rot_delta(s: RotationStrategy, dt: int, target: int, current: int) -> int {
    match s {
        RotationStrategy::Inactive => 0,
        RotationStrategy::Fixed => norm_angle(target - current),
        RotationStrategy::P(kp) => fx_mul(norm_angle(target - current), kp as int),
        RotationStrategy::PID { kp, ki, kd, last_error, integral, clegg_integrator, integral_limit } => {
            let e = norm_angle(target - current);
            pid_output(
                e,
                last_error as int,
                pid_integral_next(
                    e,
                    last_error as int,
                    integral as int,
                    dt,
                    clegg_integrator,
                    integral_limit,
                ),
                dt,
                kp as int,
                ki as int,
                kd as int,
            )
        },
    }
}

/// The strategy state after one frame: only PID carries state, and it
/// records the error and the new integral.
pub open spec fn rot_next(s: RotationStrategy, dt: int, target: int, current: int)
    -> RotationStrategy {
    match s {
        RotationStrategy::PID { kp, ki, kd, last_error, integral, clegg_integrator, integral_limit } => {
            let e = norm_angle(target - current);
            RotationStrategy::PID {
                kp,
                ki,
                kd,
                last_error: e as i64,
                integral: pid_integral_next(
                    e,
                    last_error as int,
                    integral as int,
                    dt,
                    clegg_integrator,
                    integral_limit,
                ) as i64,
                clegg_integrator,
                integral_limit,
            }
        },
        _ => s,
    }
}

impl RotationStrategy {
    /// One frame of rotation tracking: the returned delta is what to add to
    /// the camera's yaw this frame, and PID state advances.
    pub fn rotation(&mut self, delta_time: i64, target: i64, current: i64) -> (r: i64)
        ensures
            r as int == rot_delta(*old(self), delta_time as int, target as int, current as int),
            *final(self) == rot_next(*old(self), delta_time as int, target as int, current as int),
    {
        match *self {
            Self::Inactive => 0,
            Self::Fixed => shortest_angle(target, current),
            Self::P(kp) => mul_fx(shortest_angle(target, current), kp),
            Self::PID { kp, ki, kd, last_error, integral, clegg_integrator, integral_limit } => {
                let error: i64 = shortest_angle(target, current);
                let p_value: i64 = mul_fx(error, kp);
                let d_value: i64 = if delta_time != 0 {
                    mul_fx(div_fx(sub_sat(error, last_error), delta_time), kd)
                } else {
                    0
                };
                let next_integral: i64 = if clegg_integrator && ((error >= 0) != (last_error
                    >= 0)) {
                    0
                } else {
                    integral_limit.fix(add_sat(integral, mul_fx(error, delta_time)))
                };
                let i_value: i64 = mul_fx(next_integral, ki);
                *self = Self::PID {
                    kp,
                    ki,
                    kd,
                    last_error: error,
                    integral: next_integral,
                    clegg_integrator,
                    integral_limit,
                };
                add_sat(add_sat(p_value, i_value), d_value)
            },
        }
    }
}

/// How a camera's position tracks its target along one axis.  `Inactive`
/// leaves the axis alone entirely.
///
/// The proportional strategy multiplies the error by its gain alone; the
/// frame's delta time is deliberately not folded in, and the convention is
/// the same for translation and rotation.
#[derive(Clone, Copy, Debug, PartialEq, Eq, Structural)]
pub enum LinearAxisStrategy {
    Inactive,
    Fixed,
    P(i64),
    PID {
        kp: i64,
        ki: i64,
        kd: i64,
        last_error: i64,
        integral: i64,
        clegg_integrator: bool,
        integral_limit: Limit,
    },
}

/// The position delta a strategy returns for one frame; the error signal is
/// the plain difference from the current to the target position.
pub open spec fn axis_delta(s: LinearAxisStrategy, dt: int, target: int, current: int) -> int {
    match s {
        LinearAxisStrategy::Inactive => 0,
        LinearAxisStrategy::Fixed => fx_sub(target, current),
        LinearAxisStrategy::P(kp) => fx_mul(fx_sub(target, current), kp as int),
        LinearAxisStrategy::PID {
            kp,
            ki,
            kd,
            last_error,
            integral,
            clegg_integrator,
            integral_limit,
        } => {
            let e = fx_sub(target, current);
            pid_output(
                e,
                last_error as int,
                pid_integral_next(
                    e,
                    last_error as int,
                    integral as int,
                    dt,
                    clegg_integrator,
                    integral_limit,
                ),
                dt,
                kp as int,
                ki as int,
                kd as int,
            )
        },
    }
}

/// The strategy state after one frame: only PID carries state.
pub open spec fn axis_next(s: LinearAxisStrategy, dt: int, target: int, current: int)
    -> LinearAxisStrategy {
    match s {
        LinearAxisStrategy::PID {
            kp,
            ki,
            kd,
            last_error,
            integral,
            clegg_integrator,
            integral_limit,
        } => {
            let e = fx_sub(target, current);
            LinearAxisStrategy::PID {
                kp,
                ki,
                kd,
                last_error: e as i64,
                integral: pid_integral_next(
                    e,
                    last_error as int,
                    integral as int,
                    dt,
                    clegg_integrator,
                    integral_limit,
                ) as i64,
                clegg_integrator,
                integral_limit,
            }
        },
        _ => s,
    }
}

impl LinearAxisStrategy {
    /// One frame of position tracking along one axis: the returned delta is
    /// what to add to the camera's position this frame, and PID state
    /// advances.
    pub fn compute(&mut self, delta_time: i64, target: i64, current: i64) -> (r: i64)
        ensures
            r as int == axis_delta(*old(self), delta_time as int, target as int, current as int),
            *final(self) == axis_next(
                *old(self),
                delta_time as int,
                target as int,
                current as int,
            ),
    {
        match *self {
            Self::Inactive => 0,
            Self::Fixed => sub_sat(target, current),
            Self::P(kp) => mul_fx(sub_sat(target, current), kp),
            Self::PID { kp, ki, kd, last_error, integral, clegg_integrator, integral_limit } => {
                let error: i64 = sub_sat(target, current);
                let p_value: i64 = mul_fx(error, kp);
                let d_value: i64 = if delta_time != 0 {
                    mul_fx(div_fx(sub_sat(error, last_error), delta_time), kd)
                } else {
                    0
                };
                let next_integral: i64 = if clegg_integrator && ((error >= 0) != (last_error
                    >= 0)) {
                    0
                } else {
                    integral_limit.fix(add_sat(integral, mul_fx(error, delta_time)))
                };
                let i_value: i64 = mul_fx(next_integral, ki);
                *self = Self::PID {
                    kp,
                    ki,
                    kd,
                    last_error: error,
                    integral: next_integral,
                    clegg_integrator,
                    integral_limit,
                };
                add_sat(add_sat(p_value, i_value), d_value)
            },
        }
    }
}

/// The inert strategy returns the identity (zero delta) whatever its inputs.
pub proof fn lemma_inactive_returns_zero(dt: int, target: int, current: int)
    ensures
        axis_delta(LinearAxisStrategy::Inactive, dt, target, current) == 0,
        rot_delta(RotationStrategy::Inactive, dt, target, current) == 0,
{
}

/// The fixed strategy converges in exactly one application: adding its
/// delta to the current value reaches the target, and once on target the
/// delta is zero, so repeated applications stay there.
pub proof fn lemma_fixed_converges(dt: int, target: int, current: int)
    requires
        in_range(target),
        in_range(target - current),
    ensures
        fx_add(current, axis_delta(LinearAxisStrategy::Fixed, dt, target, current)) == target,
        axis_delta(LinearAxisStrategy::Fixed, dt, target, target) == 0,
{
}

/// The fixed rotation strategy converges in one application up to whole
/// turns: after adding its delta the remaining shortest angle to the target
/// is zero.
pub proof fn lemma_fixed_rotation_converges(dt: int, target: int, current: int)
    requires
        in_range(current + norm_angle(target - current)),
    ensures
        norm_angle(target - fx_add(current, rot_delta(RotationStrategy::Fixed, dt, target, current)))
            == 0,
{
    let e = norm_angle(target - current);
    lemma_mod_division_less_than_divisor(target - current, TWO_PI_FX as int);
    lemma_fundamental_div_mod(target - current, TWO_PI_FX as int);
    let q: int = (target - current) / (TWO_PI_FX as int);
    if (target - current) % (TWO_PI_FX as int) > PI_FX {
        assert(target - (current + e) == q * (TWO_PI_FX as int) + (TWO_PI_FX as int)) by {
            assert((target - current) == (TWO_PI_FX as int) * q + (target - current) % (
            TWO_PI_FX as int));
        }
        assert(target - (current + e) == (q + 1) * (TWO_PI_FX as int)) by (nonlinear_arith)
            requires
                target - (current + e) == q * (TWO_PI_FX as int) + (TWO_PI_FX as int),
        ;
        lemma_fundamental_div_mod_converse_mod(target - (current + e), TWO_PI_FX as int, q + 1, 0);
    } else {
        assert(target - (current + e) == q * (TWO_PI_FX as int));
        lemma_fundamental_div_mod_converse_mod(target - (current + e), TWO_PI_FX as int, q, 0);
    }
}

/// A 2D translation strategy: two independent 1D strategies combined
/// component-wise, allowing asymmetric per-axis tuning.
#[derive(Clone, Copy, Debug, PartialEq, Eq, Structural)]
pub struct TranslationStrategy {
    pub x: LinearAxisStrategy,
    pub y: LinearAxisStrategy,
}

impl TranslationStrategy {
    pub fn new(x: LinearAxisStrategy, y: LinearAxisStrategy) -> (r: Self)
        ensures
            r == (TranslationStrategy { x, y }),
    {
        Self { x, y }
    }

    /// One frame of 2D tracking, component-wise.
    pub fn translation(&mut self, seconds: i64, target: Vec2, current: Vec2) -> (r: Vec2)
        ensures
            r.x as int == axis_delta(
                old(self).x,
                seconds as int,
                target.x as int,
                current.x as int,
            ),
            r.y as int == axis_delta(
                old(self).y,
                seconds as int,
                target.y as int,
                current.y as int,
            ),
            final(self).x == axis_next(old(self).x, seconds as int, target.x as int, current.x as int),
            final(self).y == axis_next(old(self).y, seconds as int, target.y as int, current.y as int),
    {
        let dx: i64 = self.x.compute(seconds, target.x, current.x);
        let dy: i64 = self.y.compute(seconds, target.y, current.y);
        Vec2 { x: dx, y: dy }
    }
}

/// Attached to a camera to make it track a target entity every frame.
#[derive(Clone, Copy, Debug, PartialEq, Eq, Structural)]
pub struct CameraFollow {
    /// The entity being followed, by stable id; resolved by the caller each
    /// frame, since targets may come and go.
    pub target: u64,
    pub translation_strategy: TranslationStrategy,
    pub rotation_strategy: RotationStrategy,
    /// Constant additive bias on the target's position.
    pub offset: Vec2,
}

impl Default for CameraFollow {
    fn default() -> (r: Self)
        ensures
            r == (CameraFollow {
                target: 0u64,
                translation_strategy: TranslationStrategy {
                    x: LinearAxisStrategy::Fixed,
                    y: LinearAxisStrategy::Fixed,
                },
                rotation_strategy: RotationStrategy::Inactive,
                offset: Vec2 { x: 0i64, y: 0i64 },
            }),
    {
        Self {
            target: 0,
            translation_strategy: TranslationStrategy::new(
                LinearAxisStrategy::Fixed,
                LinearAxisStrategy::Fixed,
            ),
            rotation_strategy: RotationStrategy::Inactive,
            offset: Vec2::zero(),
        }
    }
}

impl CameraFollow {
    pub fn new(entity: u64) -> (r: Self)
        ensures
            r == (CameraFollow {
                target: entity,
                translation_strategy: TranslationStrategy {
                    x: LinearAxisStrategy::Fixed,
                    y: LinearAxisStrategy::Fixed,
                },
                rotation_strategy: RotationStrategy::Inactive,
                offset: Vec2 { x: 0i64, y: 0i64 },
            }),
    {
        Self {
            target: entity,
            translation_strategy: TranslationStrategy::new(
                LinearAxisStrategy::Fixed,
                LinearAxisStrategy::Fixed,
            ),
            rotation_strategy: RotationStrategy::Inactive,
            offset: Vec2::zero(),
        }
    }

    pub fn with_rotation(self, rotation: RotationStrategy) -> (r: Self)
        ensures
            r == (CameraFollow { rotation_strategy: rotation, ..self }),
    {
        Self { rotation_strategy: rotation, ..self }
    }

    pub fn with_translation(self, translate: TranslationStrategy) -> (r: Self)
        ensures
            r == (CameraFollow { translation_strategy: translate, ..self }),
    {
        Self { translation_strategy: translate, ..self }
    }

    pub fn with_offset(self, offset: Vec2) -> (r: Self)
        ensures
            r == (CameraFollow { offset, ..self }),
    {
        Self { offset, ..self }
    }

    /// Snap position and rotation to the target every frame.
    pub fn fixed(entity: u64) -> (r: Self)
        ensures
            r == (CameraFollow {
                target: entity,
                translation_strategy: TranslationStrategy {
                    x: LinearAxisStrategy::Fixed,
                    y: LinearAxisStrategy::Fixed,
                },
                rotation_strategy: RotationStrategy::Fixed,
                offset: Vec2 { x: 0i64, y: 0i64 },
            }),
    {
        Self {
            target: entity,
            translation_strategy: TranslationStrategy::new(
                LinearAxisStrategy::Fixed,
                LinearAxisStrategy::Fixed,
            ),
            rotation_strategy: RotationStrategy::Fixed,
            offset: Vec2::zero(),
        }
    }

    /// Track position and rotation proportionally with gain `value`.
    pub fn proportional(entity: u64, value: i64) -> (r: Self)
        ensures
            r == (CameraFollow {
                target: entity,
                translation_strategy: TranslationStrategy {
                    x: LinearAxisStrategy::P(value),
                    y: LinearAxisStrategy::P(value),
                },
                rotation_strategy: RotationStrategy::P(value),
                offset: Vec2 { x: 0i64, y: 0i64 },
            }),
    {
        Self {
            target: entity,
            translation_strategy: TranslationStrategy::new(
                LinearAxisStrategy::P(value),
                LinearAxisStrategy::P(value),
            ),
            rotation_strategy: RotationStrategy::P(value),
            offset: Vec2::zero(),
        }
    }

    /// Track position and rotation with one PID configuration.
    pub fn pid(entity: u64, pid: &PID) -> (r: Self)
        ensures
            r.target == entity,
            r.translation_strategy.x == linear_strategy_of(*pid),
            r.translation_strategy.y == linear_strategy_of(*pid),
            r.rotation_strategy == radial_strategy_of(*pid),
            r.offset == (Vec2 { x: 0i64, y: 0i64 }),
    {
        let axis_strategy: LinearAxisStrategy = pid.create_linear();
        Self {
            target: entity,
            translation_strategy: TranslationStrategy::new(axis_strategy, axis_strategy),
            rotation_strategy: pid.create_radial(),
            offset: Vec2::zero(),
        }
    }

    /// Track position and rotation with per-axis PID configurations.
    pub fn pid_xyz(entity: u64, x: &PID, y: &PID, z: &PID) -> (r: Self)
        ensures
            r.target == entity,
            r.translation_strategy.x == linear_strategy_of(*x),
            r.translation_strategy.y == linear_strategy_of(*y),
            r.rotation_strategy == radial_strategy_of(*z),
            r.offset == (Vec2 { x: 0i64, y: 0i64 }),
    {
        Self {
            target: entity,
            translation_strategy: TranslationStrategy::new(x.create_linear(), y.create_linear()),
            rotation_strategy: z.create_radial(),
            offset: Vec2::zero(),
        }
    }

    /// Snap position to the target; leave rotation alone.
    pub fn fixed_translation(entity: u64) -> (r: Self)
        ensures
            r == (CameraFollow {
                target: entity,
                translation_strategy: TranslationStrategy {
                    x: LinearAxisStrategy::Fixed,
                    y: LinearAxisStrategy::Fixed,
                },
                rotation_strategy: RotationStrategy::Inactive,
                offset: Vec2 { x: 0i64, y: 0i64 },
            }),
    {
        Self {
            target: entity,
            translation_strategy: TranslationStrategy::new(
                LinearAxisStrategy::Fixed,
                LinearAxisStrategy::Fixed,
            ),
            rotation_strategy: RotationStrategy::Inactive,
            offset: Vec2::zero(),
        }
    }

    /// Track position proportionally; leave rotation alone.
    pub fn proportional_translation(entity: u64, value: i64) -> (r: Self)
        ensures
            r == (CameraFollow {
                target: entity,
                translation_strategy: TranslationStrategy {
                    x: LinearAxisStrategy::P(value),
                    y: LinearAxisStrategy::P(value),
                },
                rotation_strategy: RotationStrategy::Inactive,
                offset: Vec2 { x: 0i64, y: 0i64 },
            }),
    {
        Self {
            target: entity,
            translation_strategy: TranslationStrategy::new(
                LinearAxisStrategy::P(value),
                LinearAxisStrategy::P(value),
            ),
            rotation_strategy: RotationStrategy::Inactive,
            offset: Vec2::zero(),
        }
    }

    /// Track position with a PID configuration; leave rotation alone.
    pub fn pid_translation(entity: u64, pid: PID) -> (r: Self)
        ensures
            r.target == entity,
            r.translation_strategy.x == linear_strategy_of(pid),
            r.translation_strategy.y == linear_strategy_of(pid),
            r.rotation_strategy == RotationStrategy::Inactive,
            r.offset == (Vec2 { x: 0i64, y: 0i64 }),
    {
        let axis_strategy: LinearAxisStrategy = pid.create_linear();
        Self {
            target: entity,
            translation_strategy: TranslationStrategy::new(axis_strategy, axis_strategy),
            rotation_strategy: RotationStrategy::Inactive,
            offset: Vec2::zero(),
        }
    }

    /// One frame of camera following: reads the target's resolved position
    /// and yaw plus this binding's constant offset, runs the translation and
    /// rotation strategies against the camera's current transform, and emits
    /// the move command to apply.
    pub fn follow(
        &mut self,
        camera: u64,
        seconds: i64,
        target_pos: Vec2,
        target_yaw: i64,
        camera_pos: Vec2,
        camera_yaw: i64,
    ) -> (e: ParallaxMoveEvent)
        ensures
            e.camera == camera,
            e.translation.x as int == axis_delta(
                old(self).translation_strategy.x,
                seconds as int,
                fx_add(target_pos.x as int, old(self).offset.x as int),
                camera_pos.x as int,
            ),
            e.translation.y as int == axis_delta(
                old(self).translation_strategy.y,
                seconds as int,
                fx_add(target_pos.y as int, old(self).offset.y as int),
                camera_pos.y as int,
            ),
            e.rotation as int == rot_delta(
                old(self).rotation_strategy,
                seconds as int,
                target_yaw as int,
                camera_yaw as int,
            ),
            final(self).target == old(self).target,
            final(self).offset == old(self).offset,
            final(self).translation_strategy.x == axis_next(
                old(self).translation_strategy.x,
                seconds as int,
                fx_add(target_pos.x as int, old(self).offset.x as int),
                camera_pos.x as int,
            ),
            final(self).translation_strategy.y == axis_next(
                old(self).translation_strategy.y,
                seconds as int,
                fx_add(target_pos.y as int, old(self).offset.y as int),
                camera_pos.y as int,
            ),
            final(self).rotation_strategy == rot_next(
                old(self).rotation_strategy,
                seconds as int,
                target_yaw as int,
                camera_yaw as int,
            ),
    {
        let desired: Vec2 = Vec2 {
            x: add_sat(target_pos.x, self.offset.x),
            y: add_sat(target_pos.y, self.offset.y),
        };
        let camera_movement: Vec2 = self.translation_strategy.translation(
            seconds,
            desired,
            camera_pos,
        );
        let camera_rotation: i64 = self.rotation_strategy.rotation(
            seconds,
            target_yaw,
            camera_yaw,
        );
        ParallaxMoveEvent { translation: camera_movement, rotation: camera_rotation, camera }
    }
}

} // verus!
