//! The animation interpolation engine: per-step pointer positions between
//! a start and an end, for a speed tier and an easing curve.
//!
//! Progress and eased progress are exact fractions, so the last step lands
//! on the end position with no rounding drift. A coordinate of step `i` of
//! `n` is `start + round((end - start) * eased((i + 1) / n))`, halves
//! rounded away from zero.

use vstd::prelude::*;
use vstd::arithmetic::div_mod::{lemma_div_is_ordered, lemma_fundamental_div_mod_converse};
use vstd::arithmetic::mul::lemma_mul_inequality;

use crate::clock::now_ms;
use crate::models::{AnimationType, MovementSpeed, Position};

verus! {

/// The most steps an animation takes (the slow tier).
pub const MAX_ANIMATION_STEPS: u32 = 30;

/// A non-negative fraction `num / den`.
#[derive(Debug, Clone, Copy, PartialEq, Eq, Structural)]
pub struct Fraction {
    pub num: u128,
    pub den: u128,
}

/// A progress value `a / b` in `[0, 1]` whose denominator fits in 32 bits.
pub open spec fn is_progress(a: int, b: int) -> bool {
    0 < b <= u32::MAX && 0 <= a <= b
}

pub open spec fn sq(x: int) -> int {
    x * x
}

pub open spec fn cube(x: int) -> int {
    x * x * x
}

/// `1 - (1 - t)^3` for `t = a / b`, as a numerator over `b^3`.
pub open spec fn cubic_out_num(a: int, b: int) -> int {
    cube(b) - cube(b - a)
}

/// Ease-in-out cubic for `t = a / b`, as a numerator over `b^3`:
/// `4 t^3` below one half, `1 - (2 - 2t)^3 / 2` from there on.
pub open spec fn cubic_in_out_num(a: int, b: int) -> int {
    if 2 * a < b {
        4 * cube(a)
    } else {
        cube(b) - 4 * cube(b - a)
    }
}

/// The standard bounce-out curve (`n1 = 7.5625`, `d1 = 2.75`) for
/// `t = a / b`, as a numerator and denominator. Its four parabolas are
/// `121 t^2 / 16`, then `121 (t - 6/11)^2 / 16 + 3/4`, then
/// `121 (t - 9/11)^2 / 16 + 15/16`, then `121 (t - 21/22)^2 / 16 + 63/64`,
/// switching at `t = 4/11`, `8/11` and `10/11`.
pub open spec fn bounce_out(a: int, b: int) -> (int, int) {
    if 11 * a < 4 * b {
        (121 * sq(a), 16 * sq(b))
    } else if 11 * a < 8 * b {
        (sq(11 * a - 6 * b) + 12 * sq(b), 16 * sq(b))
    } else if 11 * a < 10 * b {
        (sq(11 * a - 9 * b) + 15 * sq(b), 16 * sq(b))
    } else {
        (sq(22 * a - 21 * b) + 63 * sq(b), 64 * sq(b))
    }
}

/// The easing curves that an animation can follow.
#[derive(Debug, Clone, Copy, PartialEq, Eq, Structural)]
pub enum EasingCurve {
    Linear,
    EaseOutCubic,
    EaseInOutCubic,
    EaseOutBounce,
}

/// The eased progress of `t = a / b` on a curve, as `(numerator, denominator)`.
pub open spec fn eased(curve: EasingCurve, a: int, b: int) -> (int, int) {
    match curve {
        EasingCurve::Linear => (a, b),
        EasingCurve::EaseOutCubic => (cubic_out_num(a, b), cube(b)),
        EasingCurve::EaseInOutCubic => (cubic_in_out_num(a, b), cube(b)),
        EasingCurve::EaseOutBounce => bounce_out(a, b),
    }
}

proof fn lemma_cube_bounds(x: int, y: int)
    requires
        0 <= x <= y,
    ensures
        0 <= cube(x) <= cube(y),
{
    assert(0 <= x * x <= y * y) by (nonlinear_arith)
        requires
            0 <= x <= y,
    ;
    assert(0 <= x * x * x <= y * y * y) by (nonlinear_arith)
        requires
            0 <= x <= y,
            0 <= x * x <= y * y,
    ;
}

proof fn lemma_bounce_in_unit(a: int, b: int)
    requires
        is_progress(a, b),
    ensures
        bounce_out(a, b).1 > 0,
        0 <= bounce_out(a, b).0 <= bounce_out(a, b).1,
        a == b ==> bounce_out(a, b).0 == bounce_out(a, b).1,
        bounce_out(a, b).1 <= 64 * sq(b),
{
    assert(sq(b) > 0) by (nonlinear_arith)
        requires
            b > 0,
    ;
    assert(0 <= sq(a)) by (nonlinear_arith);
    assert(0 <= sq(11 * a - 6 * b)) by (nonlinear_arith);
    assert(0 <= sq(11 * a - 9 * b)) by (nonlinear_arith);
    assert(0 <= sq(22 * a - 21 * b)) by (nonlinear_arith);
    if 11 * a < 4 * b {
        assert(121 * sq(a) <= 16 * sq(b)) by (nonlinear_arith)
            requires
                0 <= 11 * a < 4 * b,
        ;
    } else if 11 * a < 8 * b {
        assert(sq(11 * a - 6 * b) <= 4 * sq(b)) by (nonlinear_arith)
            requires
                -2 * b <= 11 * a - 6 * b <= 2 * b,
        ;
    } else if 11 * a < 10 * b {
        assert(sq(11 * a - 9 * b) <= sq(b)) by (nonlinear_arith)
            requires
                -b <= 11 * a - 9 * b <= b,
        ;
    } else {
        assert(sq(22 * a - 21 * b) <= sq(b)) by (nonlinear_arith)
            requires
                -b <= 22 * a - 21 * b <= b,
        ;
        if a == b {
            assert(22 * a - 21 * b == b);
        }
    }
}

proof fn lemma_cubic_in_unit(a: int, b: int)
    requires
        is_progress(a, b),
    ensures
        cube(b) > 0,
        0 <= cubic_out_num(a, b) <= cube(b),
        0 <= cubic_in_out_num(a, b) <= cube(b),
        a == b ==> cubic_out_num(a, b) == cube(b) && cubic_in_out_num(a, b) == cube(b),
        cube(b) <= 64 * b * b * b,
{
    lemma_cube_bounds(b - a, b);
    lemma_cube_bounds(a, b);
    assert(cube(b) > 0) by (nonlinear_arith)
        requires
            b > 0,
            cube(b) == b * b * b,
    ;
    assert(cube(0) == 0);
    assert(cube(b) <= 64 * b * b * b) by (nonlinear_arith)
        requires
            b > 0,
            cube(b) == b * b * b,
    ;
    if 2 * a < b {
        assert(8 * cube(a) < cube(b)) by (nonlinear_arith)
            requires
                0 <= 2 * a < b,
                cube(a) == a * a * a,
                cube(b) == b * b * b,
        ;
    } else {
        assert(8 * cube(b - a) <= cube(b)) by (nonlinear_arith)
            requires
                0 <= 2 * (b - a) <= b,
                cube(b - a) == (b - a) * (b - a) * (b - a),
                cube(b) == b * b * b,
        ;
    }
}

/// Every curve maps progress in `[0, 1]` into `[0, 1]`, and maps 1 to 1.
proof fn lemma_eased_in_unit(curve: EasingCurve, a: int, b: int)
    requires
        is_progress(a, b),
    ensures
        eased(curve, a, b).1 > 0,
        0 <= eased(curve, a, b).0 <= eased(curve, a, b).1,
        a == b ==> eased(curve, a, b).0 == eased(curve, a, b).1,
        eased(curve, a, b).1 <= 64 * b * b * b,
{
    lemma_bounce_in_unit(a, b);
    lemma_cubic_in_unit(a, b);
    assert(b <= 64 * b * b * b && 64 * sq(b) <= 64 * b * b * b) by (nonlinear_arith)
        requires
            b > 0,
    ;
}


proof fn lemma_square_fits(x: int, bound: int)
    requires
        -bound <= x <= bound,
    ensures
        0 <= sq(x) <= sq(bound),
{
    assert(0 <= sq(x) <= sq(bound)) by (nonlinear_arith)
        requires
            -bound <= x <= bound,
    ;
}

proof fn lemma_cube_fits(b: int)
    requires
        0 <= b <= u32::MAX,
    ensures
        b * b <= u64::MAX,
        cube(b) <= 0xffff_fffd_0000_0002_ffff_ffff,
{
    assert(b * b <= u32::MAX as int * u32::MAX as int) by (nonlinear_arith)
        requires
            0 <= b <= u32::MAX,
    ;
    assert(b * b * b <= (u32::MAX as int * u32::MAX as int) * u32::MAX as int) by (nonlinear_arith)
        requires
            0 <= b <= u32::MAX,
            b * b <= u32::MAX as int * u32::MAX as int,
    ;
}

/// Easing functions on exact progress fractions.
pub struct EasingFunctions;

impl EasingFunctions {
    /// No easing: the progress itself.
    pub fn linear(t: Fraction) -> (r: Fraction)
        ensures
            r == t,
    {
        t
    }

    /// Ease-out cubic, `1 - (1 - t)^3`: fast at first, slowing down.
    pub fn ease_out_cubic(t: Fraction) -> (r: Fraction)
        requires
            is_progress(t.num as int, t.den as int),
        ensures
            r.num == cubic_out_num(t.num as int, t.den as int),
            r.den == cube(t.den as int),
    {
        proof {
            lemma_cube_fits(t.den as int);
            lemma_cube_fits((t.den - t.num) as int);
            lemma_cube_bounds((t.den - t.num) as int, t.den as int);
        }
        let den3 = t.den * t.den * t.den;
        let rest = t.den - t.num;
        let rest3 = rest * rest * rest;
        Fraction { num: den3 - rest3, den: den3 }
    }

    /// Ease-in-out cubic: `4 t^3` below one half, `1 - (2 - 2t)^3 / 2` above.
    pub fn ease_in_out_cubic(t: Fraction) -> (r: Fraction)
        requires
            is_progress(t.num as int, t.den as int),
        ensures
            r.num == cubic_in_out_num(t.num as int, t.den as int),
            r.den == cube(t.den as int),
    {
        proof {
            lemma_cube_fits(t.den as int);
            lemma_cube_fits(t.num as int);
            lemma_cube_fits((t.den - t.num) as int);
            lemma_cubic_in_unit(t.num as int, t.den as int);
            lemma_cube_bounds(t.num as int, t.den as int);
            lemma_cube_bounds((t.den - t.num) as int, t.den as int);
        }
        let den3 = t.den * t.den * t.den;
        if 2 * t.num < t.den {
            let a3 = t.num * t.num * t.num;
            Fraction { num: 4 * a3, den: den3 }
        } else {
            let rest = t.den - t.num;
            let rest3 = rest * rest * rest;
            Fraction { num: den3 - 4 * rest3, den: den3 }
        }
    }

    /// Bounce-out: four parabolic arcs that settle on 1.
    pub fn ease_out_bounce(t: Fraction) -> (r: Fraction)
        requires
            is_progress(t.num as int, t.den as int),
        ensures
            r.num == bounce_out(t.num as int, t.den as int).0,
            r.den == bounce_out(t.num as int, t.den as int).1,
    {
        let a = t.num as i128;
        let b = t.den as i128;
        proof {
            lemma_bounce_in_unit(a as int, b as int);
            lemma_square_fits(a as int, u32::MAX as int);
            lemma_square_fits(b as int, u32::MAX as int);
            lemma_square_fits(11 * a - 6 * b, 22 * u32::MAX);
            lemma_square_fits(11 * a - 9 * b, 22 * u32::MAX);
            lemma_square_fits(22 * a - 21 * b, 22 * u32::MAX);
        }
        let bb = b * b;
        if 11 * a < 4 * b {
            Fraction { num: (121 * (a * a)) as u128, den: (16 * bb) as u128 }
        } else if 11 * a < 8 * b {
            let d = 11 * a - 6 * b;
            Fraction { num: (d * d + 12 * bb) as u128, den: (16 * bb) as u128 }
        } else if 11 * a < 10 * b {
            let d = 11 * a - 9 * b;
            Fraction { num: (d * d + 15 * bb) as u128, den: (16 * bb) as u128 }
        } else {
            let d = 22 * a - 21 * b;
            Fraction { num: (d * d + 63 * bb) as u128, den: (64 * bb) as u128 }
        }
    }

    /// The curve that an animation type follows: linear for instant and
    /// linear moves, ease-out cubic for smooth ones, bounce-out for bounces.
    pub fn get_easing_function(animation_type: AnimationType) -> (r: EasingCurve)
        ensures
            r == easing_for(animation_type),
    {
        match animation_type {
            AnimationType::Instant => EasingCurve::Linear,
            AnimationType::Linear => EasingCurve::Linear,
            AnimationType::Smooth => EasingCurve::EaseOutCubic,
            AnimationType::Bounce => EasingCurve::EaseOutBounce,
        }
    }
}

pub open spec fn easing_for(animation_type: AnimationType) -> EasingCurve {
    match animation_type {
        AnimationType::Instant => EasingCurve::Linear,
        AnimationType::Linear => EasingCurve::Linear,
        AnimationType::Smooth => EasingCurve::EaseOutCubic,
        AnimationType::Bounce => EasingCurve::EaseOutBounce,
    }
}

impl EasingCurve {
    /// The eased progress of `t` on this curve.
    pub fn apply(&self, t: Fraction) -> (r: Fraction)
        requires
            is_progress(t.num as int, t.den as int),
        ensures
            r.num == eased(*self, t.num as int, t.den as int).0,
            r.den == eased(*self, t.num as int, t.den as int).1,
    {
        match self {
            EasingCurve::Linear => EasingFunctions::linear(t),
            EasingCurve::EaseOutCubic => EasingFunctions::ease_out_cubic(t),
            EasingCurve::EaseInOutCubic => EasingFunctions::ease_in_out_cubic(t),
            EasingCurve::EaseOutBounce => EasingFunctions::ease_out_bounce(t),
        }
    }
}

/// `(duration in milliseconds, step count)` of a speed tier; an instant
/// move is one step with no duration.
pub open spec fn tier_timing(speed: MovementSpeed, animation_type: AnimationType) -> (u64, u32) {
    if animation_type == AnimationType::Instant {
        (0, 1)
    } else {
        match speed {
            MovementSpeed::Slow => (300, 30),
            MovementSpeed::Normal => (150, 20),
            MovementSpeed::Fast => (80, 15),
        }
    }
}

/// Timing and curve of one animated move.
#[derive(Debug, Clone, Copy, PartialEq, Eq, Structural)]
pub struct AnimationConfig {
    pub duration_ms: u64,
    pub steps: u32,
    pub easing_function: EasingCurve,
}

impl AnimationConfig {
    pub fn new(speed: MovementSpeed, animation_type: AnimationType) -> (r: Self)
        ensures
            (r.duration_ms, r.steps) == tier_timing(speed, animation_type),
            r.easing_function == easing_for(animation_type),
    {
        let (duration_ms, steps): (u64, u32) = match speed {
            MovementSpeed::Slow => (300, 30),
            MovementSpeed::Normal => (150, 20),
            MovementSpeed::Fast => (80, 15),
        };
        let (duration_ms, steps): (u64, u32) = if animation_type == AnimationType::Instant {
            (0, 1)
        } else {
            (duration_ms, steps)
        };
        AnimationConfig {
            duration_ms,
            steps,
            easing_function: EasingFunctions::get_easing_function(animation_type),
        }
    }

    /// Pause between steps: the duration shared out over the steps, none for
    /// a single step.
    pub fn step_delay_ms(&self) -> (r: u64)
        ensures
            r == if self.steps <= 1 { 0 } else { self.duration_ms / self.steps as u64 },
    {
        if self.steps <= 1 {
            0
        } else {
            self.duration_ms / self.steps as u64
        }
    }
}

/// `p / q` rounded to the nearest integer, halves away from zero.
pub open spec fn round_div(p: int, q: int) -> int {
    if p >= 0 {
        (2 * p + q) / (2 * q)
    } else {
        -((-2 * p + q) / (2 * q))
    }
}

/// A coordinate `start + round((end - start) * num / den)`.
pub open spec fn interpolate(start: int, end: int, num: int, den: int) -> int {
    start + round_div((end - start) * num, den)
}

proof fn lemma_round_div_range(p: int, q: int, d: int, m: int)
    requires
        0 < q,
        m == d * q,
        d >= 0 ==> 0 <= p <= m,
        d < 0 ==> m <= p <= 0,
    ensures
        d >= 0 ==> 0 <= round_div(p, q) <= d,
        d < 0 ==> d <= round_div(p, q) <= 0,
        p == m ==> round_div(p, q) == d,
{
    if d >= 0 {
        lemma_div_is_ordered(2 * p + q, 2 * m + q, 2 * q);
        lemma_div_is_ordered(0, 2 * p + q, 2 * q);
        assert(2 * m + q == d * (2 * q) + q) by (nonlinear_arith)
            requires
                m == d * q,
        ;
        lemma_fundamental_div_mod_converse(2 * m + q, 2 * q, d, q);
    } else {
        if p >= 0 {
            lemma_fundamental_div_mod_converse(q, 2 * q, 0, q);
            assert(m < 0) by (nonlinear_arith)
                requires
                    m == d * q,
                    d < 0,
                    q > 0,
            ;
        } else {
            lemma_div_is_ordered(-2 * p + q, -2 * m + q, 2 * q);
            lemma_div_is_ordered(0, -2 * p + q, 2 * q);
            assert(-2 * m + q == (-d) * (2 * q) + q) by (nonlinear_arith)
                requires
                    m == d * q,
            ;
            lemma_fundamental_div_mod_converse(-2 * m + q, 2 * q, -d, q);
        }
    }
}

/// A rounded share of a distance stays within the distance, and the whole
/// share is the whole distance.
proof fn lemma_round_share(d: int, num: int, den: int)
    requires
        0 <= num <= den,
        0 < den,
    ensures
        d >= 0 ==> 0 <= round_div(d * num, den) <= d,
        d < 0 ==> d <= round_div(d * num, den) <= 0,
        num == den ==> round_div(d * num, den) == d,
{
    let p = d * num;
    let m = d * den;
    assert(d >= 0 ==> 0 <= p <= m) by (nonlinear_arith)
        requires
            0 <= num <= den,
            p == d * num,
            m == d * den,
    ;
    assert(d < 0 ==> m <= p <= 0) by (nonlinear_arith)
        requires
            0 <= num <= den,
            p == d * num,
            m == d * den,
    ;
    lemma_round_div_range(p, den, d, m);
}

/// `start + round((end - start) * num / den)`, which lies between `start`
/// and `end`.
fn interpolate_coordinate(start: i32, end: i32, num: u128, den: u128) -> (r: i32)
    requires
        0 < den <= 64 * 30 * 30 * 30,
        num <= den,
    ensures
        r == interpolate(start as int, end as int, num as int, den as int),
{
    let d = end as i64 - start as i64;
    proof {
        lemma_round_share(d as int, num as int, den as int);
        assert(-0x1_0000_0000 * 1_728_000 <= d * num <= 0x1_0000_0000 * 1_728_000) by (nonlinear_arith)
            requires
                -0x1_0000_0000 <= d <= 0x1_0000_0000,
                0 <= num <= 1_728_000,
        ;
    }
    let p = d * num as i64;
    let q = den as i64;
    let share = if p >= 0 {
        (2 * p + q) / (2 * q)
    } else {
        -((-2 * p + q) / (2 * q))
    };
    (start as i64 + share) as i32
}

/// Per-step positions of one move.
#[derive(Debug, Clone, Copy)]
pub struct AnimationInterpolator {
    start_position: Position,
    end_position: Position,
    config: AnimationConfig,
    /// Milliseconds since the Unix epoch.
    start_time: u64,
}

/// Step `step` (0-based) of a move with this configuration.
pub open spec fn step_position(start: Position, end: Position, config: AnimationConfig, step: int) -> Position {
    if config.steps == 1 {
        end
    } else {
        let e = eased(config.easing_function, step + 1, config.steps as int);
        Position {
            x: interpolate(start.x as int, end.x as int, e.0, e.1) as i32,
            y: interpolate(start.y as int, end.y as int, e.0, e.1) as i32,
            screen_id: end.screen_id,
        }
    }
}

impl AnimationInterpolator {
    pub closed spec fn start_spec(&self) -> Position {
        self.start_position
    }

    pub closed spec fn end_spec(&self) -> Position {
        self.end_position
    }

    pub closed spec fn config_spec(&self) -> AnimationConfig {
        self.config
    }

    pub closed spec fn start_time_spec(&self) -> u64 {
        self.start_time
    }

    pub open spec fn wf(&self) -> bool {
        1 <= self.config_spec().steps <= MAX_ANIMATION_STEPS
    }

    /// A move from `start` to `end`, timed from now.
    pub fn new(start: Position, end: Position, speed: MovementSpeed, animation_type: AnimationType) -> (r: Self)
        ensures
            r.wf(),
            r.start_spec() == start,
            r.end_spec() == end,
            r.config_spec() == AnimationConfig::new_spec(speed, animation_type),
    {
        let config = AnimationConfig::new(speed, animation_type);
        AnimationInterpolator { start_position: start, end_position: end, config, start_time: now_ms() }
    }

    /// The position after step `step` (0-based), or `None` past the last
    /// step. The last step is the end position itself.
    pub fn next_position(&self, step: u32) -> (r: Option<Position>)
        requires
            self.wf(),
        ensures
            r == if step < self.config_spec().steps {
                Some(step_position(self.start_spec(), self.end_spec(), self.config_spec(), step as int))
            } else {
                None
            },
    {
        if step >= self.config.steps {
            return None;
        }
        if self.config.steps == 1 {
            return Some(self.end_position);
        }
        let progress = Fraction { num: (step + 1) as u128, den: self.config.steps as u128 };
        let eased_progress = self.config.easing_function.apply(progress);
        proof {
            lemma_eased_in_unit(self.config.easing_function, step + 1, self.config.steps as int);
            let b = self.config.steps as int;
            assert(64 * b * b * b <= 64 * 30 * 30 * 30) by (nonlinear_arith)
                requires
                    1 <= b <= 30,
            ;
        }
        let x = interpolate_coordinate(self.start_position.x, self.end_position.x, eased_progress.num, eased_progress.den);
        let y = interpolate_coordinate(self.start_position.y, self.end_position.y, eased_progress.num, eased_progress.den);
        Some(Position { x, y, screen_id: self.end_position.screen_id })
    }

    /// Every step's position, in order.
    pub fn get_animation_sequence(&self) -> (r: Vec<Position>)
        requires
            self.wf(),
        ensures
            r@.len() == self.config_spec().steps,
            forall|i: int|
                0 <= i < r@.len() ==> #[trigger] r@[i] == step_position(
                    self.start_spec(),
                    self.end_spec(),
                    self.config_spec(),
                    i,
                ),
    {
        let mut positions: Vec<Position> = Vec::new();
        let mut step: u32 = 0;
        while step < self.config.steps
            invariant
                self.wf(),
                step <= self.config.steps,
                positions@.len() == step,
                forall|i: int|
                    0 <= i < step ==> #[trigger] positions@[i] == step_position(
                        self.start_position,
                        self.end_position,
                        self.config,
                        i,
                    ),
            decreases self.config.steps - step,
        {
            if let Some(position) = self.next_position(step) {
                positions.push(position);
            }
            step = step + 1;
        }
        positions
    }

    pub fn config(&self) -> (r: &AnimationConfig)
        ensures
            *r == self.config_spec(),
    {
        &self.config
    }

    /// Whether the move's duration has run out by the wall clock.
    pub fn is_complete(&self) -> (r: bool) {
        self.is_complete_at(now_ms())
    }

    /// Whether the move's duration has run out at `now`.
    pub fn is_complete_at(&self, now: u64) -> (r: bool)
        ensures
            r == (self.elapsed_spec(now) >= self.config_spec().duration_ms),
    {
        self.elapsed_ms_at(now) >= self.config.duration_ms
    }

    pub open spec fn elapsed_spec(&self, now: u64) -> int {
        if now >= self.start_time_spec() {
            now - self.start_time_spec()
        } else {
            0
        }
    }

    /// Milliseconds since the move started, by the wall clock.
    pub fn elapsed_ms(&self) -> (r: u64) {
        self.elapsed_ms_at(now_ms())
    }

    /// Milliseconds since the move started, at `now` (0 if `now` is earlier).
    pub fn elapsed_ms_at(&self, now: u64) -> (r: u64)
        ensures
            r == self.elapsed_spec(now),
    {
        if now >= self.start_time {
            now - self.start_time
        } else {
            0
        }
    }
}

impl AnimationConfig {
    pub open spec fn new_spec(speed: MovementSpeed, animation_type: AnimationType) -> AnimationConfig {
        AnimationConfig {
            duration_ms: tier_timing(speed, animation_type).0,
            steps: tier_timing(speed, animation_type).1,
            easing_function: easing_for(animation_type),
        }
    }
}

/// Interpolation law: the last step of every move lands exactly on the end
/// position.
pub proof fn lemma_last_step_is_end(start: Position, end: Position, config: AnimationConfig)
    requires
        1 <= config.steps <= MAX_ANIMATION_STEPS,
    ensures
        step_position(start, end, config, config.steps - 1) == end,
{
    let n = config.steps as int;
    lemma_eased_in_unit(config.easing_function, n, n);
    let e = eased(config.easing_function, n, n);
    lemma_round_share(end.x - start.x, e.0, e.1);
    lemma_round_share(end.y - start.y, e.0, e.1);
}

/// Ease-out cubic law: over the steps of a move, eased progress never
/// decreases and never falls behind linear progress.
pub proof fn lemma_ease_out_cubic_progress(i: int, j: int, n: int)
    requires
        0 <= i <= j <= n,
        0 < n <= u32::MAX,
    ensures
        cubic_out_num(i, n) <= cubic_out_num(j, n),
        cubic_out_num(i, n) * n >= i * cube(n),
{
    lemma_cube_bounds(n - j, n - i);
    assert(cube(n - i) * n <= (n - i) * cube(n)) by (nonlinear_arith)
        requires
            0 <= n - i <= n,
            cube(n - i) == (n - i) * (n - i) * (n - i),
            cube(n) == n * n * n,
    ;
    assert(cubic_out_num(i, n) * n == cube(n) * n - cube(n - i) * n) by (nonlinear_arith)
        requires
            cubic_out_num(i, n) == cube(n) - cube(n - i),
    ;
    assert(i * cube(n) == cube(n) * n - (n - i) * cube(n)) by (nonlinear_arith)
        requires
            cube(n) == n * n * n,
    ;
}


/// Step timings of an executed move.
#[derive(Debug, Clone, Copy)]
pub struct AnimationMetrics {
    pub total_duration_ms: u64,
    pub steps_completed: u32,
    /// Total over steps; 0/1 before the first step.
    pub average_step_time_ms: Fraction,
    pub max_step_time_ms: u64,
    /// `u64::MAX` before the first step.
    pub min_step_time_ms: u64,
}

impl AnimationMetrics {
    pub fn new() -> (r: Self)
        ensures
            r.total_duration_ms == 0,
            r.steps_completed == 0,
            r.average_step_time_ms == (Fraction { num: 0, den: 1 }),
            r.max_step_time_ms == 0,
            r.min_step_time_ms == u64::MAX,
    {
        AnimationMetrics {
            total_duration_ms: 0,
            steps_completed: 0,
            average_step_time_ms: Fraction { num: 0, den: 1 },
            max_step_time_ms: 0,
            min_step_time_ms: u64::MAX,
        }
    }

    /// Adds one step that took `step_duration_ms`.
    pub fn record_step(&mut self, step_duration_ms: u64)
        requires
            old(self).steps_completed < u32::MAX,
            old(self).total_duration_ms + step_duration_ms <= u64::MAX,
        ensures
            final(self).steps_completed == old(self).steps_completed + 1,
            final(self).total_duration_ms == old(self).total_duration_ms + step_duration_ms,
            final(self).max_step_time_ms == if step_duration_ms > old(self).max_step_time_ms {
                step_duration_ms
            } else {
                old(self).max_step_time_ms
            },
            final(self).min_step_time_ms == if step_duration_ms < old(self).min_step_time_ms {
                step_duration_ms
            } else {
                old(self).min_step_time_ms
            },
            final(self).average_step_time_ms == (Fraction {
                num: final(self).total_duration_ms as u128,
                den: final(self).steps_completed as u128,
            }),
    {
        self.steps_completed = self.steps_completed + 1;
        self.total_duration_ms = self.total_duration_ms + step_duration_ms;
        if step_duration_ms > self.max_step_time_ms {
            self.max_step_time_ms = step_duration_ms;
        }
        if step_duration_ms < self.min_step_time_ms {
            self.min_step_time_ms = step_duration_ms;
        }
        self.average_step_time_ms = Fraction {
            num: self.total_duration_ms as u128,
            den: self.steps_completed as u128,
        };
    }

    /// Whether the average and the slowest step are both under 10 ms.
    pub fn meets_performance_requirement(&self) -> (r: bool)
        ensures
            r == (self.average_step_time_ms.num / 10 < self.average_step_time_ms.den && self.max_step_time_ms < 10),
    {
        self.average_step_time_ms.num / 10 < self.average_step_time_ms.den && self.max_step_time_ms < 10
    }
}

} // verus!
