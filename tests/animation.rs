use mouseless_core::animation::{
    AnimationConfig, AnimationInterpolator, AnimationMetrics, EasingCurve, EasingFunctions, Fraction,
};
use mouseless_core::models::{AnimationType, MovementSpeed, Position};

fn frac(num: u128, den: u128) -> Fraction {
    Fraction { num, den }
}

#[test]
fn test_linear_easing() {
    assert_eq!(EasingFunctions::linear(frac(0, 1)), frac(0, 1));
    assert_eq!(EasingFunctions::linear(frac(1, 2)), frac(1, 2));
    assert_eq!(EasingFunctions::linear(frac(1, 1)), frac(1, 1));
}

#[test]
fn test_ease_out_cubic() {
    let result = EasingFunctions::ease_out_cubic(frac(1, 2));
    assert!(result.num * 2 > result.den);
    assert!(result.num < result.den);
}

#[test]
fn test_animation_config_creation() {
    let config = AnimationConfig::new(MovementSpeed::Normal, AnimationType::Smooth);
    assert_eq!(config.duration_ms, 150);
    assert_eq!(config.steps, 20);
}

#[test]
fn test_animation_interpolator() {
    let start = Position::new(0, 0);
    let end = Position::new(100, 100);
    let interpolator = AnimationInterpolator::new(start, end, MovementSpeed::Fast, AnimationType::Smooth);
    let first_pos = interpolator.next_position(0).unwrap();
    let last_pos = interpolator.next_position(interpolator.config().steps - 1).unwrap();
    assert!(first_pos.x < end.x);
    assert!(first_pos.y < end.y);
    assert_eq!(last_pos.x, end.x);
    assert_eq!(last_pos.y, end.y);
}

#[test]
fn test_smooth_animation() {
    let start = Position::new(0, 0);
    let end = Position::new(100, 100);
    let interpolator = AnimationInterpolator::new(start, end, MovementSpeed::Fast, AnimationType::Smooth);
    assert!(interpolator.config().steps > 1);
    assert!(interpolator.config().duration_ms > 0);
    let pos = interpolator.next_position(0).unwrap();
    assert!(pos.x > start.x && pos.x <= end.x);
    assert!(pos.y > start.y && pos.y <= end.y);
}

#[test]
fn test_animation_metrics() {
    let mut metrics = AnimationMetrics::new();
    metrics.record_step(5);
    metrics.record_step(8);
    metrics.record_step(3);
    assert_eq!(metrics.steps_completed, 3);
    assert_eq!(metrics.total_duration_ms, 16);
    assert_eq!(metrics.max_step_time_ms, 8);
    assert_eq!(metrics.min_step_time_ms, 3);
    let average = metrics.average_step_time_ms.num as f64 / metrics.average_step_time_ms.den as f64;
    assert!((average - 5.33).abs() < 0.1);
    assert!(metrics.meets_performance_requirement());
}

#[test]
fn test_performance_requirement_failure() {
    let mut metrics = AnimationMetrics::new();
    metrics.record_step(15);
    assert!(!metrics.meets_performance_requirement());
}

#[test]
fn easing_exact_values() {
    assert_eq!(EasingFunctions::ease_out_cubic(frac(1, 2)), frac(7, 8));
    assert_eq!(EasingFunctions::ease_in_out_cubic(frac(1, 4)), frac(4, 64));
    assert_eq!(EasingFunctions::ease_in_out_cubic(frac(3, 4)), frac(60, 64));
    // 7.5625 * 0.25^2 = 0.47265625
    let b = EasingFunctions::ease_out_bounce(frac(1, 4));
    assert_eq!(b, frac(121, 256));
    // 7.5625 * (0.5 - 1.5 / 2.75)^2 + 0.75
    let b = EasingFunctions::ease_out_bounce(frac(1, 2));
    assert_eq!(b.num * 1_000_000 / b.den, 765_625);
    assert_eq!(EasingFunctions::ease_out_bounce(frac(1, 1)), frac(64, 64));
    assert_eq!(EasingCurve::EaseOutCubic.apply(frac(5, 5)), frac(125, 125));
}

#[test]
fn interpolation_exact_steps() {
    let start = Position::new(10, 0);
    let end = Position::new(40, -30);
    let interpolator = AnimationInterpolator::new(start, end, MovementSpeed::Fast, AnimationType::Linear);
    // Step 0 of 15: 30 * 1/15 = 2.
    assert_eq!(interpolator.next_position(0), Some(Position::new(12, -2)));
    assert_eq!(interpolator.next_position(14), Some(end));
    assert_eq!(interpolator.next_position(15), None);
    let sequence = interpolator.get_animation_sequence();
    assert_eq!(sequence.len(), 15);
    assert_eq!(sequence[14], end);
    // Smooth, step 0 of 15: 30 * (1 - (14/15)^3) = 5.6 rounds to 6.
    let smooth = AnimationInterpolator::new(start, end, MovementSpeed::Fast, AnimationType::Smooth);
    assert_eq!(smooth.next_position(0), Some(Position::new(16, -6)));
}

#[test]
fn instant_and_tiers() {
    let config = AnimationConfig::new(MovementSpeed::Slow, AnimationType::Instant);
    assert_eq!((config.duration_ms, config.steps), (0, 1));
    assert_eq!(config.step_delay_ms(), 0);
    let slow = AnimationConfig::new(MovementSpeed::Slow, AnimationType::Bounce);
    assert_eq!((slow.duration_ms, slow.steps), (300, 30));
    assert_eq!(slow.step_delay_ms(), 10);
    assert_eq!(slow.easing_function, EasingCurve::EaseOutBounce);
    let end = Position::with_screen(5, 5, 2);
    let interpolator = AnimationInterpolator::new(Position::new(900, 900), end, MovementSpeed::Normal, AnimationType::Instant);
    assert_eq!(interpolator.get_animation_sequence(), vec![end]);
    assert_eq!(interpolator.elapsed_ms_at(0), 0);
}

#[test]
fn ease_out_cubic_leads_linear_and_never_falls() {
    let n: u128 = 20;
    let mut previous = frac(0, 1);
    for k in 1..=n {
        let e = EasingFunctions::ease_out_cubic(frac(k, n));
        assert_eq!(e.den, n * n * n);
        assert!(e.num * n >= k * e.den);
        assert!(e.num * previous.den >= previous.num * e.den);
        previous = e;
    }
    assert_eq!(previous.num, previous.den);
}
