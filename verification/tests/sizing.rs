use batch_upscale::sizing::MagnificationFactor;
use batch_upscale::sizing::DEFAULT_FACTOR;

fn factor(value: u32) -> MagnificationFactor {
    MagnificationFactor::new(value).expect("a positive factor")
}

#[test]
fn zero_is_no_factor() {
    assert!(MagnificationFactor::new(0).is_none());
}

#[test]
fn positive_factors_keep_their_value() {
    assert_eq!(factor(1).get(), 1);
    assert_eq!(factor(4).get(), 4);
    assert_eq!(factor(u32::MAX).get(), u32::MAX);
}

#[test]
fn default_factor_is_four() {
    assert_eq!(DEFAULT_FACTOR, 4);
    assert_eq!(MagnificationFactor::default().get(), 4);
}

#[test]
fn apply_multiplies() {
    assert_eq!(factor(4).apply(100), 400);
    assert_eq!(factor(4).apply(50), 200);
    assert_eq!(factor(3).apply(7), 21);
    assert_eq!(factor(1).apply(12345), 12345);
}

#[test]
fn apply_saturates_at_the_largest_value() {
    assert_eq!(factor(4).apply(u32::MAX), u32::MAX);
    assert_eq!(factor(4).apply(1 << 30), u32::MAX);
    assert_eq!(factor(4).apply((1 << 30) - 1), u32::MAX - 3);
    assert_eq!(factor(2).apply(1 << 31), u32::MAX);
    assert_eq!(factor(u32::MAX).apply(2), u32::MAX);
}

#[test]
fn zero_dimension_stays_zero() {
    assert_eq!(factor(4).apply(0), 0);
    assert_eq!(factor(u32::MAX).apply(0), 0);
    assert_eq!(factor(4).target_dimensions(0, 50), (0, 200));
    assert_eq!(factor(4).target_dimensions(100, 0), (400, 0));
    assert_eq!(factor(4).target_dimensions(0, 0), (0, 0));
}

#[test]
fn target_dimensions_scale_both_sides() {
    assert_eq!(factor(4).target_dimensions(100, 50), (400, 200));
    assert_eq!(factor(2).target_dimensions(3, 5), (6, 10));
}

#[test]
fn target_dimensions_saturate_each_side_alone() {
    assert_eq!(factor(4).target_dimensions(u32::MAX, 10), (u32::MAX, 40));
    assert_eq!(factor(4).target_dimensions(10, u32::MAX), (40, u32::MAX));
}

#[test]
fn magnifying_never_shrinks() {
    for dimension in [0u32, 1, 2, 1000, 1 << 30, u32::MAX] {
        for scale in [1u32, 2, 4, 1000, u32::MAX] {
            assert!(factor(scale).apply(dimension) >= dimension);
        }
    }
}

#[test]
fn magnifying_is_monotonic() {
    let four = factor(4);
    let samples = [0u32, 1, 99, 100, 1 << 29, 1 << 30, u32::MAX];
    for pair in samples.windows(2) {
        assert!(four.apply(pair[0]) <= four.apply(pair[1]));
    }
}

#[test]
fn uniform_scaling_keeps_proportions() {
    let (width, height) = factor(4).target_dimensions(100, 50);
    assert_eq!(u64::from(width) * 50, u64::from(height) * 100);
}
