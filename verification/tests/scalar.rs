use livesplit_renderer_glow::scalar::Scalar;

fn s(value: f32) -> Scalar {
    Scalar { bits: value.to_bits() }
}

#[test]
fn approx_eq_matches_single_precision_on_samples() {
    let samples: Vec<f32> = vec![
        0.0,
        -0.0,
        1.0,
        -1.0,
        0.1,
        0.2,
        0.1 + f32::EPSILON,
        0.1 + 0.5 * f32::EPSILON,
        1.0 - f32::EPSILON / 2.0,
        1.0 + f32::EPSILON,
        f32::EPSILON,
        f32::EPSILON / 2.0,
        -f32::EPSILON,
        f32::MIN_POSITIVE,
        f32::MIN_POSITIVE / 4.0,
        1.0e-7,
        2.0e-7,
        1.1920928e-7,
        1.1920927e-7,
        5.0e-8,
        -5.0e-8,
        -7.0e-8,
        3.0e38,
        -3.0e38,
        f32::MAX,
        f32::MIN,
        f32::INFINITY,
        f32::NEG_INFINITY,
        f32::NAN,
        1.0e-20,
        123456.78,
        123456.79,
    ];
    for a in &samples {
        for b in &samples {
            let expected = (a - b).abs() < f32::EPSILON;
            assert_eq!(s(*a).approx_eq(s(*b)), expected, "{a:?} {b:?}");
        }
    }
}

#[test]
fn approx_eq_matches_single_precision_near_the_tolerance() {
    // Pairs whose difference is about the tolerance, across magnitudes.
    let mut state: u32 = 0x1234_5678;
    let mut next = || {
        state ^= state << 13;
        state ^= state >> 17;
        state ^= state << 5;
        state
    };
    let mut hits = 0u32;
    for _ in 0..200_000 {
        let a = f32::from_bits(next());
        let step = f32::from_bits(0x3300_0000 + (next() % 0x0200_0000));
        let b = if next() % 2 == 0 { a + step } else { a - step };
        for (x, y) in [(a, b), (b, a), (a, f32::from_bits(next()))] {
            let expected = (x - y).abs() < f32::EPSILON;
            if expected {
                hits += 1;
            }
            assert_eq!(s(x).approx_eq(s(y)), expected, "{x:?} {y:?}");
        }
    }
    assert!(hits > 1000);
}

#[test]
fn approx_eq_at_the_edge_of_the_tolerance() {
    // 2^-23 and 2^-72: the exact difference is below 2^-23 and rounds to it.
    let a = f32::from_bits(0x3400_0000);
    let b = f32::from_bits(0x1b80_0000);
    assert_eq!(a, f32::EPSILON);
    assert!(!((a - b).abs() < f32::EPSILON));
    assert!(!s(a).approx_eq(s(b)));
    // The largest number below the tolerance is within it of zero.
    let below = f32::from_bits(0x33ff_ffff);
    assert!(s(below).approx_eq(s(0.0)));
    assert!(s(0.0).approx_eq(s(-below)));
    assert!(!s(a).approx_eq(s(0.0)));
    assert!(!s(below).approx_eq(s(-below)));
    // Large neighbours are further apart than the tolerance.
    assert!(s(2.0).approx_eq(s(2.0)));
    assert!(!s(2.0).approx_eq(s(f32::from_bits(0x4000_0001))));
    assert!(s(1.0).approx_eq(s(f32::from_bits(0x3f7f_ffff))));
    assert!(!s(f32::MAX).approx_eq(s(f32::from_bits(0x7f7f_fffe))));
    assert!(s(f32::MAX).approx_eq(s(f32::MAX)));
    assert!(!s(f32::INFINITY).approx_eq(s(f32::INFINITY)));
    assert!(!s(f32::NAN).approx_eq(s(f32::NAN)));
}
