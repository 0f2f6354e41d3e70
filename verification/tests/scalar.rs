use rrte_engine::math::Scalar;

fn s(x: f32) -> Scalar {
    Scalar::from_bits(x.to_bits())
}

fn samples() -> Vec<f32> {
    vec![
        0.0,
        -0.0,
        1.0,
        -1.0,
        0.001,
        1e-6,
        -1e-6,
        1e-8,
        0.5,
        2.5,
        -2.5,
        100.0,
        f32::MIN_POSITIVE,
        -f32::MIN_POSITIVE,
        1.0e-40,
        -1.0e-40,
        f32::MAX,
        f32::MIN,
        f32::INFINITY,
        f32::NEG_INFINITY,
        f32::NAN,
        -f32::NAN,
    ]
}

#[test]
fn comparisons_agree_with_the_machine() {
    for &a in &samples() {
        for &b in &samples() {
            assert_eq!(s(a).lt(s(b)), a < b, "{} < {}", a, b);
            assert_eq!(s(a).le(s(b)), a <= b, "{} <= {}", a, b);
            assert_eq!(s(a).gt(s(b)), a > b, "{} > {}", a, b);
            assert_eq!(s(a).ge(s(b)), a >= b, "{} >= {}", a, b);
        }
    }
}

#[test]
fn negation_and_magnitude_agree_with_the_machine() {
    for &a in &samples() {
        assert_eq!(s(a).neg().to_bits(), (-a).to_bits());
        assert_eq!(s(a).abs().to_bits(), a.abs().to_bits());
        assert_eq!(s(a).is_nan(), a.is_nan());
        assert_eq!(s(a).is_sign_negative(), a.is_sign_negative());
    }
}

#[test]
fn clamp_agrees_with_the_machine() {
    for &a in &samples() {
        let expected = a.clamp(0.0, 1.0);
        let got = s(a).clamp(Scalar::zero(), Scalar::one());
        assert_eq!(got.to_bits(), expected.to_bits(), "clamp {}", a);
    }
}

#[test]
fn constants_are_what_they_say() {
    assert_eq!(Scalar::zero().to_bits(), 0.0f32.to_bits());
    assert_eq!(Scalar::one().to_bits(), 1.0f32.to_bits());
    assert_eq!(Scalar::infinity().to_bits(), f32::INFINITY.to_bits());
}
