use ray_tracer::scalar::{
    Scalar, CHANNEL_CEILING_BITS, EPSILON_BITS, INFINITY_BITS, ONE_BITS, SHADOW_BIAS_BITS, SIGN_BIT,
};

fn s(x: f64) -> Scalar {
    Scalar::from_bits(x.to_bits())
}

fn n(x: Scalar) -> f64 {
    f64::from_bits(x.to_bits())
}

fn samples() -> Vec<f64> {
    vec![
        f64::NEG_INFINITY,
        -1e300,
        -1.5,
        -1.0,
        -0.999,
        -1e-8,
        -1e-300,
        -5e-324,
        -0.0,
        0.0,
        5e-324,
        1e-300,
        1e-8,
        0.001,
        0.0039,
        0.00390625,
        0.004,
        0.25,
        0.5,
        0.7071067811865476,
        0.99,
        0.999,
        0.9990000000000001,
        0.9999,
        1.0,
        1.0000000000000002,
        2.0,
        255.0,
        1e300,
        f64::INFINITY,
        f64::NAN,
    ]
}

#[test]
fn constants_are_the_patterns_of_their_numbers() {
    assert_eq!(ONE_BITS, 1.0f64.to_bits());
    assert_eq!(INFINITY_BITS, f64::INFINITY.to_bits());
    assert_eq!(CHANNEL_CEILING_BITS, 0.999f64.to_bits());
    assert_eq!(EPSILON_BITS, 1e-8f64.to_bits());
    assert_eq!(SHADOW_BIAS_BITS, 0.001f64.to_bits());
    assert_eq!(SIGN_BIT, (-0.0f64).to_bits());
    assert_eq!(Scalar::zero().to_bits(), 0.0f64.to_bits());
    assert_eq!(Scalar::one().to_bits(), 1.0f64.to_bits());
    assert_eq!(Scalar::infinity().to_bits(), f64::INFINITY.to_bits());
}

#[test]
fn bits_go_in_and_come_out() {
    assert_eq!(Scalar::from_bits(0x1234_5678_9abc_def0).to_bits(), 0x1234_5678_9abc_def0);
    assert_eq!(s(0.75).bits, 0.75f64.to_bits());
}

#[test]
fn less_agrees_with_numbers() {
    for a in samples() {
        for b in samples() {
            assert_eq!(s(a).lt(s(b)), a < b, "{} < {}", a, b);
            assert_eq!(s(a).gt(s(b)), a > b, "{} > {}", a, b);
        }
    }
}

#[test]
fn both_zeros_compare_equal() {
    assert!(!s(-0.0).lt(s(0.0)));
    assert!(!s(0.0).lt(s(-0.0)));
    assert!(s(-5e-324).lt(s(0.0)));
    assert!(s(-0.0).lt(s(5e-324)));
}

#[test]
fn nan_is_found_and_never_less() {
    assert!(s(f64::NAN).is_nan());
    assert!(s(-f64::NAN).is_nan());
    assert!(!s(f64::INFINITY).is_nan());
    assert!(!s(f64::NEG_INFINITY).is_nan());
    assert!(!s(0.0).is_nan());
    assert!(!s(f64::NAN).lt(s(1.0)));
    assert!(!s(1.0).lt(s(f64::NAN)));
    assert!(!s(f64::NAN).lt(s(f64::NAN)));
}

#[test]
fn neg_and_abs_agree_with_numbers() {
    for a in samples() {
        assert_eq!(s(a).neg().to_bits(), (-a).to_bits(), "-{}", a);
        assert_eq!(s(a).abs().to_bits(), a.abs().to_bits(), "|{}|", a);
        assert_eq!(s(a).neg().neg().to_bits(), a.to_bits());
    }
}

#[test]
fn min_agrees_with_numbers() {
    for a in samples() {
        for b in samples() {
            if a == b && a.to_bits() != b.to_bits() {
                continue;
            }
            if a.is_nan() && b.is_nan() {
                assert!(s(a).min(s(b)).is_nan());
                continue;
            }
            assert_eq!(s(a).min(s(b)).to_bits(), a.min(b).to_bits(), "min({}, {})", a, b);
        }
    }
}

#[test]
fn min_with_one_caps_at_one() {
    assert_eq!(n(s(0.3).min(Scalar::one())), 0.3);
    assert_eq!(n(s(1.0).min(Scalar::one())), 1.0);
    assert_eq!(n(s(7.5).min(Scalar::one())), 1.0);
    assert_eq!(n(s(f64::NAN).min(Scalar::one())), 1.0);
    assert_eq!(n(s(-2.0).min(Scalar::one())), -2.0);
}

#[test]
fn clamp_agrees_with_numbers() {
    let bounds = [(0.0, 0.999), (-1.0, 1.0), (0.001, f64::INFINITY), (2.0, 2.0)];
    for (low, high) in bounds {
        for a in samples() {
            let got = s(a).clamp(s(low), s(high));
            let want = a.clamp(low, high);
            assert_eq!(got.to_bits(), want.to_bits(), "{}.clamp({}, {})", a, low, high);
        }
    }
}

#[test]
fn channel_agrees_with_the_float_pipeline() {
    for a in samples() {
        let want = (256.0 * a.clamp(0.0, 0.999)) as u8;
        assert_eq!(s(a).to_channel(), want, "channel of {}", a);
    }
    let mut x = 0.0f64;
    while x < 1.2 {
        let want = (256.0 * x.clamp(0.0, 0.999)) as u8;
        assert_eq!(s(x).to_channel(), want, "channel of {}", x);
        x += 0.000731;
    }
}

#[test]
fn channel_steps_at_whole_multiples() {
    for k in 1..=255u32 {
        let edge = k as f64 / 256.0;
        let below = f64::from_bits(edge.to_bits() - 1);
        assert_eq!(s(edge).to_channel() as u32, k, "at {}", edge);
        assert_eq!(s(below).to_channel() as u32, k - 1, "below {}", edge);
    }
}

#[test]
fn channel_edge_values() {
    assert_eq!(s(0.0).to_channel(), 0);
    assert_eq!(s(-0.0).to_channel(), 0);
    assert_eq!(s(-3.0).to_channel(), 0);
    assert_eq!(s(f64::NAN).to_channel(), 0);
    assert_eq!(s(5e-324).to_channel(), 0);
    assert_eq!(s(0.00390625).to_channel(), 1);
    assert_eq!(s(0.5).to_channel(), 128);
    assert_eq!(s(0.999).to_channel(), 255);
    assert_eq!(s(1.0).to_channel(), 255);
    assert_eq!(s(f64::INFINITY).to_channel(), 255);
}

#[test]
fn channel_of_one_half_root() {
    assert_eq!(s(0.5f64.sqrt()).to_channel(), 181);
}

/// Patterns spread over all of binary64, the same on every run.
fn patterns(count: usize) -> Vec<u64> {
    let mut state: u64 = 0x9e37_79b9_7f4a_7c15;
    let mut out = Vec::with_capacity(count);
    for _ in 0..count {
        state ^= state << 13;
        state ^= state >> 7;
        state ^= state << 17;
        out.push(state);
    }
    out
}

#[test]
fn every_pattern_compares_as_its_number() {
    let all = patterns(20_000);
    for pair in all.windows(2) {
        let (a, b) = (Scalar::from_bits(pair[0]), Scalar::from_bits(pair[1]));
        let (x, y) = (f64::from_bits(pair[0]), f64::from_bits(pair[1]));
        assert_eq!(a.lt(b), x < y);
        assert_eq!(a.gt(b), x > y);
        assert_eq!(a.is_nan(), x.is_nan());
        assert_eq!(a.neg().to_bits(), (-x).to_bits());
        assert_eq!(a.abs().to_bits(), x.abs().to_bits());
        if !x.is_nan() && !y.is_nan() && x != y {
            assert_eq!(a.min(b).to_bits(), x.min(y).to_bits());
        }
        if x.is_nan() && !y.is_nan() {
            assert_eq!(a.min(b).to_bits(), y.to_bits());
        }
        if !x.is_nan() && y.is_nan() {
            assert_eq!(a.min(b).to_bits(), x.to_bits());
        }
    }
}

#[test]
fn every_pattern_has_the_channel_of_its_number() {
    for bits in patterns(20_000) {
        let x = f64::from_bits(bits);
        assert_eq!(Scalar::from_bits(bits).to_channel(), (256.0 * x.clamp(0.0, 0.999)) as u8);
        // The same fractions, brought into the range where channels differ.
        let near = f64::from_bits((bits & 0x000f_ffff_ffff_ffff) | 0x3fe0_0000_0000_0000);
        for scaled in [near, near / 2.0, near / 16.0, near / 128.0, near / 512.0] {
            let want = (256.0 * scaled.clamp(0.0, 0.999)) as u8;
            assert_eq!(Scalar::from_bits(scaled.to_bits()).to_channel(), want, "{}", scaled);
        }
    }
}
