use chartex_radio::manifest::millis_of;

/// The milliseconds in `seconds`, rounded to the nearest, counted in double
/// precision, which holds every product here exactly.
fn rounded(seconds: f32) -> u64 {
    (seconds as f64 * 1000.0 + 0.5).floor() as u64
}

#[test]
fn whole_seconds_in_milliseconds() {
    assert_eq!(millis_of(6.0f32.to_bits()), Some(6_000));
    assert_eq!(millis_of(1.0f32.to_bits()), Some(1_000));
    assert_eq!(millis_of(10.0f32.to_bits()), Some(10_000));
    assert_eq!(millis_of(86_400.0f32.to_bits()), Some(86_400_000));
}

#[test]
fn fractions_are_rounded_to_the_nearest_millisecond() {
    assert_eq!(millis_of(9.96f32.to_bits()), Some(9_960));
    assert_eq!(millis_of(9.999f32.to_bits()), Some(9_999));
    assert_eq!(millis_of(0.5f32.to_bits()), Some(500));
    assert_eq!(millis_of(0.001f32.to_bits()), Some(1));
    assert_eq!(millis_of(2.0025f32.to_bits()), Some(2_003));
    assert_eq!(millis_of(0.0004f32.to_bits()), Some(0));
    assert_eq!(millis_of(0.0005f32.to_bits()), Some(1));
    assert_eq!(millis_of(0.00048828125f32.to_bits()), Some(0));
    assert_eq!(millis_of(0.0014999f32.to_bits()), Some(1));
}

#[test]
fn zero_and_the_smallest_numbers_are_no_millisecond() {
    assert_eq!(millis_of(0), Some(0));
    assert_eq!(millis_of(1), Some(0));
    assert_eq!(millis_of(f32::MIN_POSITIVE.to_bits()), Some(0));
    assert_eq!(millis_of(0x007F_FFFF), Some(0));
}

#[test]
fn numbers_that_are_no_span_of_time() {
    assert_eq!(millis_of(f32::INFINITY.to_bits()), None);
    assert_eq!(millis_of(f32::NAN.to_bits()), None);
    assert_eq!(millis_of((-1.0f32).to_bits()), None);
    assert_eq!(millis_of((-0.0f32).to_bits()), None);
    assert_eq!(millis_of(f32::NEG_INFINITY.to_bits()), None);
    assert_eq!(millis_of(f32::MAX.to_bits()), None);
    assert_eq!(millis_of(u32::MAX), None);
}

#[test]
fn longest_span_lies_just_below_two_to_the_53() {
    let limit = 9_007_199_254_740_992.0f32;
    assert_eq!(millis_of(limit.to_bits()), None);
    let below = f32::from_bits(limit.to_bits() - 1);
    assert_eq!(below, 9_007_198_717_870_080.0);
    assert_eq!(millis_of(below.to_bits()), Some(9_007_198_717_870_080_000));
}

#[test]
fn every_exponent_agrees_with_double_precision() {
    for exponent in 0u32..=179 {
        for fraction in [0u32, 1, 2, 0x40_0000, 0x3F_FFFF, 0x7F_FFFF, 0x12_3456, 0x6A_BCDE] {
            let bits = (exponent << 23) | fraction;
            let seconds = f32::from_bits(bits);
            if seconds < 1.0e12 {
                assert_eq!(millis_of(bits), Some(rounded(seconds)));
            } else {
                assert!(millis_of(bits).is_some());
            }
        }
    }
    for exponent in 180u32..=255 {
        assert_eq!(millis_of(exponent << 23), None);
        assert_eq!(millis_of((exponent << 23) | 0x7F_FFFF), None);
    }
}

#[test]
fn many_durations_agree_with_double_precision() {
    let mut bits: u32 = 0x3000_0000;
    while bits < 0x4A00_0000 {
        assert_eq!(millis_of(bits), Some(rounded(f32::from_bits(bits))));
        bits += 104_729;
    }
}
