use scribe::level::{cap_level, is_audible, FULL, SILENCE_THRESHOLD};

fn samples_of_every_kind() -> Vec<f32> {
    let mut values = vec![
        0.0,
        -0.0,
        f32::MIN_POSITIVE,
        f32::MIN_POSITIVE / 2.0,
        -1.0,
        1.0,
        0.999_999_94,
        1.000_000_1,
        0.001,
        0.000_999_999_9,
        -0.001,
        2.5,
        f32::MAX,
        f32::MIN,
        f32::INFINITY,
        f32::NEG_INFINITY,
        f32::NAN,
        -f32::NAN,
    ];
    let mut bits: u32 = 0;
    for _ in 0..100_000 {
        values.push(f32::from_bits(bits));
        bits = bits.wrapping_add(42_949);
    }
    values
}

#[test]
fn constants_are_the_bits_of_their_numbers() {
    assert_eq!(FULL, 1.0f32.to_bits());
    assert_eq!(SILENCE_THRESHOLD, 0.001f32.to_bits());
}

#[test]
fn capping_is_the_minimum_with_one() {
    for value in samples_of_every_kind() {
        assert_eq!(cap_level(value.to_bits()), value.min(1.0).to_bits());
    }
}

#[test]
fn audible_is_at_least_the_threshold() {
    for value in samples_of_every_kind() {
        assert_eq!(is_audible(value.to_bits()), value >= 0.001);
    }
}
