use audio_mixer::error::AudioError;
use audio_mixer::volume::{Volume, INFINITY_BITS, NEGATIVE_ZERO_BITS, ONE_BITS, ZERO_BITS};

fn samples() -> Vec<f32> {
    vec![
        0.0,
        -0.0,
        f32::MIN_POSITIVE,
        1.0e-45,
        0.1,
        0.25,
        0.5,
        0.999_999_94,
        1.0,
        1.000_000_1,
        1.5,
        2.0,
        f32::MAX,
        f32::INFINITY,
        -1.0e-45,
        -0.1,
        -1.0,
        f32::MIN,
        f32::NEG_INFINITY,
        f32::NAN,
        -f32::NAN,
        f32::from_bits(0x7F80_0001),
        f32::from_bits(0xFFFF_FFFF),
    ]
}

#[test]
fn half_is_accepted_as_it_is() {
    let half = 0.5f32.to_bits();
    assert_eq!(Volume::from_request(half).map(|v| v.bits()), Ok(half));
}

#[test]
fn above_one_is_refused() {
    assert_eq!(
        Volume::from_request(1.5f32.to_bits()).map(|v| v.bits()),
        Err(AudioError::InvalidArgument)
    );
}

#[test]
fn bit_patterns_of_the_bounds_are_those_of_the_numbers() {
    assert_eq!(ZERO_BITS, 0.0f32.to_bits());
    assert_eq!(ONE_BITS, 1.0f32.to_bits());
    assert_eq!(INFINITY_BITS, f32::INFINITY.to_bits());
    assert_eq!(NEGATIVE_ZERO_BITS, (-0.0f32).to_bits());
    assert_eq!(Volume::silent().bits(), 0.0f32.to_bits());
    assert_eq!(Volume::full().bits(), 1.0f32.to_bits());
}

#[test]
fn request_is_accepted_exactly_within_the_unit_interval() {
    for sample in samples() {
        let within = (0.0..=1.0).contains(&sample);
        match Volume::from_request(sample.to_bits()) {
            Ok(level) => {
                assert!(within, "{sample} was accepted");
                assert_eq!(f32::from_bits(level.bits()), sample);
                assert!(level.bits() <= ONE_BITS);
            }
            Err(e) => {
                assert!(!within, "{sample} was refused");
                assert_eq!(e, AudioError::InvalidArgument);
            }
        }
    }
}

#[test]
fn reading_is_clamped_to_the_unit_interval() {
    for sample in samples() {
        let shown = f32::from_bits(Volume::from_reading(sample.to_bits()).bits());
        let expected = if sample.is_nan() { 0.0 } else { sample.clamp(0.0, 1.0) };
        assert_eq!(shown, expected, "reading {sample}");
        assert!((0.0..=1.0).contains(&shown));
    }
}

#[test]
fn negative_zero_becomes_zero() {
    assert_eq!(Volume::from_request(NEGATIVE_ZERO_BITS).map(|v| v.bits()), Ok(ZERO_BITS));
    assert_eq!(Volume::from_reading(NEGATIVE_ZERO_BITS).bits(), ZERO_BITS);
}

#[test]
fn order_of_levels_is_the_order_of_their_bit_patterns() {
    let quarter = Volume::from_reading(0.25f32.to_bits());
    let half = Volume::from_reading(0.5f32.to_bits());
    assert!(quarter.bits() < half.bits());
    assert!(half.bits() < Volume::full().bits());
    assert!(Volume::silent().bits() < quarter.bits());
}
