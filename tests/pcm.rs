use dspkit::pcm::U24_MAX_LEVEL;
use dspkit::{PCM, U24};

/// The float half of encoding: clamp, scale by 2^23 - 1, truncate toward zero.
fn quantize(x: f32) -> i32 {
    (x.clamp(-1.0, 1.0) * 8_388_607.0) as i32
}

/// The float half of decoding: scale by 2^-23 and clamp.
fn dequantize(level: i32) -> f32 {
    (level as f32 / 8_388_608.0).clamp(-1.0, 1.0)
}

#[test]
fn test_f32_to_u24_equilibrium() {
    let equilibrium: f32 = 0.0;
    assert_eq!(U24::from_level(quantize(equilibrium)), U24::pcm_equilibrium());
}

#[test]
fn equilibrium_is_zero_word() {
    assert_eq!(U24::pcm_equilibrium().inner(), 0);
}

#[test]
fn new_and_inner_keep_the_word() {
    assert_eq!(U24::new(0xDEAD_BEEF).inner(), 0xDEAD_BEEF);
}

#[test]
fn from_level_stores_bit_pattern() {
    assert_eq!(U24::from_level(-1).inner(), 0xFFFF_FFFF);
    assert_eq!(U24::from_level(5).inner(), 5);
    assert_eq!(U24::from_level(-U24_MAX_LEVEL).inner(), 0xFF80_0001);
}

#[test]
fn level_sign_extends_low_24_bits() {
    assert_eq!(U24::new(0x00FF_FFFF).level(), -1);
    assert_eq!(U24::new(0x0080_0000).level(), -8_388_608);
    assert_eq!(U24::new(0x007F_FFFF).level(), 8_388_607);
    assert_eq!(U24::new(0xFF00_0001).level(), 1);
    assert_eq!(U24::new(0).level(), 0);
}

#[test]
fn level_round_trip_is_exact() {
    for level in [0, 1, -1, 4_194_303, -4_194_303, U24_MAX_LEVEL, -U24_MAX_LEVEL] {
        assert_eq!(U24::from_level(level).level(), level);
    }
}

#[test]
fn float_round_trip_within_one_step() {
    let step = 1.0f32 / 8_388_608.0;
    for x in [0.0f32, 0.5, -0.5, 0.25, -0.25, 1.0, -1.0, 0.125] {
        let back = dequantize(U24::from_level(quantize(x)).level());
        assert!((back - x).abs() <= step, "x = {x}, back = {back}");
    }
}

#[test]
fn float_encode_clamps_out_of_range() {
    assert_eq!(U24::from_level(quantize(2.0)).level(), U24_MAX_LEVEL);
    assert_eq!(U24::from_level(quantize(-3.0)).level(), -U24_MAX_LEVEL);
}
