use slime_moulds::binary32::Binary32;

fn number(value: f32) -> Binary32 {
    Binary32::from_bits(value.to_bits())
}

fn samples() -> Vec<f32> {
    vec![
        0.0,
        -0.0,
        f32::from_bits(1),
        f32::from_bits(0x007f_ffff),
        f32::MIN_POSITIVE,
        0.002,
        0.05,
        0.5,
        0.999_999_94,
        1.0,
        1.000_000_1,
        1.5,
        2.5,
        7.0,
        63.999_996,
        1080.0,
        1920.0,
        1920.75,
        8_388_607.5,
        8_388_608.0,
        16_777_215.0,
        16_777_216.0,
        2_147_483_520.0,
        2_147_483_648.0,
        4_294_967_040.0,
        4_294_967_296.0,
        1.0e10,
        1.0e30,
        f32::MAX,
        f32::INFINITY,
        f32::NAN,
        -f32::from_bits(1),
        -0.5,
        -1.0,
        -1920.0,
        -f32::MAX,
        f32::NEG_INFINITY,
        -f32::NAN,
    ]
}

fn expected_whole(value: f32) -> Option<u32> {
    if value.is_finite() && value >= 0.0 && value < 4_294_967_296.0 {
        Some(value.trunc() as u32)
    } else {
        None
    }
}

#[test]
fn bits_round_trip() {
    assert_eq!(number(1.0).bits, 0x3f80_0000);
    assert_eq!(number(1.0).to_bits(), 0x3f80_0000);
    assert_eq!(Binary32::from_bits(0xdead_beef).to_bits(), 0xdead_beef);
}

#[test]
fn finite_agrees_with_the_hardware() {
    for value in samples() {
        assert_eq!(number(value).is_finite(), value.is_finite(), "{value}");
    }
}

#[test]
fn negative_agrees_with_the_hardware() {
    for value in samples() {
        assert_eq!(number(value).is_negative(), value.is_finite() && value < 0.0, "{value}");
    }
}

#[test]
fn negative_zero_is_not_negative() {
    assert!(!number(-0.0).is_negative());
    assert!(number(-0.0).is_unit_fraction());
    assert_eq!(number(-0.0).whole_part(), Some(0));
}

#[test]
fn unit_fraction_agrees_with_the_hardware() {
    for value in samples() {
        assert_eq!(number(value).is_unit_fraction(), (0.0..=1.0).contains(&value), "{value}");
    }
}

#[test]
fn unit_fraction_ends_at_one() {
    assert!(number(1.0).is_unit_fraction());
    assert!(!Binary32::from_bits(0x3f80_0001).is_unit_fraction());
    assert!(Binary32::from_bits(0x3f7f_ffff).is_unit_fraction());
    assert!(!number(f32::NAN).is_unit_fraction());
    assert!(!number(-0.002).is_unit_fraction());
}

#[test]
fn whole_part_agrees_with_the_hardware() {
    for value in samples() {
        assert_eq!(number(value).whole_part(), expected_whole(value), "{value}");
    }
}

#[test]
fn whole_part_rounds_toward_zero() {
    assert_eq!(number(1920.75).whole_part(), Some(1920));
    assert_eq!(number(0.999_999_94).whole_part(), Some(0));
    assert_eq!(number(2.5).whole_part(), Some(2));
    assert_eq!(number(16_777_216.0).whole_part(), Some(16_777_216));
    assert_eq!(number(4_294_967_040.0).whole_part(), Some(4_294_967_040));
}

#[test]
fn whole_part_refuses_what_has_none() {
    assert_eq!(number(4_294_967_296.0).whole_part(), None);
    assert_eq!(number(f32::INFINITY).whole_part(), None);
    assert_eq!(number(f32::NAN).whole_part(), None);
    assert_eq!(number(-1.0).whole_part(), None);
    assert_eq!(number(-0.5).whole_part(), None);
}

#[test]
fn sweep_of_bit_patterns_agrees_with_the_hardware() {
    let mut bits: u32 = 0;
    for _ in 0..200_000 {
        let value = f32::from_bits(bits);
        let held = Binary32::from_bits(bits);
        assert_eq!(held.is_finite(), value.is_finite(), "{bits:#x}");
        assert_eq!(held.is_negative(), value.is_finite() && value < 0.0, "{bits:#x}");
        assert_eq!(held.is_unit_fraction(), (0.0..=1.0).contains(&value), "{bits:#x}");
        assert_eq!(held.whole_part(), expected_whole(value), "{bits:#x}");
        bits = bits.wrapping_add(0x0000_53a7);
    }
}
