use joycon_rs::lights::home_button::{u4, LightEmittingPattern};
use joycon_rs::lights::{player_lights_arg, Flash, LightUp};

#[test]
fn player_lights_argument_adds_bits() {
    assert_eq!(player_lights_arg(&[LightUp::LED1], &[Flash::LED1]), 0x22);
    assert_eq!(player_lights_arg(&[LightUp::LED0, LightUp::LED3], &[]), 0x09);
    assert_eq!(player_lights_arg(&[], &[]), 0);
}

#[test]
fn u4_saturates() {
    assert_eq!(u4::from(3).value(), 3);
    assert_eq!(u4::from(200).value(), 15);
}

#[test]
fn home_light_pattern_bytes() {
    let pattern = LightEmittingPattern::new(100, 0, u4::from(0))
        .add_phase(100, 500, 0)
        .add_phase(0, 500, 0);
    assert_eq!(pattern.phases().len(), 2);
    let bytes = pattern.to_bytes();
    let mut expected = [0u8; 25];
    expected[..5].copy_from_slice(&[0x28, 0x00, 0xF0, 0xF0, 0xF0]);
    assert_eq!(bytes, expected);

    let first = pattern.emit_first_phase();
    assert_eq!(first.to_bytes()[0], 0x08);
}

#[test]
fn home_light_single_phase() {
    let pattern = LightEmittingPattern::once(19, 50, 25, 40, 60);
    let bytes = pattern.to_bytes();
    assert_eq!(&bytes[..4], &[0x02, 0x80, 0x40, 0xFF]);
    assert!(bytes[4..].iter().all(|b| *b == 0));
}

#[test]
fn home_light_keeps_fifteen_phases() {
    let mut pattern = LightEmittingPattern::new(8, 100, u4::from(2));
    for _ in 0..16 {
        pattern = pattern.add_phase(100, 8, 16);
    }
    let bytes = pattern.to_bytes();
    assert_eq!(bytes[0], 0xF1);
    assert_eq!(bytes[1], 0xF2);
    assert_eq!(&bytes[2..5], &[0xFF, 0x8F, 0x8F]);
    assert_eq!(&bytes[23..25], &[0xF0, 0x8F]);
}
