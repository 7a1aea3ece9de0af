use joycon_rs::calibration::imu::{self, IMUCalibration, IMUOffsets, XYZ};
use joycon_rs::calibration::stick::{
    get_factory_calibration, get_user_calibration, JoyConSticksCalibration, StickCalibration,
    StickParameters,
};
use joycon_rs::color::{get_color, Color};

const SAMPLE_HALF: [u8; 9] = [0x00, 0x07, 0x70, 0x00, 0x08, 0x80, 0x00, 0x07, 0x70];

fn block(left: [u8; 9], right: [u8; 9]) -> [u8; 18] {
    let mut b = [0u8; 18];
    b[..9].copy_from_slice(&left);
    b[9..].copy_from_slice(&right);
    b
}

#[test]
fn blank_halves_are_unavailable() {
    let cal = JoyConSticksCalibration::from([0xFF; 18]);
    assert_eq!(*cal.left(), StickCalibration::Unavailable);
    assert_eq!(*cal.right(), StickCalibration::Unavailable);

    let cal = JoyConSticksCalibration::from(block([0xFF; 9], SAMPLE_HALF));
    assert_eq!(*cal.left(), StickCalibration::Unavailable);
    assert!(cal.right().x().is_some());
}

#[test]
fn sample_block_gives_reference_triples() {
    let cal = JoyConSticksCalibration::from(block(SAMPLE_HALF, SAMPLE_HALF));
    let lx = cal.left().x().unwrap();
    assert_eq!((lx.max(), lx.center(), lx.min()), (3840, 2048, 256));
    let ly = cal.left().y().unwrap();
    assert_eq!((ly.max(), ly.center(), ly.min()), (3840, 2048, 256));
    let rx = cal.right().x().unwrap();
    assert_eq!((rx.max(), rx.center(), rx.min()), (3584, 1792, -256));
    let ry = cal.right().y().unwrap();
    assert_eq!((ry.max(), ry.center(), ry.min()), (3584, 1792, -256));
}

#[test]
fn stick_parameters_take_third_and_fourth_values() {
    let mut array = [0u8; 18];
    array[3] = 0xAE;
    array[4] = 0x40;
    array[5] = 0x19;
    let p = StickParameters::from(array);
    assert_eq!(p.dead_zone(), 0x0AE);
    assert_eq!(p.range_ratio(), 0x194);
}

#[test]
fn factory_calibration_needs_matching_reply() {
    let mut reply = [0u8; 64];
    reply[14..20].copy_from_slice(&[0x10, 0x3D, 0x60, 0, 0, 18]);
    reply[20..29].copy_from_slice(&SAMPLE_HALF);
    reply[29..38].copy_from_slice(&[0xFF; 9]);
    let cal = get_factory_calibration(&reply).unwrap();
    assert_eq!(cal.left().x().unwrap().center(), 2048);
    assert_eq!(*cal.right(), StickCalibration::Unavailable);

    reply[19] = 17;
    assert!(get_factory_calibration(&reply).is_none());
}

#[test]
fn user_calibration_skips_two_bytes_between_halves() {
    let mut reply = [0u8; 64];
    reply[14..20].copy_from_slice(&[0x10, 0x12, 0x80, 0, 0, 20]);
    reply[20..29].copy_from_slice(&[0xFF; 9]);
    reply[29] = 0xB2;
    reply[30] = 0xA1;
    reply[31..40].copy_from_slice(&SAMPLE_HALF);
    let cal = get_user_calibration(&reply).unwrap();
    assert_eq!(*cal.left(), StickCalibration::Unavailable);
    assert_eq!(cal.right().x().unwrap().center(), 1792);
}

#[test]
fn imu_calibration_blank_and_values() {
    assert_eq!(IMUCalibration::from([0xFF; 24]), IMUCalibration::Unavailable);
    let mut value = [0u8; 24];
    value[0] = 0x34;
    value[1] = 0x12;
    value[6] = 0xFF;
    value[7] = 0xFF;
    value[18] = 0x00;
    value[19] = 0x80;
    let cal = IMUCalibration::from(value);
    assert_eq!(cal.acc_origin_position().unwrap(), XYZ { x: 0x1234, y: 0, z: 0 });
    assert_eq!(cal.acc_sensitivity_special_coeff().unwrap().x, -1);
    assert_eq!(cal.gyro_origin_position().unwrap(), XYZ { x: 0, y: 0, z: 0 });
    assert_eq!(cal.gyro_sensitivity_special_coeff().unwrap().x, i16::MIN);
    assert_eq!(IMUCalibration::Unavailable.acc_origin_position(), None);
}

#[test]
fn imu_replies() {
    let mut reply = [0u8; 64];
    reply[14..20].copy_from_slice(&[0x10, 0x80, 0x60, 0, 0, 6]);
    reply[20..26].copy_from_slice(&[0x01, 0x00, 0xFE, 0xFF, 0x00, 0x01]);
    assert_eq!(imu::get_offsets(&reply), Some(IMUOffsets { x: 1, y: -2, z: 256 }));
    assert_eq!(imu::get_factory_calibration(&reply), None);

    let mut reply = [0xFFu8; 64];
    reply[14..20].copy_from_slice(&[0x10, 0x20, 0x60, 0, 0, 24]);
    assert_eq!(imu::get_factory_calibration(&reply), Some(IMUCalibration::Unavailable));
    assert_eq!(imu::get_user_calibration(&reply), None);
}

#[test]
fn color_grips_of_all_ff_are_absent() {
    let c = Color::from([30, 220, 0, 1, 2, 3, 0xFF, 0xFF, 0xFF, 9, 8, 7]);
    assert_eq!(c.body, [30, 220, 0]);
    assert_eq!(c.buttons, [1, 2, 3]);
    assert_eq!(c.left_grip, None);
    assert_eq!(c.right_grip, Some([9, 8, 7]));

    let mut reply = [0u8; 64];
    reply[14..20].copy_from_slice(&[0x10, 0x50, 0x60, 0, 0, 12]);
    reply[20..32].copy_from_slice(&[1, 1, 1, 2, 2, 2, 3, 3, 3, 0xFF, 0xFF, 0xFF]);
    let c = get_color(&reply).unwrap();
    assert_eq!(c.left_grip, Some([3, 3, 3]));
    assert_eq!(c.right_grip, None);
}
