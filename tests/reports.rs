use joycon_rs::device::{JoyConDeviceInfo, JoyConDeviceType, JoyConMacAddress};
use joycon_rs::lights::{LightUp, LightsStatus, Flash};
use joycon_rs::report::{
    decode_standard_full_report, AckByte, AnalogStickData, AxisData, Battery, BatteryLevel,
    Buttons, CommonReport, ConnectionInfo, Device, PushedButtons, SimpleHIDButton,
    SimpleHIDReport, StickDirection,
};
use joycon_rs::result::{
    InvalidSimpleHIDReport, InvalidStandardInputReport, JoyConError, JoyConReportError,
};
use joycon_rs::subcommand::{decode_sub_command_reply, SubCommandReplyData};

fn battery_error(v: u8) -> JoyConError {
    JoyConError::JoyConReportError(JoyConReportError::InvalidStandardInputReport(
        InvalidStandardInputReport::Battery(v),
    ))
}

#[test]
fn battery_table_of_every_nibble() {
    let levels = [
        BatteryLevel::Empty,
        BatteryLevel::Empty,
        BatteryLevel::Critical,
        BatteryLevel::Critical,
        BatteryLevel::Low,
        BatteryLevel::Low,
        BatteryLevel::Medium,
        BatteryLevel::Medium,
        BatteryLevel::Full,
        BatteryLevel::Full,
    ];
    for v in 0u8..10 {
        let b = Battery::try_from(v).unwrap();
        assert_eq!(b.level, levels[v as usize]);
        assert_eq!(b.is_charging, v % 2 == 1);
    }
    for v in 10u8..16 {
        assert_eq!(Battery::try_from(v), Err(battery_error(v - v % 2)));
    }
    assert_eq!(Battery::try_from(0x08), Ok(Battery { level: BatteryLevel::Full, is_charging: false }));
    assert_eq!(Battery::try_from(0x09), Ok(Battery { level: BatteryLevel::Full, is_charging: true }));
}

#[test]
fn connection_info_families() {
    assert_eq!(
        ConnectionInfo::try_from(0b0111),
        Ok(ConnectionInfo { device: Device::JoyCon, is_powered: true })
    );
    assert_eq!(
        ConnectionInfo::try_from(0b0000),
        Ok(ConnectionInfo { device: Device::ProConOrChargingGrip, is_powered: false })
    );
    assert_eq!(
        ConnectionInfo::try_from(0b0010),
        Err(JoyConError::JoyConReportError(JoyConReportError::InvalidStandardInputReport(
            InvalidStandardInputReport::ConnectionInfo(0b0010)
        )))
    );
    assert!(ConnectionInfo::try_from(0b0101).is_err());
}

#[test]
fn stick_directions_are_one_to_one() {
    let all = [
        StickDirection::Up,
        StickDirection::UpperRight,
        StickDirection::Right,
        StickDirection::BottomRight,
        StickDirection::Bottom,
        StickDirection::BottomLeft,
        StickDirection::Left,
        StickDirection::UpperLeft,
        StickDirection::Neutral,
    ];
    for v in 0u8..9 {
        assert_eq!(StickDirection::try_from(v), Ok(all[v as usize]));
    }
    for v in 9u8..=255 {
        assert_eq!(
            StickDirection::try_from(v),
            Err(JoyConError::JoyConReportError(JoyConReportError::InvalidSimpleHidReport(
                InvalidSimpleHIDReport::InvalidStickDirection(v)
            )))
        );
    }
}

#[test]
fn ack_byte_high_bit() {
    assert_eq!(AckByte::from(0x80), AckByte::Ack { data_type: 0 });
    assert_eq!(AckByte::from(0x90), AckByte::Ack { data_type: 0x10 });
    assert_eq!(AckByte::from(0xFF), AckByte::Ack { data_type: 0x7F });
    assert_eq!(AckByte::from(0x7F), AckByte::Nack);
    assert_eq!(AckByte::from(0x00), AckByte::Nack);
}

#[test]
fn pushed_buttons_by_table() {
    let b = PushedButtons::from([0b1000_0001, 0b0100_0000, 0b0000_0010]);
    assert_eq!(b.right, vec![Buttons::Y, Buttons::ZR]);
    assert_eq!(b.shared, vec![Buttons::Capture]);
    assert_eq!(b.left, vec![Buttons::Up]);
    assert!(b.contains(Buttons::ZR));
    assert!(b.contains(Buttons::Up));
    assert!(!b.contains(Buttons::A));
}

#[test]
fn analog_stick_unpacks_two_12_bit_values() {
    let s = AnalogStickData::from([0x34, 0x12, 0xAB]);
    assert_eq!(s.horizontal, 0x234);
    assert_eq!(s.vertical, 0xAB1);
}

fn header() -> [u8; 13] {
    [0x30, 7, 0x96, 0x01, 0x00, 0x00, 0x34, 0x12, 0xAB, 0, 0, 0, 0x0C]
}

#[test]
fn common_report_fields() {
    let c = CommonReport::try_from(header()).unwrap();
    assert_eq!(c.input_report_id, 0x30);
    assert_eq!(c.timer, 7);
    assert_eq!(c.battery, Battery { level: BatteryLevel::Full, is_charging: true });
    assert_eq!(c.connection_info, ConnectionInfo { device: Device::JoyCon, is_powered: false });
    assert_eq!(c.pushed_buttons.right, vec![Buttons::Y]);
    assert_eq!(c.left_analog_stick_data, AnalogStickData { horizontal: 0x234, vertical: 0xAB1 });
    assert_eq!(c.vibrator_input_report, 0x0C);

    let mut bad = header();
    bad[2] = 0xA6;
    assert_eq!(CommonReport::try_from(bad), Err(battery_error(10)));
}

#[test]
fn standard_full_report_has_three_imu_frames() {
    let mut buf = [0u8; 362];
    buf[..13].copy_from_slice(&header());
    buf[13] = 0x01;
    buf[14] = 0x00;
    buf[13 + 12] = 0xFF;
    buf[13 + 13] = 0xFF;
    buf[13 + 24 + 10] = 0x00;
    buf[13 + 24 + 11] = 0x80;
    let r = decode_standard_full_report(&buf).unwrap();
    assert_eq!(r.common.timer, 7);
    assert_eq!(r.extra.data[0].accel_x, 1);
    assert_eq!(r.extra.data[1].accel_x, -1);
    assert_eq!(r.extra.data[2].gyro_3, i16::MIN);
    assert_eq!(
        AxisData::from([1, 0, 2, 0, 3, 0, 4, 0, 5, 0, 6, 0]),
        AxisData { accel_x: 1, accel_y: 2, accel_z: 3, gyro_1: 4, gyro_2: 5, gyro_3: 6 }
    );
}

#[test]
fn simple_hid_report_decodes() {
    let r = SimpleHIDReport::try_from([0x3F, 0b0000_0101, 0b1000_0010, 8, 1, 2, 3, 4, 5, 6, 7, 8])
        .unwrap();
    assert_eq!(r.input_report_id, 0x3F);
    assert_eq!(
        r.pushed_buttons,
        vec![SimpleHIDButton::Down, SimpleHIDButton::Left, SimpleHIDButton::Plus, SimpleHIDButton::ZL_ZR]
    );
    assert_eq!(r.stick_direction, StickDirection::Neutral);
    assert_eq!(r.filler_data, [1, 2, 3, 4, 5, 6, 7, 8]);
    assert!(SimpleHIDReport::try_from([0; 12]).is_ok());
    assert!(SimpleHIDReport::try_from([0, 0, 0, 9, 0, 0, 0, 0, 0, 0, 0, 0]).is_err());
}

#[test]
fn lights_status_reply() {
    let mut reply = [0u8; 35];
    reply[0] = 0x21;
    let s = LightsStatus::from_reply(reply).unwrap();
    assert_eq!(s.light_up, vec![LightUp::LED0]);
    assert_eq!(s.flash, vec![Flash::LED1]);
}

#[test]
fn device_info_reply() {
    let mut reply = [0u8; 35];
    reply[0] = 0x03;
    reply[1] = 0x48;
    reply[2] = 1;
    reply[4..10].copy_from_slice(&[1, 2, 3, 4, 5, 6]);
    reply[12] = 1;
    let info = JoyConDeviceInfo::from_reply(reply).unwrap();
    assert_eq!(info.firmware_version, 0x0348);
    assert_eq!(info.device_type, JoyConDeviceType::JoyConR);
    assert_eq!(info.mac_address, JoyConMacAddress([1, 2, 3, 4, 5, 6]));
    assert!(info.colors_in_spi);

    reply[2] = 7;
    match JoyConDeviceInfo::from_reply(reply) {
        Err(JoyConError::SubCommandError(2, bytes)) => assert_eq!(bytes, reply.to_vec()),
        other => panic!("unexpected {:?}", other),
    }
}

#[test]
fn sub_command_reply_report() {
    let mut buf = [0u8; 362];
    buf[..13].copy_from_slice(&header());
    buf[13] = 0x80;
    buf[14] = 0x31;
    buf[15] = 0x84;
    let r = decode_sub_command_reply::<LightsStatus>(&buf).unwrap();
    assert_eq!(r.extra.ack_byte, AckByte::Ack { data_type: 0 });
    assert_eq!(r.extra.sub_command_id, 0x31);
    assert_eq!(r.extra.reply.light_up, vec![LightUp::LED2]);
    assert_eq!(r.extra.reply.flash, vec![Flash::LED3]);
}
