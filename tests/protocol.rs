use joycon_rs::command::{frame, Command, GlobalPacketNumber, SubCommand};
use joycon_rs::device::{check_report, JoyConDevice, JoyConDeviceType};
use joycon_rs::driver::{DriverState, ExchangeStep, SubCommandExchange, ACK_TRY};
use joycon_rs::features::{IMUConfig, JoyConFeature};
use joycon_rs::calibration::imu::{IMUCalibration, IMUOffsets};
use joycon_rs::calibration::stick::{JoyConSticksCalibration, StickParameters};
use joycon_rs::color::Color;
use joycon_rs::manager::{DeviceRegistry, JoyConSerialNumber};
use joycon_rs::mode::{InputReportMode, ModeSetupStep};
use joycon_rs::report::SubCommandReply;
use joycon_rs::result::{JoyConDeviceError, JoyConError, JoyConReportError};
use joycon_rs::rumble::rumble_bytes;

#[test]
fn frame_layout() {
    let f = frame(1, 7, Some([1, 2, 3, 4]), None, 0x30, &[0xAA, 0xBB]);
    assert_eq!(f.len(), 64);
    assert_eq!(&f[..13], &[1, 7, 1, 2, 3, 4, 0, 0, 0, 0, 0x30, 0xAA, 0xBB]);
    assert!(f[13..].iter().all(|b| *b == 0));

    let args = [0x5Au8; 53];
    let f = frame(16, 0, None, Some([9, 9, 9, 9]), 0, &args);
    assert_eq!(&f[2..10], &[0, 0, 0, 0, 9, 9, 9, 9]);
    assert_eq!(&f[11..], &args[..]);
}

#[test]
fn packet_numbers_wrap_and_count_sends() {
    let mut state = DriverState::new(JoyConDeviceType::JoyConL);
    for n in 0..600usize {
        let f = state.send_command_raw(Command::Rumble.id(), 0, &[]);
        assert_eq!(f[1] as usize, n % 256);
    }
    assert_eq!(state.global_packet_number(), (600 % 256) as u8);
    assert_eq!(GlobalPacketNumber(255).next(), GlobalPacketNumber(0));
}

#[test]
fn rumble_status_goes_into_every_frame() {
    let mut state = DriverState::new(JoyConDeviceType::JoyConR);
    state.set_rumble_status((Some([1, 2, 3, 4]), Some([5, 6, 7, 8])));
    let f = state.rumble_frame();
    assert_eq!(&f[..11], &[16, 0, 1, 2, 3, 4, 5, 6, 7, 8, 0]);
    let (f, _) = state.send_sub_command(SubCommand::EnableVibration, &[1]);
    assert_eq!(&f[..12], &[1, 1, 1, 2, 3, 4, 5, 6, 7, 8, 72, 1]);
}

fn report_with_ack(ack: u8) -> [u8; 362] {
    let mut buf = [0u8; 362];
    buf[0] = 0x21;
    buf[13] = ack;
    buf
}

#[test]
fn exchange_returns_first_ack() {
    let mut state = DriverState::new(JoyConDeviceType::JoyConL);
    let (_, mut ex) = state.send_sub_command(SubCommand::SetInputReportMode, &[0x3F]);
    assert!(matches!(ex.start(), ExchangeStep::ReadAgain));
    assert!(matches!(ex.on_read(Ok(report_with_ack(0x00))), ExchangeStep::ReadAgain));
    assert!(matches!(
        ex.on_read(Err(JoyConError::JoyConReportError(JoyConReportError::EmptyReport))),
        ExchangeStep::ReadAgain
    ));
    match ex.on_read(Ok(report_with_ack(0x80))) {
        ExchangeStep::Finished(Ok(SubCommandReply::Checked(buf))) => assert_eq!(buf[13], 0x80),
        other => panic!("unexpected {:?}", other),
    }
}

#[test]
fn exchange_gives_up_after_exactly_ack_try_failures() {
    let mut ex = SubCommandExchange::new(0x40, true);
    for k in 1..=ACK_TRY {
        let mut nack = report_with_ack(0x00);
        nack[20] = k as u8;
        match ex.on_read(Ok(nack)) {
            ExchangeStep::ReadAgain => assert!(k < ACK_TRY),
            ExchangeStep::Finished(Err(JoyConError::SubCommandError(id, bytes))) => {
                assert_eq!(k, ACK_TRY);
                assert_eq!(id, 0x40);
                assert_eq!(bytes, nack.to_vec());
            }
            other => panic!("unexpected {:?}", other),
        }
    }
}

#[test]
fn exchange_error_without_any_report_is_empty() {
    let mut ex = SubCommandExchange::new(0x48, true);
    let mut last = None;
    for _ in 0..ACK_TRY {
        last = Some(ex.on_read(Err(JoyConError::JoyConReportError(JoyConReportError::EmptyReport))));
    }
    match last {
        Some(ExchangeStep::Finished(Err(JoyConError::SubCommandError(0x48, bytes)))) => {
            assert!(bytes.is_empty())
        }
        other => panic!("unexpected {:?}", other),
    }
}

#[test]
fn exchange_stops_at_transport_failure() {
    let mut ex = SubCommandExchange::new(0x30, true);
    match ex.on_read(Err(JoyConError::Disconnected)) {
        ExchangeStep::Finished(Err(JoyConError::Disconnected)) => {}
        other => panic!("unexpected {:?}", other),
    }
    let mut ex = SubCommandExchange::new(0x30, true);
    match ex.on_read(Err(JoyConError::HidApiError("gone".to_string()))) {
        ExchangeStep::Finished(Err(JoyConError::HidApiError(m))) => assert_eq!(m, "gone"),
        other => panic!("unexpected {:?}", other),
    }
}

#[test]
fn pro_controller_replies_are_not_checked() {
    let mut state = DriverState::new(JoyConDeviceType::ProCon);
    assert!(!state.valid_reply());
    let (_, mut ex) = state.send_sub_command(SubCommand::RequestDeviceInfo, &[]);
    assert!(matches!(ex.start(), ExchangeStep::ReadAgain));
    assert!(matches!(
        ex.on_read(Err(JoyConError::JoyConReportError(JoyConReportError::EmptyReport))),
        ExchangeStep::ReadAgain
    ));
    let mut report = report_with_ack(0x00);
    report[20] = 0x42;
    match ex.on_read(Ok(report)) {
        ExchangeStep::Finished(Ok(SubCommandReply::Unchecked(buf))) => assert_eq!(buf[20], 0x42),
        other => panic!("unexpected {:?}", other),
    }
    state.set_valid_reply(true);
    assert!(state.valid_reply());
    assert_eq!(state.settle_reset(Err(JoyConError::Disconnected)), Ok(()));
    let joycon = DriverState::new(JoyConDeviceType::JoyConL);
    assert_eq!(
        joycon.settle_reset(Err(JoyConError::Disconnected)),
        Err(JoyConError::Disconnected)
    );
    assert_eq!(GlobalPacketNumber::default(), GlobalPacketNumber(0));
}

#[test]
fn reset_and_feature_requests() {
    let reset = DriverState::reset_requests();
    assert_eq!(reset.len(), 2);
    assert_eq!((reset[0].sub_command, reset[0].args.clone()), (SubCommand::EnableIMU, vec![0]));
    assert_eq!((reset[1].sub_command, reset[1].args.clone()), (SubCommand::EnableVibration, vec![0]));

    let imu = DriverState::feature_requests(JoyConFeature::IMUFeature(IMUConfig::default()));
    assert_eq!(imu.len(), 2);
    assert_eq!(imu[0].args, vec![1]);
    assert_eq!(imu[1].sub_command, SubCommand::SetIMUSensitivity);
    assert_eq!(imu[1].args, vec![3, 0, 1, 1]);
    let vib = DriverState::feature_requests(JoyConFeature::Vibration);
    assert_eq!((vib[0].sub_command, vib[0].args.clone()), (SubCommand::EnableVibration, vec![1]));
}

#[test]
fn enabled_features_are_a_set() {
    let mut state = DriverState::new(JoyConDeviceType::JoyConL);
    assert!(!state.imu_enabled());
    state.mark_enabled(JoyConFeature::Vibration);
    state.mark_enabled(JoyConFeature::Vibration);
    assert_eq!(state.enabled_features().len(), 1);
    assert!(state.has_feature(JoyConFeature::Vibration));
    state.mark_enabled(JoyConFeature::IMUFeature(IMUConfig::default()));
    assert!(state.imu_enabled());
}

#[test]
fn mode_setup_steps() {
    let mut state = DriverState::new(JoyConDeviceType::JoyConL);
    let simple = InputReportMode::SimpleHID.setup(&state);
    match &simple[..] {
        [ModeSetupStep::Send(req)] => {
            assert_eq!(req.sub_command, SubCommand::SetInputReportMode);
            assert_eq!(req.args, vec![0x3F]);
        }
        other => panic!("unexpected {:?}", other),
    }
    let full = InputReportMode::StandardFull.setup(&state);
    assert_eq!(full.len(), 2);
    assert_eq!(full[0], ModeSetupStep::EnableFeature(JoyConFeature::IMUFeature(IMUConfig::default())));
    state.mark_enabled(JoyConFeature::IMUFeature(IMUConfig::default()));
    let full = InputReportMode::StandardFull.setup(&state);
    assert_eq!(full.len(), 1);
    match &full[0] {
        ModeSetupStep::Send(req) => assert_eq!(req.args, vec![0x30]),
        other => panic!("unexpected {:?}", other),
    }

    let pro = DriverState::new(JoyConDeviceType::ProCon);
    assert!(!pro.acks_reliable());
    let full = InputReportMode::StandardFull.setup(&pro);
    assert_eq!(full.len(), 3);
    assert_eq!(full[1], ModeSetupStep::StopCheckingReplies);
    assert!(InputReportMode::SubCommandReply.setup(&state).is_empty());
}

fn serials(names: &[&str]) -> Vec<JoyConSerialNumber> {
    names.iter().map(|n| JoyConSerialNumber(n.to_string())).collect()
}

#[test]
fn registry_reconnection_is_not_new() {
    let mut reg = DeviceRegistry::new();

    let first = serials(&["A", "B"]);
    let plan = reg.scan(&first);
    assert_eq!(plan.open_new, vec![0, 1]);
    assert!(plan.forget.is_empty() && plan.reconnect.is_empty());
    for d in plan.open_new {
        reg.register(first[d].clone());
    }

    let second = serials(&["B"]);
    let plan = reg.scan(&second);
    assert_eq!(plan.forget, vec![0]);
    assert!(plan.open_new.is_empty() && plan.reconnect.is_empty());
    assert!(!reg.is_connected(0));
    assert!(reg.is_connected(1));

    let third = serials(&["A", "B"]);
    let plan = reg.scan(&third);
    assert!(plan.open_new.is_empty());
    assert!(plan.forget.is_empty());
    assert_eq!(plan.reconnect, vec![(0, 0)]);
    reg.mark_reconnected(0);
    assert!(reg.is_connected(0) && reg.is_connected(1));
    assert_eq!(reg.len(), 2);
    assert_eq!(reg.serial(0).0, "A");
}

#[test]
fn registry_lists_each_new_identity_once() {
    let mut reg = DeviceRegistry::new();
    let seen = serials(&["A", "A", "C"]);
    let plan = reg.scan(&seen);
    assert_eq!(plan.open_new, vec![0, 2]);
    assert_eq!(reg.find(&JoyConSerialNumber("A".to_string())), None);
}

#[test]
fn rumble_bytes_of_known_values() {
    assert_eq!(rumble_bytes(157, 95), [244, 190, 93, 111]);
    assert_eq!(rumble_bytes(255, 255), [124, 254, 191, 127]);
    assert_eq!(rumble_bytes(0, 0), [0, 0, 1, 64]);
}

#[test]
fn device_classification() {
    assert_eq!(JoyConDeviceType::check_type_of_device(1406, 8198), Ok(JoyConDeviceType::JoyConL));
    assert_eq!(JoyConDeviceType::check_type_of_device(1406, 8199), Ok(JoyConDeviceType::JoyConR));
    assert_eq!(JoyConDeviceType::check_type_of_device(1406, 8201), Ok(JoyConDeviceType::ProCon));
    assert_eq!(
        JoyConDeviceType::check_type_of_device(1, 8198),
        Err(JoyConError::JoyConDeviceError(JoyConDeviceError::InvalidVendorID(1)))
    );
    assert_eq!(
        JoyConDeviceType::check_type_of_device(1406, 1),
        Err(JoyConError::JoyConDeviceError(JoyConDeviceError::InvalidProductID(1)))
    );
    assert_eq!(JoyConDeviceType::try_from(2), Ok(JoyConDeviceType::ProCon));
    assert_eq!(JoyConDeviceType::try_from(3), Err(()));
}

#[test]
fn empty_reports_are_refused() {
    assert_eq!(
        check_report(&[0u8; 12]),
        Err(JoyConError::JoyConReportError(JoyConReportError::EmptyReport))
    );
    assert_eq!(check_report(&[0, 0, 1]), Ok(()));
}

#[test]
fn device_connects_and_disconnects_in_place() {
    let mut dev = JoyConDevice::new(
        7u32,
        "XY".to_string(),
        JoyConDeviceType::JoyConR,
        StickParameters::from([0; 18]),
        JoyConSticksCalibration::from([0xFF; 18]),
        JoyConSticksCalibration::from([0xFF; 18]),
        IMUOffsets::from([0; 6]),
        IMUCalibration::from([0xFF; 24]),
        IMUCalibration::from([0xFF; 24]),
        Color::from([0; 12]),
    );
    assert!(dev.is_connected());
    assert_eq!(dev.connected_device(), Ok(&7));
    dev.forget_device();
    assert!(!dev.is_connected());
    assert_eq!(dev.connected_device(), Err(JoyConError::Disconnected));
    assert_eq!(*dev.imu_user_calibration(), IMUCalibration::Unavailable);
    assert_eq!(dev.color().body, [0, 0, 0]);
    dev.reset_device(9);
    assert!(dev.is_connected());
    assert_eq!(dev.hid_device(), Some(&9));
    assert_eq!(dev.serial_number(), "XY");
    assert_eq!(dev.device_type(), JoyConDeviceType::JoyConR);
    assert_eq!(*dev.imu_user_calibration(), IMUCalibration::Unavailable);
}
