use joycon_rs::calibration::spi::{
    setup_memory_read_target, spi_read_request, spi_reply_matches, spi_target, SpiReadStep,
    SpiReadWait, SPI_READ_TRIES,
};

#[test]
fn test_spi_target() {
    let target = spi_target(0x6080, 0x18);
    assert_eq!(target, [0x80, 0x60, 0x00, 0x00, 0x18]);
}

#[test]
fn test_setup_memory_read_target() {
    let target = setup_memory_read_target(0x1FF4, 0x08);
    assert_eq!(target, [0x71, 0xF4, 0x1F, 0x00, 0xF8, 0x08, 0x00, 0x7C]);

    let target = setup_memory_read_target(0x603D, 18);
    assert_eq!(target, [0x71, 0x3D, 0x60, 0x0, 0xF8, 0x12, 0x0, 0xE8]);
}

#[test]
fn spi_target_splits_all_four_address_bytes() {
    assert_eq!(spi_target(0x1234_5678, 0x1D), [0x78, 0x56, 0x34, 0x12, 0x1D]);
}

#[test]
fn spi_read_request_layout() {
    assert_eq!(
        spi_read_request(0x603D, 18),
        [0x01, 0, 0, 0, 0, 0, 0, 0, 0, 0, 0x10, 0x3D, 0x60, 0, 0, 18]
    );
}

#[test]
fn spi_reply_must_echo_the_request() {
    let mut reply = [0u8; 64];
    reply[14..20].copy_from_slice(&[0x10, 0x3D, 0x60, 0, 0, 18]);
    assert!(spi_reply_matches(&reply, 0x603D, 18));
    assert!(!spi_reply_matches(&reply, 0x603D, 19));
    assert!(!spi_reply_matches(&reply, 0x6020, 18));
}

#[test]
fn spi_read_wait_stops_at_answer_error_or_budget() {
    let mut wait = SpiReadWait::new();
    assert_eq!(wait.on_read(Some(None::<u8>)), SpiReadStep::ReadAgain);
    assert_eq!(wait.on_read(Some(Some(7u8))), SpiReadStep::Finished(Some(7)));

    let mut wait = SpiReadWait::new();
    assert_eq!(wait.on_read(None::<Option<u8>>), SpiReadStep::Finished(None));

    let mut wait = SpiReadWait::new();
    for k in 1..=SPI_READ_TRIES {
        assert!(wait.can_read());
        let step = wait.on_read(Some(None::<u8>));
        if k < SPI_READ_TRIES {
            assert_eq!(step, SpiReadStep::ReadAgain);
        } else {
            assert_eq!(step, SpiReadStep::Finished(None));
        }
    }
    assert!(!wait.can_read());
}
