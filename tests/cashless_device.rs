use mdb::cashless_device::{
    config_data_command, is_just_reset, max_min_prices_command, two_byte_command, CashlessDevice,
    CashlessDeviceFeatureLevel, CashlessEvent, SessionState, VEND_PREFIX, VEND_READER_ENABLE, VEND_READER_PREFIX,
    VEND_SESSION_COMPLETE,
};

fn reader(level: u8) -> CashlessDevice {
    CashlessDevice::from_config_reply(&[0x01, level, 0x18, 0x40, 0x01, 0x02, 0x05, 0x09]).expect("config reply")
}

fn enabled_reader(level: u8) -> CashlessDevice {
    let mut d = reader(level);
    d.on_reader_enabled();
    d
}

fn vending_reader(level: u8) -> CashlessDevice {
    let mut d = enabled_reader(level);
    let mut begin = vec![0x03, 0x00, 0x00, 0x01, 0xF4, 0x12, 0x34, 0x56, 0x78, 0x01];
    if level == 1 {
        begin = vec![0x03, 0x01, 0xF4];
    }
    d.process_poll(&begin);
    assert!(d.vend_request(300, 7).is_some());
    d
}

#[test]
fn poll_response_lengths_by_level() {
    let l1 = reader(1);
    let l2 = reader(2);
    let l3 = reader(3);
    for (code, len) in [
        (0x00u8, 1u8),
        (0x01, 8),
        (0x02, 34),
        (0x04, 1),
        (0x05, 3),
        (0x06, 1),
        (0x07, 1),
        (0x08, 1),
        (0x0A, 2),
        (0x0D, 1),
        (0x0E, 1),
        (0x0F, 3),
        (0x11, 1),
        (0x12, 2),
    ] {
        assert_eq!(l1.poll_response_length(code), len);
        assert_eq!(l2.poll_response_length(code), len);
        assert_eq!(l3.poll_response_length(code), len);
    }
    assert_eq!(l1.poll_response_length(0x03), 3);
    assert_eq!(l2.poll_response_length(0x03), 10);
    assert_eq!(l3.poll_response_length(0x03), 10);
    assert_eq!(l1.poll_response_length(0x09), 30);
    assert_eq!(l2.poll_response_length(0x09), 30);
    assert_eq!(l3.poll_response_length(0x09), 34);
    assert_eq!(l1.poll_response_length(0x0B), 1);
    assert_eq!(l2.poll_response_length(0x0B), 2);
    assert_eq!(l3.poll_response_length(0x0B), 2);
    assert_eq!(l2.poll_response_length(0x0C), 0);
    assert_eq!(l2.poll_response_length(0x10), 0);
    assert_eq!(l2.poll_response_length(0xFF), 0);
}

#[test]
fn config_reply_decodes_reader() {
    let d = reader(2);
    assert_eq!(d.feature_level, CashlessDeviceFeatureLevel::Level2);
    assert_eq!(d.country_code, 0x1840);
    assert_eq!(d.scale_factor, 1);
    assert_eq!(d.decimal_places, 2);
    assert_eq!(d.max_response_time, 5);
    assert!(d.can_restore_funds);
    assert!(!d.multivend_capable);
    assert!(!d.has_display);
    assert!(d.supports_cash_sale_cmd);
    assert_eq!(d.session, SessionState::Inactive);
    assert!(d.manufacturer_code.is_empty());
}

#[test]
fn config_reply_level_is_capped_at_three() {
    assert_eq!(reader(5).feature_level, CashlessDeviceFeatureLevel::Level3);
    assert_eq!(reader(3).feature_level, CashlessDeviceFeatureLevel::Level3);
    assert_eq!(reader(1).feature_level, CashlessDeviceFeatureLevel::Level1);
    assert_eq!(reader(0).feature_level, CashlessDeviceFeatureLevel::Level1);
}

#[test]
fn config_reply_refused_on_wrong_code_or_length() {
    assert!(CashlessDevice::from_config_reply(&[0x02, 2, 0, 1, 1, 2, 5, 0]).is_none());
    assert!(CashlessDevice::from_config_reply(&[0x01, 2, 0, 1, 1, 2, 5]).is_none());
    assert!(CashlessDevice::from_config_reply(&[0x01, 2, 0, 1, 1, 2, 5, 0, 0]).is_none());
}

#[test]
fn enabling_an_inactive_reader() {
    let mut d = reader(2);
    d.on_reader_enabled();
    assert_eq!(d.session, SessionState::Enabled);
}

#[test]
fn begin_session_on_level2_reader() {
    let mut d = enabled_reader(2);
    let events = d.process_poll(&[0x03, 0x00, 0x00, 0x01, 0xF4, 0x12, 0x34, 0x56, 0x78, 0x01]);
    assert_eq!(
        events,
        vec![CashlessEvent::BeginSession {
            funds_available: 500,
            payment_media_id: Some(0x1234_5678),
            payment_type: Some(0x01),
        }]
    );
    assert_eq!(d.session, SessionState::SessionIdle);
}

#[test]
fn begin_session_on_level1_reader() {
    let mut d = enabled_reader(1);
    let events = d.process_poll(&[0x03, 0x01, 0xF4]);
    assert_eq!(
        events,
        vec![CashlessEvent::BeginSession { funds_available: 500, payment_media_id: None, payment_type: None }]
    );
    assert_eq!(d.session, SessionState::SessionIdle);
}

#[test]
fn vend_approved_outside_vending_is_dropped() {
    let mut d = enabled_reader(2);
    assert!(d.process_poll(&[0x05, 0x01, 0x2C]).is_empty());
    assert_eq!(d.session, SessionState::Enabled);
}

#[test]
fn vend_approved_while_vending_is_passed_on() {
    let mut d = vending_reader(2);
    assert_eq!(d.session, SessionState::Vending);
    assert_eq!(d.process_poll(&[0x05, 0x01, 0x2C]), vec![CashlessEvent::VendApproved { amount: 300 }]);
    assert_eq!(d.session, SessionState::Vending);
}

#[test]
fn vend_denied_returns_to_idle_session() {
    let mut d = vending_reader(2);
    assert_eq!(d.process_poll(&[0x06]), vec![CashlessEvent::VendDenied]);
    assert_eq!(d.session, SessionState::SessionIdle);
}

#[test]
fn chained_replies_in_one_frame() {
    let mut d = vending_reader(2);
    let events = d.process_poll(&[0x05, 0x00, 0x64, 0x07, 0x0A, 0x42, 0x00]);
    assert_eq!(
        events,
        vec![
            CashlessEvent::VendApproved { amount: 100 },
            CashlessEvent::EndSession,
            CashlessEvent::Malfunction { error_code: 0x42 },
            CashlessEvent::JustReset,
        ]
    );
    assert_eq!(d.session, SessionState::Inactive);
}

#[test]
fn approval_after_session_end_in_same_frame_is_dropped() {
    let mut d = vending_reader(2);
    let events = d.process_poll(&[0x07, 0x05, 0x00, 0x64]);
    assert_eq!(events, vec![CashlessEvent::EndSession]);
    assert_eq!(d.session, SessionState::Enabled);
}

#[test]
fn session_cancel_and_out_of_sequence() {
    let mut d = vending_reader(2);
    assert_eq!(d.process_poll(&[0x04]), vec![CashlessEvent::SessionCancelRequest]);
    assert_eq!(d.session, SessionState::Enabled);
    assert_eq!(d.process_poll(&[0x0B, 0x02]), vec![CashlessEvent::OutOfSequence]);
    assert_eq!(d.session, SessionState::Inactive);
}

#[test]
fn other_poll_replies() {
    let mut d = enabled_reader(2);
    let events = d.process_poll(&[0x08, 0x0D, 0x0E, 0x0F, 0x00, 0x20, 0x11, 0x12, 0x05]);
    assert_eq!(
        events,
        vec![
            CashlessEvent::Cancelled,
            CashlessEvent::RevalueApproved,
            CashlessEvent::RevalueDenied,
            CashlessEvent::RevalueLimitAmount { limit: 0x20 },
            CashlessEvent::TimeDateRequest,
            CashlessEvent::DataEntryRequest { length_and_format: 0x05 },
        ]
    );
    assert_eq!(d.session, SessionState::Enabled);
    let mut display = vec![0x02u8];
    display.extend_from_slice(&[0x20; 33]);
    assert_eq!(d.process_poll(&display), vec![CashlessEvent::DisplayRequest]);
    assert_eq!(d.process_poll(&[0x01, 3, 0, 1, 1, 2, 5, 0]), vec![CashlessEvent::ReaderConfigData]);
}

#[test]
fn truncated_or_unknown_reply_ends_the_frame() {
    let mut d = vending_reader(2);
    assert!(d.process_poll(&[0x05, 0x00]).is_empty());
    assert_eq!(d.session, SessionState::Vending);
    assert_eq!(d.process_poll(&[0x06, 0x0C, 0x07]), vec![CashlessEvent::VendDenied]);
    assert_eq!(d.session, SessionState::SessionIdle);
}

fn peripheral_id(options: Option<u8>) -> Vec<u8> {
    let mut reply = vec![0x09];
    reply.extend_from_slice(b"ABC");
    reply.extend_from_slice(b"SERIAL000001");
    reply.extend_from_slice(b"MODEL0000042");
    reply.extend_from_slice(&[0x01, 0x07]);
    if let Some(opt) = options {
        reply.extend_from_slice(&[0x00, 0x00, 0x00, opt]);
    }
    reply
}

#[test]
fn peripheral_id_on_level3_reader() {
    let mut d = enabled_reader(3);
    let events = d.process_poll(&peripheral_id(Some(0x25)));
    assert_eq!(events, vec![CashlessEvent::PeripheralId]);
    assert_eq!(d.manufacturer_code, b"ABC".to_vec());
    assert_eq!(d.serial_number, b"SERIAL000001".to_vec());
    assert_eq!(d.model_number, b"MODEL0000042".to_vec());
    assert_eq!(d.software_version, vec![0x01, 0x07]);
    assert!(d.supports_ftl);
    assert!(!d.monetary_format_32_bit);
    assert!(d.supports_multicurrency);
    assert!(!d.supports_negative_vend);
    assert!(!d.supports_data_entry);
    assert!(d.supports_always_idle);
    assert_eq!(d.session, SessionState::Enabled);
    assert_eq!(d.country_code, 0x1840);
}

#[test]
fn peripheral_id_on_level2_reader() {
    let mut d = enabled_reader(2);
    let mut frame = peripheral_id(None);
    frame.push(0x07);
    let events = d.process_poll(&frame);
    assert_eq!(events, vec![CashlessEvent::PeripheralId, CashlessEvent::EndSession]);
    assert_eq!(d.model_number, b"MODEL0000042".to_vec());
    assert!(!d.supports_ftl);
}

#[test]
fn vend_request_only_in_idle_session() {
    let mut d = enabled_reader(2);
    assert_eq!(d.vend_request(300, 7), None);
    assert_eq!(d.session, SessionState::Enabled);
    d.process_poll(&[0x03, 0x00, 0x00, 0x01, 0xF4, 0x12, 0x34, 0x56, 0x78, 0x01]);
    assert_eq!(d.vend_request(300, 7), Some(vec![0x13, 0x00, 0x01, 0x2C, 0x00, 0x07]));
    assert_eq!(d.session, SessionState::Vending);
    assert_eq!(d.vend_request(300, 7), None);
}

#[test]
fn vend_success_and_failure_close_the_vend() {
    let mut d = vending_reader(2);
    assert_eq!(d.vend_success(0x0107), Some(vec![0x13, 0x02, 0x01, 0x07]));
    assert_eq!(d.session, SessionState::SessionIdle);
    assert_eq!(d.vend_success(7), None);
    assert_eq!(d.vend_failure(), None);
    let mut d = vending_reader(1);
    assert_eq!(d.vend_failure(), Some(vec![0x13, 0x03]));
    assert_eq!(d.session, SessionState::SessionIdle);
}

#[test]
fn setup_and_reader_commands() {
    assert_eq!(config_data_command(), vec![0x11, 0x00, 0x03, 0x00, 0x00, 0x00]);
    assert_eq!(max_min_prices_command(0xFFFF, 0x0000), vec![0x11, 0x01, 0xFF, 0xFF, 0x00, 0x00]);
    assert_eq!(max_min_prices_command(0x1234, 0x0056), vec![0x11, 0x01, 0x12, 0x34, 0x00, 0x56]);
    assert_eq!(two_byte_command(VEND_READER_PREFIX, VEND_READER_ENABLE), vec![0x14, 0x01]);
    assert_eq!(two_byte_command(VEND_PREFIX, VEND_SESSION_COMPLETE), vec![0x13, 0x04]);
}

#[test]
fn just_reset_detection() {
    assert!(is_just_reset(&[0x00]));
    assert!(is_just_reset(&[0x00, 0x07]));
    assert!(!is_just_reset(&[]));
    assert!(!is_just_reset(&[0x07]));
}
