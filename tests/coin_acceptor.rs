use mdb::coin_acceptor::{
    enable_coins_command, feature_enable_command, parse_diagnostics, payout_still_running, AcceptGateErrorSubtype,
    ChangerStatus, CoinAcceptor, CoinAcceptorLevel, CoinCassetteErrorSubtype, CoinInsertedEvent, CoinRouting,
    CoinType, DiscriminatorErrorSubtype, Dispense, GeneralErrorSubtype, L2Payout, L3ChangerStatus,
    ManualDispenseEvent, OptionalFeature, PollEvent, SeparatorModuleErrorSubtype,
};
use mdb::link::command_frame;
use mdb::{MDBResponse, MDBStatus};

fn setup_reply(level: u8, scaling: u8) -> Vec<u8> {
    let mut reply = vec![level, 0x00, 0x01, scaling, 0x02, 0x00, 0xFF, 0x05, 0x0A, 0x19, 0x32, 0x64];
    reply.extend_from_slice(&[0u8; 11]);
    reply
}

fn changer(scaling: u8) -> CoinAcceptor {
    CoinAcceptor::from_setup_reply(&setup_reply(0x03, scaling)).expect("23-byte reply")
}

fn with_tubes(mut acceptor: CoinAcceptor, counts: [u8; 16]) -> CoinAcceptor {
    let mut reply = vec![0x00, 0x00];
    reply.extend_from_slice(&counts);
    assert!(acceptor.apply_tube_status(&reply));
    acceptor
}

#[test]
fn setup_reply_decodes_level3_changer() {
    let bytes = [
        0x03, 0x00, 0x01, 0x01, 0x02, 0x00, 0xFF, 0x05, 0x0A, 0x19, 0x32, 0x64, 0, 0, 0, 0, 0, 0, 0, 0, 0, 0, 0,
    ];
    let ca = CoinAcceptor::from_setup_reply(&bytes).expect("23-byte reply");
    assert_eq!(ca.feature_level, CoinAcceptorLevel::Level3);
    assert_eq!(ca.country_code, 0x0001);
    assert_eq!(ca.scaling_factor, 1);
    assert_eq!(ca.decimal_places, 2);
    assert_eq!(ca.coin_routing, 0x00FF);
    assert!(ca.l3_features.is_none());
    let values: Vec<u16> = ca.coin_types.iter().flatten().map(|c| c.unscaled_value).collect();
    assert_eq!(values, vec![5, 10, 25, 50, 100]);
    assert_eq!(ca.coin_types.len(), 16);
    for slot in ca.coin_types.iter().take(5) {
        let c = slot.expect("present");
        assert!(c.routeable_to_tube);
        assert!(!c.tube_full);
        assert_eq!(c.num_coins, 0);
    }
    assert!(ca.coin_types[5..].iter().all(|s| s.is_none()));
}

#[test]
fn setup_reply_scales_credit_and_reads_routing_bits() {
    let mut bytes = setup_reply(0x02, 5);
    bytes[5] = 0x80;
    bytes[6] = 0x02;
    bytes[22] = 0x04;
    let ca = CoinAcceptor::from_setup_reply(&bytes).expect("23-byte reply");
    assert_eq!(ca.feature_level, CoinAcceptorLevel::Level2);
    assert_eq!(ca.coin_routing, 0x8002);
    assert_eq!(
        ca.coin_types[1],
        Some(CoinType { unscaled_value: 50, routeable_to_tube: true, tube_full: false, num_coins: 0 })
    );
    assert_eq!(ca.coin_types[0].unwrap().routeable_to_tube, false);
    assert_eq!(
        ca.coin_types[15],
        Some(CoinType { unscaled_value: 20, routeable_to_tube: true, tube_full: false, num_coins: 0 })
    );
}

#[test]
fn setup_reply_unknown_level_is_level2() {
    let ca = CoinAcceptor::from_setup_reply(&setup_reply(0x07, 1)).expect("23-byte reply");
    assert_eq!(ca.feature_level, CoinAcceptorLevel::Level2);
}

#[test]
fn setup_reply_of_wrong_length_is_refused() {
    let mut bytes = setup_reply(0x03, 1);
    bytes.push(0);
    assert!(CoinAcceptor::from_setup_reply(&bytes).is_none());
    assert!(CoinAcceptor::from_setup_reply(&bytes[..22]).is_none());
    assert!(CoinAcceptor::from_setup_reply(&[]).is_none());
}

#[test]
fn tube_status_updates_present_slots() {
    let mut ca = changer(1);
    let mut reply = vec![0x00, 0x05];
    reply.extend_from_slice(&[10, 20, 30, 40, 50, 60, 0, 0, 0, 0, 0, 0, 0, 0, 0, 0]);
    assert!(ca.apply_tube_status(&reply));
    let c0 = ca.coin_types[0].unwrap();
    assert!(c0.tube_full);
    assert_eq!(c0.num_coins, 10);
    assert!(!ca.coin_types[1].unwrap().tube_full);
    assert!(ca.coin_types[2].unwrap().tube_full);
    assert_eq!(ca.coin_types[4].unwrap().num_coins, 50);
    assert_eq!(ca.coin_types[4].unwrap().unscaled_value, 100);
    assert!(ca.coin_types[5].is_none());
}

#[test]
fn tube_status_of_wrong_length_changes_nothing() {
    let mut ca = changer(1);
    assert!(!ca.apply_tube_status(&[0xFF; 17]));
    assert_eq!(ca.coin_types[0].unwrap().num_coins, 0);
    assert!(!ca.coin_types[0].unwrap().tube_full);
}

#[test]
fn ident_reply_records_features() {
    let mut ca = changer(1);
    let mut reply = b"ABC".to_vec();
    reply.extend_from_slice(b"000000000001");
    reply.extend_from_slice(b"MODEL0000001");
    reply.extend_from_slice(&[0x01, 0x02, 0, 0, 0, 0x0B]);
    assert_eq!(reply.len(), 33);
    assert_eq!(ca.apply_ident_reply(&reply), Some(0x03));
    let f = ca.l3_features.as_ref().expect("recorded");
    assert_eq!(f.manufacturer_code, b"ABC".to_vec());
    assert_eq!(f.serial_number, b"000000000001".to_vec());
    assert_eq!(f.model, b"MODEL0000001".to_vec());
    assert_eq!(f.software_ver, vec![0x01, 0x02]);
    assert_eq!(
        f.optional_features,
        vec![
            OptionalFeature::AlternativePayoutSupported,
            OptionalFeature::ExtendedDiagnosticCmdSupported,
            OptionalFeature::FileTransferLayerSupported,
        ]
    );
}

#[test]
fn ident_reply_without_payout_or_diagnostics_enables_nothing() {
    let mut ca = changer(1);
    let mut reply = vec![0u8; 32];
    reply.push(0x04);
    assert_eq!(ca.apply_ident_reply(&reply), Some(0x00));
    let f = ca.l3_features.as_ref().expect("recorded");
    assert_eq!(f.optional_features, vec![OptionalFeature::ControlledManualFillAndPayoutSupported]);
}

#[test]
fn ident_reply_of_wrong_length_is_refused() {
    let mut ca = changer(1);
    assert_eq!(ca.apply_ident_reply(&[0u8; 32]), None);
    assert!(ca.l3_features.is_none());
}

#[test]
fn enable_coins_command_bytes() {
    assert_eq!(enable_coins_command(0x1234), vec![0x0C, 0x34, 0x12, 0xFF, 0xFF]);
    assert_eq!(enable_coins_command(0x001F), vec![0x0C, 0x1F, 0x00, 0xFF, 0xFF]);
}

#[test]
fn feature_enable_command_bytes() {
    assert_eq!(feature_enable_command(0x03), vec![0x0F, 0x01, 0x00, 0x00, 0x00, 0x03]);
}

#[test]
fn poll_ack_reports_nothing() {
    let ca = changer(1);
    assert!(ca.parse_poll(&[]).is_empty());
}

#[test]
fn poll_orphan_first_byte_is_dropped() {
    let ca = changer(1);
    assert_eq!(ca.parse_poll(&[0x23, 0x8C]), vec![PollEvent::SlugCount(3)]);
}

#[test]
fn poll_three_events_in_wire_order() {
    let ca = changer(1);
    let events = ca.parse_poll(&[0x52, 0x07, 0xA1, 0x04, 0x07]);
    assert_eq!(
        events,
        vec![
            PollEvent::Coin(CoinInsertedEvent {
                coin_type: 2,
                unscaled_value: 25,
                routing: CoinRouting::Tube,
                coins_remaining: 7,
            }),
            PollEvent::ManualDispense(ManualDispenseEvent {
                coin_type: 1,
                unscaled_value: 10,
                number: 2,
                coins_remaining: 4,
            }),
            PollEvent::Status(ChangerStatus::TubeJam),
        ]
    );
}

#[test]
fn poll_routing_bits() {
    let ca = changer(1);
    let routing = |b0: u8| match ca.parse_poll(&[b0, 0])[0] {
        PollEvent::Coin(c) => c.routing,
        _ => panic!("not a coin"),
    };
    assert_eq!(routing(0x40), CoinRouting::CashBox);
    assert_eq!(routing(0x50), CoinRouting::Tube);
    assert_eq!(routing(0x60), CoinRouting::Unknown);
    assert_eq!(routing(0x70), CoinRouting::Reject);
}

#[test]
fn poll_unknown_status_is_dropped() {
    let ca = changer(1);
    assert_eq!(
        ca.parse_poll(&[0x0A, 0x11, 0x0C, 0x3F]),
        vec![PollEvent::Status(ChangerStatus::ChangerWasReset), PollEvent::SlugCount(0x1F)]
    );
}

#[test]
fn poll_coin_of_absent_slot_has_no_value() {
    let ca = changer(5);
    assert_eq!(
        ca.parse_poll(&[0x4F, 0x01, 0x81, 0x09]),
        vec![
            PollEvent::Coin(CoinInsertedEvent {
                coin_type: 15,
                unscaled_value: 0,
                routing: CoinRouting::CashBox,
                coins_remaining: 1,
            }),
            PollEvent::ManualDispense(ManualDispenseEvent {
                coin_type: 1,
                unscaled_value: 50,
                number: 0,
                coins_remaining: 9,
            }),
        ]
    );
}

#[test]
fn changer_status_codes() {
    assert_eq!(ChangerStatus::from_code(0x01), Some(ChangerStatus::EscrowPressed));
    assert_eq!(ChangerStatus::from_code(0x09), Some(ChangerStatus::CoinRoutingError));
    assert_eq!(ChangerStatus::from_code(0x10), Some(ChangerStatus::ChangerBusy));
    assert_eq!(ChangerStatus::from_code(0x13), Some(ChangerStatus::PossibleCoinRemoval));
    assert_eq!(ChangerStatus::from_code(0x00), None);
    assert_eq!(ChangerStatus::from_code(0x0A), None);
    assert_eq!(ChangerStatus::from_code(0x14), None);
}

#[test]
fn dispense_three_quarters_from_slot_two() {
    let d = Dispense { coin_type: 2, count: 3, unscaled_value: 25 };
    let cmd = d.command();
    assert_eq!(cmd, vec![0x0D, 0x32]);
    assert_eq!(command_frame(&cmd), vec![0x01, 0x0D, 0x00, 0x32, 0x00, 0x3F]);
}

fn run_l2_payout(ca: &CoinAcceptor, amount: u16, nack_slot: Option<u8>) -> L2Payout {
    let mut payout = L2Payout::new(amount);
    while let Some(d) = payout.next_dispense(ca) {
        payout.record(d, Some(d.coin_type) != nack_slot);
    }
    payout
}

#[test]
fn l2_payout_largest_coins_first() {
    let ca = with_tubes(changer(1), [10, 10, 3, 0, 1, 0, 0, 0, 0, 0, 0, 0, 0, 0, 0, 0]);
    let payout = run_l2_payout(&ca, 180, None);
    assert_eq!(payout.paid, 180);
    assert_eq!(payout.remaining, 0);
    assert_eq!(
        payout.dispensed,
        vec![
            Dispense { coin_type: 4, count: 1, unscaled_value: 100 },
            Dispense { coin_type: 2, count: 3, unscaled_value: 25 },
            Dispense { coin_type: 0, count: 1, unscaled_value: 5 },
        ]
    );
}

#[test]
fn l2_payout_counts_only_acknowledged_dispenses() {
    let ca = with_tubes(changer(1), [10, 10, 3, 0, 1, 0, 0, 0, 0, 0, 0, 0, 0, 0, 0, 0]);
    let payout = run_l2_payout(&ca, 180, Some(2));
    assert_eq!(
        payout.dispensed,
        vec![
            Dispense { coin_type: 4, count: 1, unscaled_value: 100 },
            Dispense { coin_type: 1, count: 8, unscaled_value: 10 },
        ]
    );
    let total: u32 = payout.dispensed.iter().map(|d| d.count as u32 * d.unscaled_value as u32).sum();
    assert_eq!(payout.paid as u32, total);
    assert_eq!(payout.paid, 180);
}

#[test]
fn l2_payout_partial_when_tubes_run_short() {
    let ca = with_tubes(changer(1), [0, 2, 0, 0, 0, 0, 0, 0, 0, 0, 0, 0, 0, 0, 0, 0]);
    let payout = run_l2_payout(&ca, 55, None);
    assert_eq!(payout.paid, 20);
    assert_eq!(payout.remaining, 35);
    assert_eq!(payout.dispensed, vec![Dispense { coin_type: 1, count: 2, unscaled_value: 10 }]);
}

#[test]
fn l2_payout_caps_fifteen_coins_per_dispense() {
    let ca = with_tubes(changer(1), [40, 0, 0, 0, 0, 0, 0, 0, 0, 0, 0, 0, 0, 0, 0, 0]);
    let payout = run_l2_payout(&ca, 100, None);
    assert_eq!(payout.paid, 75);
    assert_eq!(payout.dispensed, vec![Dispense { coin_type: 0, count: 15, unscaled_value: 5 }]);
}

#[test]
fn l2_payout_of_nothing_dispenses_nothing() {
    let ca = with_tubes(changer(1), [10; 16]);
    let payout = L2Payout::new(0);
    assert!(payout.next_dispense(&ca).is_none());
    assert_eq!(payout.paid, 0);
}

#[test]
fn l3_payout_of_500_with_scaling_5() {
    let ca = changer(5);
    let cmd = ca.l3_payout_command(500).expect("fits in one payout");
    assert_eq!(cmd, vec![0x0F, 0x02, 0x64]);
    assert_eq!(command_frame(&cmd), vec![0x01, 0x0F, 0x00, 0x02, 0x00, 0x64, 0x00, 0x75]);
}

#[test]
fn l3_payout_over_255_units_is_refused() {
    let ca = changer(5);
    assert_eq!(ca.l3_payout_command(1279), Some(vec![0x0F, 0x02, 0xFF]));
    assert_eq!(ca.l3_payout_command(1280), None);
    let unscaled = changer(0);
    assert_eq!(unscaled.l3_payout_command(10), None);
}

#[test]
fn l3_payout_progress_and_total() {
    assert!(payout_still_running(&MDBResponse::Data(3)));
    assert!(!payout_still_running(&MDBResponse::StatusMsg(MDBStatus::ACK)));
    let ca = changer(1);
    assert_eq!(ca.l3_payout_total(&[1, 0, 2, 0, 1]), 155);
    assert_eq!(ca.l3_payout_total(&[]), 0);
    let mut long = vec![0u8; 16];
    long[4] = 255;
    long.push(9);
    assert_eq!(ca.l3_payout_total(&long), 25_500);
}

#[test]
fn diagnostics_decode_in_pairs() {
    let statuses =
        parse_diagnostics(&[0x03, 0x00, 0x11, 0x30, 0x11, 0x99, 0x15, 0x04, 0x07, 0x00, 0x14, 0x00, 0x10]);
    assert_eq!(
        statuses,
        vec![
            Some(L3ChangerStatus::Operational),
            Some(L3ChangerStatus::DiscriminatorError(DiscriminatorErrorSubtype::CoinJam)),
            Some(L3ChangerStatus::DiscriminatorError(DiscriminatorErrorSubtype::NonSpecific)),
            Some(L3ChangerStatus::CoinCassetteError(CoinCassetteErrorSubtype::SunlightOnSensors)),
            None,
            Some(L3ChangerStatus::DispenserError),
        ]
    );
}

#[test]
fn diagnostics_categories_and_subcodes() {
    assert_eq!(
        parse_diagnostics(&[0x01, 0x00, 0x02, 0x00, 0x04, 0x00, 0x06, 0x00]),
        vec![
            Some(L3ChangerStatus::PoweringUp),
            Some(L3ChangerStatus::PoweringDown),
            Some(L3ChangerStatus::KeypadShifted),
            Some(L3ChangerStatus::InhibitedByVmc),
        ]
    );
    assert_eq!(
        parse_diagnostics(&[0x10, 0x03, 0x10, 0x05, 0x12, 0x31, 0x12, 0x01, 0x13, 0x10, 0x13, 0x11]),
        vec![
            Some(L3ChangerStatus::GeneralError(GeneralErrorSubtype::LowLineVoltage)),
            Some(L3ChangerStatus::GeneralError(GeneralErrorSubtype::NonSpecific)),
            Some(L3ChangerStatus::AcceptGateError(AcceptGateErrorSubtype::GateAlarm)),
            Some(L3ChangerStatus::AcceptGateError(AcceptGateErrorSubtype::NonSpecific)),
            Some(L3ChangerStatus::SeparatorError(SeparatorModuleErrorSubtype::SortSensor)),
            Some(L3ChangerStatus::SeparatorError(SeparatorModuleErrorSubtype::NonSpecific)),
        ]
    );
    assert!(parse_diagnostics(&[0x03]).is_empty());
}
