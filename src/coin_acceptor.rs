//! Coin changer protocol (levels 2 and 3): the commands the master sends, the
//! coin-type table built from the SETUP reply, poll-event decoding, payout
//! planning and the level 3 diagnostics.

use vstd::prelude::*;

use crate::bytes::copy_range;

verus! {

pub const RESET_CMD: u8 = 0x08;
pub const SETUP_CMD: u8 = 0x09;
pub const TUBE_STATUS_CMD: u8 = 0x0A;
pub const POLL_CMD: u8 = 0x0B;
pub const COIN_TYPE_CMD: u8 = 0x0C;
pub const DISPENSE_CMD: u8 = 0x0D;

/// Level 3 expansion commands start with this byte.
pub const L3_CMD_PREFIX: u8 = 0x0F;
pub const L3_IDENT_CMD: u8 = 0x00;
pub const L3_FEATURE_ENABLE_CMD: u8 = 0x01;
pub const L3_PAYOUT_CMD: u8 = 0x02;
pub const L3_PAYOUT_STATUS_CMD: u8 = 0x03;
pub const L3_PAYOUT_VALUE_POLL_CMD: u8 = 0x04;
pub const L3_DIAG_CMD: u8 = 0x05;

/// Length of the SETUP reply.
pub const SETUP_REPLY_LEN: usize = 23;
/// Length of the TUBE_STATUS reply.
pub const TUBE_STATUS_REPLY_LEN: usize = 18;
/// Length of the level 3 IDENT reply.
pub const IDENT_REPLY_LEN: usize = 33;
/// Number of coin-type slots.
pub const NUM_COIN_TYPES: usize = 16;

/// One slot of the coin-type table.
#[derive(Clone, Copy, Debug, PartialEq, Eq, Structural)]
pub struct CoinType {
    pub unscaled_value: u16,
    pub routeable_to_tube: bool,
    pub tube_full: bool,
    pub num_coins: u8,
}

/// Status codes that a changer reports in a poll reply.
#[derive(Clone, Copy, Debug, PartialEq, Eq, Structural)]
pub enum ChangerStatus {
    EscrowPressed,
    ChangerPayoutBusy,
    NoCredit,
    DefectiveTubeSensor,
    DoubleArrival,
    AcceptorUnplugged,
    TubeJam,
    RomChecksumError,
    CoinRoutingError,
    ChangerBusy,
    ChangerWasReset,
    CoinJam,
    PossibleCoinRemoval,
}

/// Level 3 diagnostic status, with the category's subcode where it has one.
#[derive(Clone, Copy, Debug, PartialEq, Eq, Structural)]
pub enum L3ChangerStatus {
    PoweringUp,
    PoweringDown,
    Operational,
    KeypadShifted,
    ManualFillOrPayoutActive,
    NewInventoryInfoAvailable,
    InhibitedByVmc,
    GeneralError(GeneralErrorSubtype),
    DiscriminatorError(DiscriminatorErrorSubtype),
    AcceptGateError(AcceptGateErrorSubtype),
    SeparatorError(SeparatorModuleErrorSubtype),
    DispenserError,
    CoinCassetteError(CoinCassetteErrorSubtype),
}

#[derive(Clone, Copy, Debug, PartialEq, Eq, Structural)]
pub enum GeneralErrorSubtype {
    NonSpecific,
    Cksum1,
    Cksum2,
    LowLineVoltage,
}

#[derive(Clone, Copy, Debug, PartialEq, Eq, Structural)]
pub enum DiscriminatorErrorSubtype {
    NonSpecific,
    FlightDeckOpen,
    EscrowReturnStuck,
    CoinJam,
    DiscriminationBelowStandard,
    ValSensorAErr,
    ValSensorBErr,
    ValSensorCErr,
    TempExceeded,
    OpticsFailure,
}

#[derive(Clone, Copy, Debug, PartialEq, Eq, Structural)]
pub enum AcceptGateErrorSubtype {
    NonSpecific,
    CoinsDidNotExit,
    GateAlarm,
    GateOpeNNoCoin,
    PostGateSensorCovered,
}

#[derive(Clone, Copy, Debug, PartialEq, Eq, Structural)]
pub enum SeparatorModuleErrorSubtype {
    NonSpecific,
    SortSensor,
}

#[derive(Clone, Copy, Debug, PartialEq, Eq, Structural)]
pub enum CoinCassetteErrorSubtype {
    NonSpecific,
    CassetteRemoved,
    CashBoxSensorError,
    SunlightOnSensors,
}

/// A coin was accepted (or rejected) since the last poll.
#[derive(Clone, Copy, Debug, PartialEq, Eq, Structural)]
pub struct CoinInsertedEvent {
    /// Slot of the coin type.
    pub coin_type: u8,
    pub unscaled_value: u16,
    /// Where the coin went.
    pub routing: CoinRouting,
    /// The changer's count of coins now in that tube.
    pub coins_remaining: u8,
}

/// Coins were dispensed by hand since the last poll.
#[derive(Clone, Copy, Debug, PartialEq, Eq, Structural)]
pub struct ManualDispenseEvent {
    pub coin_type: u8,
    pub unscaled_value: u16,
    /// Number of coins dispensed.
    pub number: u8,
    pub coins_remaining: u8,
}

/// One event of a poll reply.
#[derive(Clone, Copy, Debug, PartialEq, Eq, Structural)]
pub enum PollEvent {
    /// Slugs inserted since the last poll.
    SlugCount(u8),
    Status(ChangerStatus),
    Coin(CoinInsertedEvent),
    ManualDispense(ManualDispenseEvent),
}

#[derive(Clone, Copy, Debug, PartialEq, Eq, Structural)]
pub enum CoinRouting {
    CashBox,
    Tube,
    Reject,
    Unknown,
}

#[derive(Clone, Copy, Debug, PartialEq, Eq, Structural)]
pub enum CoinAcceptorLevel {
    Level2,
    Level3,
}

#[derive(Clone, Copy, Debug, PartialEq, Eq, Structural)]
pub enum OptionalFeature {
    AlternativePayoutSupported,
    ExtendedDiagnosticCmdSupported,
    ControlledManualFillAndPayoutSupported,
    FileTransferLayerSupported,
}

/// Identity and options that a level 3 changer reports to IDENT.
pub struct CoinAcceptorL3Features {
    pub manufacturer_code: Vec<u8>,
    pub serial_number: Vec<u8>,
    pub model: Vec<u8>,
    pub software_ver: Vec<u8>,
    /// The supported options, in the order of their bits.
    pub optional_features: Vec<OptionalFeature>,
}

/// A coin changer as discovered at SETUP.
pub struct CoinAcceptor {
    pub feature_level: CoinAcceptorLevel,
    pub country_code: u16,
    pub scaling_factor: u8,
    pub decimal_places: u8,
    /// Bit `i` set: coin type `i` can be routed to its tube.
    pub coin_routing: u16,
    /// The coin-type table; slot `i` is the `i`-th coin type of the SETUP reply.
    pub coin_types: Vec<Option<CoinType>>,
    pub l3_features: Option<CoinAcceptorL3Features>,
}

impl ChangerStatus {
    pub open spec fn spec_code(self) -> u8 {
        match self {
            ChangerStatus::EscrowPressed => 0x01,
            ChangerStatus::ChangerPayoutBusy => 0x02,
            ChangerStatus::NoCredit => 0x03,
            ChangerStatus::DefectiveTubeSensor => 0x04,
            ChangerStatus::DoubleArrival => 0x05,
            ChangerStatus::AcceptorUnplugged => 0x06,
            ChangerStatus::TubeJam => 0x07,
            ChangerStatus::RomChecksumError => 0x08,
            ChangerStatus::CoinRoutingError => 0x09,
            ChangerStatus::ChangerBusy => 0x10,
            ChangerStatus::ChangerWasReset => 0x11,
            ChangerStatus::CoinJam => 0x12,
            ChangerStatus::PossibleCoinRemoval => 0x13,
        }
    }

    pub open spec fn spec_from_code(b: u8) -> Option<ChangerStatus> {
        if b == 0x01 {
            Some(ChangerStatus::EscrowPressed)
        } else if b == 0x02 {
            Some(ChangerStatus::ChangerPayoutBusy)
        } else if b == 0x03 {
            Some(ChangerStatus::NoCredit)
        } else if b == 0x04 {
            Some(ChangerStatus::DefectiveTubeSensor)
        } else if b == 0x05 {
            Some(ChangerStatus::DoubleArrival)
        } else if b == 0x06 {
            Some(ChangerStatus::AcceptorUnplugged)
        } else if b == 0x07 {
            Some(ChangerStatus::TubeJam)
        } else if b == 0x08 {
            Some(ChangerStatus::RomChecksumError)
        } else if b == 0x09 {
            Some(ChangerStatus::CoinRoutingError)
        } else if b == 0x10 {
            Some(ChangerStatus::ChangerBusy)
        } else if b == 0x11 {
            Some(ChangerStatus::ChangerWasReset)
        } else if b == 0x12 {
            Some(ChangerStatus::CoinJam)
        } else if b == 0x13 {
            Some(ChangerStatus::PossibleCoinRemoval)
        } else {
            None
        }
    }

    /// The status that the poll byte `b` stands for, if any.
    pub fn from_code(b: u8) -> (r: Option<ChangerStatus>)
        ensures
            r == Self::spec_from_code(b),
            r matches Some(s) ==> s.spec_code() == b,
    {
        match b {
            0x01 => Some(ChangerStatus::EscrowPressed),
            0x02 => Some(ChangerStatus::ChangerPayoutBusy),
            0x03 => Some(ChangerStatus::NoCredit),
            0x04 => Some(ChangerStatus::DefectiveTubeSensor),
            0x05 => Some(ChangerStatus::DoubleArrival),
            0x06 => Some(ChangerStatus::AcceptorUnplugged),
            0x07 => Some(ChangerStatus::TubeJam),
            0x08 => Some(ChangerStatus::RomChecksumError),
            0x09 => Some(ChangerStatus::CoinRoutingError),
            0x10 => Some(ChangerStatus::ChangerBusy),
            0x11 => Some(ChangerStatus::ChangerWasReset),
            0x12 => Some(ChangerStatus::CoinJam),
            0x13 => Some(ChangerStatus::PossibleCoinRemoval),
            _ => None,
        }
    }
}

/// Whether bit `i` of `mask` is set.
pub open spec fn bit_set(mask: u16, i: u16) -> bool {
    (mask >> i) & 1 == 1
}

/// The coin-type slot that a SETUP reply describes with credit byte `credit`.
pub open spec fn spec_setup_slot(credit: u8, scaling: u8, routing: u16, i: u16) -> Option<CoinType> {
    if credit == 0 {
        None
    } else {
        Some(
            CoinType {
                unscaled_value: (credit * scaling) as u16,
                routeable_to_tube: bit_set(routing, i),
                tube_full: false,
                num_coins: 0,
            },
        )
    }
}

impl CoinAcceptor {
    /// The table has one entry per coin type.
    pub open spec fn wf(&self) -> bool {
        self.coin_types@.len() == NUM_COIN_TYPES
    }

    /// The unscaled value of coin type `i`, zero where the slot is absent.
    pub open spec fn spec_value(&self, i: int) -> u16 {
        match self.coin_types@[i] {
            Some(c) => c.unscaled_value,
            None => 0,
        }
    }

    /// Builds the changer from its 23-byte SETUP reply: feature level,
    /// country code (2, big-endian), scaling factor, decimal places, coin
    /// routing (2, big-endian) and the credit of each of the 16 coin types.
    /// Any other length is refused.
    pub fn from_setup_reply(reply: &[u8]) -> (r: Option<CoinAcceptor>)
        ensures
            r is Some <==> reply@.len() == SETUP_REPLY_LEN,
            r matches Some(ca) ==> {
                &&& ca.wf()
                &&& ca.feature_level == (if reply@[0] == 0x03 {
                    CoinAcceptorLevel::Level3
                } else {
                    CoinAcceptorLevel::Level2
                })
                &&& ca.country_code == reply@[1] as u16 * 256 + reply@[2] as u16
                &&& ca.scaling_factor == reply@[3]
                &&& ca.decimal_places == reply@[4]
                &&& ca.coin_routing == reply@[5] as u16 * 256 + reply@[6] as u16
                &&& forall|i: int|
                    0 <= i < NUM_COIN_TYPES ==> #[trigger] ca.coin_types@[i] == spec_setup_slot(
                        reply@[7 + i],
                        reply@[3],
                        ca.coin_routing,
                        i as u16,
                    )
                &&& ca.l3_features is None
            },
    {
        if reply.len() != SETUP_REPLY_LEN {
            return None;
        }
        let feature_level = if reply[0] == 0x03 {
            CoinAcceptorLevel::Level3
        } else {
            CoinAcceptorLevel::Level2
        };
        let scaling = reply[3];
        let routing: u16 = reply[5] as u16 * 256 + reply[6] as u16;
        let mut coin_types: Vec<Option<CoinType>> = Vec::new();
        let mut i: u16 = 0;
        while i < 16
            invariant
                reply@.len() == SETUP_REPLY_LEN,
                scaling == reply@[3],
                i <= 16,
                coin_types@.len() == i,
                forall|j: int|
                    0 <= j < i ==> #[trigger] coin_types@[j] == spec_setup_slot(
                        reply@[7 + j],
                        scaling,
                        routing,
                        j as u16,
                    ),
            decreases 16 - i,
        {
            let credit = reply[7 + i as usize];
            let slot = if credit == 0 {
                None
            } else {
                assert(credit * scaling <= 255 * 255) by (nonlinear_arith)
                    requires
                        credit <= 255,
                        scaling <= 255,
                ;
                Some(
                    CoinType {
                        unscaled_value: credit as u16 * scaling as u16,
                        routeable_to_tube: (routing >> i) & 1 == 1,
                        tube_full: false,
                        num_coins: 0,
                    },
                )
            };
            coin_types.push(slot);
            i = i + 1;
        }
        Some(
            CoinAcceptor {
                feature_level,
                country_code: reply[1] as u16 * 256 + reply[2] as u16,
                scaling_factor: scaling,
                decimal_places: reply[4],
                coin_routing: routing,
                coin_types,
                l3_features: None,
            },
        )
    }
}

/// Where a coin went, from bits 4 and 5 of its poll byte.
pub open spec fn spec_routing(b0: u8) -> CoinRouting {
    if b0 & 0x30 == 0x00 {
        CoinRouting::CashBox
    } else if b0 & 0x30 == 0x10 {
        CoinRouting::Tube
    } else if b0 & 0x30 == 0x30 {
        CoinRouting::Reject
    } else {
        CoinRouting::Unknown
    }
}

/// Whether a poll byte opens a two-byte event (manual dispense or coin inserted).
pub open spec fn starts_pair(b: u8) -> bool {
    b & 0x80 == 0x80 || b & 0x40 == 0x40
}

impl CoinAcceptor {
    /// The event of the two-byte poll item `b0 b1`.
    pub open spec fn spec_pair_event(&self, b0: u8, b1: u8) -> PollEvent {
        if b0 & 0x80 == 0x80 {
            PollEvent::ManualDispense(
                ManualDispenseEvent {
                    coin_type: b0 & 0x0F,
                    unscaled_value: self.spec_value((b0 & 0x0F) as int),
                    number: (b0 >> 4) & 0x07,
                    coins_remaining: b1,
                },
            )
        } else {
            PollEvent::Coin(
                CoinInsertedEvent {
                    coin_type: b0 & 0x0F,
                    unscaled_value: self.spec_value((b0 & 0x0F) as int),
                    routing: spec_routing(b0),
                    coins_remaining: b1,
                },
            )
        }
    }

    /// The events of the poll bytes `s`, read with `pending` as the first byte
    /// of a two-byte item still waiting for its second. Unknown status bytes
    /// are dropped, and so is a first byte that the frame ends on.
    pub open spec fn spec_poll_events_from(&self, s: Seq<u8>, pending: Option<u8>) -> Seq<PollEvent>
        decreases s.len(),
    {
        if s.len() == 0 {
            Seq::empty()
        } else {
            match pending {
                Some(b0) => seq![self.spec_pair_event(b0, s[0])] + self.spec_poll_events_from(
                    s.drop_first(),
                    None,
                ),
                None => {
                    let b = s[0];
                    if starts_pair(b) {
                        self.spec_poll_events_from(s.drop_first(), Some(b))
                    } else if b & 0x20 == 0x20 {
                        seq![PollEvent::SlugCount(b & 0x1F)] + self.spec_poll_events_from(
                            s.drop_first(),
                            None,
                        )
                    } else {
                        match ChangerStatus::spec_from_code(b) {
                            Some(st) => seq![PollEvent::Status(st)] + self.spec_poll_events_from(
                                s.drop_first(),
                                None,
                            ),
                            None => self.spec_poll_events_from(s.drop_first(), None),
                        }
                    }
                },
            }
        }
    }

    /// The events of a poll reply's payload, in wire order.
    pub open spec fn spec_poll_events(&self, s: Seq<u8>) -> Seq<PollEvent> {
        self.spec_poll_events_from(s, None)
    }

    /// Decodes the payload of a POLL reply into its events, in the order in
    /// which they stand on the wire.
    pub fn parse_poll(&self, data: &[u8]) -> (r: Vec<PollEvent>)
        requires
            self.wf(),
        ensures
            r@ == self.spec_poll_events(data@),
    {
        let mut out: Vec<PollEvent> = Vec::new();
        let mut pending: Option<u8> = None;
        let mut i: usize = 0;
        assert(data@.skip(0) =~= data@);
        assert(out@ + self.spec_poll_events_from(data@, pending) =~= self.spec_poll_events(data@));
        while i < data.len()
            invariant
                self.wf(),
                i <= data@.len(),
                out@ + self.spec_poll_events_from(data@.skip(i as int), pending)
                    == self.spec_poll_events(data@),
            decreases data@.len() - i,
        {
            let b = data[i];
            let ghost rest = data@.skip(i as int);
            assert(rest.drop_first() =~= data@.skip(i + 1));
            assert(rest[0] == b);
            match pending {
                Some(b0) => {
                    let t = b0 & 0x0F;
                    assert(b0 & 0x0F < 16) by (bit_vector);
                    let value = match self.coin_types[t as usize] {
                        Some(c) => c.unscaled_value,
                        None => 0,
                    };
                    let ev = if b0 & 0x80 == 0x80 {
                        PollEvent::ManualDispense(
                            ManualDispenseEvent {
                                coin_type: t,
                                unscaled_value: value,
                                number: (b0 >> 4) & 0x07,
                                coins_remaining: b,
                            },
                        )
                    } else {
                        let routing = if b0 & 0x30 == 0x00 {
                            CoinRouting::CashBox
                        } else if b0 & 0x30 == 0x10 {
                            CoinRouting::Tube
                        } else if b0 & 0x30 == 0x30 {
                            CoinRouting::Reject
                        } else {
                            CoinRouting::Unknown
                        };
                        PollEvent::Coin(
                            CoinInsertedEvent {
                                coin_type: t,
                                unscaled_value: value,
                                routing,
                                coins_remaining: b,
                            },
                        )
                    };
                    assert(ev == self.spec_pair_event(b0, b));
                    out.push(ev);
                    pending = None;
                },
                None => {
                    if b & 0x80 == 0x80 || b & 0x40 == 0x40 {
                        pending = Some(b);
                    } else if b & 0x20 == 0x20 {
                        out.push(PollEvent::SlugCount(b & 0x1F));
                    } else {
                        match ChangerStatus::from_code(b) {
                            Some(st) => out.push(PollEvent::Status(st)),
                            None => {},
                        }
                    }
                },
            }
            assert(out@ + self.spec_poll_events_from(data@.skip(i + 1), pending)
                =~= self.spec_poll_events(data@));
            i = i + 1;
        }
        out
    }
}

/// The routing bits of a coin-inserted byte.
pub open spec fn spec_routing_bits(r: CoinRouting) -> u8 {
    match r {
        CoinRouting::CashBox => 0x00,
        CoinRouting::Tube => 0x10,
        CoinRouting::Unknown => 0x20,
        CoinRouting::Reject => 0x30,
    }
}

/// The bytes by which a changer reports the event `e` in a poll reply.
pub open spec fn spec_event_bytes(e: PollEvent) -> Seq<u8> {
    match e {
        PollEvent::SlugCount(n) => seq![0x20u8 | n],
        PollEvent::Status(st) => seq![st.spec_code()],
        PollEvent::Coin(c) => seq![0x40u8 | spec_routing_bits(c.routing) | c.coin_type, c.coins_remaining],
        PollEvent::ManualDispense(m) => seq![0x80u8 | (m.number << 4u8) | m.coin_type, m.coins_remaining],
    }
}

/// The poll payload that reports the events `es` in order.
pub open spec fn spec_encode_events(es: Seq<PollEvent>) -> Seq<u8>
    decreases es.len(),
{
    if es.len() == 0 {
        Seq::empty()
    } else {
        spec_event_bytes(es[0]) + spec_encode_events(es.drop_first())
    }
}

impl CoinAcceptor {
    /// Whether a changer with this table can report `e` as it stands: fields
    /// within their bit widths, and the value that the table gives the coin type.
    pub open spec fn encodable(&self, e: PollEvent) -> bool {
        match e {
            PollEvent::SlugCount(n) => n < 32,
            PollEvent::Status(_) => true,
            PollEvent::Coin(c) => c.coin_type < 16 && c.unscaled_value == self.spec_value(c.coin_type as int),
            PollEvent::ManualDispense(m) => m.coin_type < 16 && m.number < 8 && m.unscaled_value
                == self.spec_value(m.coin_type as int),
        }
    }

    proof fn lemma_one_event(&self, e: PollEvent, rest: Seq<u8>)
        requires
            self.encodable(e),
        ensures
            self.spec_poll_events(spec_event_bytes(e) + rest) == seq![e] + self.spec_poll_events(rest),
    {
        let s = spec_event_bytes(e) + rest;
        assert(s.drop_first() =~= spec_event_bytes(e).drop_first() + rest);
        match e {
            PollEvent::SlugCount(n) => {
                let b = (0x20u8 | n);
                assert(!(b & 0x80 == 0x80 || b & 0x40 == 0x40) && b & 0x20 == 0x20 && b & 0x1F == n) by (bit_vector)
                    requires
                        b == 0x20u8 | n,
                        n < 32,
                ;
                assert(s[0] == b);
                assert(s.drop_first() =~= rest);
                assert(self.spec_poll_events(s) == seq![PollEvent::SlugCount(n)] + self.spec_poll_events(
                    rest,
                ));
            },
            PollEvent::Status(st) => {
                let b = st.spec_code();
                assert(b & 0x80 == 0 && b & 0x40 == 0 && b & 0x20 == 0) by {
                    assert(b == 0x01 || b == 0x02 || b == 0x03 || b == 0x04 || b == 0x05 || b == 0x06 || b
                        == 0x07 || b == 0x08 || b == 0x09 || b == 0x10 || b == 0x11 || b == 0x12 || b
                        == 0x13);
                    assert(forall|x: u8|
                        (x == 0x01 || x == 0x02 || x == 0x03 || x == 0x04 || x == 0x05 || x == 0x06 || x
                            == 0x07 || x == 0x08 || x == 0x09 || x == 0x10 || x == 0x11 || x == 0x12 || x
                            == 0x13) ==> x & 0x80 == 0 && x & 0x40 == 0 && x & 0x20 == 0) by (bit_vector);
                }
                assert(s[0] == b);
                assert(s.drop_first() =~= rest);
                assert(ChangerStatus::spec_from_code(b) == Some(st));
            },
            PollEvent::Coin(c) => {
                let t = c.coin_type;
                let rb = spec_routing_bits(c.routing);
                let b0 = (0x40u8 | rb) | t;
                assert(b0 & 0x80 != 0x80 && b0 & 0x40 == 0x40 && b0 & 0x0F == t && b0 & 0x30 == rb) by (bit_vector)
                    requires
                        b0 == (0x40u8 | rb) | t,
                        t < 16,
                        rb == 0 || rb == 0x10 || rb == 0x20 || rb == 0x30,
                ;
                assert(s[0] == b0);
                assert(s.drop_first()[0] == c.coins_remaining);
                assert(s.drop_first().drop_first() =~= rest);
                assert(self.spec_pair_event(b0, c.coins_remaining) == e);
                assert(self.spec_poll_events_from(s.drop_first(), Some(b0)) == seq![e]
                    + self.spec_poll_events(rest));
                assert(self.spec_poll_events(s) == self.spec_poll_events_from(s.drop_first(), Some(b0)));
            },
            PollEvent::ManualDispense(m) => {
                let t = m.coin_type;
                let n = m.number;
                let b0 = (0x80u8 | (n << 4u8)) | t;
                assert(b0 & 0x80 == 0x80 && b0 & 0x0F == t && (b0 >> 4u8) & 0x07 == n) by (bit_vector)
                    requires
                        b0 == (0x80u8 | (n << 4u8)) | t,
                        t < 16,
                        n < 8,
                ;
                assert(s[0] == b0);
                assert(s.drop_first()[0] == m.coins_remaining);
                assert(s.drop_first().drop_first() =~= rest);
                assert(self.spec_pair_event(b0, m.coins_remaining) == e);
                assert(self.spec_poll_events_from(s.drop_first(), Some(b0)) == seq![e]
                    + self.spec_poll_events(rest));
                assert(self.spec_poll_events(s) == self.spec_poll_events_from(s.drop_first(), Some(b0)));
            },
        }
    }

    /// Decoding the poll payload that reports a sequence of events yields those
    /// events, in the same order.
    pub proof fn lemma_poll_round_trip(&self, es: Seq<PollEvent>)
        requires
            forall|i: int| 0 <= i < es.len() ==> self.encodable(#[trigger] es[i]),
        ensures
            self.spec_poll_events(spec_encode_events(es)) == es,
        decreases es.len(),
    {
        if es.len() > 0 {
            let tail = es.drop_first();
            assert forall|i: int| 0 <= i < tail.len() implies self.encodable(#[trigger] tail[i]) by {
                assert(tail[i] == es[i + 1]);
            }
            self.lemma_poll_round_trip(tail);
            self.lemma_one_event(es[0], spec_encode_events(tail));
            assert(seq![es[0]] + tail =~= es);
        } else {
            assert(spec_encode_events(es) =~= Seq::<u8>::empty());
            assert(es =~= Seq::<PollEvent>::empty());
        }
    }
}

/// Slot `i` after a TUBE_STATUS reply with tube-full bitmap `full` and coin count `count`.
pub open spec fn spec_tube_slot(old: Option<CoinType>, full: u16, count: u8, i: u16) -> Option<CoinType> {
    match old {
        Some(c) => Some(CoinType { tube_full: bit_set(full, i), num_coins: count, ..c }),
        None => None,
    }
}

/// The optional features that the IDENT option byte `opt` announces, in bit order.
pub open spec fn spec_optional_features(opt: u8) -> Seq<OptionalFeature> {
    (if opt & 0x01 == 0x01 {
        seq![OptionalFeature::AlternativePayoutSupported]
    } else {
        Seq::empty()
    }) + (if opt & 0x02 == 0x02 {
        seq![OptionalFeature::ExtendedDiagnosticCmdSupported]
    } else {
        Seq::empty()
    }) + (if opt & 0x04 == 0x04 {
        seq![OptionalFeature::ControlledManualFillAndPayoutSupported]
    } else {
        Seq::empty()
    }) + (if opt & 0x08 == 0x08 {
        seq![OptionalFeature::FileTransferLayerSupported]
    } else {
        Seq::empty()
    })
}

/// The COIN_TYPE command that accepts the coin types set in `coin_mask` and
/// allows manual dispense of every coin type.
pub fn enable_coins_command(coin_mask: u16) -> (r: Vec<u8>)
    ensures
        r@ == seq![COIN_TYPE_CMD, (coin_mask & 0xFF) as u8, ((coin_mask >> 8u16) & 0xFF) as u8, 0xFFu8, 0xFFu8],
{
    let mut v: Vec<u8> = Vec::new();
    v.push(COIN_TYPE_CMD);
    v.push((coin_mask & 0xFF) as u8);
    v.push(((coin_mask >> 8) & 0xFF) as u8);
    v.push(0xFF);
    v.push(0xFF);
    assert(v@ =~= seq![COIN_TYPE_CMD, (coin_mask & 0xFF) as u8, ((coin_mask >> 8u16) & 0xFF) as u8, 0xFFu8, 0xFFu8]);
    v
}

/// The level 3 FEATURE_ENABLE command for the option bits `features`.
pub fn feature_enable_command(features: u8) -> (r: Vec<u8>)
    ensures
        r@ == seq![L3_CMD_PREFIX, L3_FEATURE_ENABLE_CMD, 0u8, 0u8, 0u8, features],
{
    let mut v: Vec<u8> = Vec::new();
    v.push(L3_CMD_PREFIX);
    v.push(L3_FEATURE_ENABLE_CMD);
    v.push(0);
    v.push(0);
    v.push(0);
    v.push(features);
    assert(v@ =~= seq![L3_CMD_PREFIX, L3_FEATURE_ENABLE_CMD, 0u8, 0u8, 0u8, features]);
    v
}

impl CoinAcceptor {
    /// Refreshes the tubes from an 18-byte TUBE_STATUS reply: a tube-full
    /// bitmap (2, big-endian) and the coin count of each of the 16 tubes. Only
    /// slots that exist are updated. Any other length is refused and changes
    /// nothing.
    pub fn apply_tube_status(&mut self, reply: &[u8]) -> (ok: bool)
        requires
            old(self).wf(),
        ensures
            final(self).wf(),
            ok == (reply@.len() == TUBE_STATUS_REPLY_LEN),
            !ok ==> *final(self) == *old(self),
            ok ==> *final(self) == (CoinAcceptor { coin_types: final(self).coin_types, ..*old(self) }),
            ok ==> forall|i: int|
                0 <= i < NUM_COIN_TYPES ==> #[trigger] final(self).coin_types@[i] == spec_tube_slot(
                    old(self).coin_types@[i],
                    (reply@[0] as int * 256 + reply@[1] as int) as u16,
                    reply@[2 + i],
                    i as u16,
                ),
    {
        if reply.len() != TUBE_STATUS_REPLY_LEN {
            return false;
        }
        let full: u16 = reply[0] as u16 * 256 + reply[1] as u16;
        let mut i: u16 = 0;
        while i < 16
            invariant
                reply@.len() == TUBE_STATUS_REPLY_LEN,
                full == reply@[0] as u16 * 256 + reply@[1] as u16,
                i <= 16,
                self.wf(),
                *self == (CoinAcceptor { coin_types: self.coin_types, ..*old(self) }),
                forall|j: int|
                    0 <= j < i ==> #[trigger] self.coin_types@[j] == spec_tube_slot(
                        old(self).coin_types@[j],
                        full,
                        reply@[2 + j],
                        j as u16,
                    ),
                forall|j: int| i <= j < NUM_COIN_TYPES ==> #[trigger] self.coin_types@[j] == old(self).coin_types@[j],
            decreases 16 - i,
        {
            let slot = self.coin_types[i as usize];
            match slot {
                Some(c) => {
                    let updated = CoinType {
                        tube_full: (full >> i) & 1 == 1,
                        num_coins: reply[2 + i as usize],
                        ..c
                    };
                    self.coin_types.set(i as usize, Some(updated));
                },
                None => {},
            }
            i = i + 1;
        }
        true
    }

    /// Records the 33-byte level 3 IDENT reply: manufacturer code (3), serial
    /// number (12), model (12), software version (2), three reserved bytes and
    /// the option byte. Returns the option bits to enable: alternative payout
    /// and extended diagnostics, where supported. Any other length is refused
    /// and changes nothing.
    pub fn apply_ident_reply(&mut self, reply: &[u8]) -> (r: Option<u8>)
        ensures
            r is Some <==> reply@.len() == IDENT_REPLY_LEN,
            r is None ==> *final(self) == *old(self),
            r matches Some(enable) ==> {
                &&& enable == reply@[32] & 0x03
                &&& *final(self) == (CoinAcceptor { l3_features: final(self).l3_features, ..*old(self) })
                &&& final(self).l3_features matches Some(f) && {
                    &&& f.manufacturer_code@ == reply@.subrange(0, 3)
                    &&& f.serial_number@ == reply@.subrange(3, 15)
                    &&& f.model@ == reply@.subrange(15, 27)
                    &&& f.software_ver@ == reply@.subrange(27, 29)
                    &&& f.optional_features@ == spec_optional_features(reply@[32])
                }
            },
    {
        if reply.len() != IDENT_REPLY_LEN {
            return None;
        }
        let opt = reply[32];
        let mut optional_features: Vec<OptionalFeature> = Vec::new();
        if opt & 0x01 == 0x01 {
            optional_features.push(OptionalFeature::AlternativePayoutSupported);
        }
        if opt & 0x02 == 0x02 {
            optional_features.push(OptionalFeature::ExtendedDiagnosticCmdSupported);
        }
        if opt & 0x04 == 0x04 {
            optional_features.push(OptionalFeature::ControlledManualFillAndPayoutSupported);
        }
        if opt & 0x08 == 0x08 {
            optional_features.push(OptionalFeature::FileTransferLayerSupported);
        }
        assert(optional_features@ =~= spec_optional_features(opt));
        self.l3_features = Some(
            CoinAcceptorL3Features {
                manufacturer_code: copy_range(reply, 0, 3),
                serial_number: copy_range(reply, 3, 15),
                model: copy_range(reply, 15, 27),
                software_ver: copy_range(reply, 27, 29),
                optional_features,
            },
        );
        Some(opt & 0x03)
    }
}

/// One DISPENSE of a payout: `count` coins of type `coin_type`, each worth
/// `unscaled_value`.
#[derive(Clone, Copy, Debug, PartialEq, Eq, Structural)]
pub struct Dispense {
    pub coin_type: u8,
    pub count: u8,
    pub unscaled_value: u16,
}

impl Dispense {
    /// The DISPENSE command: the count in the high nibble, the coin type in the low.
    pub fn command(&self) -> (r: Vec<u8>)
        requires
            self.coin_type < 16,
            self.count < 16,
        ensures
            r@ == seq![DISPENSE_CMD, ((self.count << 4u8) | self.coin_type) as u8],
    {
        let mut v: Vec<u8> = Vec::new();
        v.push(DISPENSE_CMD);
        v.push((self.count << 4) | self.coin_type);
        assert(v@ =~= seq![DISPENSE_CMD, ((self.count << 4u8) | self.coin_type) as u8]);
        v
    }
}

/// The value of the dispenses `log`: the sum of count times unscaled value.
pub open spec fn dispensed_total(log: Seq<Dispense>) -> int
    decreases log.len(),
{
    if log.len() == 0 {
        0
    } else {
        dispensed_total(log.drop_last()) + log.last().count * log.last().unscaled_value
    }
}

/// The least of three numbers.
pub open spec fn min3(a: int, b: int, c: int) -> int {
    if a <= b && a <= c {
        a
    } else if b <= c {
        b
    } else {
        c
    }
}

impl CoinAcceptor {
    /// Whether slot `i` can contribute to a payout of which `remaining` is
    /// still owed: it holds coins, of a non-zero value no greater than `remaining`.
    pub open spec fn can_pay_from(&self, i: int, remaining: u16) -> bool {
        match self.coin_types@[i] {
            Some(c) => c.num_coins > 0 && c.unscaled_value > 0 && remaining >= c.unscaled_value,
            None => false,
        }
    }

    /// The number of coins of slot `i` to dispense when `remaining` is owed.
    pub open spec fn spec_coins_to_pay(&self, i: int, remaining: u16) -> int {
        let c = self.coin_types@[i]->Some_0;
        min3((remaining / c.unscaled_value) as int, c.num_coins as int, 15)
    }
}

/// A level 2 payout in progress. It walks the coin types from the highest
/// slot down, dispensing from each as many coins as fit in what is still
/// owed (at most 15 at a time), and counts only the dispenses that the
/// changer acknowledged.
pub struct L2Payout {
    pub requested: u16,
    pub remaining: u16,
    pub paid: u16,
    /// Slots below this index are still to be visited.
    pub next_slot: u8,
    /// The acknowledged dispenses, in order.
    pub dispensed: Vec<Dispense>,
}

impl L2Payout {
    pub open spec fn wf(&self) -> bool {
        &&& self.paid + self.remaining == self.requested
        &&& self.paid == dispensed_total(self.dispensed@)
        &&& self.next_slot <= 16
    }

    /// A payout of `amount` that has dispensed nothing yet.
    pub fn new(amount: u16) -> (r: L2Payout)
        ensures
            r.wf(),
            r.requested == amount,
            r.remaining == amount,
            r.paid == 0,
            r.next_slot == 16,
            r.dispensed@.len() == 0,
    {
        L2Payout { requested: amount, remaining: amount, paid: 0, next_slot: 16, dispensed: Vec::new() }
    }

    /// The next DISPENSE: the highest slot below `next_slot` that can
    /// contribute, with the number of its coins to pay; `None` when no slot
    /// can, and the payout is over.
    pub fn next_dispense(&self, acceptor: &CoinAcceptor) -> (r: Option<Dispense>)
        requires
            self.wf(),
            acceptor.wf(),
        ensures
            r is None <==> forall|j: int| 0 <= j < self.next_slot ==> !acceptor.can_pay_from(j, self.remaining),
            r matches Some(d) ==> {
                &&& d.coin_type < self.next_slot
                &&& acceptor.can_pay_from(d.coin_type as int, self.remaining)
                &&& forall|j: int|
                    d.coin_type < j < self.next_slot ==> !acceptor.can_pay_from(j, self.remaining)
                &&& d.unscaled_value == acceptor.spec_value(d.coin_type as int)
                &&& d.count == acceptor.spec_coins_to_pay(d.coin_type as int, self.remaining)
                &&& d.count < 16
                &&& d.count * d.unscaled_value <= self.remaining
            },
    {
        let mut j: u8 = self.next_slot;
        while j > 0
            invariant
                self.wf(),
                acceptor.wf(),
                j <= self.next_slot,
                forall|k: int| j <= k < self.next_slot ==> !acceptor.can_pay_from(k, self.remaining),
            decreases j,
        {
            let slot = j - 1;
            match acceptor.coin_types[slot as usize] {
                Some(c) => {
                    if c.num_coins > 0 && c.unscaled_value > 0 && self.remaining >= c.unscaled_value {
                        let by_value = self.remaining / c.unscaled_value;
                        let mut count: u16 = 15;
                        if by_value < count {
                            count = by_value;
                        }
                        if (c.num_coins as u16) < count {
                            count = c.num_coins as u16;
                        }
                        assert(count * c.unscaled_value <= self.remaining) by (nonlinear_arith)
                            requires
                                count <= by_value,
                                by_value == self.remaining / c.unscaled_value,
                                c.unscaled_value > 0,
                        ;
                        assert(acceptor.can_pay_from(slot as int, self.remaining));
                        return Some(Dispense { coin_type: slot, count: count as u8, unscaled_value: c.unscaled_value });
                    }
                },
                None => {},
            }
            j = slot;
        }
        None
    }

    /// Records the outcome of the DISPENSE `d`: its coins count as paid only
    /// if the changer acknowledged it. The walk goes on below `d`'s slot.
    pub fn record(&mut self, d: Dispense, acked: bool)
        requires
            old(self).wf(),
            d.coin_type < old(self).next_slot,
            d.count * d.unscaled_value <= old(self).remaining,
        ensures
            final(self).wf(),
            final(self).requested == old(self).requested,
            final(self).next_slot == d.coin_type,
            final(self).paid == dispensed_total(final(self).dispensed@),
            acked ==> final(self).dispensed@ == old(self).dispensed@.push(d),
            acked ==> final(self).paid == old(self).paid + d.count * d.unscaled_value,
            !acked ==> final(self).dispensed@ == old(self).dispensed@,
            !acked ==> final(self).paid == old(self).paid,
    {
        if acked {
            let amount: u16 = d.count as u16 * d.unscaled_value;
            self.remaining = self.remaining - amount;
            self.paid = self.paid + amount;
            let ghost before = self.dispensed@;
            self.dispensed.push(d);
            assert(self.dispensed@.drop_last() =~= before);
        }
        self.next_slot = d.coin_type;
    }
}

/// The number of scaled units that a level 3 payout of `credit` asks for, or
/// `None` where it cannot be asked for in one PAYOUT (more than 255 units, or
/// no scaling factor).
pub open spec fn spec_l3_payout_units(credit: u16, scaling: u8) -> Option<u8> {
    if scaling == 0 || credit / (scaling as u16) > 255 {
        None
    } else {
        Some((credit / (scaling as u16)) as u8)
    }
}

/// Whether a reply to PAYOUT_VALUE_POLL says that the payout is still running.
pub fn payout_still_running(resp: &crate::link::MDBResponse<usize, crate::link::MDBStatus>) -> (r: bool)
    ensures
        r == (resp is Data),
{
    match resp {
        crate::link::MDBResponse::Data(_) => true,
        crate::link::MDBResponse::StatusMsg(_) => false,
    }
}

impl CoinAcceptor {
    /// The level 3 PAYOUT command for `credit`, scaled by the changer's
    /// scaling factor; `None` where the scaled amount exceeds 255 (or there is
    /// no scaling factor), and nothing is to be sent.
    pub fn l3_payout_command(&self, credit: u16) -> (r: Option<Vec<u8>>)
        ensures
            r is Some <==> spec_l3_payout_units(credit, self.scaling_factor) is Some,
            r matches Some(v) ==> v@ == seq![
                L3_CMD_PREFIX,
                L3_PAYOUT_CMD,
                spec_l3_payout_units(credit, self.scaling_factor)->Some_0,
            ],
    {
        if self.scaling_factor == 0 {
            return None;
        }
        let units = credit / self.scaling_factor as u16;
        if units > 255 {
            return None;
        }
        let mut v: Vec<u8> = Vec::new();
        v.push(L3_CMD_PREFIX);
        v.push(L3_PAYOUT_CMD);
        v.push(units as u8);
        assert(v@ =~= seq![L3_CMD_PREFIX, L3_PAYOUT_CMD, units as u8]);
        Some(v)
    }

    /// The value of the first `n` per-slot counts of a PAYOUT_STATUS reply.
    pub open spec fn spec_payout_sum(&self, counts: Seq<u8>, n: nat) -> int
        decreases n,
    {
        if n == 0 {
            0
        } else {
            self.spec_payout_sum(counts, (n - 1) as nat) + self.spec_value(n - 1) * counts[n - 1]
        }
    }

    /// The value that a PAYOUT_STATUS reply reports as paid: the sum over the
    /// slots of coins dispensed times unscaled value.
    pub open spec fn spec_payout_total(&self, counts: Seq<u8>) -> int {
        self.spec_payout_sum(
            counts,
            if counts.len() < NUM_COIN_TYPES {
                counts.len()
            } else {
                NUM_COIN_TYPES as nat
            },
        )
    }

    /// The amount paid according to a PAYOUT_STATUS reply, whose byte `i` is
    /// the number of coins of type `i` dispensed. Bytes past the 16th are ignored.
    pub fn l3_payout_total(&self, counts: &[u8]) -> (r: u32)
        requires
            self.wf(),
        ensures
            r == self.spec_payout_total(counts@),
    {
        let n: usize = if counts.len() < NUM_COIN_TYPES {
            counts.len()
        } else {
            NUM_COIN_TYPES
        };
        let mut total: u32 = 0;
        let mut i: usize = 0;
        while i < n
            invariant
                self.wf(),
                n <= counts@.len(),
                n <= NUM_COIN_TYPES,
                i <= n,
                total == self.spec_payout_sum(counts@, i as nat),
                total <= i * (65535 * 255),
            decreases n - i,
        {
            let value: u16 = match self.coin_types[i] {
                Some(c) => c.unscaled_value,
                None => 0,
            };
            let count = counts[i];
            assert(value as int * count as int <= 65535 * 255) by (nonlinear_arith)
                requires
                    value <= 65535,
                    count <= 255,
            ;
            let term: u32 = value as u32 * count as u32;
            assert(total + term <= (i + 1) * (65535 * 255) <= 16 * (65535 * 255)) by (nonlinear_arith)
                requires
                    total <= i * (65535 * 255),
                    term <= 65535 * 255,
                    i < 16,
            ;
            total = total + term;
            i = i + 1;
        }
        total
    }
}

impl GeneralErrorSubtype {
    pub open spec fn spec_from_code(b: u8) -> Option<Self> {
        if b == 0x00 {
            Some(GeneralErrorSubtype::NonSpecific)
        } else if b == 0x01 {
            Some(GeneralErrorSubtype::Cksum1)
        } else if b == 0x02 {
            Some(GeneralErrorSubtype::Cksum2)
        } else if b == 0x03 {
            Some(GeneralErrorSubtype::LowLineVoltage)
        } else {
            None
        }
    }

    pub fn from_code(b: u8) -> (r: Option<Self>)
        ensures
            r == Self::spec_from_code(b),
    {
        match b {
            0x00 => Some(GeneralErrorSubtype::NonSpecific),
            0x01 => Some(GeneralErrorSubtype::Cksum1),
            0x02 => Some(GeneralErrorSubtype::Cksum2),
            0x03 => Some(GeneralErrorSubtype::LowLineVoltage),
            _ => None,
        }
    }
}

impl DiscriminatorErrorSubtype {
    pub open spec fn spec_from_code(b: u8) -> Option<Self> {
        if b == 0x00 {
            Some(DiscriminatorErrorSubtype::NonSpecific)
        } else if b == 0x10 {
            Some(DiscriminatorErrorSubtype::FlightDeckOpen)
        } else if b == 0x11 {
            Some(DiscriminatorErrorSubtype::EscrowReturnStuck)
        } else if b == 0x30 {
            Some(DiscriminatorErrorSubtype::CoinJam)
        } else if b == 0x41 {
            Some(DiscriminatorErrorSubtype::DiscriminationBelowStandard)
        } else if b == 0x50 {
            Some(DiscriminatorErrorSubtype::ValSensorAErr)
        } else if b == 0x51 {
            Some(DiscriminatorErrorSubtype::ValSensorBErr)
        } else if b == 0x52 {
            Some(DiscriminatorErrorSubtype::ValSensorCErr)
        } else if b == 0x53 {
            Some(DiscriminatorErrorSubtype::TempExceeded)
        } else if b == 0x54 {
            Some(DiscriminatorErrorSubtype::OpticsFailure)
        } else {
            None
        }
    }

    pub fn from_code(b: u8) -> (r: Option<Self>)
        ensures
            r == Self::spec_from_code(b),
    {
        match b {
            0x00 => Some(DiscriminatorErrorSubtype::NonSpecific),
            0x10 => Some(DiscriminatorErrorSubtype::FlightDeckOpen),
            0x11 => Some(DiscriminatorErrorSubtype::EscrowReturnStuck),
            0x30 => Some(DiscriminatorErrorSubtype::CoinJam),
            0x41 => Some(DiscriminatorErrorSubtype::DiscriminationBelowStandard),
            0x50 => Some(DiscriminatorErrorSubtype::ValSensorAErr),
            0x51 => Some(DiscriminatorErrorSubtype::ValSensorBErr),
            0x52 => Some(DiscriminatorErrorSubtype::ValSensorCErr),
            0x53 => Some(DiscriminatorErrorSubtype::TempExceeded),
            0x54 => Some(DiscriminatorErrorSubtype::OpticsFailure),
            _ => None,
        }
    }
}

impl AcceptGateErrorSubtype {
    pub open spec fn spec_from_code(b: u8) -> Option<Self> {
        if b == 0x00 {
            Some(AcceptGateErrorSubtype::NonSpecific)
        } else if b == 0x30 {
            Some(AcceptGateErrorSubtype::CoinsDidNotExit)
        } else if b == 0x31 {
            Some(AcceptGateErrorSubtype::GateAlarm)
        } else if b == 0x40 {
            Some(AcceptGateErrorSubtype::GateOpeNNoCoin)
        } else if b == 0x50 {
            Some(AcceptGateErrorSubtype::PostGateSensorCovered)
        } else {
            None
        }
    }

    pub fn from_code(b: u8) -> (r: Option<Self>)
        ensures
            r == Self::spec_from_code(b),
    {
        match b {
            0x00 => Some(AcceptGateErrorSubtype::NonSpecific),
            0x30 => Some(AcceptGateErrorSubtype::CoinsDidNotExit),
            0x31 => Some(AcceptGateErrorSubtype::GateAlarm),
            0x40 => Some(AcceptGateErrorSubtype::GateOpeNNoCoin),
            0x50 => Some(AcceptGateErrorSubtype::PostGateSensorCovered),
            _ => None,
        }
    }
}

impl SeparatorModuleErrorSubtype {
    pub open spec fn spec_from_code(b: u8) -> Option<Self> {
        if b == 0x00 {
            Some(SeparatorModuleErrorSubtype::NonSpecific)
        } else if b == 0x10 {
            Some(SeparatorModuleErrorSubtype::SortSensor)
        } else {
            None
        }
    }

    pub fn from_code(b: u8) -> (r: Option<Self>)
        ensures
            r == Self::spec_from_code(b),
    {
        match b {
            0x00 => Some(SeparatorModuleErrorSubtype::NonSpecific),
            0x10 => Some(SeparatorModuleErrorSubtype::SortSensor),
            _ => None,
        }
    }
}

impl CoinCassetteErrorSubtype {
    pub open spec fn spec_from_code(b: u8) -> Option<Self> {
        if b == 0x00 {
            Some(CoinCassetteErrorSubtype::NonSpecific)
        } else if b == 0x02 {
            Some(CoinCassetteErrorSubtype::CassetteRemoved)
        } else if b == 0x03 {
            Some(CoinCassetteErrorSubtype::CashBoxSensorError)
        } else if b == 0x04 {
            Some(CoinCassetteErrorSubtype::SunlightOnSensors)
        } else {
            None
        }
    }

    pub fn from_code(b: u8) -> (r: Option<Self>)
        ensures
            r == Self::spec_from_code(b),
    {
        match b {
            0x00 => Some(CoinCassetteErrorSubtype::NonSpecific),
            0x02 => Some(CoinCassetteErrorSubtype::CassetteRemoved),
            0x03 => Some(CoinCassetteErrorSubtype::CashBoxSensorError),
            0x04 => Some(CoinCassetteErrorSubtype::SunlightOnSensors),
            _ => None,
        }
    }
}

/// The diagnostic status of the code `category sub`; an unknown subcode falls
/// back to the category's non-specific variant, an unknown category to `None`.
pub open spec fn spec_diag_status(category: u8, sub: u8) -> Option<L3ChangerStatus> {
    if category == 0x01 {
        Some(L3ChangerStatus::PoweringUp)
    } else if category == 0x02 {
        Some(L3ChangerStatus::PoweringDown)
    } else if category == 0x03 {
        Some(L3ChangerStatus::Operational)
    } else if category == 0x04 {
        Some(L3ChangerStatus::KeypadShifted)
    } else if category == 0x06 {
        Some(L3ChangerStatus::InhibitedByVmc)
    } else if category == 0x10 {
        Some(
            L3ChangerStatus::GeneralError(
                match GeneralErrorSubtype::spec_from_code(sub) {
                    Some(t) => t,
                    None => GeneralErrorSubtype::NonSpecific,
                },
            ),
        )
    } else if category == 0x11 {
        Some(
            L3ChangerStatus::DiscriminatorError(
                match DiscriminatorErrorSubtype::spec_from_code(sub) {
                    Some(t) => t,
                    None => DiscriminatorErrorSubtype::NonSpecific,
                },
            ),
        )
    } else if category == 0x12 {
        Some(
            L3ChangerStatus::AcceptGateError(
                match AcceptGateErrorSubtype::spec_from_code(sub) {
                    Some(t) => t,
                    None => AcceptGateErrorSubtype::NonSpecific,
                },
            ),
        )
    } else if category == 0x13 {
        Some(
            L3ChangerStatus::SeparatorError(
                match SeparatorModuleErrorSubtype::spec_from_code(sub) {
                    Some(t) => t,
                    None => SeparatorModuleErrorSubtype::NonSpecific,
                },
            ),
        )
    } else if category == 0x14 {
        Some(L3ChangerStatus::DispenserError)
    } else if category == 0x15 {
        Some(
            L3ChangerStatus::CoinCassetteError(
                match CoinCassetteErrorSubtype::spec_from_code(sub) {
                    Some(t) => t,
                    None => CoinCassetteErrorSubtype::NonSpecific,
                },
            ),
        )
    } else {
        None
    }
}

/// The diagnostic status of one two-byte code.
fn diag_status(category: u8, sub: u8) -> (r: Option<L3ChangerStatus>)
    ensures
        r == spec_diag_status(category, sub),
{
    match category {
        0x01 => Some(L3ChangerStatus::PoweringUp),
        0x02 => Some(L3ChangerStatus::PoweringDown),
        0x03 => Some(L3ChangerStatus::Operational),
        0x04 => Some(L3ChangerStatus::KeypadShifted),
        0x06 => Some(L3ChangerStatus::InhibitedByVmc),
        0x10 => Some(
            L3ChangerStatus::GeneralError(
                match GeneralErrorSubtype::from_code(sub) {
                    Some(t) => t,
                    None => GeneralErrorSubtype::NonSpecific,
                },
            ),
        ),
        0x11 => Some(
            L3ChangerStatus::DiscriminatorError(
                match DiscriminatorErrorSubtype::from_code(sub) {
                    Some(t) => t,
                    None => DiscriminatorErrorSubtype::NonSpecific,
                },
            ),
        ),
        0x12 => Some(
            L3ChangerStatus::AcceptGateError(
                match AcceptGateErrorSubtype::from_code(sub) {
                    Some(t) => t,
                    None => AcceptGateErrorSubtype::NonSpecific,
                },
            ),
        ),
        0x13 => Some(
            L3ChangerStatus::SeparatorError(
                match SeparatorModuleErrorSubtype::from_code(sub) {
                    Some(t) => t,
                    None => SeparatorModuleErrorSubtype::NonSpecific,
                },
            ),
        ),
        0x14 => Some(L3ChangerStatus::DispenserError),
        0x15 => Some(
            L3ChangerStatus::CoinCassetteError(
                match CoinCassetteErrorSubtype::from_code(sub) {
                    Some(t) => t,
                    None => CoinCassetteErrorSubtype::NonSpecific,
                },
            ),
        ),
        _ => None,
    }
}

/// Decodes the payload of a DIAGNOSTICS reply: one entry per two-byte code,
/// in order; a trailing odd byte is ignored.
pub fn parse_diagnostics(data: &[u8]) -> (r: Vec<Option<L3ChangerStatus>>)
    ensures
        r@ == Seq::new(data@.len() / 2, |k: int| spec_diag_status(data@[2 * k], data@[2 * k + 1])),
{
    let len = data.len();
    let n = len / 2;
    let mut out: Vec<Option<L3ChangerStatus>> = Vec::new();
    let mut k: usize = 0;
    while k < n
        invariant
            len == data@.len(),
            n == len / 2,
            k <= n,
            out@ =~= Seq::new(k as nat, |j: int| spec_diag_status(data@[2 * j], data@[2 * j + 1])),
        decreases n - k,
    {
        assert(2 * k + 1 < len);
        out.push(diag_status(data[2 * k], data[2 * k + 1]));
        k = k + 1;
    }
    out
}

} // verus!
