//! Cashless reader protocol (levels 1 to 3): setup, the session state machine
//! and the tokenizing of poll replies, several of which may share one frame.

use vstd::prelude::*;

use crate::bytes::copy_range;

verus! {

pub const RESET: u8 = 0x10;
pub const SETUP_PREFIX: u8 = 0x11;
pub const SETUP_CONFIG_DATA: u8 = 0x00;
pub const SETUP_MAX_MIN_PRICES: u8 = 0x01;
pub const SETUP_REPLY_READER_CONFIG_DATA: u8 = 0x01;
/// Length of the reader's reply to SETUP/CONFIG_DATA.
pub const CONFIG_REPLY_LEN: usize = 8;
/// The feature level that this controller announces.
pub const VMC_FEATURE_LEVEL: u8 = 3;

pub const POLL_CMD: u8 = 0x12;
pub const POLL_REPLY_JUST_RESET: u8 = 0x00;
pub const POLL_REPLY_READER_CONFIG_DATA: u8 = 0x01;
pub const POLL_REPLY_DISPLAY_REQUEST: u8 = 0x02;
pub const POLL_REPLY_BEGIN_SESSION: u8 = 0x03;
pub const POLL_REPLY_SESSION_CANCEL_REQUEST: u8 = 0x04;
pub const POLL_REPLY_VEND_APPROVED: u8 = 0x05;
pub const POLL_REPLY_VEND_DENIED: u8 = 0x06;
pub const POLL_REPLY_END_SESSION: u8 = 0x07;
pub const POLL_REPLY_CANCELLED: u8 = 0x08;
pub const POLL_REPLY_PERIPHERAL_ID: u8 = 0x09;
pub const POLL_REPLY_MALFUNCTION: u8 = 0x0A;
pub const POLL_REPLY_OUT_OF_SEQUENCE: u8 = 0x0B;
pub const POLL_REPLY_REVALUE_APPROVED: u8 = 0x0D;
pub const POLL_REPLY_REVALUE_DENIED: u8 = 0x0E;
pub const POLL_REPLY_REVALUE_LIMIT_AMOUNT: u8 = 0x0F;
pub const POLL_REPLY_TIME_DATE_REQUEST: u8 = 0x11;
pub const POLL_REPLY_DATA_ENTRY_REQUEST: u8 = 0x12;

pub const VEND_PREFIX: u8 = 0x13;
pub const VEND_REQUEST: u8 = 0x00;
pub const VEND_CANCEL: u8 = 0x01;
pub const VEND_SUCCESS: u8 = 0x02;
pub const VEND_FAILURE: u8 = 0x03;
pub const VEND_SESSION_COMPLETE: u8 = 0x04;
pub const VEND_CASH_SALE: u8 = 0x05;
pub const NEGATIVE_VEND_REQUEST: u8 = 0x06;

pub const VEND_READER_PREFIX: u8 = 0x14;
pub const VEND_READER_DISABLE: u8 = 0x00;
pub const VEND_READER_ENABLE: u8 = 0x01;
pub const VEND_READER_CANCEL: u8 = 0x02;
pub const VEND_READER_DATA_ENTRY_RESP: u8 = 0x03;

pub const VEND_REVALUE_PREFIX: u8 = 0x15;
pub const VEND_REVALUE_REQUEST: u8 = 0x00;
pub const VEND_REVALUE_LIMIT_REQUEST: u8 = 0x01;

#[derive(Clone, Copy, Debug, PartialEq, Eq, Structural)]
pub enum CashlessDeviceFeatureLevel {
    Level1,
    Level2,
    Level3,
}

/// Where the reader stands in the session protocol.
#[derive(Clone, Copy, Debug, PartialEq, Eq, Structural)]
pub enum SessionState {
    /// Not enabled, or reset: setup and enabling are needed.
    Inactive,
    /// Enabled, waiting for a session to begin.
    Enabled,
    /// A session is open; a vend may be requested.
    SessionIdle,
    /// A vend has been requested and not yet closed.
    Vending,
}

/// One reply of a cashless reader's poll frame.
#[derive(Clone, Copy, Debug, PartialEq, Eq, Structural)]
pub enum CashlessEvent {
    JustReset,
    ReaderConfigData,
    DisplayRequest,
    /// Funds available, and on level 2 and above the payment media ID and
    /// payment type.
    BeginSession { funds_available: u32, payment_media_id: Option<u32>, payment_type: Option<u8> },
    SessionCancelRequest,
    VendApproved { amount: u16 },
    VendDenied,
    EndSession,
    Cancelled,
    PeripheralId,
    Malfunction { error_code: u8 },
    OutOfSequence,
    RevalueApproved,
    RevalueDenied,
    RevalueLimitAmount { limit: u16 },
    TimeDateRequest,
    DataEntryRequest { length_and_format: u8 },
}

/// A cashless reader as configured at SETUP.
pub struct CashlessDevice {
    /// The level both sides support: the lesser of the reader's and this controller's.
    pub feature_level: CashlessDeviceFeatureLevel,
    pub country_code: u16,
    pub scale_factor: u8,
    pub decimal_places: u8,
    /// Seconds the reader may take to answer.
    pub max_response_time: u8,
    pub can_restore_funds: bool,
    pub multivend_capable: bool,
    pub has_display: bool,
    pub supports_cash_sale_cmd: bool,
    /// From the PERIPHERAL_ID poll reply.
    pub manufacturer_code: Vec<u8>,
    pub serial_number: Vec<u8>,
    pub model_number: Vec<u8>,
    pub software_version: Vec<u8>,
    /// Level 3 options, from the PERIPHERAL_ID poll reply.
    pub supports_ftl: bool,
    pub monetary_format_32_bit: bool,
    pub supports_multicurrency: bool,
    pub supports_negative_vend: bool,
    pub supports_data_entry: bool,
    pub supports_always_idle: bool,
    pub session: SessionState,
}

/// The length, opcode included, of the poll reply that starts with `c` from a
/// reader at `level`; zero for an opcode that is not recognised.
pub open spec fn spec_poll_response_length(level: CashlessDeviceFeatureLevel, c: u8) -> u8 {
    if c == POLL_REPLY_JUST_RESET {
        1
    } else if c == POLL_REPLY_READER_CONFIG_DATA {
        8
    } else if c == POLL_REPLY_DISPLAY_REQUEST {
        34
    } else if c == POLL_REPLY_BEGIN_SESSION {
        if level is Level1 {
            3
        } else {
            10
        }
    } else if c == POLL_REPLY_SESSION_CANCEL_REQUEST {
        1
    } else if c == POLL_REPLY_VEND_APPROVED {
        3
    } else if c == POLL_REPLY_VEND_DENIED {
        1
    } else if c == POLL_REPLY_END_SESSION {
        1
    } else if c == POLL_REPLY_CANCELLED {
        1
    } else if c == POLL_REPLY_PERIPHERAL_ID {
        if level is Level3 {
            34
        } else {
            30
        }
    } else if c == POLL_REPLY_MALFUNCTION {
        2
    } else if c == POLL_REPLY_OUT_OF_SEQUENCE {
        if level is Level1 {
            1
        } else {
            2
        }
    } else if c == POLL_REPLY_REVALUE_APPROVED {
        1
    } else if c == POLL_REPLY_REVALUE_DENIED {
        1
    } else if c == POLL_REPLY_REVALUE_LIMIT_AMOUNT {
        3
    } else if c == POLL_REPLY_TIME_DATE_REQUEST {
        1
    } else if c == POLL_REPLY_DATA_ENTRY_REQUEST {
        2
    } else {
        0
    }
}

/// The feature level agreed with a reader that reports level `b`.
pub open spec fn spec_level(b: u8) -> CashlessDeviceFeatureLevel {
    if b >= VMC_FEATURE_LEVEL {
        CashlessDeviceFeatureLevel::Level3
    } else if b == 2 {
        CashlessDeviceFeatureLevel::Level2
    } else {
        CashlessDeviceFeatureLevel::Level1
    }
}

impl CashlessDevice {
    /// Given the first byte of a poll reply, returns the reply's length,
    /// opcode included, so that replies chained into one frame can be told
    /// apart. Zero where the opcode is not recognised.
    pub fn poll_response_length(&self, poll_cmd: u8) -> (r: u8)
        ensures
            r == spec_poll_response_length(self.feature_level, poll_cmd),
    {
        match poll_cmd {
            POLL_REPLY_JUST_RESET => 1,
            POLL_REPLY_READER_CONFIG_DATA => 8,
            POLL_REPLY_DISPLAY_REQUEST => 34,
            POLL_REPLY_BEGIN_SESSION => match self.feature_level {
                CashlessDeviceFeatureLevel::Level1 => 3,
                _ => 10,
            },
            POLL_REPLY_SESSION_CANCEL_REQUEST => 1,
            POLL_REPLY_VEND_APPROVED => 3,
            POLL_REPLY_VEND_DENIED => 1,
            POLL_REPLY_END_SESSION => 1,
            POLL_REPLY_CANCELLED => 1,
            POLL_REPLY_PERIPHERAL_ID => match self.feature_level {
                CashlessDeviceFeatureLevel::Level3 => 34,
                _ => 30,
            },
            POLL_REPLY_MALFUNCTION => 2,
            POLL_REPLY_OUT_OF_SEQUENCE => match self.feature_level {
                CashlessDeviceFeatureLevel::Level1 => 1,
                _ => 2,
            },
            POLL_REPLY_REVALUE_APPROVED => 1,
            POLL_REPLY_REVALUE_DENIED => 1,
            POLL_REPLY_REVALUE_LIMIT_AMOUNT => 3,
            POLL_REPLY_TIME_DATE_REQUEST => 1,
            POLL_REPLY_DATA_ENTRY_REQUEST => 2,
            _ => 0,
        }
    }

    /// Builds the reader from its 8-byte reply to SETUP/CONFIG_DATA: the
    /// reply code, feature level, country code (2, big-endian), scale factor,
    /// decimal places, maximum response time and option bits. Refused where
    /// the length or the reply code is wrong. The reader starts inactive and
    /// without identity.
    pub fn from_config_reply(reply: &[u8]) -> (r: Option<CashlessDevice>)
        ensures
            r is Some <==> (reply@.len() == CONFIG_REPLY_LEN && reply@[0] == SETUP_REPLY_READER_CONFIG_DATA),
            r matches Some(d) ==> {
                &&& d.feature_level == spec_level(reply@[1])
                &&& d.country_code == reply@[2] as u16 * 256 + reply@[3] as u16
                &&& d.scale_factor == reply@[4]
                &&& d.decimal_places == reply@[5]
                &&& d.max_response_time == reply@[6]
                &&& d.can_restore_funds == (reply@[7] & 0x01 == 0x01)
                &&& d.multivend_capable == (reply@[7] & 0x02 == 0x02)
                &&& d.has_display == (reply@[7] & 0x04 == 0x04)
                &&& d.supports_cash_sale_cmd == (reply@[7] & 0x08 == 0x08)
                &&& d.manufacturer_code@.len() == 0
                &&& d.serial_number@.len() == 0
                &&& d.model_number@.len() == 0
                &&& d.software_version@.len() == 0
                &&& !d.supports_ftl && !d.monetary_format_32_bit && !d.supports_multicurrency
                &&& !d.supports_negative_vend && !d.supports_data_entry && !d.supports_always_idle
                &&& d.session == SessionState::Inactive
            },
    {
        if reply.len() != CONFIG_REPLY_LEN || reply[0] != SETUP_REPLY_READER_CONFIG_DATA {
            return None;
        }
        let feature_level = if reply[1] >= VMC_FEATURE_LEVEL {
            CashlessDeviceFeatureLevel::Level3
        } else if reply[1] == 2 {
            CashlessDeviceFeatureLevel::Level2
        } else {
            CashlessDeviceFeatureLevel::Level1
        };
        let options = reply[7];
        Some(
            CashlessDevice {
                feature_level,
                country_code: reply[2] as u16 * 256 + reply[3] as u16,
                scale_factor: reply[4],
                decimal_places: reply[5],
                max_response_time: reply[6],
                can_restore_funds: options & 0x01 == 0x01,
                multivend_capable: options & 0x02 == 0x02,
                has_display: options & 0x04 == 0x04,
                supports_cash_sale_cmd: options & 0x08 == 0x08,
                manufacturer_code: Vec::new(),
                serial_number: Vec::new(),
                model_number: Vec::new(),
                software_version: Vec::new(),
                supports_ftl: false,
                monetary_format_32_bit: false,
                supports_multicurrency: false,
                supports_negative_vend: false,
                supports_data_entry: false,
                supports_always_idle: false,
                session: SessionState::Inactive,
            },
        )
    }
}

/// A big-endian 16-bit number.
pub open spec fn be16(a: u8, b: u8) -> u16 {
    (a as int * 256 + b as int) as u16
}

/// A big-endian 32-bit number.
pub open spec fn be32(a: u8, b: u8, c: u8, d: u8) -> u32 {
    (((a as int * 256 + b as int) * 256 + c as int) * 256 + d as int) as u32
}

/// The event of the poll reply `chunk`, which starts with its opcode and has
/// the length that the opcode calls for.
#[verifier::opaque]
pub open spec fn spec_event(level: CashlessDeviceFeatureLevel, chunk: Seq<u8>) -> CashlessEvent {
    let c = chunk[0];
    if c == POLL_REPLY_JUST_RESET {
        CashlessEvent::JustReset
    } else if c == POLL_REPLY_READER_CONFIG_DATA {
        CashlessEvent::ReaderConfigData
    } else if c == POLL_REPLY_DISPLAY_REQUEST {
        CashlessEvent::DisplayRequest
    } else if c == POLL_REPLY_BEGIN_SESSION {
        if level is Level1 {
            CashlessEvent::BeginSession {
                funds_available: be16(chunk[1], chunk[2]) as u32,
                payment_media_id: None,
                payment_type: None,
            }
        } else {
            CashlessEvent::BeginSession {
                funds_available: be32(chunk[1], chunk[2], chunk[3], chunk[4]),
                payment_media_id: Some(be32(chunk[5], chunk[6], chunk[7], chunk[8])),
                payment_type: Some(chunk[9]),
            }
        }
    } else if c == POLL_REPLY_SESSION_CANCEL_REQUEST {
        CashlessEvent::SessionCancelRequest
    } else if c == POLL_REPLY_VEND_APPROVED {
        CashlessEvent::VendApproved { amount: be16(chunk[1], chunk[2]) }
    } else if c == POLL_REPLY_VEND_DENIED {
        CashlessEvent::VendDenied
    } else if c == POLL_REPLY_END_SESSION {
        CashlessEvent::EndSession
    } else if c == POLL_REPLY_CANCELLED {
        CashlessEvent::Cancelled
    } else if c == POLL_REPLY_PERIPHERAL_ID {
        CashlessEvent::PeripheralId
    } else if c == POLL_REPLY_MALFUNCTION {
        CashlessEvent::Malfunction { error_code: chunk[1] }
    } else if c == POLL_REPLY_OUT_OF_SEQUENCE {
        CashlessEvent::OutOfSequence
    } else if c == POLL_REPLY_REVALUE_APPROVED {
        CashlessEvent::RevalueApproved
    } else if c == POLL_REPLY_REVALUE_DENIED {
        CashlessEvent::RevalueDenied
    } else if c == POLL_REPLY_REVALUE_LIMIT_AMOUNT {
        CashlessEvent::RevalueLimitAmount { limit: be16(chunk[1], chunk[2]) }
    } else if c == POLL_REPLY_TIME_DATE_REQUEST {
        CashlessEvent::TimeDateRequest
    } else {
        CashlessEvent::DataEntryRequest { length_and_format: chunk[1] }
    }
}

/// The session state after the reader reports `ev` in state `s`.
pub open spec fn spec_next_state(s: SessionState, ev: CashlessEvent) -> SessionState {
    match ev {
        CashlessEvent::JustReset => SessionState::Inactive,
        CashlessEvent::Malfunction { .. } => SessionState::Inactive,
        CashlessEvent::OutOfSequence => SessionState::Inactive,
        CashlessEvent::EndSession => SessionState::Enabled,
        CashlessEvent::SessionCancelRequest => SessionState::Enabled,
        CashlessEvent::BeginSession { .. } => if s is Enabled {
            SessionState::SessionIdle
        } else {
            s
        },
        CashlessEvent::VendDenied => if s is Vending {
            SessionState::SessionIdle
        } else {
            s
        },
        _ => s,
    }
}

/// Whether `ev`, reported in state `s`, is passed on: a vend approval only
/// while a vend is pending.
pub open spec fn spec_delivered(s: SessionState, ev: CashlessEvent) -> bool {
    ev is VendApproved ==> s is Vending
}

/// The events passed on from the poll frame `data`, read from offset `p` on
/// in state `state`, each with the state in which it came, and the state
/// afterwards. Reading stops at an unknown opcode or a truncated reply.
#[verifier::opaque]
pub open spec fn spec_poll_from(level: CashlessDeviceFeatureLevel, state: SessionState, data: Seq<u8>, p: nat) -> (
    Seq<(SessionState, CashlessEvent)>,
    SessionState,
)
    decreases data.len() - p,
{
    if p >= data.len() {
        (Seq::empty(), state)
    } else {
        let len = spec_poll_response_length(level, data[p as int]) as nat;
        if len == 0 || p + len > data.len() {
            (Seq::empty(), state)
        } else {
            let ev = spec_event(level, data.subrange(p as int, (p + len) as int));
            let rest = spec_poll_from(level, spec_next_state(state, ev), data, p + len);
            (
                if spec_delivered(state, ev) {
                    seq![(state, ev)] + rest.0
                } else {
                    rest.0
                },
                rest.1,
            )
        }
    }
}

/// Offset of the last PERIPHERAL_ID reply read from offset `p` on, if any.
#[verifier::opaque]
pub open spec fn spec_last_pid_from(level: CashlessDeviceFeatureLevel, data: Seq<u8>, p: nat) -> Option<nat>
    decreases data.len() - p,
{
    if p >= data.len() {
        None
    } else {
        let len = spec_poll_response_length(level, data[p as int]) as nat;
        if len == 0 || p + len > data.len() {
            None
        } else {
            let later = spec_last_pid_from(level, data, p + len);
            if later is Some {
                later
            } else if data[p as int] == POLL_REPLY_PERIPHERAL_ID {
                Some(p)
            } else {
                None
            }
        }
    }
}

/// The last PERIPHERAL_ID offset from `p` on, or `cur` where there is none.
pub open spec fn spec_pid_target(level: CashlessDeviceFeatureLevel, data: Seq<u8>, p: nat, cur: Option<nat>) -> Option<nat> {
    match spec_last_pid_from(level, data, p) {
        Some(q) => Some(q),
        None => cur,
    }
}

/// The events of a trace, without the states in which they came.
pub open spec fn events_of(trace: Seq<(SessionState, CashlessEvent)>) -> Seq<CashlessEvent> {
    trace.map_values(|x: (SessionState, CashlessEvent)| x.1)
}

/// A vend approval is passed on from a poll only while the session is
/// vending: every approval among the events came in the Vending state.
pub proof fn lemma_vend_approved_only_while_vending(
    level: CashlessDeviceFeatureLevel,
    state: SessionState,
    data: Seq<u8>,
    p: nat,
)
    ensures
        forall|i: int|
            0 <= i < spec_poll_from(level, state, data, p).0.len() && (#[trigger] spec_poll_from(
                level,
                state,
                data,
                p,
            ).0[i]).1 is VendApproved ==> spec_poll_from(level, state, data, p).0[i].0 is Vending,
    decreases data.len() - p,
{
    reveal(spec_poll_from);
    if p < data.len() {
        let len = spec_poll_response_length(level, data[p as int]) as nat;
        if len != 0 && p + len <= data.len() {
            let ev = spec_event(level, data.subrange(p as int, (p + len) as int));
            lemma_vend_approved_only_while_vending(level, spec_next_state(state, ev), data, p + len);
        }
    }
}

/// Reading one reply at offset `p`: the events and state from `p` on, and
/// the last PERIPHERAL_ID from `p` on, in terms of those from the next reply on.
proof fn lemma_poll_step(level: CashlessDeviceFeatureLevel, state: SessionState, data: Seq<u8>, p: nat, len: nat)
    requires
        p < data.len(),
        len == spec_poll_response_length(level, data[p as int]),
        len > 0,
        p + len <= data.len(),
    ensures
        ({
            let ev = spec_event(level, data.subrange(p as int, (p + len) as int));
            let rest = spec_poll_from(level, spec_next_state(state, ev), data, p + len);
            &&& spec_poll_from(level, state, data, p) == (
                if spec_delivered(state, ev) {
                    seq![(state, ev)] + rest.0
                } else {
                    rest.0
                },
                rest.1,
            )
            &&& forall|cur: Option<nat>|
                #[trigger] spec_pid_target(level, data, p, cur) == spec_pid_target(
                    level,
                    data,
                    p + len,
                    if data[p as int] == POLL_REPLY_PERIPHERAL_ID {
                        Some(p)
                    } else {
                        cur
                    },
                )
        }),
{
    reveal(spec_poll_from);
    reveal(spec_last_pid_from);
}

/// Passing an event on extends the trace and its events alike.
proof fn lemma_trace_push(
    trace: Seq<(SessionState, CashlessEvent)>,
    s: SessionState,
    ev: CashlessEvent,
    rest: Seq<(SessionState, CashlessEvent)>,
)
    ensures
        trace.push((s, ev)) + rest == trace + (seq![(s, ev)] + rest),
        events_of(trace).push(ev) == events_of(trace.push((s, ev))),
{
    assert(trace.push((s, ev)) + rest =~= trace + (seq![(s, ev)] + rest));
    assert(events_of(trace).push(ev) =~= events_of(trace.push((s, ev))));
}

/// Reading stops at offset `p`: nothing more comes of the frame.
proof fn lemma_poll_stop(level: CashlessDeviceFeatureLevel, state: SessionState, data: Seq<u8>, p: nat)
    requires
        p >= data.len() || ({
            let len = spec_poll_response_length(level, data[p as int]) as nat;
            len == 0 || p + len > data.len()
        }),
    ensures
        spec_poll_from(level, state, data, p) == (Seq::<(SessionState, CashlessEvent)>::empty(), state),
        spec_last_pid_from(level, data, p) is None,
{
    reveal(spec_poll_from);
    reveal(spec_last_pid_from);
}

impl CashlessDevice {
    /// The setup facts, which a poll does not change.
    pub open spec fn same_config(&self, o: &CashlessDevice) -> bool {
        &&& self.feature_level == o.feature_level
        &&& self.country_code == o.country_code
        &&& self.scale_factor == o.scale_factor
        &&& self.decimal_places == o.decimal_places
        &&& self.max_response_time == o.max_response_time
        &&& self.can_restore_funds == o.can_restore_funds
        &&& self.multivend_capable == o.multivend_capable
        &&& self.has_display == o.has_display
        &&& self.supports_cash_sale_cmd == o.supports_cash_sale_cmd
    }

    /// The identity fields, which a PERIPHERAL_ID reply sets.
    pub open spec fn same_identity(&self, o: &CashlessDevice) -> bool {
        &&& self.manufacturer_code@ == o.manufacturer_code@
        &&& self.serial_number@ == o.serial_number@
        &&& self.model_number@ == o.model_number@
        &&& self.software_version@ == o.software_version@
        &&& self.supports_ftl == o.supports_ftl
        &&& self.monetary_format_32_bit == o.monetary_format_32_bit
        &&& self.supports_multicurrency == o.supports_multicurrency
        &&& self.supports_negative_vend == o.supports_negative_vend
        &&& self.supports_data_entry == o.supports_data_entry
        &&& self.supports_always_idle == o.supports_always_idle
    }

    /// The identity fields are those of the PERIPHERAL_ID reply at offset `q`
    /// of `data`: manufacturer code (3), serial number (12), model number
    /// (12), software version (2) and, on level 3, the option bits in the
    /// last byte of the reply.
    pub open spec fn identity_from(&self, data: Seq<u8>, q: nat) -> bool {
        let q = q as int;
        &&& self.manufacturer_code@ == data.subrange(q + 1, q + 4)
        &&& self.serial_number@ == data.subrange(q + 4, q + 16)
        &&& self.model_number@ == data.subrange(q + 16, q + 28)
        &&& self.software_version@ == data.subrange(q + 28, q + 30)
        &&& if self.feature_level is Level3 {
            let opt = data[q + 33];
            &&& self.supports_ftl == (opt & 0x01 == 0x01)
            &&& self.monetary_format_32_bit == (opt & 0x02 == 0x02)
            &&& self.supports_multicurrency == (opt & 0x04 == 0x04)
            &&& self.supports_negative_vend == (opt & 0x08 == 0x08)
            &&& self.supports_data_entry == (opt & 0x10 == 0x10)
            &&& self.supports_always_idle == (opt & 0x20 == 0x20)
        } else {
            !self.supports_ftl && !self.monetary_format_32_bit && !self.supports_multicurrency
                && !self.supports_negative_vend && !self.supports_data_entry && !self.supports_always_idle
        }
    }

    /// The event of the poll reply of length `len` at offset `p` of `data`.
    fn decode_event(&self, data: &[u8], p: usize, len: usize) -> (r: CashlessEvent)
        requires
            p + len <= data@.len(),
            len > 0,
            len == spec_poll_response_length(self.feature_level, data@[p as int]),
        ensures
            r == spec_event(self.feature_level, data@.subrange(p as int, (p + len) as int)),
    {
        reveal(spec_event);
        let ghost chunk = data@.subrange(p as int, (p + len) as int);
        let c = data[p];
        assert(chunk[0] == c);
        if c == POLL_REPLY_BEGIN_SESSION {
            match self.feature_level {
                CashlessDeviceFeatureLevel::Level1 => {
                    assert(chunk[1] == data@[p + 1] && chunk[2] == data@[p + 2]);
                    let funds: u16 = data[p + 1] as u16 * 256 + data[p + 2] as u16;
                    CashlessEvent::BeginSession { funds_available: funds as u32, payment_media_id: None, payment_type: None }
                },
                _ => {
                    assert(forall|k: int| 0 <= k < 10 ==> chunk[k] == #[trigger] data@[p + k]);
                    let funds: u32 = ((data[p + 1] as u32 * 256 + data[p + 2] as u32) * 256 + data[p + 3] as u32) * 256
                        + data[p + 4] as u32;
                    let media: u32 = ((data[p + 5] as u32 * 256 + data[p + 6] as u32) * 256 + data[p + 7] as u32) * 256
                        + data[p + 8] as u32;
                    CashlessEvent::BeginSession {
                        funds_available: funds,
                        payment_media_id: Some(media),
                        payment_type: Some(data[p + 9]),
                    }
                },
            }
        } else if c == POLL_REPLY_VEND_APPROVED || c == POLL_REPLY_REVALUE_LIMIT_AMOUNT {
            assert(chunk[1] == data@[p + 1] && chunk[2] == data@[p + 2]);
            let amount: u16 = data[p + 1] as u16 * 256 + data[p + 2] as u16;
            if c == POLL_REPLY_VEND_APPROVED {
                CashlessEvent::VendApproved { amount }
            } else {
                CashlessEvent::RevalueLimitAmount { limit: amount }
            }
        } else if c == POLL_REPLY_MALFUNCTION {
            assert(chunk[1] == data@[p + 1]);
            CashlessEvent::Malfunction { error_code: data[p + 1] }
        } else if c == POLL_REPLY_DATA_ENTRY_REQUEST {
            assert(chunk[1] == data@[p + 1]);
            CashlessEvent::DataEntryRequest { length_and_format: data[p + 1] }
        } else {
            match c {
                POLL_REPLY_JUST_RESET => CashlessEvent::JustReset,
                POLL_REPLY_READER_CONFIG_DATA => CashlessEvent::ReaderConfigData,
                POLL_REPLY_DISPLAY_REQUEST => CashlessEvent::DisplayRequest,
                POLL_REPLY_SESSION_CANCEL_REQUEST => CashlessEvent::SessionCancelRequest,
                POLL_REPLY_VEND_DENIED => CashlessEvent::VendDenied,
                POLL_REPLY_END_SESSION => CashlessEvent::EndSession,
                POLL_REPLY_CANCELLED => CashlessEvent::Cancelled,
                POLL_REPLY_PERIPHERAL_ID => CashlessEvent::PeripheralId,
                POLL_REPLY_OUT_OF_SEQUENCE => CashlessEvent::OutOfSequence,
                POLL_REPLY_REVALUE_APPROVED => CashlessEvent::RevalueApproved,
                POLL_REPLY_REVALUE_DENIED => CashlessEvent::RevalueDenied,
                _ => CashlessEvent::TimeDateRequest,
            }
        }
    }

    /// Sets the identity fields from the PERIPHERAL_ID reply at offset `p` of `data`.
    fn apply_peripheral_id(&mut self, data: &[u8], p: usize)
        requires
            p + (if old(self).feature_level is Level3 {
                34int
            } else {
                30int
            }) <= data@.len(),
        ensures
            final(self).identity_from(data@, p as nat),
            final(self).same_config(old(self)),
            final(self).session == old(self).session,
    {
        let n = data.len();
        assert(p + 30 <= n);
        self.manufacturer_code = copy_range(data, p + 1, p + 4);
        self.serial_number = copy_range(data, p + 4, p + 16);
        self.model_number = copy_range(data, p + 16, p + 28);
        self.software_version = copy_range(data, p + 28, p + 30);
        let (ftl, m32, multi, neg, entry, idle) = match self.feature_level {
            CashlessDeviceFeatureLevel::Level3 => {
                let opt = data[p + 33];
                (
                    opt & 0x01 == 0x01,
                    opt & 0x02 == 0x02,
                    opt & 0x04 == 0x04,
                    opt & 0x08 == 0x08,
                    opt & 0x10 == 0x10,
                    opt & 0x20 == 0x20,
                )
            },
            _ => (false, false, false, false, false, false),
        };
        self.supports_ftl = ftl;
        self.monetary_format_32_bit = m32;
        self.supports_multicurrency = multi;
        self.supports_negative_vend = neg;
        self.supports_data_entry = entry;
        self.supports_always_idle = idle;
    }

    /// The session state after the reader reports `ev`.
    fn next_state(s: SessionState, ev: &CashlessEvent) -> (r: SessionState)
        ensures
            r == spec_next_state(s, *ev),
    {
        match ev {
            CashlessEvent::JustReset | CashlessEvent::Malfunction { .. } | CashlessEvent::OutOfSequence => {
                SessionState::Inactive
            },
            CashlessEvent::EndSession | CashlessEvent::SessionCancelRequest => SessionState::Enabled,
            CashlessEvent::BeginSession { .. } => match s {
                SessionState::Enabled => SessionState::SessionIdle,
                _ => s,
            },
            CashlessEvent::VendDenied => match s {
                SessionState::Vending => SessionState::SessionIdle,
                _ => s,
            },
            _ => s,
        }
    }

    /// Processes the payload of a POLL reply: splits it into replies by their
    /// opcodes' lengths, moves the session state machine, records a
    /// peripheral identity, and returns the events in wire order. A vend
    /// approval outside the Vending state is dropped. Reading stops at an
    /// unknown opcode or a truncated reply.
    pub fn process_poll(&mut self, data: &[u8]) -> (r: Vec<CashlessEvent>)
        ensures
            r@ == events_of(spec_poll_from(old(self).feature_level, old(self).session, data@, 0).0),
            final(self).session == spec_poll_from(old(self).feature_level, old(self).session, data@, 0).1,
            final(self).same_config(old(self)),
            match spec_last_pid_from(old(self).feature_level, data@, 0) {
                Some(q) => final(self).identity_from(data@, q),
                None => final(self).same_identity(old(self)),
            },
    {
        let ghost level = self.feature_level;
        let ghost start = self.session;
        let ghost mut trace: Seq<(SessionState, CashlessEvent)> = Seq::empty();
        let ghost mut last: Option<nat> = None;
        let mut out: Vec<CashlessEvent> = Vec::new();
        let mut p: usize = 0;
        let mut stop = false;
        let mut session = self.session;
        assert(trace + spec_poll_from(level, start, data@, 0).0 =~= spec_poll_from(level, start, data@, 0).0);
        assert(out@ =~= events_of(trace));
        while p < data.len() && !stop
            invariant
                p <= data@.len(),
                level == self.feature_level,
                self.same_config(old(self)),
                trace + spec_poll_from(level, session, data@, p as nat).0 == spec_poll_from(level, start, data@, 0).0,
                spec_poll_from(level, session, data@, p as nat).1 == spec_poll_from(level, start, data@, 0).1,
                out@ == events_of(trace),
                spec_pid_target(level, data@, p as nat, last) == spec_pid_target(level, data@, 0, None),
                self.session == old(self).session,
                match last {
                    Some(q) => self.identity_from(data@, q),
                    None => self.same_identity(old(self)),
                },
                stop ==> spec_poll_from(level, session, data@, p as nat) == (
                    Seq::<(SessionState, CashlessEvent)>::empty(),
                    session,
                ),
                stop ==> spec_last_pid_from(level, data@, p as nat) is None,
            decreases data@.len() - p + (if stop {
                0int
            } else {
                1int
            }),
        {
            let c = data[p];
            let len = self.poll_response_length(c) as usize;
            if len == 0 || len > data.len() - p {
                proof {
                    lemma_poll_stop(level, session, data@, p as nat);
                }
                stop = true;
            } else {
                let ev = self.decode_event(data, p, len);
                let ghost before = session;
                let ghost rest = spec_poll_from(level, spec_next_state(before, ev), data@, (p + len) as nat);
                proof {
                    lemma_poll_step(level, before, data@, p as nat, len as nat);
                    assert(spec_pid_target(level, data@, p as nat, last) == spec_pid_target(
                        level,
                        data@,
                        (p + len) as nat,
                        if c == POLL_REPLY_PERIPHERAL_ID {
                            Some(p as nat)
                        } else {
                            last
                        },
                    ));
                }
                if c == POLL_REPLY_PERIPHERAL_ID {
                    self.apply_peripheral_id(data, p);
                    proof {
                        last = Some(p as nat);
                    }
                }
                let deliver = match ev {
                    CashlessEvent::VendApproved { .. } => match session {
                        SessionState::Vending => true,
                        _ => false,
                    },
                    _ => true,
                };
                assert(deliver == spec_delivered(before, ev));
                if deliver {
                    out.push(ev);
                    proof {
                        lemma_trace_push(trace, before, ev, rest.0);
                        trace = trace.push((before, ev));
                    }
                }
                session = Self::next_state(session, &ev);
                p = p + len;
            }
        }
        self.session = session;
        proof {
            if !stop {
                lemma_poll_stop(level, session, data@, p as nat);
            }
            assert(trace =~= trace + Seq::<(SessionState, CashlessEvent)>::empty());
        }
        out
    }
}

/// SETUP/CONFIG_DATA: this controller's feature level, then zero display
/// columns, rows and type.
pub fn config_data_command() -> (r: Vec<u8>)
    ensures
        r@ == seq![SETUP_PREFIX, SETUP_CONFIG_DATA, VMC_FEATURE_LEVEL, 0u8, 0u8, 0u8],
{
    let mut v: Vec<u8> = Vec::new();
    v.push(SETUP_PREFIX);
    v.push(SETUP_CONFIG_DATA);
    v.push(VMC_FEATURE_LEVEL);
    v.push(0);
    v.push(0);
    v.push(0);
    assert(v@ =~= seq![SETUP_PREFIX, SETUP_CONFIG_DATA, VMC_FEATURE_LEVEL, 0u8, 0u8, 0u8]);
    v
}

/// SETUP/MAX_MIN_PRICES with both prices big-endian.
pub fn max_min_prices_command(max_price: u16, min_price: u16) -> (r: Vec<u8>)
    ensures
        r@ == seq![
            SETUP_PREFIX,
            SETUP_MAX_MIN_PRICES,
            (max_price / 256) as u8,
            (max_price % 256) as u8,
            (min_price / 256) as u8,
            (min_price % 256) as u8,
        ],
{
    let mut v: Vec<u8> = Vec::new();
    v.push(SETUP_PREFIX);
    v.push(SETUP_MAX_MIN_PRICES);
    v.push((max_price / 256) as u8);
    v.push((max_price % 256) as u8);
    v.push((min_price / 256) as u8);
    v.push((min_price % 256) as u8);
    assert(v@ =~= seq![
        SETUP_PREFIX,
        SETUP_MAX_MIN_PRICES,
        (max_price / 256) as u8,
        (max_price % 256) as u8,
        (min_price / 256) as u8,
        (min_price % 256) as u8,
    ]);
    v
}

/// A two-byte command: a prefix and its subcommand.
pub fn two_byte_command(prefix: u8, sub: u8) -> (r: Vec<u8>)
    ensures
        r@ == seq![prefix, sub],
{
    let mut v: Vec<u8> = Vec::new();
    v.push(prefix);
    v.push(sub);
    assert(v@ =~= seq![prefix, sub]);
    v
}

/// Whether a poll payload starts with JUST_RESET, which a reader sends
/// first after a reset.
pub fn is_just_reset(data: &[u8]) -> (r: bool)
    ensures
        r == (data@.len() >= 1 && data@[0] == POLL_REPLY_JUST_RESET),
{
    data.len() >= 1 && data[0] == POLL_REPLY_JUST_RESET
}

impl CashlessDevice {
    /// The reader acknowledged READER/ENABLE: an inactive reader becomes enabled.
    pub fn on_reader_enabled(&mut self)
        ensures
            *final(self) == (CashlessDevice {
                session: if old(self).session is Inactive {
                    SessionState::Enabled
                } else {
                    old(self).session
                },
                ..*old(self)
            }),
    {
        match self.session {
            SessionState::Inactive => self.session = SessionState::Enabled,
            _ => {},
        }
    }

    /// VEND/REQUEST for an item of `item_price` and `item_number`, both
    /// big-endian. Only in an idle session, which then is vending; otherwise
    /// `None` and nothing changes.
    pub fn vend_request(&mut self, item_price: u16, item_number: u16) -> (r: Option<Vec<u8>>)
        ensures
            r is Some <==> old(self).session is SessionIdle,
            r is None ==> *final(self) == *old(self),
            r matches Some(v) ==> {
                &&& v@ == seq![
                    VEND_PREFIX,
                    VEND_REQUEST,
                    (item_price / 256) as u8,
                    (item_price % 256) as u8,
                    (item_number / 256) as u8,
                    (item_number % 256) as u8,
                ]
                &&& *final(self) == (CashlessDevice { session: SessionState::Vending, ..*old(self) })
            },
    {
        match self.session {
            SessionState::SessionIdle => {},
            _ => return None,
        }
        self.session = SessionState::Vending;
        let mut v: Vec<u8> = Vec::new();
        v.push(VEND_PREFIX);
        v.push(VEND_REQUEST);
        v.push((item_price / 256) as u8);
        v.push((item_price % 256) as u8);
        v.push((item_number / 256) as u8);
        v.push((item_number % 256) as u8);
        assert(v@ =~= seq![
            VEND_PREFIX,
            VEND_REQUEST,
            (item_price / 256) as u8,
            (item_price % 256) as u8,
            (item_number / 256) as u8,
            (item_number % 256) as u8,
        ]);
        Some(v)
    }

    /// VEND/SUCCESS for `item_number`: the vend is over and the session idle
    /// again. Only while vending; otherwise `None` and nothing changes.
    pub fn vend_success(&mut self, item_number: u16) -> (r: Option<Vec<u8>>)
        ensures
            r is Some <==> old(self).session is Vending,
            r is None ==> *final(self) == *old(self),
            r matches Some(v) ==> {
                &&& v@ == seq![VEND_PREFIX, VEND_SUCCESS, (item_number / 256) as u8, (item_number % 256) as u8]
                &&& *final(self) == (CashlessDevice { session: SessionState::SessionIdle, ..*old(self) })
            },
    {
        match self.session {
            SessionState::Vending => {},
            _ => return None,
        }
        self.session = SessionState::SessionIdle;
        let mut v: Vec<u8> = Vec::new();
        v.push(VEND_PREFIX);
        v.push(VEND_SUCCESS);
        v.push((item_number / 256) as u8);
        v.push((item_number % 256) as u8);
        assert(v@ =~= seq![VEND_PREFIX, VEND_SUCCESS, (item_number / 256) as u8, (item_number % 256) as u8]);
        Some(v)
    }

    /// VEND/FAILURE: the item could not be vended; the session is idle again.
    /// Only while vending; otherwise `None` and nothing changes.
    pub fn vend_failure(&mut self) -> (r: Option<Vec<u8>>)
        ensures
            r is Some <==> old(self).session is Vending,
            r is None ==> *final(self) == *old(self),
            r matches Some(v) ==> {
                &&& v@ == seq![VEND_PREFIX, VEND_FAILURE]
                &&& *final(self) == (CashlessDevice { session: SessionState::SessionIdle, ..*old(self) })
            },
    {
        match self.session {
            SessionState::Vending => {},
            _ => return None,
        }
        self.session = SessionState::SessionIdle;
        Some(two_byte_command(VEND_PREFIX, VEND_FAILURE))
    }
}

} // verus!
