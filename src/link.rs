//! The MDB link layer: command framing with the 9th (mode) bit, the 8-bit
//! checksum, and decoding of a peripheral's reply.
//!
//! On the transport every logical byte travels as two physical bytes: a mode
//! byte (`0x01` when the 9th bit is set, `0x00` otherwise) and then the data
//! byte itself.

use vstd::prelude::*;

verus! {

/// How long the master waits for a complete reply, in milliseconds.
pub const MDB_TIMEOUT_MS: u32 = 50;

/// Status tokens of the link. ACK, NAK and RET exist on the wire; the others
/// only report what the master observed.
#[derive(Clone, Copy, Debug, PartialEq, Eq, Structural)]
pub enum MDBStatus {
    ACK,
    NAK,
    RET,
    NoReply,
    ChecksumErr,
    BufOverflow,
    Invalid,
}

/// What a command exchange yields: a data frame of the given length, or a status.
#[derive(Clone, Copy, Debug, PartialEq, Eq, Structural)]
pub enum MDBResponse<T, U> {
    Data(T),
    StatusMsg(U),
}

impl MDBStatus {
    pub open spec fn spec_code(self) -> u8 {
        match self {
            MDBStatus::ACK => 0x00,
            MDBStatus::NAK => 0xFF,
            MDBStatus::RET => 0xAA,
            MDBStatus::NoReply => 0x01,
            MDBStatus::ChecksumErr => 0x02,
            MDBStatus::BufOverflow => 0x03,
            MDBStatus::Invalid => 0x04,
        }
    }

    /// The byte that stands for this status.
    pub fn code(self) -> (r: u8)
        ensures
            r == self.spec_code(),
    {
        match self {
            MDBStatus::ACK => 0x00,
            MDBStatus::NAK => 0xFF,
            MDBStatus::RET => 0xAA,
            MDBStatus::NoReply => 0x01,
            MDBStatus::ChecksumErr => 0x02,
            MDBStatus::BufOverflow => 0x03,
            MDBStatus::Invalid => 0x04,
        }
    }

    /// True of the three statuses that may be transmitted.
    pub open spec fn is_wire_status(self) -> bool {
        self is ACK || self is NAK || self is RET
    }
}

/// The sum of the bytes, without truncation.
pub open spec fn byte_sum(s: Seq<u8>) -> nat
    decreases s.len(),
{
    if s.len() == 0 {
        0
    } else {
        byte_sum(s.drop_last()) + s.last() as nat
    }
}

/// The MDB checksum: the sum of the bytes, truncated to 8 bits.
pub open spec fn spec_checksum(s: Seq<u8>) -> u8 {
    (byte_sum(s) % 256) as u8
}

/// The physical bytes that carry a command: each payload byte behind its mode
/// byte (set on the first byte only), then the checksum behind a clear mode byte.
pub open spec fn spec_command_frame(msg: Seq<u8>) -> Seq<u8> {
    Seq::new(
        2 * (msg.len() + 1),
        |j: int|
            if j % 2 == 0 {
                if j == 0 && msg.len() > 0 {
                    1u8
                } else {
                    0u8
                }
            } else if j / 2 < msg.len() {
                msg[j / 2]
            } else {
                spec_checksum(msg)
            },
    )
}

/// The 8-bit wrap-around sum of `msg`.
pub fn checksum(msg: &[u8]) -> (r: u8)
    ensures
        r == spec_checksum(msg@),
{
    let mut sum: u8 = 0;
    let mut i: usize = 0;
    while i < msg.len()
        invariant
            i <= msg@.len(),
            sum == spec_checksum(msg@.subrange(0, i as int)),
        decreases msg@.len() - i,
    {
        let ghost prefix = msg@.subrange(0, i as int);
        let ghost next = msg@.subrange(0, i + 1);
        assert(next.drop_last() =~= prefix);
        proof {
            vstd::arithmetic::div_mod::lemma_add_mod_noop(byte_sum(prefix) as int, msg@[i as int] as int, 256);
        }
        sum = ((sum as u16 + msg[i] as u16) % 256) as u8;
        i = i + 1;
    }
    assert(msg@.subrange(0, msg@.len() as int) =~= msg@);
    sum
}

/// The physical bytes to transmit for the command `msg`.
pub fn command_frame(msg: &[u8]) -> (r: Vec<u8>)
    requires
        msg@.len() < usize::MAX / 2,
    ensures
        r@ == spec_command_frame(msg@),
{
    let mut out: Vec<u8> = Vec::new();
    let mut i: usize = 0;
    while i < msg.len()
        invariant
            i <= msg@.len() < usize::MAX / 2,
            out@ =~= spec_command_frame(msg@).subrange(0, 2 * i as int),
        decreases msg@.len() - i,
    {
        let mode: u8 = if i == 0 {
            1
        } else {
            0
        };
        out.push(mode);
        out.push(msg[i]);
        i = i + 1;
    }
    out.push(0);
    out.push(checksum(msg));
    assert(out@ =~= spec_command_frame(msg@));
    out
}

/// The physical bytes of a status message: the status byte behind a clear
/// mode byte, without checksum. Only ACK, NAK and RET may be sent.
pub fn status_frame(status: MDBStatus) -> (r: Option<Vec<u8>>)
    ensures
        status.is_wire_status() <==> r is Some,
        r matches Some(v) ==> v@ == seq![0u8, status.spec_code()],
{
    match status {
        MDBStatus::ACK | MDBStatus::NAK | MDBStatus::RET => {
            let mut v: Vec<u8> = Vec::new();
            v.push(0);
            v.push(status.code());
            assert(v@ =~= seq![0u8, status.spec_code()]);
            Some(v)
        },
        _ => None,
    }
}

/// A command frame ends in the checksum of its payload: the data bytes of the
/// frame, read in order, are the payload followed by its 8-bit sum.
pub proof fn lemma_command_checksum(msg: Seq<u8>)
    ensures
        ({
            let f = spec_command_frame(msg);
            &&& f.len() == 2 * (msg.len() + 1)
            &&& forall|i: int| 0 <= i < msg.len() ==> #[trigger] f[2 * i + 1] == msg[i]
            &&& f[2 * msg.len() as int + 1] == spec_checksum(msg)
            &&& spec_checksum(msg) as nat == byte_sum(msg) % 256
        }),
{
    let f = spec_command_frame(msg);
    assert forall|i: int| 0 <= i < msg.len() implies #[trigger] f[2 * i + 1] == msg[i] by {
        assert((2 * i + 1) / 2 == i);
    }
    assert((2 * msg.len() as int + 1) / 2 == msg.len());
}

/// In the frame of a non-empty command exactly one mode byte is set, that of
/// the first payload byte; the checksum's mode byte is clear, and every mode
/// byte is 0 or 1.
pub proof fn lemma_command_framing(msg: Seq<u8>)
    requires
        msg.len() >= 1,
    ensures
        ({
            let f = spec_command_frame(msg);
            &&& forall|k: int| 0 <= k <= msg.len() ==> (#[trigger] f[2 * k] == 1 <==> k == 0)
            &&& forall|k: int| 0 <= k <= msg.len() ==> (#[trigger] f[2 * k] == 0 || f[2 * k] == 1)
            &&& f[2 * msg.len() as int] == 0
        }),
{
    let f = spec_command_frame(msg);
    assert forall|k: int| 0 <= k <= msg.len() implies (#[trigger] f[2 * k] == 1 <==> k == 0) by {
        assert((2 * k) % 2 == 0);
    }
    assert forall|k: int| 0 <= k <= msg.len() implies (#[trigger] f[2 * k] == 0 || f[2 * k] == 1) by {
        assert((2 * k) % 2 == 0);
    }
}

/// Number of complete (mode, data) pairs in the physical bytes `raw`.
pub open spec fn word_count(raw: Seq<u8>) -> nat {
    raw.len() / 2
}

/// Whether the `k`-th logical byte of `raw` carries the 9th bit (end of message).
pub open spec fn eom_at(raw: Seq<u8>, k: int) -> bool {
    raw[2 * k] == 1
}

/// The data of the `k`-th logical byte of `raw`.
pub open spec fn data_at(raw: Seq<u8>, k: int) -> u8 {
    raw[2 * k + 1]
}

/// The data of the first `n` logical bytes of `raw`.
pub open spec fn payload_of(raw: Seq<u8>, n: nat) -> Seq<u8> {
    Seq::new(n, |k: int| data_at(raw, k))
}

/// The status that a lone end-of-message byte stands for.
pub open spec fn spec_status_reply(b: u8) -> MDBStatus {
    if b == 0x00 {
        MDBStatus::ACK
    } else if b == 0xFF {
        MDBStatus::NAK
    } else {
        MDBStatus::Invalid
    }
}

/// The reply carried by `raw`, read from logical byte `k` on, with room for
/// `cap` payload bytes; `None` while the reply is still incomplete.
pub open spec fn reply_from(raw: Seq<u8>, cap: nat, k: nat) -> Option<MDBResponse<usize, MDBStatus>>
    decreases word_count(raw) - k,
{
    if k >= word_count(raw) {
        None
    } else if !eom_at(raw, k as int) {
        if k >= cap {
            Some(MDBResponse::StatusMsg(MDBStatus::BufOverflow))
        } else {
            reply_from(raw, cap, k + 1)
        }
    } else if k == 0 {
        Some(MDBResponse::StatusMsg(spec_status_reply(data_at(raw, 0))))
    } else if data_at(raw, k as int) == spec_checksum(payload_of(raw, k)) {
        Some(MDBResponse::Data(k as usize))
    } else {
        Some(MDBResponse::StatusMsg(MDBStatus::ChecksumErr))
    }
}

/// The reply that the physical bytes `raw` carry, given room for `cap` payload bytes.
pub open spec fn spec_reply(raw: Seq<u8>, cap: nat) -> Option<MDBResponse<usize, MDBStatus>> {
    reply_from(raw, cap, 0)
}

/// A decoded reply: the link's token, the payload of a data frame (empty
/// otherwise), and whether the master owes the peripheral an ACK.
pub struct Reply {
    pub response: MDBResponse<usize, MDBStatus>,
    pub data: Vec<u8>,
    pub acknowledge: bool,
}

/// Decodes the physical bytes received so far after a command. Returns `None`
/// while no end-of-message byte has arrived and the payload still fits in
/// `capacity` bytes; otherwise the reply. A data frame whose checksum matches
/// is to be acknowledged; a checksum mismatch is not answered.
pub fn decode_reply(raw: &[u8], capacity: usize) -> (r: Option<Reply>)
    ensures
        r is None <==> spec_reply(raw@, capacity as nat) is None,
        r matches Some(rep) ==> {
            &&& Some(rep.response) == spec_reply(raw@, capacity as nat)
            &&& rep.acknowledge == (rep.response is Data)
            &&& (rep.response matches MDBResponse::Data(n) ==> rep.data@ == payload_of(raw@, n as nat))
            &&& (rep.response is StatusMsg ==> rep.data@.len() == 0)
        },
{
    let len = raw.len();
    let n = len / 2;
    let mut data: Vec<u8> = Vec::new();
    let mut sum: u8 = 0;
    let mut k: usize = 0;
    while k < n
        invariant
            len == raw@.len(),
            n == len / 2,
            n == word_count(raw@),
            k <= n,
            k <= capacity,
            data@ == payload_of(raw@, k as nat),
            sum == spec_checksum(data@),
            forall|j: int| 0 <= j < k ==> !eom_at(raw@, j),
            spec_reply(raw@, capacity as nat) == reply_from(raw@, capacity as nat, k as nat),
        decreases n - k,
    {
        assert(2 * k + 1 < raw@.len());
        let mode = raw[2 * k];
        let byte = raw[2 * k + 1];
        if mode == 1 {
            if k == 0 {
                let status = if byte == 0x00 {
                    MDBStatus::ACK
                } else if byte == 0xFF {
                    MDBStatus::NAK
                } else {
                    MDBStatus::Invalid
                };
                return Some(Reply { response: MDBResponse::StatusMsg(status), data: Vec::new(), acknowledge: false });
            } else if byte == sum {
                return Some(Reply { response: MDBResponse::Data(k), data, acknowledge: true });
            } else {
                return Some(Reply {
                    response: MDBResponse::StatusMsg(MDBStatus::ChecksumErr),
                    data: Vec::new(),
                    acknowledge: false,
                });
            }
        }
        if k == capacity {
            return Some(Reply {
                response: MDBResponse::StatusMsg(MDBStatus::BufOverflow),
                data: Vec::new(),
                acknowledge: false,
            });
        }
        let ghost before = data@;
        proof {
            vstd::arithmetic::div_mod::lemma_add_mod_noop(byte_sum(before) as int, byte as int, 256);
        }
        data.push(byte);
        assert(data@.drop_last() =~= before);
        sum = ((sum as u16 + byte as u16) % 256) as u8;
        assert(data@ =~= payload_of(raw@, (k + 1) as nat));
        k = k + 1;
    }
    None
}

/// The physical bytes of a data reply carrying `payload`: each payload byte
/// behind a clear mode byte, then the checksum behind a set one.
pub open spec fn spec_reply_frame(payload: Seq<u8>) -> Seq<u8> {
    Seq::new(
        2 * (payload.len() + 1),
        |j: int|
            if j % 2 == 0 {
                if j / 2 < payload.len() {
                    0u8
                } else {
                    1u8
                }
            } else if j / 2 < payload.len() {
                payload[j / 2]
            } else {
                spec_checksum(payload)
            },
    )
}

/// A data reply whose payload fits in the buffer decodes to that payload, to
/// be acknowledged.
pub proof fn lemma_data_reply_round_trip(payload: Seq<u8>, cap: nat)
    requires
        1 <= payload.len() <= cap,
    ensures
        spec_reply(spec_reply_frame(payload), cap) == Some(
            MDBResponse::<usize, MDBStatus>::Data(payload.len() as usize),
        ),
        payload_of(spec_reply_frame(payload), payload.len()) == payload,
{
    let raw = spec_reply_frame(payload);
    let n = payload.len();
    assert forall|k: int| 0 <= k < n implies !#[trigger] eom_at(raw, k) && data_at(raw, k) == payload[k] by {
        assert((2 * k) % 2 == 0 && (2 * k) / 2 == k);
        assert((2 * k + 1) % 2 == 1 && (2 * k + 1) / 2 == k);
    }
    assert(payload_of(raw, n) =~= payload);
    assert((2 * n as int) % 2 == 0 && (2 * n as int) / 2 == n);
    assert((2 * n as int + 1) % 2 == 1 && (2 * n as int + 1) / 2 == n);
    assert(eom_at(raw, n as int) && data_at(raw, n as int) == spec_checksum(payload));
    lemma_reply_from_payload(raw, cap, n, n);
}

proof fn lemma_reply_from_payload(raw: Seq<u8>, cap: nat, n: nat, k: nat)
    requires
        1 <= n <= cap,
        k <= n,
        word_count(raw) == n + 1,
        forall|j: int| 0 <= j < n ==> !#[trigger] eom_at(raw, j),
        eom_at(raw, n as int),
        data_at(raw, n as int) == spec_checksum(payload_of(raw, n)),
    ensures
        reply_from(raw, cap, (n - k) as nat) == Some(MDBResponse::<usize, MDBStatus>::Data(n as usize)),
    decreases k,
{
    if k > 0 {
        lemma_reply_from_payload(raw, cap, n, (k - 1) as nat);
        assert(!eom_at(raw, (n - k) as int));
    }
}

/// Microseconds from `start` to `now` on a free-running 32-bit counter.
pub open spec fn elapsed_us(start: u32, now: u32) -> int {
    if now >= start {
        now - start
    } else {
        now + 0x1_0000_0000 - start
    }
}

/// Whether the reply window has closed: `MDB_TIMEOUT_MS` or more have passed
/// between the counter readings `start` (send completed) and `now`.
pub fn timed_out(start: u32, now: u32) -> (r: bool)
    ensures
        r == (elapsed_us(start, now) >= MDB_TIMEOUT_MS * 1000),
{
    let elapsed: u32 = if now >= start {
        now - start
    } else {
        (u32::MAX - start) + now + 1
    };
    elapsed >= MDB_TIMEOUT_MS * 1000
}

/// Whether an exchange ended in a bare ACK.
pub fn confirms_ack(resp: &MDBResponse<usize, MDBStatus>) -> (r: bool)
    ensures
        r == (*resp == MDBResponse::<usize, MDBStatus>::StatusMsg(MDBStatus::ACK)),
{
    match resp {
        MDBResponse::StatusMsg(MDBStatus::ACK) => true,
        _ => false,
    }
}

} // verus!
