use mdb::link::{checksum, command_frame, confirms_ack, decode_reply, status_frame, timed_out, MDB_TIMEOUT_MS};
use mdb::{MDBResponse, MDBStatus};

#[test]
fn checksum_wraps_at_eight_bits() {
    assert_eq!(checksum(&[]), 0x00);
    assert_eq!(checksum(&[0x0D, 0x32]), 0x3F);
    assert_eq!(checksum(&[0xFF, 0x02]), 0x01);
    assert_eq!(checksum(&[0x80, 0x80, 0x80]), 0x80);
}

#[test]
fn command_frame_sets_mode_bit_on_first_byte_only() {
    let frame = command_frame(&[0x0F, 0x02, 0x64]);
    assert_eq!(frame, vec![0x01, 0x0F, 0x00, 0x02, 0x00, 0x64, 0x00, 0x75]);
    let set: Vec<usize> = (0..frame.len() / 2).filter(|k| frame[2 * k] == 1).collect();
    assert_eq!(set, vec![0]);
}

#[test]
fn command_frame_ends_in_payload_checksum() {
    let msg = [0x13u8, 0x00, 0x01, 0x2C, 0x00, 0x07];
    let frame = command_frame(&msg);
    assert_eq!(frame.len(), 2 * (msg.len() + 1));
    let sum = msg.iter().fold(0u8, |a, b| a.wrapping_add(*b));
    assert_eq!(frame[frame.len() - 1], sum);
    assert_eq!(frame[frame.len() - 2], 0x00);
}

#[test]
fn single_byte_command_frame() {
    assert_eq!(command_frame(&[0x0B]), vec![0x01, 0x0B, 0x00, 0x0B]);
}

#[test]
fn status_frames_only_for_wire_statuses() {
    assert_eq!(status_frame(MDBStatus::ACK), Some(vec![0x00, 0x00]));
    assert_eq!(status_frame(MDBStatus::NAK), Some(vec![0x00, 0xFF]));
    assert_eq!(status_frame(MDBStatus::RET), Some(vec![0x00, 0xAA]));
    assert_eq!(status_frame(MDBStatus::NoReply), None);
    assert_eq!(status_frame(MDBStatus::ChecksumErr), None);
    assert_eq!(status_frame(MDBStatus::BufOverflow), None);
    assert_eq!(status_frame(MDBStatus::Invalid), None);
}

#[test]
fn status_codes() {
    assert_eq!(MDBStatus::ACK.code(), 0x00);
    assert_eq!(MDBStatus::NAK.code(), 0xFF);
    assert_eq!(MDBStatus::RET.code(), 0xAA);
    assert_eq!(MDBStatus::Invalid.code(), 0x04);
}

#[test]
fn poll_answered_by_ack() {
    let reply = decode_reply(&[0x01, 0x00], 16).expect("complete");
    assert_eq!(reply.response, MDBResponse::StatusMsg(MDBStatus::ACK));
    assert!(!reply.acknowledge);
    assert!(reply.data.is_empty());
}

#[test]
fn lone_nak_and_invalid_status() {
    let nak = decode_reply(&[0x01, 0xFF], 16).expect("complete");
    assert_eq!(nak.response, MDBResponse::StatusMsg(MDBStatus::NAK));
    let ret = decode_reply(&[0x01, 0xAA], 16).expect("complete");
    assert_eq!(ret.response, MDBResponse::StatusMsg(MDBStatus::Invalid));
    let other = decode_reply(&[0x01, 0x42], 16).expect("complete");
    assert_eq!(other.response, MDBResponse::StatusMsg(MDBStatus::Invalid));
}

#[test]
fn good_data_frame_is_acknowledged() {
    let reply = decode_reply(&[0x00, 0x01, 0x00, 0x02, 0x01, 0x03], 16).expect("complete");
    assert_eq!(reply.response, MDBResponse::Data(2));
    assert_eq!(reply.data, vec![0x01, 0x02]);
    assert!(reply.acknowledge);
}

#[test]
fn checksum_mismatch_is_not_answered() {
    let reply = decode_reply(&[0x00, 0x01, 0x00, 0x02, 0x01, 0x04], 16).expect("complete");
    assert_eq!(reply.response, MDBResponse::StatusMsg(MDBStatus::ChecksumErr));
    assert!(!reply.acknowledge);
    assert!(reply.data.is_empty());
}

#[test]
fn payload_beyond_buffer_overflows() {
    let reply = decode_reply(&[0x00, 0x01, 0x00, 0x02, 0x01, 0x03], 1).expect("complete");
    assert_eq!(reply.response, MDBResponse::StatusMsg(MDBStatus::BufOverflow));
    let fits = decode_reply(&[0x00, 0x01, 0x00, 0x02, 0x01, 0x03], 2).expect("complete");
    assert_eq!(fits.response, MDBResponse::Data(2));
    let ack_only = decode_reply(&[0x00, 0x05, 0x01, 0x05], 0).expect("complete");
    assert_eq!(ack_only.response, MDBResponse::StatusMsg(MDBStatus::BufOverflow));
}

#[test]
fn incomplete_reply_waits() {
    assert!(decode_reply(&[], 16).is_none());
    assert!(decode_reply(&[0x00, 0x01], 16).is_none());
    assert!(decode_reply(&[0x00, 0x01, 0x01], 16).is_none());
}

#[test]
fn reply_decodes_checksum_over_wrapping_sum() {
    let reply = decode_reply(&[0x00, 0xF0, 0x00, 0x20, 0x01, 0x10], 16).expect("complete");
    assert_eq!(reply.response, MDBResponse::Data(2));
    assert_eq!(reply.data, vec![0xF0, 0x20]);
}

#[test]
fn reply_window_is_fifty_milliseconds() {
    assert_eq!(MDB_TIMEOUT_MS, 50);
    assert!(!timed_out(1_000, 1_000));
    assert!(!timed_out(1_000, 50_999));
    assert!(timed_out(1_000, 51_000));
    assert!(!timed_out(u32::MAX - 10, 100));
    assert!(timed_out(u32::MAX - 10, 49_989));
    assert!(!timed_out(u32::MAX - 10, 49_988));
}

#[test]
fn ack_confirmation() {
    assert!(confirms_ack(&MDBResponse::StatusMsg(MDBStatus::ACK)));
    assert!(!confirms_ack(&MDBResponse::StatusMsg(MDBStatus::NAK)));
    assert!(!confirms_ack(&MDBResponse::StatusMsg(MDBStatus::NoReply)));
    assert!(!confirms_ack(&MDBResponse::StatusMsg(MDBStatus::ChecksumErr)));
    assert!(!confirms_ack(&MDBResponse::Data(0)));
}
