//! Tests of the frame encoder and response parser on literal byte streams.

use wifinina::commands::socket::{interpret_get_socket, write_chunk_sizes};
use wifinina::commands::{
    encode_frame, parse_response, NinaCommand, ParseOutcome, Params, RecvParam, RecvValue,
    SendParam,
};
use wifinina::millis::{Milliseconds, U32Ext};
use wifinina::Error;

fn frame(cmd: NinaCommand, params: Params<SendParam>) -> Vec<u8> {
    encode_frame(cmd.byte(), &params)
}

#[test]
fn start_client_tcp_frame_bytes() {
    let params = Params::of(vec![
        SendParam::Bytes(vec![10, 0, 0, 1]),
        SendParam::Word(80),
        SendParam::Byte(3),
        SendParam::Byte(0),
    ]);
    let bytes = frame(NinaCommand::StartClientTcp, params);
    assert_eq!(
        bytes,
        vec![
            0xE0, 0x2D, 0x04, 0x04, 0x0A, 0x00, 0x00, 0x01, 0x02, 0x00, 0x50, 0x01, 0x03, 0x01,
            0x00, 0xEE,
        ]
    );
}

#[test]
fn get_firmware_version_frame_bytes() {
    let bytes = frame(NinaCommand::GetFirmwareVersion, Params::none());
    assert_eq!(bytes, vec![0xE0, 0x37, 0x00, 0xEE]);
}

#[test]
fn available_data_frame_bytes() {
    let params = Params::of(vec![SendParam::Byte(5)]);
    let bytes = frame(NinaCommand::AvailableDataTcp, params);
    assert_eq!(bytes, vec![0xE0, 0x2B, 0x01, 0x01, 0x05, 0xEE, 0x00, 0x00]);
}

#[test]
fn frames_are_padded_to_four_bytes() {
    for n in 0..20usize {
        let params = Params::of(vec![SendParam::Bytes(vec![7u8; n])]);
        let bytes = frame(NinaCommand::SetNetwork, params);
        assert_eq!(bytes.len() % 4, 0, "length {} not aligned", bytes.len());
    }
}

#[test]
fn sixteen_bit_frame_length_prefix() {
    let params = Params::with_16_bit_length(vec![
        SendParam::Byte(2),
        SendParam::Bytes(vec![0xAA; 300]),
    ]);
    let bytes = frame(NinaCommand::SendDataTcp, params);
    // Header, then a two-byte big-endian length 1 before the socket byte.
    assert_eq!(&bytes[..5], &[0xE0, 0x44, 0x02, 0x00, 0x01]);
    assert_eq!(bytes[5], 2);
    // The data parameter announces 300 bytes, big-endian.
    assert_eq!(&bytes[6..8], &[0x01, 0x2C]);
    assert_eq!(bytes.len() % 4, 0);
}

#[test]
fn parse_single_byte_response() {
    // GetSocket reply carrying socket number 3, after the START token.
    let stream: Vec<u8> = vec![0xBF, 0x01, 0x01, 0x03, 0xEE];
    let recv = Params::of(vec![RecvParam::Byte]);
    match parse_response(0x3F, &recv, &stream) {
        ParseOutcome::Done { values, used } => {
            assert_eq!(used, 5);
            assert!(matches!(values[..], [RecvValue::Byte(3)]));
        }
        _ => panic!("expected a completed parse"),
    }
}

#[test]
fn parse_exhausted_socket_pool_reply() {
    // The no-socket marker byte, as the chip sends it.
    let stream: Vec<u8> = vec![0xBF, 0x01, 0x01, 0xFF, 0xEE];
    let recv = Params::of(vec![RecvParam::Byte]);
    let byte = match parse_response(0x3F, &recv, &stream) {
        ParseOutcome::Done { values, .. } => match values[0] {
            RecvValue::Byte(b) => b,
            _ => panic!("expected a byte value"),
        },
        _ => panic!("expected a completed parse"),
    };
    assert_eq!(byte, 255);
    assert_eq!(
        interpret_get_socket(byte).unwrap_err(),
        Error::NoSocketAvailable
    );
}

#[test]
fn parse_le_word_response() {
    // AvailableDataTcp reply of zero readable bytes.
    let stream: Vec<u8> = vec![0xAB, 0x01, 0x02, 0x00, 0x00, 0xEE];
    let recv = Params::of(vec![RecvParam::LEWord]);
    match parse_response(0x2B, &recv, &stream) {
        ParseOutcome::Done { values, used } => {
            assert_eq!(used, 6);
            assert!(matches!(values[..], [RecvValue::LEWord(0)]));
        }
        _ => panic!("expected a completed parse"),
    }
}

#[test]
fn parse_version_string_reply() {
    let stream: Vec<u8> = vec![0xB7, 0x01, 0x06, 0x31, 0x2E, 0x37, 0x2E, 0x34, 0x00, 0xEE];
    let recv = Params::of(vec![RecvParam::Buffer(10)]);
    match parse_response(0x37, &recv, &stream) {
        ParseOutcome::Done { values, .. } => match &values[0] {
            RecvValue::Buffer(data, reported) => {
                assert_eq!(data.as_slice(), b"1.7.4\0");
                assert_eq!(*reported, 6);
            }
            _ => panic!("expected a buffer value"),
        },
        _ => panic!("expected a completed parse"),
    }
}

#[test]
fn buffer_slot_truncates_but_drains() {
    // Six incoming bytes for a three-byte buffer: the first three are
    // kept, and the parse still consumes the whole parameter, so the END
    // token right after it is found in place.
    let stream: Vec<u8> = vec![0xB7, 0x01, 0x06, 1, 2, 3, 4, 5, 6, 0xEE];
    let recv = Params::of(vec![RecvParam::Buffer(3)]);
    match parse_response(0x37, &recv, &stream) {
        ParseOutcome::Done { values, used } => {
            assert_eq!(used, stream.len());
            match &values[0] {
                RecvValue::Buffer(data, reported) => {
                    assert_eq!(data.as_slice(), &[1, 2, 3]);
                    assert_eq!(*reported, 6);
                }
                _ => panic!("expected a buffer value"),
            }
        }
        _ => panic!("expected a completed parse"),
    }
}

#[test]
fn parse_asks_for_more_on_every_proper_prefix() {
    let stream: Vec<u8> = vec![0xAB, 0x01, 0x02, 0x00, 0x00, 0xEE];
    let recv = Params::of(vec![RecvParam::LEWord]);
    for n in 0..stream.len() {
        let prefix: Vec<u8> = stream[..n].to_vec();
        assert!(
            matches!(parse_response(0x2B, &recv, &prefix), ParseOutcome::NeedMore),
            "prefix of {} bytes should ask for more",
            n
        );
    }
    assert!(matches!(
        parse_response(0x2B, &recv, &stream),
        ParseOutcome::Done { .. }
    ));
}

#[test]
fn parse_rejects_wrong_reply_byte() {
    let stream: Vec<u8> = vec![0xAD, 0x01, 0x01, 0x01, 0xEE];
    let recv = Params::of(vec![RecvParam::Byte]);
    match parse_response(0x3F, &recv, &stream) {
        ParseOutcome::Fail(e) => assert_eq!(e, Error::UnexpectedResponse(0xBF, 0xAD)),
        _ => panic!("expected a failed parse"),
    }
}

#[test]
fn parse_rejects_missing_param() {
    // The chip announces no parameters where one mandatory byte is
    // expected.
    let stream: Vec<u8> = vec![0xBF, 0x00, 0xEE];
    let recv = Params::of(vec![RecvParam::Byte]);
    match parse_response(0x3F, &recv, &stream) {
        ParseOutcome::Fail(e) => assert_eq!(e, Error::MissingParam(0)),
        _ => panic!("expected a failed parse"),
    }
}

#[test]
fn parse_rejects_extra_params() {
    // The chip announces two parameters where one is expected.
    let stream: Vec<u8> = vec![0xBF, 0x02, 0x01, 0x03, 0x01, 0x04, 0xEE];
    let recv = Params::of(vec![RecvParam::Byte]);
    match parse_response(0x3F, &recv, &stream) {
        ParseOutcome::Fail(e) => assert_eq!(e, Error::UnexpectedParam(2)),
        _ => panic!("expected a failed parse"),
    }
}

#[test]
fn parse_rejects_mismatched_size() {
    // A two-byte parameter where a single byte is expected.
    let stream: Vec<u8> = vec![0xBF, 0x01, 0x02, 0x03, 0x04, 0xEE];
    let recv = Params::of(vec![RecvParam::Byte]);
    match parse_response(0x3F, &recv, &stream) {
        ParseOutcome::Fail(e) => assert_eq!(e, Error::MismatchedParamSize(1, 2)),
        _ => panic!("expected a failed parse"),
    }
}

#[test]
fn parse_rejects_wrong_ack() {
    let stream: Vec<u8> = vec![0xAE, 0x01, 0x01, 0x00, 0xEE];
    let recv = Params::of(vec![RecvParam::Ack]);
    match parse_response(0x2E, &recv, &stream) {
        ParseOutcome::Fail(e) => assert_eq!(e, Error::UnexpectedResponse(0x01, 0x00)),
        _ => panic!("expected a failed parse"),
    }
}

#[test]
fn parse_rejects_missing_end_token() {
    let stream: Vec<u8> = vec![0xBF, 0x01, 0x01, 0x03, 0x55];
    let recv = Params::of(vec![RecvParam::Byte]);
    match parse_response(0x3F, &recv, &stream) {
        ParseOutcome::Fail(e) => assert_eq!(e, Error::UnexpectedResponse(0xEE, 0x55)),
        _ => panic!("expected a failed parse"),
    }
}

#[test]
fn optional_byte_absorbs_missing_tail_param() {
    // One announced parameter against a mandatory byte plus an optional
    // one: the optional slot reads nothing.
    let stream: Vec<u8> = vec![0xAD, 0x01, 0x01, 0x07, 0xEE];
    let recv = Params::of(vec![RecvParam::Byte, RecvParam::OptionalByte]);
    match parse_response(0x2D, &recv, &stream) {
        ParseOutcome::Done { values, .. } => {
            assert!(matches!(
                values[..],
                [RecvValue::Byte(7), RecvValue::OptionalByte(None)]
            ));
        }
        _ => panic!("expected a completed parse"),
    }
}

#[test]
fn write_chunks_of_nine_thousand() {
    assert_eq!(write_chunk_sizes(9_000), vec![4_000, 4_000, 1_000]);
}

#[test]
fn write_chunks_edge_sizes() {
    assert_eq!(write_chunk_sizes(0), Vec::<usize>::new());
    assert_eq!(write_chunk_sizes(1), vec![1]);
    assert_eq!(write_chunk_sizes(4_000), vec![4_000]);
    assert_eq!(write_chunk_sizes(4_001), vec![4_000, 1]);
    assert_eq!(write_chunk_sizes(8_000), vec![4_000, 4_000]);
}

#[test]
fn milliseconds_ordering_and_rollover() {
    assert!(Milliseconds(0).is_after(Milliseconds(1)));
    assert!(Milliseconds(5).is_after(Milliseconds(5)));
    assert!(!Milliseconds(10).is_after(Milliseconds(2)));
    // Just across the rollover, the later instant still counts as after.
    assert!(Milliseconds(u32::MAX).is_after(Milliseconds(4)));
    assert!(!Milliseconds(4).is_after(Milliseconds(u32::MAX)));
}

#[test]
fn milliseconds_sugar() {
    assert_eq!(500u32.ms(), Milliseconds(500));
    assert_eq!(Milliseconds(200).plus(Milliseconds(50)), Milliseconds(250));
}
