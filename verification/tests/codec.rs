use samp_query::codec::decode_datagram;
use samp_query::codec::decode_payload;
use samp_query::InfoPacket;
use samp_query::Query;
use samp_query::QueryError;

fn payload_with_header(payload: &[u8]) -> Vec<u8> {
    let mut d = vec![0u8; 11];
    d.extend_from_slice(payload);
    d
}

const SAMPLE_PAYLOAD: &[u8] = &[
    0x00, // password: off
    0x02, 0x00, // players: 2
    0x20, 0x00, // max players: 32
    0x05, 0, 0, 0, b'H', b'e', b'l', b'l', b'o', // hostname
    0x03, 0, 0, 0, b'R', b'P', b'G', // gamemode
    0x02, 0, 0, 0, b'e', b'n', // language
];

#[test]
fn decodes_crafted_response() {
    let datagram = payload_with_header(SAMPLE_PAYLOAD);
    let info = decode_datagram(&datagram).unwrap();
    assert_eq!(info.password, false);
    assert_eq!(info.players, 2);
    assert_eq!(info.max_players, 32);
    assert_eq!(info.hostname, "Hello");
    assert_eq!(info.gamemode, "RPG");
    assert_eq!(info.language, "en");
}

#[test]
fn decode_is_deterministic() {
    let a = decode_payload(SAMPLE_PAYLOAD).unwrap();
    let b = decode_payload(SAMPLE_PAYLOAD).unwrap();
    assert_eq!(a, b);
}

#[test]
fn short_payload_is_malformed() {
    for n in 0..5 {
        let payload = vec![0u8; n];
        assert_eq!(decode_payload(&payload), Err(QueryError::MalformedResponse));
    }
}

#[test]
fn missing_length_prefix_is_malformed() {
    // five fixed bytes, then a truncated length prefix
    let payload = [0u8, 0, 0, 0, 0, 5, 0];
    assert_eq!(decode_payload(&payload), Err(QueryError::MalformedResponse));
}

#[test]
fn declared_length_past_end_is_malformed() {
    // hostname claims 200 bytes, none follow
    let payload = [0u8, 0, 0, 0, 0, 200, 0, 0, 0];
    assert_eq!(decode_payload(&payload), Err(QueryError::MalformedResponse));
}

#[test]
fn huge_declared_length_is_malformed() {
    // length prefix of u32::MAX must not overflow any offset arithmetic
    let payload = [0u8, 0, 0, 0, 0, 0xFF, 0xFF, 0xFF, 0xFF, b'x'];
    assert_eq!(decode_payload(&payload), Err(QueryError::MalformedResponse));
}

#[test]
fn second_field_truncated_is_malformed() {
    // hostname decodes, gamemode length prefix is cut short
    let payload = [0u8, 1, 0, 2, 0, 1, 0, 0, 0, b'a', 9, 0];
    assert_eq!(decode_payload(&payload), Err(QueryError::MalformedResponse));
}

#[test]
fn short_datagram_is_malformed() {
    for n in 0..11 {
        let datagram = vec![0u8; n];
        assert_eq!(decode_datagram(&datagram), Err(QueryError::MalformedResponse));
    }
}

#[test]
fn header_only_datagram_is_malformed() {
    // exactly the echoed header: empty payload, too short for the fields
    let datagram = vec![0u8; 11];
    assert_eq!(decode_datagram(&datagram), Err(QueryError::MalformedResponse));
}

#[test]
fn player_count_boundaries_round_trip() {
    let payload = [
        1u8, // password: on
        0xFF, 0xFF, // players: 65535
        0x00, 0x00, // max players: 0
        0, 0, 0, 0, // hostname: empty
        0, 0, 0, 0, // gamemode: empty
        0, 0, 0, 0, // language: empty
    ];
    let info = decode_payload(&payload).unwrap();
    assert_eq!(info.password, true);
    assert_eq!(info.players, 65535);
    assert_eq!(info.max_players, 0);
    assert_eq!(info.hostname, "");
    assert_eq!(info.gamemode, "");
    assert_eq!(info.language, "");
}

#[test]
fn nonzero_password_flag_is_true() {
    let mut payload = SAMPLE_PAYLOAD.to_vec();
    payload[0] = 0xFF;
    let info = decode_payload(&payload).unwrap();
    assert_eq!(info.password, true);
}

#[test]
fn trailing_bytes_are_ignored() {
    let mut payload = SAMPLE_PAYLOAD.to_vec();
    payload.extend_from_slice(&[1, 2, 3, 4]);
    let info = decode_payload(&payload).unwrap();
    assert_eq!(info.hostname, "Hello");
    assert_eq!(info.language, "en");
}

#[test]
fn invalid_utf8_is_malformed() {
    // hostname of one byte that is no valid UTF-8 encoding
    let payload = [0u8, 0, 0, 0, 0, 1, 0, 0, 0, 0xFF, 0, 0, 0, 0, 0, 0, 0, 0];
    assert_eq!(decode_payload(&payload), Err(QueryError::MalformedResponse));
}

#[test]
fn multibyte_utf8_decodes() {
    // hostname "é" is two bytes but one character
    let payload = [
        0u8, 0, 0, 0, 0, 2, 0, 0, 0, 0xC3, 0xA9, 0, 0, 0, 0, 0, 0, 0, 0,
    ];
    let info = decode_payload(&payload).unwrap();
    assert_eq!(info.hostname, "\u{e9}");
    assert_eq!(info.hostname.chars().count(), 1);
}

#[test]
fn request_frame_round_trips() {
    let query = Query::new("51.91.203.178", 7777).unwrap();
    let frame = query.encode_request();
    assert_eq!(
        frame,
        vec![b'S', b'A', b'M', b'P', 51, 91, 203, 178, 97, 30, b'i']
    );
    // re-parse the frame: octets and port bytes sit where they were written
    assert_eq!(frame[4..8].to_vec(), vec![51, 91, 203, 178]);
    let port = u16::from(frame[8]) + 256 * u16::from(frame[9]);
    assert_eq!(port, 7777);
}

#[test]
fn wide_port_is_masked() {
    let query = Query::new("185.169.134.3", 0x11170).unwrap();
    let frame = query.encode_request();
    assert_eq!(frame[8], 0x70);
    assert_eq!(frame[9], 0x11);
    assert_eq!(frame.len(), 11);
}

#[test]
fn port_boundaries_encode() {
    let zero = Query::new("0.0.0.0", 0).unwrap().encode_request();
    assert_eq!((zero[8], zero[9]), (0, 0));
    let max = Query::new("255.255.255.255", 65535).unwrap().encode_request();
    assert_eq!((max[8], max[9]), (0xFF, 0xFF));
}

#[test]
fn parses_valid_addresses() {
    let q = Query::new("193.203.39.13", 80).unwrap();
    assert_eq!(q.address, [193, 203, 39, 13]);
    assert_eq!(q.port, 80);
    assert_eq!(Query::new("0.0.0.0", 1).unwrap().address, [0, 0, 0, 0]);
    assert_eq!(
        Query::new("255.255.255.255", 1).unwrap().address,
        [255, 255, 255, 255]
    );
    assert_eq!(Query::new("1.2.3.4", 1).unwrap().address, [1, 2, 3, 4]);
}

#[test]
fn rejects_invalid_addresses() {
    let bad = [
        "",
        "1",
        "1.2.3",
        "1.2.3.4.5",
        "1.2.3.",
        ".1.2.3.4",
        "256.0.0.1",
        "1.2.3.999",
        "01.2.3.4",
        "00.0.0.0",
        "1.2.3.4 ",
        " 1.2.3.4",
        "1..2.3",
        "a.b.c.d",
        "1.2.3.4x",
        "1,2,3,4",
    ];
    for s in bad {
        assert_eq!(Query::new(s, 7777), Err(QueryError::InvalidAddress), "{}", s);
    }
}

#[test]
fn default_record_is_empty() {
    let info = InfoPacket::default();
    assert_eq!(info.password, false);
    assert_eq!(info.players, 0);
    assert_eq!(info.max_players, 0);
    assert_eq!(info.hostname, "");
    assert_eq!(info.gamemode, "");
    assert_eq!(info.language, "");
}
