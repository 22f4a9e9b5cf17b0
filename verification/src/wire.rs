//! Wire-format model of the query protocol: the 11-byte request frame and
//! the layout of the response payload.
//!
//! The request is `"SAMP"`, the four address octets, the port as two
//! little-endian bytes, and the opcode `'i'`. The response payload (the
//! bytes after the echoed 11-byte header) is a 1-byte password flag, two
//! little-endian `u16` player counts, and three length-prefixed text
//! fields (4-byte little-endian length, then that many bytes).

use vstd::prelude::*;

verus! {

/// Little-endian value of two bytes.
pub open spec fn le16_of(b0: u8, b1: u8) -> u16 {
    (b0 + 256 * b1) as u16
}

/// Little-endian value of four bytes.
pub open spec fn le32_of(b0: u8, b1: u8, b2: u8, b3: u8) -> u32 {
    (b0 + 256 * b1 + 65536 * b2 + 16777216 * b3) as u32
}

/// The little-endian `u16` at offset `i` of `b`.
pub open spec fn le16_at(b: Seq<u8>, i: int) -> u16
    recommends
        0 <= i,
        i + 2 <= b.len(),
{
    le16_of(b[i], b[i + 1])
}

/// The little-endian `u32` at offset `i` of `b`.
pub open spec fn le32_at(b: Seq<u8>, i: int) -> u32
    recommends
        0 <= i,
        i + 4 <= b.len(),
{
    le32_of(b[i], b[i + 1], b[i + 2], b[i + 3])
}

/// Offset just past the length-prefixed field that starts at offset `i`,
/// or `None` when the length prefix or the declared bytes run off the end.
pub open spec fn field_end(b: Seq<u8>, i: int) -> Option<int>
    recommends
        0 <= i <= b.len(),
{
    if i + 4 > b.len() {
        None
    } else if i + 4 + le32_at(b, i) > b.len() {
        None
    } else {
        Some(i + 4 + le32_at(b, i))
    }
}

/// The bytes of the length-prefixed field that starts at offset `i`.
pub open spec fn field_bytes(b: Seq<u8>, i: int) -> Seq<u8>
    recommends
        field_end(b, i) is Some,
{
    b.subrange(i + 4, i + 4 + le32_at(b, i))
}

/// The response payload's fields, still as raw bytes for the three texts.
pub struct ResponseFields {
    pub password: bool,
    pub players: u16,
    pub max_players: u16,
    pub hostname: Seq<u8>,
    pub gamemode: Seq<u8>,
    pub language: Seq<u8>,
}

/// Structure of a well-formed response payload: flag, two counts, three
/// length-prefixed fields. `None` when any read would run off the end.
/// Bytes past the third field are ignored.
pub open spec fn payload_fields(b: Seq<u8>) -> Option<ResponseFields> {
    if b.len() < 5 {
        None
    } else {
        match field_end(b, 5) {
            None => None,
            Some(e1) => match field_end(b, e1) {
                None => None,
                Some(e2) => match field_end(b, e2) {
                    None => None,
                    Some(_e3) => Some(
                        ResponseFields {
                            password: b[0] != 0,
                            players: le16_at(b, 1),
                            max_players: le16_at(b, 3),
                            hostname: field_bytes(b, 5),
                            gamemode: field_bytes(b, e1),
                            language: field_bytes(b, e2),
                        },
                    ),
                },
            },
        }
    }
}

/// Fields of a whole received datagram: the server echoes the 11-byte
/// request header, and the payload is everything after it. A datagram
/// shorter than the header has no payload and no fields.
pub open spec fn datagram_fields(d: Seq<u8>) -> Option<ResponseFields> {
    if d.len() < 11 {
        None
    } else {
        payload_fields(d.subrange(11, d.len() as int))
    }
}

/// Low byte of the port as it is written on the wire.
pub open spec fn port_low_byte(port: i32) -> u8 {
    (port & 0xFF) as u8
}

/// High byte of the port as it is written on the wire.
pub open spec fn port_high_byte(port: i32) -> u8 {
    ((port >> 8) & 0xFF) as u8
}

/// The ASCII bytes of the magic `"SAMP"` that opens every request.
pub const MAGIC_S: u8 = 83;

/// Second magic byte, ASCII `'A'`.
pub const MAGIC_A: u8 = 65;

/// Third magic byte, ASCII `'M'`.
pub const MAGIC_M: u8 = 77;

/// Fourth magic byte, ASCII `'P'`.
pub const MAGIC_P: u8 = 80;

/// The opcode byte selecting the server-info query, ASCII `'i'`.
pub const OPCODE_INFO: u8 = 105;

/// The 11-byte request frame for the info query: magic `"SAMP"`, the four
/// address octets, the port little-endian, and the opcode `'i'`.
pub open spec fn request_bytes(address: Seq<u8>, port: i32) -> Seq<u8>
    recommends
        address.len() == 4,
{
    seq![
        MAGIC_S,
        MAGIC_A,
        MAGIC_M,
        MAGIC_P,
        address[0],
        address[1],
        address[2],
        address[3],
        port_low_byte(port),
        port_high_byte(port),
        OPCODE_INFO,
    ]
}

/// Re-parsing the first 11 bytes of an encoded request recovers the
/// address octets and the port's low and high bytes in their positions,
/// and the two port bytes read back little-endian give the port's low
/// 16 bits exactly.
pub proof fn lemma_request_round_trip(address: Seq<u8>, port: i32)
    requires
        address.len() == 4,
    ensures
        request_bytes(address, port).len() == 11,
        request_bytes(address, port).subrange(4, 8) =~= address,
        request_bytes(address, port)[8] == port_low_byte(port),
        request_bytes(address, port)[9] == port_high_byte(port),
        le16_of(request_bytes(address, port)[8], request_bytes(address, port)[9]) == port & 0xFFFF,
{
    assert(((port & 0xFF) as u8) + 256 * (((port >> 8) & 0xFF) as u8) == (port & 0xFFFF))
        by (bit_vector);
}

/// Any `u16` written as its low byte then its high byte is read back
/// exactly by the little-endian decode.
pub proof fn lemma_le16_round_trip(v: u16)
    ensures
        le16_of((v & 0xFF) as u8, ((v >> 8) & 0xFF) as u8) == v,
{
    assert(((v & 0xFF) as u8) + 256 * (((v >> 8) & 0xFF) as u8) == v) by (bit_vector);
}

/// A payload shorter than the five fixed header bytes, or one whose
/// declared first field length exceeds the remaining bytes, has no
/// well-formed structure; and a well-formed payload holds every byte it
/// declares, so no read steps out of bounds.
pub proof fn lemma_truncated_payload_rejected(b: Seq<u8>)
    ensures
        b.len() < 5 ==> payload_fields(b) is None,
        b.len() >= 9 && 9 + le32_at(b, 5) > b.len() ==> payload_fields(b) is None,
        payload_fields(b) matches Some(f) ==> 17 + f.hostname.len() + f.gamemode.len()
            + f.language.len() <= b.len(),
{
}

} // verus!
