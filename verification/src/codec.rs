//! Decoding of query responses: the payload reader and the datagram
//! header skip, each with an exact contract over the wire model.

use vstd::prelude::*;
use vstd::utf8::decode_utf8;
use vstd::utf8::valid_utf8;

use crate::wire::datagram_fields;
use crate::wire::field_bytes;
use crate::wire::field_end;
use crate::wire::le16_at;
use crate::wire::le32_at;
use crate::wire::payload_fields;
use crate::wire::ResponseFields;
use crate::InfoPacket;
use crate::QueryError;

verus! {

/// Whether all three text fields hold valid UTF-8.
pub open spec fn texts_valid(f: ResponseFields) -> bool {
    &&& valid_utf8(f.hostname)
    &&& valid_utf8(f.gamemode)
    &&& valid_utf8(f.language)
}

/// Whether the record `p` is the decoding of the fields `f`.
pub open spec fn record_of(f: ResponseFields, p: InfoPacket) -> bool {
    &&& p.password == f.password
    &&& p.players == f.players
    &&& p.max_players == f.max_players
    &&& p.hostname@ == decode_utf8(f.hostname)
    &&& p.gamemode@ == decode_utf8(f.gamemode)
    &&& p.language@ == decode_utf8(f.language)
}

/// The decode contract: malformed structure or invalid text fails with
/// `MalformedResponse`, and a success is exactly the decoding of the
/// fields. Decoding succeeds if and only if the structure is well formed
/// and all three texts are valid UTF-8.
pub open spec fn decode_result_matches(
    fields: Option<ResponseFields>,
    r: Result<InfoPacket, QueryError>,
) -> bool {
    match fields {
        None => r == Err::<InfoPacket, QueryError>(QueryError::MalformedResponse),
        Some(f) => match r {
            Ok(p) => texts_valid(f) && record_of(f, p),
            Err(e) => e == QueryError::MalformedResponse && !texts_valid(f),
        },
    }
}

/// Reads the little-endian `u16` at offset `i`.
fn read_u16_le(b: &[u8], i: usize) -> (v: u16)
    requires
        i + 2 <= b@.len(),
    ensures
        v == le16_at(b@, i as int),
{
    let lo = b[i];
    let hi = b[i + 1];
    lo as u16 + 256 * (hi as u16)
}

/// Reads the little-endian `u32` at offset `i`.
fn read_u32_le(b: &[u8], i: usize) -> (v: u32)
    requires
        i + 4 <= b@.len(),
    ensures
        v == le32_at(b@, i as int),
{
    let b0 = b[i];
    let b1 = b[i + 1];
    let b2 = b[i + 2];
    let b3 = b[i + 3];
    b0 as u32 + 256 * (b1 as u32) + 65536 * (b2 as u32) + 16777216 * (b3 as u32)
}

/// Copies `n` bytes of `b` starting at `start` into a fresh vector.
fn take_bytes(b: &[u8], start: usize, n: usize) -> (r: Vec<u8>)
    requires
        start + n <= b@.len(),
    ensures
        r@ == b@.subrange(start as int, start + n),
{
    let blen = b.len();
    let mut r: Vec<u8> = Vec::new();
    let mut k: usize = 0;
    while k < n
        invariant
            start + n <= blen == b@.len(),
            k <= n,
            r@ =~= b@.subrange(start as int, start + k),
        decreases n - k,
    {
        r.push(b[start + k]);
        k = k + 1;
    }
    r
}

/// Reads the length-prefixed field that starts at offset `i`: its bytes
/// and the offset just past it, or `None` when the length prefix or the
/// declared bytes run off the end.
fn read_field(b: &[u8], i: usize) -> (r: Option<(Vec<u8>, usize)>)
    requires
        i <= b@.len(),
    ensures
        match r {
            Some(v) => {
                &&& field_end(b@, i as int) == Some(v.1 as int)
                &&& v.0@ == field_bytes(b@, i as int)
                &&& i + 4 <= v.1 <= b@.len()
            },
            None => field_end(b@, i as int) is None,
        },
{
    if b.len() - i < 4 {
        return None;
    }
    let n = read_u32_le(b, i);
    let rest = b.len() - (i + 4);
    if n as usize > rest {
        return None;
    }
    let bytes = take_bytes(b, i + 4, n as usize);
    Some((bytes, i + 4 + n as usize))
}

/// Relies on `String::from_utf8`: it returns `Ok` exactly when the bytes
/// are valid UTF-8 and then decodes them, with validity and decoding as
/// vstd's `utf8` module states them.
#[verifier::external_body]
fn bytes_to_string(v: Vec<u8>) -> (r: Option<String>)
    ensures
        r matches Some(s) ==> valid_utf8(v@) && s@ == decode_utf8(v@),
        r is None ==> !valid_utf8(v@),
{
    String::from_utf8(v).ok()
}

/// Decodes a response payload (the bytes after the echoed 11-byte header)
/// into a server-info record. Fails with `MalformedResponse` exactly when
/// the structure is truncated, a declared length runs past the end, or a
/// text field is not valid UTF-8.
pub fn decode_payload(payload: &[u8]) -> (r: Result<InfoPacket, QueryError>)
    ensures
        decode_result_matches(payload_fields(payload@), r),
{
    if payload.len() < 5 {
        return Err(QueryError::MalformedResponse);
    }
    let password = payload[0] != 0;
    let players = read_u16_le(payload, 1);
    let max_players = read_u16_le(payload, 3);
    let (hostname_bytes, e1) = match read_field(payload, 5) {
        None => {
            return Err(QueryError::MalformedResponse);
        },
        Some(x) => x,
    };
    let (gamemode_bytes, e2) = match read_field(payload, e1) {
        None => {
            return Err(QueryError::MalformedResponse);
        },
        Some(x) => x,
    };
    let (language_bytes, _e3) = match read_field(payload, e2) {
        None => {
            return Err(QueryError::MalformedResponse);
        },
        Some(x) => x,
    };
    let hostname = match bytes_to_string(hostname_bytes) {
        None => {
            return Err(QueryError::MalformedResponse);
        },
        Some(s) => s,
    };
    let gamemode = match bytes_to_string(gamemode_bytes) {
        None => {
            return Err(QueryError::MalformedResponse);
        },
        Some(s) => s,
    };
    let language = match bytes_to_string(language_bytes) {
        None => {
            return Err(QueryError::MalformedResponse);
        },
        Some(s) => s,
    };
    Ok(InfoPacket { password, players, max_players, hostname, gamemode, language })
}

/// Decodes a whole received datagram: skips the echoed 11-byte header and
/// decodes the rest. A datagram shorter than the header fails with
/// `MalformedResponse` rather than slicing out of range.
pub fn decode_datagram(datagram: &[u8]) -> (r: Result<InfoPacket, QueryError>)
    ensures
        decode_result_matches(datagram_fields(datagram@), r),
        datagram@.len() < 11 ==> r == Err::<InfoPacket, QueryError>(QueryError::MalformedResponse),
{
    if datagram.len() < 11 {
        return Err(QueryError::MalformedResponse);
    }
    let payload = &datagram[11..datagram.len()];
    decode_payload(payload)
}

/// An empty byte field is valid UTF-8 and decodes to the empty text, so a
/// zero length prefix yields an empty string rather than an error.
pub proof fn lemma_empty_field_decodes_empty(f: ResponseFields, p: InfoPacket)
    requires
        record_of(f, p),
        f.hostname.len() == 0,
    ensures
        valid_utf8(f.hostname),
        p.hostname@ =~= Seq::<char>::empty(),
{
    assert(f.hostname =~= Seq::<u8>::empty());
    assert(valid_utf8(f.hostname));
    assert(decode_utf8(f.hostname) =~= Seq::<char>::empty());
}

/// Decode determinism: any two results the decode contract admits for the
/// same fields agree — same success or failure, same error, and on
/// success the records agree field for field.
pub proof fn lemma_decode_deterministic(
    fields: Option<ResponseFields>,
    r1: Result<InfoPacket, QueryError>,
    r2: Result<InfoPacket, QueryError>,
)
    requires
        decode_result_matches(fields, r1),
        decode_result_matches(fields, r2),
    ensures
        r1 is Ok <==> r2 is Ok,
        r1 is Err ==> r1 == r2,
        r1 matches Ok(p1) ==> r2 matches Ok(p2) ==> {
            &&& p1.password == p2.password
            &&& p1.players == p2.players
            &&& p1.max_players == p2.max_players
            &&& p1.hostname@ == p2.hostname@
            &&& p1.gamemode@ == p2.gamemode@
            &&& p1.language@ == p2.language@
        },
{
}

} // verus!
