//! Client-side library for the SA-MP server query protocol: building the
//! 11-byte info request frame, parsing dotted-quad IPv4 address literals,
//! and decoding the binary response into a structured server-info record.
//!
//! The library holds the whole codec; the caller supplies the transport
//! (one UDP send, one bounded receive) and hands the received datagram
//! back for decoding.

use vstd::prelude::*;

pub mod addr;
pub mod codec;
pub mod wire;

use crate::addr::ipv4_octets;
use crate::addr::parse_ipv4;
use vstd::string::StringSliceAdditionalSpecFns;

verus! {

/// A server's status as decoded from one query response.
#[derive(Debug, PartialEq, Eq)]
pub struct InfoPacket {
    /// Whether the server requires a password to join.
    pub password: bool,
    /// Players currently connected.
    pub players: u16,
    /// Player capacity.
    pub max_players: u16,
    /// Server name.
    pub hostname: String,
    /// Game mode label.
    pub gamemode: String,
    /// Language or locale label.
    pub language: String,
}

impl Default for InfoPacket {
    /// The all-empty scaffold record: no protection, zero counts, empty texts.
    fn default() -> (r: Self)
        ensures
            !r.password,
            r.players == 0,
            r.max_players == 0,
            r.hostname@ == Seq::<char>::empty(),
            r.gamemode@ == Seq::<char>::empty(),
            r.language@ == Seq::<char>::empty(),
    {
        InfoPacket {
            password: false,
            players: 0,
            max_players: 0,
            hostname: String::new(),
            gamemode: String::new(),
            language: String::new(),
        }
    }
}

/// Everything that can go wrong between constructing a query and decoding
/// its reply.
#[derive(Debug, Clone, Copy, PartialEq, Eq, Structural)]
pub enum QueryError {
    /// The address string is not a dotted-quad IPv4 literal.
    InvalidAddress,
    /// Bind, connect, send, or receive failed at the transport layer.
    Io,
    /// No reply arrived within the bounded wait.
    Timeout,
    /// The reply is too short for a field, a declared length runs past the
    /// end, or a text field is not valid UTF-8.
    MalformedResponse,
}

/// One pending query: the remote endpoint, fixed at construction.
#[derive(Debug, PartialEq, Eq)]
pub struct Query {
    /// The four octets of the remote IPv4 address.
    pub address: [u8; 4],
    /// The remote port; only its low 16 bits reach the wire.
    pub port: i32,
}

impl Query {
    /// Parses the address and fixes the endpoint. Fails with
    /// `InvalidAddress` exactly when the string is not a dotted-quad IPv4
    /// literal. The port is taken as given; encoding masks it to 16 bits.
    pub fn new(address: &str, port: i32) -> (r: Result<Query, QueryError>)
        ensures
            r is Ok <==> ipv4_octets(address.spec_bytes()) is Some,
            r matches Ok(q) ==> ipv4_octets(address.spec_bytes()) == Some(q.address@) && q.port
                == port,
            r matches Err(e) ==> e == QueryError::InvalidAddress,
    {
        match parse_ipv4(address.as_bytes()) {
            Some(octets) => Ok(Query { address: octets, port }),
            None => Err(QueryError::InvalidAddress),
        }
    }

    /// Builds the 11-byte request frame for the info query.
    pub fn encode_request(&self) -> (r: Vec<u8>)
        ensures
            r@ == wire::request_bytes(self.address@, self.port),
    {
        let port = self.port;
        assert(0 <= (port & 0xFF) < 256) by (bit_vector);
        assert(0 <= ((port >> 8) & 0xFF) < 256) by (bit_vector);
        let mut r: Vec<u8> = Vec::new();
        r.push(wire::MAGIC_S);
        r.push(wire::MAGIC_A);
        r.push(wire::MAGIC_M);
        r.push(wire::MAGIC_P);
        r.push(self.address[0]);
        r.push(self.address[1]);
        r.push(self.address[2]);
        r.push(self.address[3]);
        r.push((port & 0xFF) as u8);
        r.push(((port >> 8) & 0xFF) as u8);
        r.push(wire::OPCODE_INFO);
        proof {
            assert(r@ =~= wire::request_bytes(self.address@, self.port));
        }
        r
    }
}

} // verus!
