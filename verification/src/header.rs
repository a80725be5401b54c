//! The seven-byte header that precedes every request on the TCP side.

use vstd::prelude::*;
use crate::wire::{be_bytes, join_word, lemma_bytes_of_word, word};

verus! {

/// Number of bytes in the header: transaction id, protocol id, length, unit id.
pub const HEADER_LEN: usize = 7;

/// Number of header bytes that are echoed in front of a reply: transaction
/// id and protocol id.
pub const ECHO_LEN: usize = 4;

/// Offset of the unit id, the first byte that is forwarded to the serial bus.
pub const UNIT_OFFSET: usize = 6;

/// Smallest value the length field may hold.
pub const MIN_LENGTH: u16 = 6;

/// Largest value the length field may hold.
pub const MAX_LENGTH: u16 = 250;

/// The only protocol id the gateway serves.
pub const MODBUS_PROTOCOL: u16 = 0;

/// The header of a request, decoded.
#[derive(Clone, Copy, Debug, PartialEq, Eq, Structural)]
pub struct TcpHeader {
    /// Chosen by the client and echoed back unchanged.
    pub transaction_id: u16,
    /// Zero for Modbus.
    pub protocol_id: u16,
    /// Number of bytes that the client announces after the length field:
    /// the unit id and the request body.
    pub length: u16,
    /// Address of the device on the serial bus.
    pub unit_id: u8,
}

/// Why the bytes of a client were not accepted as a request. Each of them
/// ends the connection without a reply.
#[derive(Clone, Copy, Debug, PartialEq, Eq, Structural)]
pub enum FrameError {
    /// Fewer than seven bytes were read.
    MalformedHeader,
    /// The protocol id is not zero.
    UnsupportedProtocol,
    /// The length field is below 6 or above 250.
    InvalidLength,
}

/// The header fields as they stand in the first seven bytes of `bytes`.
pub open spec fn header_fields(bytes: Seq<u8>) -> TcpHeader
    recommends
        bytes.len() >= HEADER_LEN,
{
    TcpHeader {
        transaction_id: word(bytes[0], bytes[1]) as u16,
        protocol_id: word(bytes[2], bytes[3]) as u16,
        length: word(bytes[4], bytes[5]) as u16,
        unit_id: bytes[6],
    }
}

/// What parsing `bytes` yields: the header, or the first reason that speaks
/// against it, in the order short read, protocol, length.
pub open spec fn parsed(bytes: Seq<u8>) -> Result<TcpHeader, FrameError> {
    let header = header_fields(bytes);
    if bytes.len() < HEADER_LEN {
        Err(FrameError::MalformedHeader)
    } else if header.protocol_id != MODBUS_PROTOCOL {
        Err(FrameError::UnsupportedProtocol)
    } else if header.length < MIN_LENGTH || header.length > MAX_LENGTH {
        Err(FrameError::InvalidLength)
    } else {
        Ok(header)
    }
}

/// Whether `unit_id` is one of the two broadcast addresses. No device
/// answers a request sent to them.
pub open spec fn broadcast_address(unit_id: u8) -> bool {
    unit_id == 0 || unit_id == 255
}

/// The bytes that open every reply to a request with this header.
pub open spec fn echo(header: TcpHeader) -> Seq<u8> {
    be_bytes(header.transaction_id) + be_bytes(header.protocol_id)
}

impl TcpHeader {
    /// Whether the request goes to a broadcast address.
    pub fn is_broadcast(&self) -> (b: bool)
        ensures
            b == broadcast_address(self.unit_id),
    {
        is_broadcast(self.unit_id)
    }
}

/// Whether `unit_id` is a broadcast address.
pub fn is_broadcast(unit_id: u8) -> (b: bool)
    ensures
        b == broadcast_address(unit_id),
{
    unit_id == 0 || unit_id == 255
}

/// Decodes and checks the header at the start of `bytes`.
pub fn parse_tcp_header(bytes: &[u8]) -> (result: Result<TcpHeader, FrameError>)
    ensures
        result == parsed(bytes@),
        result is Ok <==> {
            &&& bytes@.len() >= HEADER_LEN
            &&& word(bytes@[2], bytes@[3]) == 0
            &&& MIN_LENGTH <= word(bytes@[4], bytes@[5]) <= MAX_LENGTH
        },
{
    if bytes.len() < HEADER_LEN {
        return Err(FrameError::MalformedHeader);
    }
    let header = TcpHeader {
        transaction_id: join_word(bytes[0], bytes[1]),
        protocol_id: join_word(bytes[2], bytes[3]),
        length: join_word(bytes[4], bytes[5]),
        unit_id: bytes[6],
    };
    if header.protocol_id != MODBUS_PROTOCOL {
        return Err(FrameError::UnsupportedProtocol);
    }
    if header.length < MIN_LENGTH || header.length > MAX_LENGTH {
        return Err(FrameError::InvalidLength);
    }
    Ok(header)
}

/// The echo of a header is the first four bytes it was read from.
pub proof fn lemma_echo_repeats_prefix(bytes: Seq<u8>)
    requires
        bytes.len() >= HEADER_LEN,
    ensures
        echo(header_fields(bytes)) == bytes.subrange(0, ECHO_LEN as int),
{
    lemma_bytes_of_word(bytes[0], bytes[1]);
    lemma_bytes_of_word(bytes[2], bytes[3]);
    assert(echo(header_fields(bytes)) =~= bytes.subrange(0, ECHO_LEN as int));
}

} // verus!
