//! How long the reply of a device is going to be.
//!
//! A reply on the serial bus carries no length of its own. After its first
//! three bytes (unit id, function code, one more byte) the number of bytes
//! that still have to follow is known from the function code of the request.

use vstd::prelude::*;
use crate::checksum::CHECKSUM_LEN;

verus! {

/// Number of bytes read from the bus before the rest of a reply can be sized.
pub const REPLY_HEAD_LEN: usize = 3;

/// Bytes that follow the head of an exception reply.
pub const EXCEPTION_TRAILER_LEN: usize = 2;

/// Bytes that follow the head of the reply to a write request: the rest of
/// the address, the value and the checksum. After the head of the reply to
/// a read request follow as many bytes as its third byte counts, and the
/// checksum.
pub const WRITE_TRAILER_LEN: usize = 5;

/// The kinds of request whose reply the gateway can size.
#[derive(Clone, Copy, Debug, PartialEq, Eq, Structural)]
pub enum FunctionClass {
    /// Function codes 1 to 4: the third byte of the reply counts its data bytes.
    Read,
    /// Function codes 5, 6, 15 and 16: the reply has a fixed length.
    Write,
    /// Any other function code: the length of the reply is not known.
    Unsupported,
}

/// The class of a function code.
pub open spec fn class_of(function_code: u8) -> FunctionClass {
    if 1 <= function_code <= 4 {
        FunctionClass::Read
    } else if function_code == 5 || function_code == 6 || function_code == 15 || function_code
        == 16 {
        FunctionClass::Write
    } else {
        FunctionClass::Unsupported
    }
}

/// Number of bytes that follow the three-byte head of a reply. `function_code`
/// is what the request asked for, `echoed` the function code in the reply and
/// `third` the byte after it. Zero means that the reply cannot be sized.
pub open spec fn trailer_length(function_code: u8, echoed: u8, third: u8) -> nat {
    if echoed != function_code {
        EXCEPTION_TRAILER_LEN as nat
    } else {
        match class_of(function_code) {
            FunctionClass::Read => (third + CHECKSUM_LEN) as nat,
            FunctionClass::Write => WRITE_TRAILER_LEN as nat,
            FunctionClass::Unsupported => 0,
        }
    }
}

/// The class of `function_code`.
pub fn classify(function_code: u8) -> (class: FunctionClass)
    ensures
        class == class_of(function_code),
{
    match function_code {
        1 | 2 | 3 | 4 => FunctionClass::Read,
        5 | 6 | 15 | 16 => FunctionClass::Write,
        _ => FunctionClass::Unsupported,
    }
}

/// Number of bytes still to be read after the head of a reply.
pub fn expected_reply_trailer_length(function_code: u8, echoed_function_code: u8, third_byte: u8)
    -> (count: usize)
    ensures
        count == trailer_length(function_code, echoed_function_code, third_byte),
        count <= 257,
{
    if echoed_function_code != function_code {
        return EXCEPTION_TRAILER_LEN;
    }
    match classify(function_code) {
        FunctionClass::Read => {
            let data: usize = third_byte as usize;
            data + CHECKSUM_LEN
        },
        FunctionClass::Write => WRITE_TRAILER_LEN,
        FunctionClass::Unsupported => 0,
    }
}

} // verus!
