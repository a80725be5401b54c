//! Exception replies that the gateway writes itself.
//!
//! Whatever goes wrong on the serial bus, the client is told in the same way:
//! an exception reply with the function code of its request and the code for
//! "gateway target device failed to respond".

use vstd::prelude::*;

verus! {

/// The exception code the gateway uses for every failure on the bus.
pub const TARGET_FAILED_TO_RESPOND: u8 = 0x0B;

/// The bit that marks a function code as that of an exception reply.
pub const EXCEPTION_FLAG: u8 = 0x80;

/// Value of the length field in front of an exception reply: unit id,
/// function code, exception code.
pub const EXCEPTION_LENGTH: u8 = 3;

/// The function code of the exception reply to a request: the function
/// code of the request with its top bit set.
pub open spec fn exception_function(function_code: u8) -> u8 {
    if function_code < EXCEPTION_FLAG {
        (function_code + EXCEPTION_FLAG) as u8
    } else {
        function_code
    }
}

/// An exception reply without the echoed part of the header: the length
/// field, the unit id, the marked function code and the exception code.
pub open spec fn exception_body(unit_id: u8, function_code: u8, code: u8) -> Seq<u8> {
    seq![0u8, EXCEPTION_LENGTH, unit_id, exception_function(function_code), code]
}

/// Builds the exception reply to a request for `function_code` at `unit_id`,
/// without the echoed part of the header.
pub fn synthesize_exception(unit_id: u8, function_code: u8, code: u8) -> (body: Vec<u8>)
    ensures
        body@ == exception_body(unit_id, function_code, code),
{
    let mut body: Vec<u8> = Vec::new();
    body.push(0);
    body.push(EXCEPTION_LENGTH);
    body.push(unit_id);
    proof {
        lemma_exception_function(function_code);
    }
    body.push(function_code | EXCEPTION_FLAG);
    body.push(code);
    body
}

/// Setting the top bit of a function code with a bitwise or gives its
/// exception function code.
pub proof fn lemma_exception_function(function_code: u8)
    ensures
        function_code | EXCEPTION_FLAG == exception_function(function_code),
        exception_function(function_code) >= EXCEPTION_FLAG,
{
    assert(function_code < 0x80 ==> (function_code | 0x80u8) == function_code + 0x80)
        by (bit_vector);
    assert(function_code >= 0x80 ==> (function_code | 0x80u8) == function_code) by (bit_vector);
}

} // verus!
