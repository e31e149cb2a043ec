//! Inbound data over the serial-port (SPP) channel: an optional decimal length
//! prefix, a comma, then the payload.  The prefix, when present, is stripped
//! here and not checked against the payload length.
use vstd::prelude::*;

verus! {

use crate::bytes::contains_byte;
use crate::bytes::split_after;
use crate::bytes::find_byte;
use crate::error::Utf8Error;
use crate::text::utf8_field;
use crate::text::utf8_result;
use vstd::slice::slice_subrange;

/// The payload of an SPP data indication, as UTF-8 text.
pub type SppData = String;

/// The payload bytes of a data parameter: everything after the first comma,
/// or the whole parameter when it has no comma.
pub open spec fn data_payload(s: Seq<u8>) -> Seq<u8> {
    if contains_byte(s, 0x2c) {
        split_after(s, 0x2c)
    } else {
        s
    }
}

/// What stripping the length prefix and decoding the payload yields.
pub open spec fn data_of(s: Seq<u8>) -> Result<Seq<char>, Utf8Error> {
    utf8_result(data_payload(s))
}

/// Strips the optional length prefix and decodes the payload as UTF-8.
pub fn parse(value: &[u8]) -> (r: Result<SppData, Utf8Error>)
    ensures
        match r {
            Ok(v) => data_of(value@) == Ok::<Seq<char>, Utf8Error>(v@),
            Err(e) => data_of(value@) == Err::<Seq<char>, Utf8Error>(e),
        },
{
    let i: usize = find_byte(value, 0x2c);
    let payload: &[u8] = if i < value.len() {
        slice_subrange(value, i + 1, value.len())
    } else {
        value
    };
    proof {
        assert(payload@ =~= data_payload(value@));
    }
    utf8_field(payload)
}

} // verus!
