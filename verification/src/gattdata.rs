//! Inbound data over the GATT channel: framed exactly like SPP data, an
//! optional decimal length prefix, a comma, then the payload.
use vstd::prelude::*;

verus! {

use crate::error::Utf8Error;
use crate::sppdata::data_of;

/// The payload of a GATT data indication, as UTF-8 text.
pub type GattData = String;

/// Strips the optional length prefix and decodes the payload as UTF-8.
pub fn parse(value: &[u8]) -> (r: Result<GattData, Utf8Error>)
    ensures
        match r {
            Ok(v) => data_of(value@) == Ok::<Seq<char>, Utf8Error>(v@),
            Err(e) => data_of(value@) == Err::<Seq<char>, Utf8Error>(e),
        },
{
    crate::sppdata::parse(value)
}

} // verus!
