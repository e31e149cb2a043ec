//! The composition point of the receive path: framed messages go straight to
//! the decoder.  The surrounding read loop, which waits on the transport and
//! hands chunks in, lives outside the library.
use vstd::prelude::*;

verus! {

use crate::error::Error;
use crate::error::ErrorView;
use crate::framer::Framer;
use crate::framer::FramerView;
use crate::indication::Indication;
use crate::indication::IndicationView;
use crate::indication::decode;

/// Takes the oldest framed message, if one is pending, and decodes it.  The
/// result is exactly [`decode`] of that message's bytes; the framer's other
/// state is untouched.
pub fn take_indication(framer: &mut Framer) -> (r: Option<Result<Indication, Error>>)
    ensures
        match r {
            None => final(framer)@ == old(framer)@ && old(framer)@.msgs.len() == 0,
            Some(res) => {
                &&& old(framer)@.msgs.len() > 0
                &&& final(framer)@ == (FramerView {
                    msgs: old(framer)@.msgs.drop_first(),
                    ..old(framer)@
                })
                &&& match res {
                    Ok(i) => decode(old(framer)@.msgs[0]) == Ok::<IndicationView, ErrorView>(i@),
                    Err(e) => decode(old(framer)@.msgs[0]) == Err::<IndicationView, ErrorView>(e@),
                }
            },
        },
{
    match framer.try_take_message() {
        None => None,
        Some(msg) => Some(Indication::try_from(msg.as_slice())),
    }
}

} // verus!
