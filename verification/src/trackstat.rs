//! The playback-state record: a playback status code and two durations in
//! milliseconds, comma-separated.
use vstd::prelude::*;

verus! {

use vstd::utf8::valid_utf8;
use crate::bytes::split_before;
use crate::bytes::split_after;
use crate::bytes::split_at_byte;
use crate::error::Error;
use crate::error::ErrorView;
use crate::error::Utf8Error;
use crate::numbers::dec_result;
use crate::status::PlayStat;
use crate::status::play_stat_of;
use crate::text::utf8_check;
use crate::text::utf8_failure_offset;

/// A playback-state record: status plus elapsed and total time, both in
/// integer milliseconds.
#[derive(Debug, PartialEq, Eq, Copy, Clone, Structural)]
pub struct TrackStat {
    pub play_stat: PlayStat,
    /// Elapsed playback time in milliseconds.
    pub elapsed_time: u64,
    /// Total track length in milliseconds.
    pub total_time: u64,
}

/// What decoding a duration field yields: the field must be UTF-8 text holding
/// a decimal number of milliseconds.
pub open spec fn duration_of(s: Seq<u8>) -> Result<u64, ErrorView> {
    if !valid_utf8(s) {
        Err(ErrorView::Utf8(Utf8Error { valid_up_to: utf8_failure_offset(s) as usize }))
    } else {
        match dec_result(s, u64::MAX as int) {
            Ok(v) => Ok(v as u64),
            Err(e) => Err(ErrorView::ParseInt(e)),
        }
    }
}

/// What decoding a playback-state record yields.  The record is split at the
/// first two commas into status, elapsed and total fields; missing trailing
/// fields are empty.  Field failures are reported left to right.
pub open spec fn track_stat_of(s: Seq<u8>) -> Result<TrackStat, ErrorView> {
    let head = split_before(s, 0x2c);
    let rest = split_after(s, 0x2c);
    let elapsed_part = split_before(rest, 0x2c);
    let total_part = split_after(rest, 0x2c);
    match play_stat_of(head) {
        None => Err(ErrorView::InvalidVariant("PLAYSTAT"@, head)),
        Some(ps) => match duration_of(elapsed_part) {
            Err(e) => Err(e),
            Ok(el) => match duration_of(total_part) {
                Err(e) => Err(e),
                Ok(tt) => Ok(TrackStat { play_stat: ps, elapsed_time: el, total_time: tt }),
            },
        },
    }
}

/// Decodes one duration field.
fn duration_field(s: &[u8]) -> (r: Result<u64, Error>)
    ensures
        match r {
            Ok(v) => duration_of(s@) == Ok::<u64, ErrorView>(v),
            Err(e) => duration_of(s@) == Err::<u64, ErrorView>(e@),
        },
{
    match utf8_check(s) {
        Some(i) => {
            return Err(Error::Utf8Error(Utf8Error { valid_up_to: i }));
        },
        None => {},
    }
    match crate::numbers::parse_u64(s) {
        Ok(v) => Ok(v),
        Err(e) => Err(Error::ParseIntError(e)),
    }
}

impl TrackStat {
    /// Decodes a playback-state record from the parameter bytes of a
    /// track-status indication.
    pub fn try_from(value: &[u8]) -> (r: Result<TrackStat, Error>)
        ensures
            match r {
                Ok(v) => track_stat_of(value@) == Ok::<TrackStat, ErrorView>(v),
                Err(e) => track_stat_of(value@) == Err::<TrackStat, ErrorView>(e@),
            },
    {
        let (head, rest) = split_at_byte(value, 0x2c);
        let (elapsed_part, total_part) = split_at_byte(rest.as_slice(), 0x2c);
        let ps: PlayStat = match PlayStat::try_from(head.as_slice()) {
            Ok(v) => v,
            Err(e) => {
                return Err(Error::InvalidVariantError(e));
            },
        };
        let el: u64 = match duration_field(elapsed_part.as_slice()) {
            Ok(v) => v,
            Err(e) => {
                return Err(e);
            },
        };
        let tt: u64 = match duration_field(total_part.as_slice()) {
            Ok(v) => v,
            Err(e) => {
                return Err(e);
            },
        };
        Ok(TrackStat { play_stat: ps, elapsed_time: el, total_time: tt })
    }
}

/// Decodes a playback-state record (see [`TrackStat::try_from`]).
pub fn parse(value: &[u8]) -> (r: Result<TrackStat, Error>)
    ensures
        match r {
            Ok(v) => track_stat_of(value@) == Ok::<TrackStat, ErrorView>(v),
            Err(e) => track_stat_of(value@) == Err::<TrackStat, ErrorView>(e@),
        },
{
    TrackStat::try_from(value)
}

} // verus!
