//! The indication decoder: classifies one framed message into a typed
//! [`Indication`].
//!
//! A message is `<TAG>[=<params>]`.  The two literal tags `OK` and `ERROR`
//! short-circuit to their markers; every other recognized tag dispatches to
//! its payload parser; an unrecognized tag always succeeds as `Unsupported`,
//! never an error.  Decoding fails only when a recognized tag's parameters are
//! malformed for its payload shape.
use vstd::prelude::*;

verus! {

use vstd::slice::slice_subrange;
use vstd::string::StringSliceAdditionalSpecFns;
use vstd::utf8::valid_utf8;
use crate::bytes::bytes_eq;
use crate::bytes::contains_byte;
use crate::bytes::find_byte;
use crate::bytes::lemma_spec_find;
use crate::bytes::split_before;
use crate::bytes::split_after;
use crate::error::Error;
use crate::error::ErrorView;
use crate::error::Utf8Error;
use crate::numbers::dec_result;
use crate::status::A2dpState;
use crate::status::AvrcpState;
use crate::status::GattStat;
use crate::status::PlayStat;
use crate::status::SppStat;
use crate::status::a2dp_state_of;
use crate::status::avrcp_state_of;
use crate::status::gatt_stat_of;
use crate::status::play_stat_of;
use crate::status::spp_stat_of;
use crate::text::decode_utf8_lossy;
use crate::text::lossy_field;
use crate::text::utf8_failure_offset;
use crate::text::utf8_field;
use crate::text::utf8_result;
use crate::trackinfo::TrackInfo;
use crate::trackinfo::TrackInfoView;
use crate::trackinfo::track_info_of;
use crate::trackstat::TrackStat;
use crate::trackstat::track_stat_of;

/// One decoded inbound message.  `Okay` and `Failed` are the two literal
/// acknowledgement markers; `Unsupported` carries an unrecognized tag (without
/// its `+` marker) and its raw parameter text.  Durations and data-length
/// prefixes are plain integers; all text is UTF-8.
#[derive(Debug, PartialEq, Eq, Clone)]
pub enum Indication {
    Okay,
    Failed,
    Ver(String),
    Addr(String),
    LeAddr(String),
    A2dpState(A2dpState),
    A2dpDev(String),
    AvrcpState(AvrcpState),
    PlayStat(PlayStat),
    TrackStat(TrackStat),
    TrackInfo(TrackInfo),
    SppStat(SppStat),
    GattStat(GattStat),
    SppDev(String),
    GattDev(String),
    SppData(Option<usize>, String),
    GattData(Option<usize>, String),
    Unsupported(String, String),
}

/// Mathematical image of an [`Indication`] value.
pub enum IndicationView {
    Okay,
    Failed,
    Ver(Seq<char>),
    Addr(Seq<char>),
    LeAddr(Seq<char>),
    A2dpState(A2dpState),
    A2dpDev(Seq<char>),
    AvrcpState(AvrcpState),
    PlayStat(PlayStat),
    TrackStat(TrackStat),
    TrackInfo(TrackInfoView),
    SppStat(SppStat),
    GattStat(GattStat),
    SppDev(Seq<char>),
    GattDev(Seq<char>),
    SppData(Option<usize>, Seq<char>),
    GattData(Option<usize>, Seq<char>),
    Unsupported(Seq<char>, Seq<char>),
}

impl View for Indication {
    type V = IndicationView;

    open spec fn view(&self) -> IndicationView {
        match self {
            Indication::Okay => IndicationView::Okay,
            Indication::Failed => IndicationView::Failed,
            Indication::Ver(s) => IndicationView::Ver(s@),
            Indication::Addr(s) => IndicationView::Addr(s@),
            Indication::LeAddr(s) => IndicationView::LeAddr(s@),
            Indication::A2dpState(v) => IndicationView::A2dpState(*v),
            Indication::A2dpDev(s) => IndicationView::A2dpDev(s@),
            Indication::AvrcpState(v) => IndicationView::AvrcpState(*v),
            Indication::PlayStat(v) => IndicationView::PlayStat(*v),
            Indication::TrackStat(v) => IndicationView::TrackStat(*v),
            Indication::TrackInfo(v) => IndicationView::TrackInfo(v@),
            Indication::SppStat(v) => IndicationView::SppStat(*v),
            Indication::GattStat(v) => IndicationView::GattStat(*v),
            Indication::SppDev(s) => IndicationView::SppDev(s@),
            Indication::GattDev(s) => IndicationView::GattDev(s@),
            Indication::SppData(n, s) => IndicationView::SppData(*n, s@),
            Indication::GattData(n, s) => IndicationView::GattData(*n, s@),
            Indication::Unsupported(t, p) => IndicationView::Unsupported(t@, p@),
        }
    }
}

/// The tag of a message: everything before the first `=`, or the whole
/// message when it has none.
pub open spec fn tag_of(m: Seq<u8>) -> Seq<u8> {
    split_before(m, 0x3d)
}

/// The parameter bytes of a message: everything after the first `=`, empty
/// when it has none.
pub open spec fn params_of(m: Seq<u8>) -> Seq<u8> {
    split_after(m, 0x3d)
}

/// A tag without its leading `+` marker.
pub open spec fn strip_marker(t: Seq<u8>) -> Seq<u8> {
    if t.len() > 0 && t[0] == 0x2b {
        t.drop_first()
    } else {
        t
    }
}

/// What decoding a length-prefixed data parameter yields: with a comma, a
/// decimal length prefix and the payload after the comma; without one, no
/// prefix and the whole parameter as payload.  The prefix is not checked
/// against the payload length.
pub open spec fn data_record_of(p: Seq<u8>) -> Result<(Option<usize>, Seq<char>), ErrorView> {
    if contains_byte(p, 0x2c) {
        let prefix = split_before(p, 0x2c);
        let payload = split_after(p, 0x2c);
        if !valid_utf8(prefix) {
            Err(ErrorView::Utf8(Utf8Error { valid_up_to: utf8_failure_offset(prefix) as usize }))
        } else {
            match dec_result(prefix, usize::MAX as int) {
                Err(e) => Err(ErrorView::ParseInt(e)),
                Ok(v) => match utf8_result(payload) {
                    Err(e) => Err(ErrorView::Utf8(e)),
                    Ok(s) => Ok((Some(v as usize), s)),
                },
            }
        }
    } else {
        match utf8_result(p) {
            Err(e) => Err(ErrorView::Utf8(e)),
            Ok(s) => Ok((None, s)),
        }
    }
}

/// What decoding a free-text parameter yields.
pub open spec fn text_of(p: Seq<u8>) -> Result<Seq<char>, ErrorView> {
    match utf8_result(p) {
        Ok(s) => Ok(s),
        Err(e) => Err(ErrorView::Utf8(e)),
    }
}

/// What decoding one framed message yields.  The closed registry of tags is
/// matched in order; an unrecognized tag always succeeds as `Unsupported`,
/// with the `+` marker stripped and both fields converted leniently.
pub open spec fn decode(m: Seq<u8>) -> Result<IndicationView, ErrorView> {
    let t = tag_of(m);
    let p = params_of(m);
    if t == "OK".spec_bytes() {
        Ok(IndicationView::Okay)
    } else if t == "ERROR".spec_bytes() {
        Ok(IndicationView::Failed)
    } else if t == "+VER".spec_bytes() {
        match text_of(p) {
            Ok(s) => Ok(IndicationView::Ver(s)),
            Err(e) => Err(e),
        }
    } else if t == "+ADDR".spec_bytes() {
        match text_of(p) {
            Ok(s) => Ok(IndicationView::Addr(s)),
            Err(e) => Err(e),
        }
    } else if t == "+LEADDR".spec_bytes() {
        match text_of(p) {
            Ok(s) => Ok(IndicationView::LeAddr(s)),
            Err(e) => Err(e),
        }
    } else if t == "+A2DPSTAT".spec_bytes() {
        match a2dp_state_of(p) {
            Some(v) => Ok(IndicationView::A2dpState(v)),
            None => Err(ErrorView::InvalidVariant("A2DPSTAT"@, p)),
        }
    } else if t == "+A2DPDEV".spec_bytes() {
        match text_of(p) {
            Ok(s) => Ok(IndicationView::A2dpDev(s)),
            Err(e) => Err(e),
        }
    } else if t == "+AVRCPSTAT".spec_bytes() {
        match avrcp_state_of(p) {
            Some(v) => Ok(IndicationView::AvrcpState(v)),
            None => Err(ErrorView::InvalidVariant("AVRCPSTAT"@, p)),
        }
    } else if t == "+PLAYSTAT".spec_bytes() {
        match play_stat_of(p) {
            Some(v) => Ok(IndicationView::PlayStat(v)),
            None => Err(ErrorView::InvalidVariant("PLAYSTAT"@, p)),
        }
    } else if t == "+TRACKSTAT".spec_bytes() {
        match track_stat_of(p) {
            Ok(v) => Ok(IndicationView::TrackStat(v)),
            Err(e) => Err(e),
        }
    } else if t == "+TRACKINFO".spec_bytes() {
        match track_info_of(p) {
            Ok(v) => Ok(IndicationView::TrackInfo(v)),
            Err(e) => Err(ErrorView::Utf8(e)),
        }
    } else if t == "+SPPSTAT".spec_bytes() {
        match spp_stat_of(p) {
            Some(v) => Ok(IndicationView::SppStat(v)),
            None => Err(ErrorView::InvalidVariant("SPPSTAT"@, p)),
        }
    } else if t == "+GATTSTAT".spec_bytes() {
        match gatt_stat_of(p) {
            Some(v) => Ok(IndicationView::GattStat(v)),
            None => Err(ErrorView::InvalidVariant("GATTSTAT"@, p)),
        }
    } else if t == "+SPPDEV".spec_bytes() {
        match text_of(p) {
            Ok(s) => Ok(IndicationView::SppDev(s)),
            Err(e) => Err(e),
        }
    } else if t == "+GATTDEV".spec_bytes() {
        match text_of(p) {
            Ok(s) => Ok(IndicationView::GattDev(s)),
            Err(e) => Err(e),
        }
    } else if t == "+SPPDATA".spec_bytes() {
        match data_record_of(p) {
            Ok((n, s)) => Ok(IndicationView::SppData(n, s)),
            Err(e) => Err(e),
        }
    } else if t == "+GATTDATA".spec_bytes() {
        match data_record_of(p) {
            Ok((n, s)) => Ok(IndicationView::GattData(n, s)),
            Err(e) => Err(e),
        }
    } else {
        Ok(
            IndicationView::Unsupported(
                decode_utf8_lossy(strip_marker(t)),
                decode_utf8_lossy(p),
            ),
        )
    }
}


/// Decoding is deterministic: what a message decodes to is a function of the
/// message bytes alone, so decoding the same bytes twice yields equal results.
/// Together with [`Indication::try_from`]'s contract, two calls on equal input
/// return indications with equal views, or equal errors.
pub proof fn lemma_decode_deterministic(m1: Seq<u8>, m2: Seq<u8>)
    requires
        m1 == m2,
    ensures
        decode(m1) == decode(m2),
{
}

/// Decodes a free-text parameter.
fn text_param(p: &[u8]) -> (r: Result<String, Error>)
    ensures
        match r {
            Ok(s) => text_of(p@) == Ok::<Seq<char>, ErrorView>(s@),
            Err(e) => text_of(p@) == Err::<Seq<char>, ErrorView>(e@),
        },
{
    match utf8_field(p) {
        Ok(s) => Ok(s),
        Err(e) => Err(Error::Utf8Error(e)),
    }
}

/// Decodes a length-prefixed data parameter.
fn data_param(p: &[u8]) -> (r: Result<(Option<usize>, String), Error>)
    ensures
        match r {
            Ok(v) => data_record_of(p@) == Ok::<(Option<usize>, Seq<char>), ErrorView>(
                (v.0, v.1@),
            ),
            Err(e) => data_record_of(p@) == Err::<(Option<usize>, Seq<char>), ErrorView>(e@),
        },
{
    let comma: usize = find_byte(p, 0x2c);
    proof {
        lemma_spec_find(p@, 0x2c);
    }
    if comma < p.len() {
        let prefix: &[u8] = slice_subrange(p, 0, comma);
        let payload: &[u8] = slice_subrange(p, comma + 1, p.len());
        match crate::text::utf8_check(prefix) {
            Some(i) => {
                return Err(Error::Utf8Error(Utf8Error { valid_up_to: i }));
            },
            None => {},
        }
        let n: usize = match crate::numbers::parse_usize(prefix) {
            Ok(v) => v,
            Err(e) => {
                return Err(Error::ParseIntError(e));
            },
        };
        match utf8_field(payload) {
            Ok(s) => Ok((Some(n), s)),
            Err(e) => Err(Error::Utf8Error(e)),
        }
    } else {
        match utf8_field(p) {
            Ok(s) => Ok((None, s)),
            Err(e) => Err(Error::Utf8Error(e)),
        }
    }
}

impl Indication {
    /// Decodes one framed message.  The result is exactly [`decode`] of the
    /// message bytes: unrecognized tags always succeed as `Unsupported`, and
    /// an error comes only from a recognized tag with malformed parameters.
    pub fn try_from(value: &[u8]) -> (r: Result<Indication, Error>)
        ensures
            match r {
                Ok(i) => decode(value@) == Ok::<IndicationView, ErrorView>(i@),
                Err(e) => decode(value@) == Err::<IndicationView, ErrorView>(e@),
            },
    {
        let eq: usize = find_byte(value, 0x3d);
        proof {
            lemma_spec_find(value@, 0x3d);
        }
        let tag: &[u8] = slice_subrange(value, 0, eq);
        let params: &[u8] = if eq < value.len() {
            slice_subrange(value, eq + 1, value.len())
        } else {
            slice_subrange(value, value.len(), value.len())
        };
        proof {
            assert(tag@ == tag_of(value@));
            assert(params@ =~= params_of(value@));
        }
        if bytes_eq(tag, "OK".as_bytes()) {
            return Ok(Indication::Okay);
        }
        if bytes_eq(tag, "ERROR".as_bytes()) {
            return Ok(Indication::Failed);
        }
        if bytes_eq(tag, "+VER".as_bytes()) {
            return match text_param(params) {
                Ok(s) => Ok(Indication::Ver(s)),
                Err(e) => Err(e),
            };
        }
        if bytes_eq(tag, "+ADDR".as_bytes()) {
            return match text_param(params) {
                Ok(s) => Ok(Indication::Addr(s)),
                Err(e) => Err(e),
            };
        }
        if bytes_eq(tag, "+LEADDR".as_bytes()) {
            return match text_param(params) {
                Ok(s) => Ok(Indication::LeAddr(s)),
                Err(e) => Err(e),
            };
        }
        if bytes_eq(tag, "+A2DPSTAT".as_bytes()) {
            return match A2dpState::try_from(params) {
                Ok(v) => Ok(Indication::A2dpState(v)),
                Err(e) => Err(Error::InvalidVariantError(e)),
            };
        }
        if bytes_eq(tag, "+A2DPDEV".as_bytes()) {
            return match text_param(params) {
                Ok(s) => Ok(Indication::A2dpDev(s)),
                Err(e) => Err(e),
            };
        }
        if bytes_eq(tag, "+AVRCPSTAT".as_bytes()) {
            return match AvrcpState::try_from(params) {
                Ok(v) => Ok(Indication::AvrcpState(v)),
                Err(e) => Err(Error::InvalidVariantError(e)),
            };
        }
        if bytes_eq(tag, "+PLAYSTAT".as_bytes()) {
            return match PlayStat::try_from(params) {
                Ok(v) => Ok(Indication::PlayStat(v)),
                Err(e) => Err(Error::InvalidVariantError(e)),
            };
        }
        if bytes_eq(tag, "+TRACKSTAT".as_bytes()) {
            return match TrackStat::try_from(params) {
                Ok(v) => Ok(Indication::TrackStat(v)),
                Err(e) => Err(e),
            };
        }
        if bytes_eq(tag, "+TRACKINFO".as_bytes()) {
            return match TrackInfo::try_from(params) {
                Ok(v) => Ok(Indication::TrackInfo(v)),
                Err(e) => Err(Error::Utf8Error(e)),
            };
        }
        if bytes_eq(tag, "+SPPSTAT".as_bytes()) {
            return match SppStat::try_from(params) {
                Ok(v) => Ok(Indication::SppStat(v)),
                Err(e) => Err(Error::InvalidVariantError(e)),
            };
        }
        if bytes_eq(tag, "+GATTSTAT".as_bytes()) {
            return match GattStat::try_from(params) {
                Ok(v) => Ok(Indication::GattStat(v)),
                Err(e) => Err(Error::InvalidVariantError(e)),
            };
        }
        if bytes_eq(tag, "+SPPDEV".as_bytes()) {
            return match text_param(params) {
                Ok(s) => Ok(Indication::SppDev(s)),
                Err(e) => Err(e),
            };
        }
        if bytes_eq(tag, "+GATTDEV".as_bytes()) {
            return match text_param(params) {
                Ok(s) => Ok(Indication::GattDev(s)),
                Err(e) => Err(e),
            };
        }
        if bytes_eq(tag, "+SPPDATA".as_bytes()) {
            return match data_param(params) {
                Ok((n, s)) => Ok(Indication::SppData(n, s)),
                Err(e) => Err(e),
            };
        }
        if bytes_eq(tag, "+GATTDATA".as_bytes()) {
            return match data_param(params) {
                Ok((n, s)) => Ok(Indication::GattData(n, s)),
                Err(e) => Err(e),
            };
        }
        let name: &[u8] = if tag.len() > 0 && tag[0] == 0x2b {
            slice_subrange(tag, 1, tag.len())
        } else {
            tag
        };
        proof {
            assert(name@ =~= strip_marker(tag_of(value@)));
        }
        Ok(Indication::Unsupported(lossy_field(name), lossy_field(params)))
    }
}

} // verus!
