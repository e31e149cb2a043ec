//! The track-metadata record: title, artist and album, separated by the
//! non-ASCII marker byte `0xff`.
use vstd::prelude::*;

verus! {

use crate::bytes::split_before;
use crate::bytes::split_after;
use crate::bytes::split_at_byte;
use crate::error::Utf8Error;
use crate::text::utf8_field;
use crate::text::utf8_result;

/// A track-metadata record.
#[derive(Debug, PartialEq, Eq, Clone)]
pub struct TrackInfo {
    pub title: String,
    pub artist: String,
    pub album: String,
}

/// Mathematical image of a [`TrackInfo`] value.
pub struct TrackInfoView {
    pub title: Seq<char>,
    pub artist: Seq<char>,
    pub album: Seq<char>,
}

impl View for TrackInfo {
    type V = TrackInfoView;

    open spec fn view(&self) -> TrackInfoView {
        TrackInfoView { title: self.title@, artist: self.artist@, album: self.album@ }
    }
}

/// What decoding a track-metadata record yields.  The record is split at the
/// first two marker bytes (`0xff`) into title, artist and album fields, each
/// decoded as UTF-8; missing trailing fields are empty.  Field failures are
/// reported left to right.
pub open spec fn track_info_of(s: Seq<u8>) -> Result<TrackInfoView, Utf8Error> {
    let title_part = split_before(s, 0xff);
    let rest = split_after(s, 0xff);
    let artist_part = split_before(rest, 0xff);
    let album_part = split_after(rest, 0xff);
    match utf8_result(title_part) {
        Err(e) => Err(e),
        Ok(title) => match utf8_result(artist_part) {
            Err(e) => Err(e),
            Ok(artist) => match utf8_result(album_part) {
                Err(e) => Err(e),
                Ok(album) => Ok(TrackInfoView { title: title, artist: artist, album: album }),
            },
        },
    }
}

impl TrackInfo {
    /// Decodes a track-metadata record from the parameter bytes of a
    /// track-info indication.
    pub fn try_from(value: &[u8]) -> (r: Result<TrackInfo, Utf8Error>)
        ensures
            match r {
                Ok(v) => track_info_of(value@) == Ok::<TrackInfoView, Utf8Error>(v@),
                Err(e) => track_info_of(value@) == Err::<TrackInfoView, Utf8Error>(e),
            },
    {
        let (title_part, rest) = split_at_byte(value, 0xff);
        let (artist_part, album_part) = split_at_byte(rest.as_slice(), 0xff);
        let title: String = match utf8_field(title_part.as_slice()) {
            Ok(v) => v,
            Err(e) => {
                return Err(e);
            },
        };
        let artist: String = match utf8_field(artist_part.as_slice()) {
            Ok(v) => v,
            Err(e) => {
                return Err(e);
            },
        };
        let album: String = match utf8_field(album_part.as_slice()) {
            Ok(v) => v,
            Err(e) => {
                return Err(e);
            },
        };
        Ok(TrackInfo { title, artist, album })
    }
}

/// Decodes a track-metadata record (see [`TrackInfo::try_from`]).
pub fn parse(value: &[u8]) -> (r: Result<TrackInfo, Utf8Error>)
    ensures
        match r {
            Ok(v) => track_info_of(value@) == Ok::<TrackInfoView, Utf8Error>(v@),
            Err(e) => track_info_of(value@) == Err::<TrackInfoView, Utf8Error>(e),
        },
{
    TrackInfo::try_from(value)
}

} // verus!
