//! The playback state handed to a display consumer: the current track's
//! metadata and playback progress, each field absent until first reported.
use vstd::prelude::*;

verus! {

/// Latest known playback state.  Times are in milliseconds.
#[derive(Debug, PartialEq, Eq, Clone)]
pub struct AppState {
    pub song_title: Option<String>,
    pub song_artist: Option<String>,
    pub song_album: Option<String>,
    /// Elapsed playback time of the current track, in milliseconds.
    pub playback_elapsed_time: Option<u64>,
    /// Total length of the current track, in milliseconds.
    pub playback_total_time: Option<u64>,
}

impl Default for AppState {
    /// The state before anything was reported: every field absent.
    fn default() -> (r: AppState)
        ensures
            r.song_title is None,
            r.song_artist is None,
            r.song_album is None,
            r.playback_elapsed_time is None,
            r.playback_total_time is None,
    {
        AppState {
            song_title: None,
            song_artist: None,
            song_album: None,
            playback_elapsed_time: None,
            playback_total_time: None,
        }
    }
}

} // verus!
