use vstd::prelude::*;

verus! {

/// A command for the playback side, produced by a key press.
#[derive(Debug, PartialEq, Eq)]
pub enum PlayOutcome {
    /// Play the album with this id.
    Album(String),
    /// Play the playlist with this id, shuffled or in order.
    Playlist((u32, bool)),
    /// Jump to this position of the play queue.
    SkipToPosition(usize),
    /// Add a track to a playlist.
    AddTrackToPlaylist { track_id: u32, playlist_id: u32 },
    /// Remove one entry of a playlist, named by its entry id.
    DeleteTrackFromPlaylist { playlist_track_id: u64, playlist_id: u32 },
}

} // verus!
