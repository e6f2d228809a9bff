use std::collections::BTreeMap;
use vstd::prelude::*;

verus! {

/// Where a track stands in the play queue.
#[derive(Clone, Copy, Debug, PartialEq, Eq, Structural)]
pub enum TrackStatus {
    Unplayed,
    Playing,
    Played,
    Unplayable,
}

/// One track of the play queue.
#[derive(Clone, Debug, PartialEq, Eq)]
pub struct Track {
    pub id: u32,
    pub title: String,
    pub status: TrackStatus,
}

/// An album as listed on an artist's page.
#[derive(Clone, Debug, PartialEq, Eq)]
pub struct AlbumSimple {
    pub id: String,
    pub title: String,
}

/// A playlist of the user, with the entry id under which each of its tracks
/// is held (removing a track from a playlist names the entry, not the track).
#[derive(Clone, Debug, PartialEq, Eq)]
pub struct Playlist {
    pub id: u32,
    pub title: String,
    pub playlist_track_id_map: BTreeMap<u32, u64>,
}

/// Two playlists that hold the same id, title and track entries.
pub open spec fn same_playlist(a: Playlist, b: Playlist) -> bool {
    &&& a.id == b.id
    &&& a.title == b.title
    &&& a.playlist_track_id_map@ == b.playlist_track_id_map@
}

impl Playlist {
    /// A copy of this playlist.
    pub fn duplicate(&self) -> (r: Playlist)
        ensures
            same_playlist(r, *self),
    {
        Playlist {
            id: self.id,
            title: self.title.clone(),
            playlist_track_id_map: self.playlist_track_id_map.clone(),
        }
    }
}

/// A copy of a list of playlists, taken so that later changes to the
/// original do not reach it.
pub fn snapshot_playlists(playlists: &Vec<Playlist>) -> (r: Vec<Playlist>)
    ensures
        r.len() == playlists.len(),
        forall|i: int| 0 <= i < r.len() ==> #[trigger] same_playlist(r[i], playlists[i]),
{
    let mut r: Vec<Playlist> = Vec::with_capacity(playlists.len());
    let mut i: usize = 0;
    while i < playlists.len()
        invariant
            i <= playlists.len(),
            r.len() == i,
            forall|j: int| 0 <= j < i ==> #[trigger] same_playlist(r[j], playlists[j]),
        decreases playlists.len() - i,
    {
        r.push(playlists[i].duplicate());
        i = i + 1;
    }
    r
}

} // verus!
