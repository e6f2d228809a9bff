use crate::event::{is_down, is_left, is_right, is_up, Key};
use crate::models::{AlbumSimple, Playlist};
use crate::outcome::PlayOutcome;
use crate::selection::{next_index, previous_index, ListState};
use vstd::prelude::*;

verus! {

broadcast use {vstd::std_specs::btree::group_btree_axioms, vstd::laws_cmp::group_laws_cmp};

/// The albums of an artist, one of which can be picked to play.
#[derive(Debug, PartialEq, Eq)]
pub struct ArtistPopupState {
    pub artist_name: String,
    pub albums: Vec<AlbumSimple>,
    pub state: ListState,
}

/// The choice between playing a playlist in order or shuffled.
#[derive(Debug, PartialEq, Eq)]
pub struct PlaylistPopupState {
    pub playlist_name: String,
    pub playlist_id: u32,
    pub shuffle: bool,
}

/// The user's playlists, one of which is picked to add a track to or to
/// remove it from. The list is a copy taken when the popup opened.
#[derive(Debug, PartialEq, Eq)]
pub struct QueuePopupState {
    pub track_id: u32,
    pub playlists: Vec<Playlist>,
    pub state: ListState,
}

/// A modal overlay: while one is open it receives every key press.
#[derive(Debug, PartialEq, Eq)]
pub enum Popup {
    Artist(ArtistPopupState),
    Playlist(PlaylistPopupState),
    QueueAdd(QueuePopupState),
    QueueDelete(QueuePopupState),
}

/// The selection of a list of `len` items after `key`: up and down move it,
/// every other key leaves it.
pub open spec fn list_selection_after(sel: Option<usize>, len: nat, key: Key) -> Option<usize> {
    if is_up(key) {
        previous_index(sel, len)
    } else if is_down(key) {
        next_index(sel, len)
    } else {
        sel
    }
}

/// The keys that flip the play/shuffle choice.
pub open spec fn is_toggle(key: Key) -> bool {
    is_left(key) || is_right(key)
}

/// A popup's state after `key`.
pub open spec fn popup_after(p: Popup, key: Key) -> Popup {
    match p {
        Popup::Artist(a) => Popup::Artist(
            ArtistPopupState {
                artist_name: a.artist_name,
                albums: a.albums,
                state: ListState {
                    selected: list_selection_after(a.state.selected, a.albums.len() as nat, key),
                },
            },
        ),
        Popup::Playlist(s) => if is_toggle(key) {
            Popup::Playlist(
                PlaylistPopupState {
                    playlist_name: s.playlist_name,
                    playlist_id: s.playlist_id,
                    shuffle: !s.shuffle,
                },
            )
        } else {
            Popup::Playlist(s)
        },
        Popup::QueueAdd(q) => Popup::QueueAdd(
            QueuePopupState {
                track_id: q.track_id,
                playlists: q.playlists,
                state: ListState {
                    selected: list_selection_after(
                        q.state.selected,
                        q.playlists.len() as nat,
                        key,
                    ),
                },
            },
        ),
        Popup::QueueDelete(q) => Popup::QueueDelete(
            QueuePopupState {
                track_id: q.track_id,
                playlists: q.playlists,
                state: ListState {
                    selected: list_selection_after(
                        q.state.selected,
                        q.playlists.len() as nat,
                        key,
                    ),
                },
            },
        ),
    }
}

/// What Enter on an add-to-playlist popup emits: the popup's own track,
/// added to the selected playlist.
pub open spec fn add_outcome(q: QueuePopupState) -> Option<PlayOutcome> {
    match q.state.selected {
        Some(i) => if i < q.playlists.len() {
            Some(
                PlayOutcome::AddTrackToPlaylist {
                    track_id: q.track_id,
                    playlist_id: q.playlists[i as int].id,
                },
            )
        } else {
            None
        },
        None => None,
    }
}

/// What Enter on a remove-from-playlist popup emits: the entry under which
/// the selected playlist holds the popup's track, if it holds it at all.
pub open spec fn delete_outcome(q: QueuePopupState) -> Option<PlayOutcome> {
    match q.state.selected {
        Some(i) => if i < q.playlists.len() {
            let entries = q.playlists[i as int].playlist_track_id_map@;
            if entries.contains_key(q.track_id) {
                Some(
                    PlayOutcome::DeleteTrackFromPlaylist {
                        playlist_track_id: entries[q.track_id],
                        playlist_id: q.playlists[i as int].id,
                    },
                )
            } else {
                None
            }
        } else {
            None
        },
        None => None,
    }
}

/// The command that `key` produces on a popup, if any. Only Enter produces
/// one, and only where the selection names an item that is there.
pub open spec fn popup_outcome(p: Popup, key: Key) -> Option<PlayOutcome> {
    if key != Key::Enter {
        None
    } else {
        match p {
            Popup::Artist(a) => match a.state.selected {
                Some(i) => if i < a.albums.len() {
                    Some(PlayOutcome::Album(a.albums[i as int].id))
                } else {
                    None
                },
                None => None,
            },
            Popup::Playlist(s) => Some(PlayOutcome::Playlist((s.playlist_id, s.shuffle))),
            Popup::QueueAdd(q) => add_outcome(q),
            Popup::QueueDelete(q) => delete_outcome(q),
        }
    }
}


/// A popup's state after a series of keys, taken in order.
pub open spec fn popup_after_keys(p: Popup, keys: Seq<Key>) -> Popup
    decreases keys.len(),
{
    if keys.len() == 0 {
        p
    } else {
        popup_after(popup_after_keys(p, keys.drop_last()), keys.last())
    }
}

/// Flipping the play/shuffle choice twice gives back the popup as it was.
pub proof fn lemma_toggle_twice_restores(s: PlaylistPopupState, first: Key, second: Key)
    requires
        is_toggle(first),
        is_toggle(second),
    ensures
        popup_after(popup_after(Popup::Playlist(s), first), second) == Popup::Playlist(s),
{
}

/// After a series of toggle keys the choice is flipped exactly when the
/// series is odd in length, and Enter then plays the playlist with that
/// choice.
pub proof fn lemma_toggles_decide_shuffle(s: PlaylistPopupState, keys: Seq<Key>)
    requires
        forall|i: int| 0 <= i < keys.len() ==> is_toggle(#[trigger] keys[i]),
    ensures
        popup_after_keys(Popup::Playlist(s), keys) == Popup::Playlist(
            PlaylistPopupState {
                playlist_name: s.playlist_name,
                playlist_id: s.playlist_id,
                shuffle: s.shuffle != (keys.len() % 2 == 1),
            },
        ),
        popup_outcome(popup_after_keys(Popup::Playlist(s), keys), Key::Enter) == Some(
            PlayOutcome::Playlist((s.playlist_id, s.shuffle != (keys.len() % 2 == 1))),
        ),
    decreases keys.len(),
{
    if keys.len() > 0 {
        let rest = keys.drop_last();
        assert forall|i: int| 0 <= i < rest.len() implies is_toggle(#[trigger] rest[i]) by {
            assert(rest[i] == keys[i]);
        }
        lemma_toggles_decide_shuffle(s, rest);
        assert(is_toggle(keys[keys.len() - 1]));
    }
}

/// An add-to-playlist popup keeps the track and the playlists it was opened
/// with, whatever keys it receives; Enter while playlist `i` is selected adds
/// that track, not whatever the queue has selected since, to playlist `i`.
pub proof fn lemma_add_popup_is_frozen(q: QueuePopupState, keys: Seq<Key>, i: usize)
    ensures
        match popup_after_keys(Popup::QueueAdd(q), keys) {
            Popup::QueueAdd(now) => {
                &&& now.track_id == q.track_id
                &&& now.playlists == q.playlists
                &&& now.state.selected == Some(i) && i < q.playlists.len() ==> popup_outcome(
                    Popup::QueueAdd(now),
                    Key::Enter,
                ) == Some(
                    PlayOutcome::AddTrackToPlaylist {
                        track_id: q.track_id,
                        playlist_id: q.playlists[i as int].id,
                    },
                )
            },
            _ => false,
        },
    decreases keys.len(),
{
    if keys.len() > 0 {
        lemma_add_popup_is_frozen(q, keys.drop_last(), i);
    }
}

/// Enter on a remove-from-playlist popup whose selected playlist does not
/// hold the popup's track produces nothing and leaves the popup as it was.
pub proof fn lemma_delete_without_entry_does_nothing(q: QueuePopupState)
    requires
        q.state.selected matches Some(i) && i < q.playlists.len()
            && !q.playlists[i as int].playlist_track_id_map@.contains_key(q.track_id),
    ensures
        popup_outcome(Popup::QueueDelete(q), Key::Enter) == None::<PlayOutcome>,
        popup_after(Popup::QueueDelete(q), Key::Enter) == Popup::QueueDelete(q),
{
}

impl Popup {
    /// Handles one key press. A popup takes every key: those it has no use
    /// for leave it as it was. Up and down move the selection of the list
    /// popups, left and right flip the play/shuffle choice, and Enter turns
    /// the current choice into a command; an Enter whose selection names
    /// nothing produces none and leaves the popup open.
    pub fn handle_event(&mut self, key: Key) -> (r: Option<PlayOutcome>)
        ensures
            *final(self) == popup_after(*old(self), key),
            r == popup_outcome(*old(self), key),
    {
        match self {
            Popup::Artist(artist) => match key {
                Key::Up | Key::Char('k') => {
                    let len = artist.albums.len();
                    artist.state.select_previous(len);
                    None
                },
                Key::Down | Key::Char('j') => {
                    let len = artist.albums.len();
                    artist.state.select_next(len);
                    None
                },
                Key::Enter => {
                    match artist.state.selected() {
                        Some(index) => if index < artist.albums.len() {
                            Some(PlayOutcome::Album(artist.albums[index].id.clone()))
                        } else {
                            None
                        },
                        None => None,
                    }
                },
                _ => None,
            },
            Popup::Playlist(playlist) => match key {
                Key::Left | Key::Char('h') | Key::Right | Key::Char('l') => {
                    playlist.shuffle = !playlist.shuffle;
                    None
                },
                Key::Enter => Some(PlayOutcome::Playlist((playlist.playlist_id, playlist.shuffle))),
                _ => None,
            },
            Popup::QueueAdd(queue) => match key {
                Key::Up | Key::Char('k') => {
                    let len = queue.playlists.len();
                    queue.state.select_previous(len);
                    None
                },
                Key::Down | Key::Char('j') => {
                    let len = queue.playlists.len();
                    queue.state.select_next(len);
                    None
                },
                Key::Enter => {
                    match queue.state.selected() {
                        Some(index) => if index < queue.playlists.len() {
                            Some(
                                PlayOutcome::AddTrackToPlaylist {
                                    track_id: queue.track_id,
                                    playlist_id: queue.playlists[index].id,
                                },
                            )
                        } else {
                            None
                        },
                        None => None,
                    }
                },
                _ => None,
            },
            Popup::QueueDelete(queue) => match key {
                Key::Up | Key::Char('k') => {
                    let len = queue.playlists.len();
                    queue.state.select_previous(len);
                    None
                },
                Key::Down | Key::Char('j') => {
                    let len = queue.playlists.len();
                    queue.state.select_next(len);
                    None
                },
                Key::Enter => {
                    match queue.state.selected() {
                        Some(index) => if index < queue.playlists.len() {
                            let playlist = &queue.playlists[index];
                            match playlist.playlist_track_id_map.get(&queue.track_id) {
                                Some(entry) => Some(
                                    PlayOutcome::DeleteTrackFromPlaylist {
                                        playlist_track_id: *entry,
                                        playlist_id: playlist.id,
                                    },
                                ),
                                None => None,
                            }
                        } else {
                            None
                        },
                        None => None,
                    }
                },
                _ => None,
            },
        }
    }
}

} // verus!
