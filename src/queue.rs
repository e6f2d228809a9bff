use crate::event::{is_down, is_up, Event, Key};
use crate::models::{same_playlist, snapshot_playlists, Playlist, Track, TrackStatus};
use crate::outcome::PlayOutcome;
use crate::popup::{Popup, QueuePopupState};
use crate::selection::{next_index, previous_index, ListState, UnfilteredListState};
use vstd::prelude::*;

verus! {

/// What a view did with an event.
#[derive(Debug, PartialEq, Eq)]
pub enum Output {
    /// The event was handled and produced nothing further.
    Consumed,
    /// The event means nothing to this view: another handler may take it.
    NotConsumed,
    /// The event produced a command for the playback side.
    PlayOutcome(PlayOutcome),
    /// The event opens this popup.
    Popup(Popup),
}

/// How a queue row is drawn, by the status of its track.
#[derive(Clone, Copy, Debug, PartialEq, Eq, Structural)]
pub enum RowStyle {
    Plain,
    Bold,
    CrossedOut,
}

/// The row style of a track: played and unplayable tracks are struck
/// through, the playing one is bold, the rest are plain.
pub open spec fn row_style_of(status: TrackStatus) -> RowStyle {
    match status {
        TrackStatus::Played => RowStyle::CrossedOut,
        TrackStatus::Playing => RowStyle::Bold,
        TrackStatus::Unplayed => RowStyle::Plain,
        TrackStatus::Unplayable => RowStyle::CrossedOut,
    }
}

/// The row style of a track with `status`.
pub fn row_style(status: TrackStatus) -> (r: RowStyle)
    ensures
        r == row_style_of(status),
{
    match status {
        TrackStatus::Played => RowStyle::CrossedOut,
        TrackStatus::Playing => RowStyle::Bold,
        TrackStatus::Unplayed => RowStyle::Plain,
        TrackStatus::Unplayable => RowStyle::CrossedOut,
    }
}

/// `r` opens an add-to-playlist popup for `track_id`, over a copy of
/// `playlists` and with nothing selected.
pub open spec fn opens_add_popup(r: Output, track_id: u32, playlists: Seq<Playlist>) -> bool {
    match r {
        Output::Popup(Popup::QueueAdd(q)) => {
            &&& q.track_id == track_id
            &&& q.state.selected == None::<usize>
            &&& q.playlists.len() == playlists.len()
            &&& forall|i: int|
                0 <= i < playlists.len() ==> #[trigger] same_playlist(q.playlists[i], playlists[i])
        },
        _ => false,
    }
}

/// The play queue and the user's playlists.
#[derive(Debug)]
pub struct QueueState {
    pub queue: UnfilteredListState<Track>,
    pub playlists: UnfilteredListState<Playlist>,
}

impl QueueState {
    /// A queue of `tracks` beside `playlists`, with nothing selected.
    pub fn new(tracks: Vec<Track>, playlists: Vec<Playlist>) -> (r: QueueState)
        ensures
            r.queue.items == tracks,
            r.queue.state.selected == None::<usize>,
            r.playlists.items == playlists,
            r.playlists.state.selected == None::<usize>,
    {
        QueueState {
            queue: UnfilteredListState::new(tracks),
            playlists: UnfilteredListState::new(playlists),
        }
    }

    /// Handles one input event. Down and up move the queue's selection;
    /// Enter jumps playback to the selected position; `a` opens the
    /// add-to-playlist popup for the selected track. These are consumed
    /// even where nothing is selected. Every other key, and every event that
    /// is not a key press, is left to another handler.
    pub fn handle_events(&mut self, event: Event) -> (r: Output)
        ensures
            final(self).queue.items == old(self).queue.items,
            final(self).playlists == old(self).playlists,
            match event {
                Event::KeyPress(key) => if is_down(key) {
                    &&& r is Consumed
                    &&& final(self).queue.state.selected == next_index(
                        old(self).queue.state.selected,
                        old(self).queue.items.len() as nat,
                    )
                } else if is_up(key) {
                    &&& r is Consumed
                    &&& final(self).queue.state.selected == previous_index(
                        old(self).queue.state.selected,
                        old(self).queue.items.len() as nat,
                    )
                } else if key == Key::Enter {
                    &&& final(self).queue.state == old(self).queue.state
                    &&& match old(self).queue.state.selected {
                        Some(i) => r == Output::PlayOutcome(PlayOutcome::SkipToPosition(i)),
                        None => r is Consumed,
                    }
                } else if key == Key::Char('a') {
                    &&& final(self).queue.state == old(self).queue.state
                    &&& match old(self).queue.state.selected {
                        Some(i) => if i < old(self).queue.items.len() {
                            opens_add_popup(
                                r,
                                old(self).queue.items[i as int].id,
                                old(self).playlists.items@,
                            )
                        } else {
                            r is Consumed
                        },
                        None => r is Consumed,
                    }
                } else {
                    &&& r is NotConsumed
                    &&& final(self).queue.state == old(self).queue.state
                },
                Event::Other => {
                    &&& r is NotConsumed
                    &&& final(self).queue.state == old(self).queue.state
                },
            },
    {
        match event {
            Event::KeyPress(key) => match key {
                Key::Down | Key::Char('j') => {
                    self.queue.select_next();
                    Output::Consumed
                },
                Key::Up | Key::Char('k') => {
                    self.queue.select_previous();
                    Output::Consumed
                },
                Key::Enter => match self.queue.selected() {
                    Some(index) => Output::PlayOutcome(PlayOutcome::SkipToPosition(index)),
                    None => Output::Consumed,
                },
                Key::Char('a') => match self.queue.selected() {
                    Some(index) => if index < self.queue.items.len() {
                        let track_id = self.queue.items[index].id;
                        let playlists = snapshot_playlists(&self.playlists.items);
                        Output::Popup(
                            Popup::QueueAdd(
                                QueuePopupState { track_id, playlists, state: ListState::new() },
                            ),
                        )
                    } else {
                        Output::Consumed
                    },
                    None => Output::Consumed,
                },
                _ => Output::NotConsumed,
            },
            Event::Other => Output::NotConsumed,
        }
    }
}

} // verus!
