use std::collections::BTreeMap;

use qobuz_player_tui::event::{Event, Key};
use qobuz_player_tui::models::{snapshot_playlists, AlbumSimple, Playlist, Track, TrackStatus};
use qobuz_player_tui::outcome::PlayOutcome;
use qobuz_player_tui::popup::{ArtistPopupState, PlaylistPopupState, Popup, QueuePopupState};
use qobuz_player_tui::queue::{row_style, Output, QueueState, RowStyle};
use qobuz_player_tui::selection::{ListState, UnfilteredListState};

fn track(id: u32, title: &str) -> Track {
    Track { id, title: title.to_string(), status: TrackStatus::Unplayed }
}

fn playlist(id: u32, title: &str, entries: &[(u32, u64)]) -> Playlist {
    let mut map = BTreeMap::new();
    for (track_id, entry_id) in entries {
        map.insert(*track_id, *entry_id);
    }
    Playlist { id, title: title.to_string(), playlist_track_id_map: map }
}

fn album(id: &str, title: &str) -> AlbumSimple {
    AlbumSimple { id: id.to_string(), title: title.to_string() }
}

fn press(key: Key) -> Event {
    Event::KeyPress(key)
}

#[test]
fn select_next_visits_every_index_once_in_order() {
    let mut list = UnfilteredListState::new(vec![1, 2, 3, 4]);
    let mut seen = Vec::new();
    for _ in 0..4 {
        list.select_next();
        seen.push(list.selected().unwrap());
    }
    assert_eq!(seen, vec![0, 1, 2, 3]);
}

#[test]
fn select_next_clamps_at_last_item() {
    let mut state = ListState::new();
    state.select_next(2);
    state.select_next(2);
    state.select_next(2);
    assert_eq!(state.selected(), Some(1));
}

#[test]
fn select_previous_from_nothing_picks_last_and_clamps_at_first() {
    let mut state = ListState::new();
    state.select_previous(3);
    assert_eq!(state.selected(), Some(2));
    state.select_previous(3);
    state.select_previous(3);
    state.select_previous(3);
    assert_eq!(state.selected(), Some(0));
}

#[test]
fn stale_selection_is_pulled_back_into_the_list() {
    let mut state = ListState { selected: Some(9) };
    state.select_next(3);
    assert_eq!(state.selected(), Some(2));
    let mut state = ListState { selected: Some(9) };
    state.select_previous(3);
    assert_eq!(state.selected(), Some(2));
}

#[test]
fn empty_list_never_selects() {
    let mut list: UnfilteredListState<u32> = UnfilteredListState::new(Vec::new());
    list.select_next();
    assert_eq!(list.selected(), None);
    list.select_previous();
    assert_eq!(list.selected(), None);
    let mut state = ListState { selected: Some(4) };
    state.select_next(0);
    assert_eq!(state.selected(), None);
}

#[test]
fn playlist_toggle_twice_restores_shuffle() {
    let mut popup = Popup::Playlist(PlaylistPopupState {
        playlist_name: "Mix".to_string(),
        playlist_id: 12,
        shuffle: false,
    });
    assert_eq!(popup.handle_event(Key::Left), None);
    assert_eq!(popup.handle_event(Key::Char('l')), None);
    assert_eq!(popup.handle_event(Key::Enter), Some(PlayOutcome::Playlist((12, false))));
}

#[test]
fn playlist_odd_toggles_flip_shuffle() {
    let mut popup = Popup::Playlist(PlaylistPopupState {
        playlist_name: "Mix".to_string(),
        playlist_id: 12,
        shuffle: false,
    });
    popup.handle_event(Key::Right);
    popup.handle_event(Key::Char('h'));
    popup.handle_event(Key::Left);
    assert_eq!(popup.handle_event(Key::Enter), Some(PlayOutcome::Playlist((12, true))));
}

#[test]
fn add_popup_uses_the_track_it_was_opened_with() {
    let mut queue = QueueState::new(
        vec![track(5, "one"), track(6, "two")],
        vec![playlist(1, "a", &[]), playlist(2, "b", &[])],
    );
    queue.handle_events(press(Key::Down));
    let out = queue.handle_events(press(Key::Char('a')));
    let mut popup = match out {
        Output::Popup(popup) => popup,
        other => panic!("expected a popup, got {:?}", other),
    };
    queue.handle_events(press(Key::Down));
    assert_eq!(queue.queue.selected(), Some(1));
    popup.handle_event(Key::Down);
    popup.handle_event(Key::Char('j'));
    assert_eq!(
        popup.handle_event(Key::Enter),
        Some(PlayOutcome::AddTrackToPlaylist { track_id: 5, playlist_id: 2 })
    );
}

#[test]
fn add_popup_enter_without_selection_does_nothing() {
    let mut popup = Popup::QueueAdd(QueuePopupState {
        track_id: 5,
        playlists: vec![playlist(1, "a", &[])],
        state: ListState::new(),
    });
    assert_eq!(popup.handle_event(Key::Enter), None);
    assert!(matches!(popup, Popup::QueueAdd(ref q) if q.state.selected.is_none()));
}

#[test]
fn delete_popup_without_entry_does_nothing() {
    let mut popup = Popup::QueueDelete(QueuePopupState {
        track_id: 7,
        playlists: vec![playlist(1, "a", &[(8, 100)])],
        state: ListState { selected: Some(0) },
    });
    assert_eq!(popup.handle_event(Key::Enter), None);
    assert_eq!(
        popup,
        Popup::QueueDelete(QueuePopupState {
            track_id: 7,
            playlists: vec![playlist(1, "a", &[(8, 100)])],
            state: ListState { selected: Some(0) },
        })
    );
}

#[test]
fn queue_scenario_clamps_then_seeks() {
    let mut queue = QueueState::new(
        vec![track(1, "a"), track(2, "b"), track(3, "c")],
        Vec::new(),
    );
    assert_eq!(queue.queue.selected(), None);
    assert_eq!(queue.handle_events(press(Key::Down)), Output::Consumed);
    assert_eq!(queue.queue.selected(), Some(0));
    queue.handle_events(press(Key::Down));
    queue.handle_events(press(Key::Char('j')));
    assert_eq!(queue.queue.selected(), Some(2));
    queue.handle_events(press(Key::Down));
    assert_eq!(queue.queue.selected(), Some(2));
    assert_eq!(
        queue.handle_events(press(Key::Enter)),
        Output::PlayOutcome(PlayOutcome::SkipToPosition(2))
    );
}

#[test]
fn queue_up_moves_back() {
    let mut queue = QueueState::new(vec![track(1, "a"), track(2, "b")], Vec::new());
    assert_eq!(queue.handle_events(press(Key::Char('k'))), Output::Consumed);
    assert_eq!(queue.queue.selected(), Some(1));
    queue.handle_events(press(Key::Up));
    assert_eq!(queue.queue.selected(), Some(0));
}

#[test]
fn queue_without_selection_consumes_enter_and_add() {
    let mut queue = QueueState::new(vec![track(1, "a")], vec![playlist(1, "p", &[])]);
    assert_eq!(queue.handle_events(press(Key::Enter)), Output::Consumed);
    assert_eq!(queue.handle_events(press(Key::Char('a'))), Output::Consumed);
}

#[test]
fn queue_declines_other_keys_and_events() {
    let mut queue = QueueState::new(vec![track(1, "a")], Vec::new());
    assert_eq!(queue.handle_events(press(Key::Char('x'))), Output::NotConsumed);
    assert_eq!(queue.handle_events(press(Key::Left)), Output::NotConsumed);
    assert_eq!(queue.handle_events(Event::Other), Output::NotConsumed);
    assert_eq!(queue.queue.selected(), None);
}

#[test]
fn queue_add_opens_popup_over_a_copy_of_the_playlists() {
    let mut queue = QueueState::new(
        vec![track(1, "a"), track(9, "b")],
        vec![playlist(3, "p", &[(9, 40)])],
    );
    queue.handle_events(press(Key::Up));
    let out = queue.handle_events(press(Key::Char('a')));
    assert_eq!(
        out,
        Output::Popup(Popup::QueueAdd(QueuePopupState {
            track_id: 9,
            playlists: vec![playlist(3, "p", &[(9, 40)])],
            state: ListState::new(),
        }))
    );
    queue.playlists.items.clear();
    assert!(matches!(out, Output::Popup(Popup::QueueAdd(ref q)) if q.playlists.len() == 1));
}

#[test]
fn artist_popup_scenario_plays_first_album() {
    let mut popup = Popup::Artist(ArtistPopupState {
        artist_name: "Artist".to_string(),
        albums: vec![album("A", "First"), album("B", "Second")],
        state: ListState::new(),
    });
    assert_eq!(popup.handle_event(Key::Down), None);
    assert_eq!(popup.handle_event(Key::Enter), Some(PlayOutcome::Album("A".to_string())));
}

#[test]
fn artist_popup_swallows_unknown_keys() {
    let mut popup = Popup::Artist(ArtistPopupState {
        artist_name: "Artist".to_string(),
        albums: vec![album("A", "First"), album("B", "Second")],
        state: ListState { selected: Some(1) },
    });
    assert_eq!(popup.handle_event(Key::Char('q')), None);
    assert_eq!(popup.handle_event(Key::Left), None);
    assert_eq!(popup.handle_event(Key::Char('k')), None);
    assert_eq!(popup.handle_event(Key::Enter), Some(PlayOutcome::Album("A".to_string())));
}

#[test]
fn artist_popup_stale_selection_does_nothing() {
    let mut popup = Popup::Artist(ArtistPopupState {
        artist_name: "Artist".to_string(),
        albums: vec![album("A", "First")],
        state: ListState { selected: Some(3) },
    });
    assert_eq!(popup.handle_event(Key::Enter), None);
}

#[test]
fn delete_popup_scenario_removes_entry() {
    let mut popup = Popup::QueueDelete(QueuePopupState {
        track_id: 7,
        playlists: vec![playlist(1, "p", &[(7, 101)])],
        state: ListState { selected: Some(0) },
    });
    assert_eq!(
        popup.handle_event(Key::Enter),
        Some(PlayOutcome::DeleteTrackFromPlaylist { playlist_track_id: 101, playlist_id: 1 })
    );
}

#[test]
fn row_styles_follow_status() {
    assert_eq!(row_style(TrackStatus::Played), RowStyle::CrossedOut);
    assert_eq!(row_style(TrackStatus::Unplayable), RowStyle::CrossedOut);
    assert_eq!(row_style(TrackStatus::Playing), RowStyle::Bold);
    assert_eq!(row_style(TrackStatus::Unplayed), RowStyle::Plain);
}

#[test]
fn snapshot_copies_every_playlist() {
    let original = vec![playlist(1, "a", &[(1, 2)]), playlist(4, "b", &[])];
    let copy = snapshot_playlists(&original);
    assert_eq!(copy, original);
}
