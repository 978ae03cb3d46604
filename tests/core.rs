use meloic::app::{App, Effect, PlayRequest, ViewMode};
use meloic::catalog::{is_audio_extension, is_audio_extension_lowered};
use meloic::events::{action_for_key, AppAction, Key, KeyInput};
use meloic::playback::{HandleAction, PlaybackState};
use meloic::track::Track;

fn tracks(names: &[&str]) -> Vec<Track> {
    names.iter().map(|n| Track::new(n.to_string())).collect()
}

fn app_of(n: usize) -> App {
    let names: Vec<String> = (0..n).map(|i| format!("t{}.mp3", i)).collect();
    App::new(names.into_iter().map(Track::new).collect())
}

fn play_request(e: Effect) -> PlayRequest {
    match e {
        Effect::Play(r) => r,
        other => panic!("expected a play request, got {:?}", other),
    }
}

#[test]
fn new_app_starts_empty_handed() {
    let app = App::new(tracks(&["a.mp3", "b.flac", "c.wav"]));
    assert_eq!(app.selected(), None);
    assert_eq!(app.total_tracks(), 3);
    assert_eq!(app.current_view(), ViewMode::Normal);
    assert!(app.playback_state().is_stopped());
    let items = app.get_display_items();
    assert_eq!(items.len(), 3);
    assert_eq!(items[2].0, 2);
    assert_eq!(items[2].1.path(), "c.wav");
}

#[test]
fn next_wraps_and_starts_at_first() {
    let mut app = app_of(3);
    app.next();
    assert_eq!(app.selected(), Some(0));
    app.next();
    app.next();
    assert_eq!(app.selected(), Some(2));
    app.next();
    assert_eq!(app.selected(), Some(0));
}

#[test]
fn previous_wraps_to_last() {
    let mut app = app_of(4);
    app.previous();
    assert_eq!(app.selected(), Some(0));
    app.previous();
    assert_eq!(app.selected(), Some(3));
    app.previous();
    assert_eq!(app.selected(), Some(2));
}

#[test]
fn next_then_previous_is_identity() {
    for len in 1..6 {
        for start in 0..len {
            let mut app = app_of(len);
            app.go_to_top();
            for _ in 0..start {
                app.next();
            }
            assert_eq!(app.selected(), Some(start));
            app.next();
            app.previous();
            assert_eq!(app.selected(), Some(start));
            app.previous();
            app.next();
            assert_eq!(app.selected(), Some(start));
        }
    }
}

#[test]
fn next_length_times_cycles() {
    let mut app = app_of(7);
    app.go_to_bottom();
    app.previous();
    assert_eq!(app.selected(), Some(5));
    for _ in 0..7 {
        app.next();
    }
    assert_eq!(app.selected(), Some(5));
}

#[test]
fn paging_clamps_at_both_ends() {
    let mut app = app_of(25);
    app.next_page();
    assert_eq!(app.selected(), None);
    app.select_first();
    app.next_page();
    assert_eq!(app.selected(), Some(10));
    app.next_page();
    assert_eq!(app.selected(), Some(20));
    app.next_page();
    assert_eq!(app.selected(), Some(24));
    app.previous_page();
    assert_eq!(app.selected(), Some(14));
    app.previous_page();
    app.previous_page();
    assert_eq!(app.selected(), Some(0));
}

#[test]
fn random_selection_stays_in_range() {
    let mut app = app_of(5);
    for _ in 0..200 {
        app.select_random();
        let i = app.selected().unwrap();
        assert!(i < 5);
    }
    let mut one = app_of(1);
    one.select_random();
    assert_eq!(one.selected(), Some(0));
}

#[test]
fn empty_catalog_navigation_keeps_no_selection() {
    let mut app = App::new(Vec::new());
    assert!(app.is_empty());
    app.next();
    assert_eq!(app.selected(), None);
    app.previous();
    assert_eq!(app.selected(), None);
    app.select_random();
    assert_eq!(app.selected(), None);
    app.go_to_top();
    app.go_to_bottom();
    app.next_page();
    app.previous_page();
    app.refresh();
    assert_eq!(app.selected(), None);
    assert!(app.get_selected().is_none());
    assert!(matches!(app.apply(AppAction::SelectItem), Effect::Handle(HandleAction::Keep)));
    assert!(app.playback_state().is_stopped());
}

#[test]
fn select_pause_stop_scenario() {
    let mut app = App::new(tracks(&["a.mp3", "b.flac"]));
    app.go_to_bottom();
    assert_eq!(app.selected(), Some(1));
    let req = play_request(app.apply(AppAction::SelectItem));
    assert_eq!(req.previous, HandleAction::Keep);
    assert!(req.create_device);
    assert_eq!(req.track.path(), "b.flac");
    app.finish_play(req.track, true, true);
    match app.playback_state() {
        PlaybackState::Playing(t) => assert_eq!(t.path(), "b.flac"),
        other => panic!("expected Playing, got {:?}", other),
    }
    assert!(matches!(app.apply(AppAction::TogglePause), Effect::Handle(HandleAction::Pause)));
    match app.playback_state() {
        PlaybackState::Paused(t) => assert_eq!(t.path(), "b.flac"),
        other => panic!("expected Paused, got {:?}", other),
    }
    assert!(matches!(app.apply(AppAction::StopPlayback), Effect::Handle(HandleAction::Stop)));
    assert!(app.playback_state().is_stopped());
    assert!(app.current_track().is_none());
}

#[test]
fn second_play_stops_first_handle() {
    let mut app = App::new(tracks(&["a.mp3", "b.flac"]));
    let req = app.play_track(Track::new("a.mp3".to_string()));
    assert_eq!(req.previous, HandleAction::Keep);
    app.finish_play(req.track, true, true);
    let req = app.play_track(Track::new("b.flac".to_string()));
    assert_eq!(req.previous, HandleAction::Stop);
    assert!(!req.create_device);
    assert!(app.playback_state().is_stopped());
    app.finish_play(req.track, true, true);
    assert_eq!(app.current_track().unwrap().path(), "b.flac");
}

#[test]
fn stop_twice_stays_stopped() {
    let mut app = app_of(2);
    let req = app.play_track(Track::new("t0.mp3".to_string()));
    app.finish_play(req.track, true, true);
    assert_eq!(app.stop_playback(), HandleAction::Stop);
    assert!(app.playback_state().is_stopped());
    assert_eq!(app.stop_playback(), HandleAction::Keep);
    assert!(app.playback_state().is_stopped());
}

#[test]
fn failed_open_leaves_stopped() {
    let mut app = app_of(2);
    let req = app.play_track(Track::new("t0.mp3".to_string()));
    app.finish_play(req.track, true, false);
    assert!(app.playback_state().is_stopped());

    let req = app.play_track(Track::new("t1.mp3".to_string()));
    app.finish_play(req.track, true, true);
    let req = app.play_track(Track::new("t0.mp3".to_string()));
    assert_eq!(req.previous, HandleAction::Stop);
    app.finish_play(req.track, true, false);
    assert!(app.playback_state().is_stopped());
    assert!(app.current_track().is_none());
}

#[test]
fn missing_device_leaves_stopped() {
    let mut app = app_of(1);
    let req = app.play_track(Track::new("t0.mp3".to_string()));
    app.finish_play(req.track, false, false);
    assert!(app.playback_state().is_stopped());
    let req = app.play_track(Track::new("t0.mp3".to_string()));
    assert!(req.create_device);
}

#[test]
fn poll_ends_playback_only_when_drained() {
    let mut app = app_of(1);
    assert_eq!(app.update_playback_status(true), HandleAction::Keep);
    let req = app.play_track(Track::new("t0.mp3".to_string()));
    app.finish_play(req.track, true, true);
    assert_eq!(app.update_playback_status(false), HandleAction::Keep);
    assert!(!app.playback_state().is_stopped());
    app.toggle_pause();
    assert_eq!(app.update_playback_status(false), HandleAction::Keep);
    assert!(matches!(app.playback_state(), PlaybackState::Paused(_)));
    assert_eq!(app.update_playback_status(true), HandleAction::Release);
    assert!(app.playback_state().is_stopped());
}

#[test]
fn toggle_pause_when_stopped_does_nothing() {
    let mut app = app_of(1);
    assert_eq!(app.toggle_pause(), HandleAction::Keep);
    assert!(app.playback_state().is_stopped());
}

#[test]
fn help_toggles_without_touching_selection() {
    let mut app = app_of(3);
    app.next();
    app.toggle_help();
    assert_eq!(app.current_view(), ViewMode::Help);
    app.next();
    assert_eq!(app.selected(), Some(1));
    assert!(matches!(app.apply(AppAction::ToggleHelp), Effect::Handle(HandleAction::Keep)));
    assert_eq!(app.current_view(), ViewMode::Normal);
    assert_eq!(app.selected(), Some(1));
}

#[test]
fn refresh_selects_first() {
    let mut app = app_of(3);
    app.go_to_bottom();
    app.apply(AppAction::Refresh);
    assert_eq!(app.selected(), Some(0));
    assert_eq!(app.get_display_items().len(), 3);
}

#[test]
fn quit_changes_nothing() {
    let mut app = app_of(3);
    app.next();
    assert!(matches!(app.apply(AppAction::Quit), Effect::Quit));
    assert_eq!(app.selected(), Some(0));
}

#[test]
fn get_selected_returns_displayed_track() {
    let mut app = App::new(tracks(&["x.ogg", "y.m4a"]));
    assert!(app.get_selected().is_none());
    app.apply(AppAction::NextItem);
    app.apply(AppAction::NextItem);
    assert_eq!(app.get_selected().unwrap().path(), "y.m4a");
}

fn key(code: Key) -> KeyInput {
    KeyInput { code, control_only: false }
}

#[test]
fn keys_map_to_actions() {
    assert_eq!(action_for_key(key(Key::Char('q'))), Some(AppAction::Quit));
    assert_eq!(action_for_key(key(Key::Esc)), Some(AppAction::Quit));
    assert_eq!(action_for_key(key(Key::Char('j'))), Some(AppAction::NextItem));
    assert_eq!(action_for_key(key(Key::Up)), Some(AppAction::PreviousItem));
    assert_eq!(action_for_key(key(Key::PageDown)), Some(AppAction::NextPage));
    assert_eq!(action_for_key(key(Key::Char('d'))), None);
    assert_eq!(
        action_for_key(KeyInput { code: Key::Char('d'), control_only: true }),
        Some(AppAction::NextPage)
    );
    assert_eq!(
        action_for_key(KeyInput { code: Key::Char('u'), control_only: true }),
        Some(AppAction::PreviousPage)
    );
    assert_eq!(action_for_key(key(Key::Char('G'))), Some(AppAction::GoToBottom));
    assert_eq!(action_for_key(key(Key::Home)), Some(AppAction::GoToTop));
    assert_eq!(action_for_key(key(Key::Char(' '))), Some(AppAction::SelectItem));
    assert_eq!(action_for_key(key(Key::F(1))), Some(AppAction::ToggleHelp));
    assert_eq!(action_for_key(key(Key::F(5))), Some(AppAction::Refresh));
    assert_eq!(action_for_key(key(Key::Char('s'))), Some(AppAction::Random));
    assert_eq!(action_for_key(key(Key::Char('p'))), Some(AppAction::TogglePause));
    assert_eq!(action_for_key(key(Key::Char('x'))), Some(AppAction::StopPlayback));
    assert_eq!(action_for_key(key(Key::F(2))), None);
    assert_eq!(action_for_key(key(Key::Other)), None);
}

#[test]
fn audio_extensions_ignore_case() {
    assert!(is_audio_extension("mp3"));
    assert!(is_audio_extension("FLAC"));
    assert!(is_audio_extension("Ogg"));
    assert!(is_audio_extension("M4A"));
    assert!(!is_audio_extension("txt"));
    assert!(!is_audio_extension("mp"));
    assert!(!is_audio_extension(""));
    assert!(is_audio_extension_lowered("wav"));
    assert!(!is_audio_extension_lowered("WAV"));
}
