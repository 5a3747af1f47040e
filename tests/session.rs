use termplayer::autoplay::AutoplayState;
use termplayer::focus::CursorState;
use termplayer::session::{Command, EngineStatus, Key, Session};

const S: u64 = 1_000_000_000;

fn listing(v: &[&str]) -> Vec<String> {
    v.iter().map(|s| s.to_string()).collect()
}

fn abc(autoplay: AutoplayState) -> Session {
    Session::new(listing(&["/m/c.mp3", "/m/a.mp3", "/m/b.mp3"]), autoplay, None, false)
}

fn status() -> EngineStatus {
    EngineStatus { position: None, position_again: None, duration: None, volume: 500, uri: None }
}

fn finished(uri: &str) -> EngineStatus {
    EngineStatus {
        position: Some(200 * S),
        position_again: Some(200 * S),
        duration: Some(200 * S + 300),
        volume: 500,
        uri: Some(uri.to_string()),
    }
}

fn load(uri: &str) -> Command {
    Command::Load { uri: uri.to_string(), settle_volume: None }
}

fn sequential() -> AutoplayState {
    AutoplayState { repeat_list: false, repeat: false, sequential: true, shuffle: false }
}

#[test]
fn new_session_selects_first_sorted_track() {
    let s = abc(AutoplayState::default());
    assert_eq!(s.selected(), Some(0));
    assert_eq!(s.focus(), CursorState::MusicList);
    assert_eq!(s.tracks().len(), 3);
    assert_eq!(s.tracks().path(0), "/m/a.mp3");
    assert_eq!(s.search(), "");
    assert!(!s.volume_applied());
}

#[test]
fn two_downs_then_one_more_wraps() {
    let mut s = abc(AutoplayState::default());
    assert_eq!(s.key_with(Key::Down, &status(), 0), Command::Idle);
    s.key_with(Key::Down, &status(), 0);
    assert_eq!(s.selected(), Some(2));
    s.key_with(Key::Down, &status(), 0);
    assert_eq!(s.selected(), Some(0));
    s.key_with(Key::Up, &status(), 0);
    assert_eq!(s.selected(), Some(2));
    s.key_with(Key::Home, &status(), 0);
    assert_eq!(s.selected(), Some(0));
    s.key_with(Key::End, &status(), 0);
    assert_eq!(s.selected(), Some(2));
}

#[test]
fn sequential_completion_loads_next_track() {
    let mut s = abc(sequential());
    assert_eq!(s.tick_with(&finished("file:///m/b.mp3"), 0), load("file:///m/c.mp3"));
    assert_eq!(s.selected(), Some(0));
}

#[test]
fn sequential_repeat_list_wraps_to_first() {
    let mut s = abc(AutoplayState { repeat_list: true, ..sequential() });
    assert_eq!(s.tick_with(&finished("file:///m/c.mp3"), 0), load("file:///m/a.mp3"));
}

#[test]
fn sequential_without_repeat_stops_at_end() {
    let mut s = abc(sequential());
    assert_eq!(s.tick_with(&finished("file:///m/c.mp3"), 0), Command::Idle);
}

#[test]
fn repeat_track_wins_over_sequential() {
    let mut s = abc(AutoplayState { repeat: true, ..sequential() });
    assert_eq!(s.tick_with(&finished("file:///m/a.mp3"), 0), Command::Play);
}

#[test]
fn unknown_uri_leaves_sequential_idle() {
    let mut s = abc(sequential());
    assert_eq!(s.tick_with(&finished("file:///elsewhere.mp3"), 0), Command::Idle);
    let mut no_uri = finished("x");
    no_uri.uri = None;
    assert_eq!(s.tick_with(&no_uri, 0), Command::Idle);
}

#[test]
fn shuffle_completion_loads_drawn_track() {
    let mut s = abc(AutoplayState { shuffle: true, ..AutoplayState::default() });
    assert_eq!(s.tick_with(&finished("file:///m/a.mp3"), 7), load("file:///m/b.mp3"));
    assert_eq!(s.tick_with(&finished("file:///m/a.mp3"), 3), load("file:///m/a.mp3"));
}

#[test]
fn completion_without_toggles_exits_or_stays() {
    let mut stay = abc(AutoplayState::default());
    assert_eq!(stay.tick_with(&finished("file:///m/a.mp3"), 0), Command::Idle);
    let mut leave = Session::new(listing(&["/m/a.mp3"]), AutoplayState::default(), None, true);
    assert_eq!(leave.tick_with(&finished("file:///m/a.mp3"), 0), Command::Quit);
}

#[test]
fn no_completion_before_the_end() {
    let mut s = abc(AutoplayState { repeat: true, ..AutoplayState::default() });
    let mut st = finished("file:///m/a.mp3");
    st.position = Some(199 * S);
    assert_eq!(s.tick_with(&st, 0), Command::Idle);
}

#[test]
fn empty_directory_keys_change_nothing() {
    let mut s = Session::new(Vec::new(), sequential(), Some(300), false);
    assert_eq!(s.selected(), None);
    for key in [
        Key::Down, Key::Up, Key::Left, Key::Right, Key::Home, Key::End, Key::Enter,
        Key::Char('r'), Key::Char('R'),
    ] {
        assert_eq!(s.key_with(key, &status(), 5), Command::Idle);
        assert_eq!(s.selected(), None);
        assert_eq!(s.focus(), CursorState::MusicList);
        assert!(!s.volume_applied());
    }
    for _ in 0..3 {
        s.key_with(Key::Tab, &status(), 0);
    }
    assert_eq!(s.focus(), CursorState::Search);
    assert_eq!(s.key_with(Key::Enter, &status(), 0), Command::Idle);
    assert_eq!(s.selected(), None);
    assert_eq!(s.tick_with(&finished("file:///m/a.mp3"), 0), Command::Idle);
    assert_eq!(s.start_with(None, true, 4), Command::Idle);
}

#[test]
fn four_tabs_cycle_the_focus() {
    let mut s = abc(AutoplayState::default());
    let expected = [CursorState::Volume, CursorState::Control, CursorState::Search, CursorState::MusicList];
    for focus in expected {
        assert_eq!(s.key_with(Key::Tab, &status(), 0), Command::Idle);
        assert_eq!(s.focus(), focus);
    }
}

#[test]
fn quit_and_play_pause_are_global() {
    let mut s = abc(AutoplayState::default());
    for _ in 0..3 {
        s.key_with(Key::Tab, &status(), 0);
    }
    assert_eq!(s.key_with(Key::Char('q'), &status(), 0), Command::Quit);
    assert_eq!(s.key_with(Key::Esc, &status(), 0), Command::Quit);
    let mut playing = status();
    playing.position = Some(10);
    playing.position_again = Some(11);
    assert_eq!(s.key_with(Key::Char(' '), &playing, 0), Command::Pause);
    playing.position_again = Some(10);
    assert_eq!(s.key_with(Key::Char(' '), &playing, 0), Command::Play);
    assert_eq!(s.search(), "");
}

#[test]
fn enter_plays_selection_and_volume_applies_once() {
    let mut s = Session::new(listing(&["/m/a.mp3", "/m/b.mp3"]), AutoplayState::default(), Some(250), false);
    let first = s.key_with(Key::Enter, &status(), 0);
    assert_eq!(first, Command::Load { uri: "file:///m/a.mp3".to_string(), settle_volume: Some(250) });
    assert!(s.volume_applied());
    s.key_with(Key::Down, &status(), 0);
    assert_eq!(s.key_with(Key::Enter, &status(), 0), load("file:///m/b.mp3"));
}

#[test]
fn random_select_and_random_play() {
    let mut s = abc(AutoplayState::default());
    assert_eq!(s.key_with(Key::Char('r'), &status(), 5), Command::Idle);
    assert_eq!(s.selected(), Some(2));
    assert_eq!(s.key_with(Key::Char('R'), &status(), 4), load("file:///m/b.mp3"));
    assert_eq!(s.selected(), Some(1));
}

#[test]
fn start_plays_requested_file_or_random_track() {
    let mut s = abc(AutoplayState::default());
    assert_eq!(s.start_with(Some("song.ogg".to_string()), true, 1), load("file://song.ogg"));
    let mut r = abc(AutoplayState::default());
    assert_eq!(r.start_with(None, true, 4), load("file:///m/b.mp3"));
    let mut idle = abc(AutoplayState::default());
    assert_eq!(idle.start_with(None, false, 4), Command::Idle);
}

#[test]
fn volume_region_keys() {
    let mut s = abc(AutoplayState::default());
    s.key_with(Key::Tab, &status(), 0);
    assert_eq!(s.key_with(Key::Left, &status(), 0), Command::SetVolume(490));
    assert_eq!(s.key_with(Key::Up, &status(), 0), Command::SetVolume(550));
    assert_eq!(s.key_with(Key::Home, &status(), 0), Command::SetVolume(0));
    assert_eq!(s.key_with(Key::End, &status(), 0), Command::SetVolume(1000));
    assert_eq!(s.key_with(Key::Char('x'), &status(), 0), Command::Idle);
    assert_eq!(s.selected(), Some(0));
}

#[test]
fn control_region_seeks_and_toggles() {
    let mut s = abc(AutoplayState::default());
    s.key_with(Key::Tab, &status(), 0);
    s.key_with(Key::Tab, &status(), 0);
    let mut st = status();
    st.position = Some(20 * S);
    st.duration = Some(100 * S);
    assert_eq!(s.key_with(Key::Right, &st, 0), Command::Seek(21 * S));
    assert_eq!(s.key_with(Key::Down, &st, 0), Command::Seek(5 * S));
    assert_eq!(s.key_with(Key::End, &st, 0), Command::Seek(100 * S));
    assert_eq!(s.key_with(Key::Home, &status(), 0), Command::Idle);
    s.key_with(Key::Char('r'), &st, 0);
    s.key_with(Key::Char('s'), &st, 0);
    s.key_with(Key::Char('l'), &st, 0);
    s.key_with(Key::Char('i'), &st, 0);
    assert_eq!(s.autoplay(), AutoplayState { repeat_list: true, repeat: true, sequential: true, shuffle: true });
    s.key_with(Key::Char('s'), &st, 0);
    s.key_with(Key::Char('s'), &st, 0);
    assert!(s.autoplay().shuffle);
}

#[test]
fn search_region_edits_and_finds() {
    let mut s = Session::new(
        listing(&["/m/Alpha.mp3", "/m/beta.mp3", "/m/Gamma.mp3", "/m/alphabet.mp3"]),
        AutoplayState::default(),
        None,
        false,
    );
    for _ in 0..3 {
        s.key_with(Key::Tab, &status(), 0);
    }
    for c in "ALPX".chars() {
        s.key_with(Key::Char(c), &status(), 0);
    }
    assert_eq!(s.search(), "ALPX");
    s.key_with(Key::Backspace, &status(), 0);
    assert_eq!(s.search(), "ALP");
    s.key_with(Key::Enter, &status(), 0);
    assert_eq!(s.selected(), Some(2));
    s.key_with(Key::Enter, &status(), 0);
    assert_eq!(s.selected(), Some(0));
    s.key_with(Key::Delete, &status(), 0);
    assert_eq!(s.search(), "");
    s.key_with(Key::Backspace, &status(), 0);
    assert_eq!(s.search(), "");
    s.key_with(Key::Enter, &status(), 0);
    assert_eq!(s.selected(), Some(1));
}

#[test]
fn search_without_match_keeps_selection() {
    let mut s = abc(AutoplayState::default());
    for _ in 0..3 {
        s.key_with(Key::Tab, &status(), 0);
    }
    s.key_with(Key::Char('z'), &status(), 0);
    s.key_with(Key::Enter, &status(), 0);
    assert_eq!(s.selected(), Some(0));
}

#[test]
fn drawing_variants_stay_in_range() {
    let mut s = abc(AutoplayState { shuffle: true, ..AutoplayState::default() });
    s.key_with(Key::Char('r'), &status(), 0);
    s.handle_key(Key::Char('r'), &status());
    assert!(s.selected().unwrap() < 3);
    match s.tick(&finished("file:///m/a.mp3")) {
        Command::Load { uri, settle_volume: None } => assert!(uri.starts_with("file:///m/")),
        other => panic!("unexpected command {:?}", other),
    }
    assert_eq!(s.start(Some("x".to_string()), false), load("file://x"));
}
