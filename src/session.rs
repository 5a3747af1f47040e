//! The playback session: the state that the key handlers and the completion
//! rule work on, and the commands they hand to the playback engine.
//!
//! Each step takes what the caller read from the engine (an [`EngineStatus`])
//! and returns the one [`Command`] that the caller then performs. Steps that
//! may pick a random track take the random number as an argument (`*_with`);
//! their companions without the suffix draw it themselves.
use vstd::prelude::*;
use crate::autoplay::{AutoplayFlag, AutoplayState, CompletionRule};
use crate::controls::{
    Adjust, adjust_volume, completed, is_complete, is_paused, looks_paused, seek_after,
    seek_target, volume_after,
};
use crate::focus::CursorState;
use crate::search::lower_of;
use crate::search::first_match_after;
use crate::selection::{
    back_spec, cursor_ok, first_spec, forward_spec, last_spec, page_back_spec, page_forward_spec,
    pick_spec, page_down, page_up, random_draw, select_drawn, select_first, select_last,
    select_next, select_prev,
};
use crate::tracks::{file_uri, folded, index_of_uri, uri_of, TrackList};

verus! {

/// A key press, as far as the session tells keys apart.
#[derive(Clone, Copy, PartialEq, Eq, Structural, Debug)]
pub enum Key {
    Esc,
    Tab,
    Enter,
    Backspace,
    Delete,
    Up,
    Down,
    Left,
    Right,
    Home,
    End,
    Char(char),
    /// Any key that the session ignores.
    Other,
}

/// What the caller reads from the playback engine before a step.
#[derive(Debug)]
pub struct EngineStatus {
    /// The playback position in nanoseconds, if known.
    pub position: Option<u64>,
    /// The position read again right after `position`, to tell whether
    /// playback is paused.
    pub position_again: Option<u64>,
    /// The duration of the loaded track in nanoseconds, if known.
    pub duration: Option<u64>,
    /// The volume, in thousandths of the full volume.
    pub volume: u32,
    /// The URI of the loaded track, if any.
    pub uri: Option<String>,
}

/// What the caller is to do with the engine after a step.
#[derive(PartialEq, Debug)]
pub enum Command {
    /// Nothing.
    Idle,
    /// Leave the session.
    Quit,
    /// Resume or restart playback of the loaded track.
    Play,
    /// Pause playback.
    Pause,
    /// Load the track at `uri` and play it. With `settle_volume`, wait for the
    /// engine to settle and then set that volume: the one-time application of
    /// the session's initial volume.
    Load { uri: String, settle_volume: Option<u32> },
    /// Seek to a position, in nanoseconds.
    Seek(u64),
    /// Set the volume, in thousandths of the full volume.
    SetVolume(u32),
}

/// The mathematical form of a [`Command`].
pub enum CommandView {
    Idle,
    Quit,
    Play,
    Pause,
    Load { uri: Seq<char>, settle_volume: Option<u32> },
    Seek(u64),
    SetVolume(u32),
}

impl View for Command {
    type V = CommandView;

    open spec fn view(&self) -> CommandView {
        match self {
            Command::Idle => CommandView::Idle,
            Command::Quit => CommandView::Quit,
            Command::Play => CommandView::Play,
            Command::Pause => CommandView::Pause,
            Command::Load { uri, settle_volume } => CommandView::Load {
                uri: uri@,
                settle_volume: *settle_volume,
            },
            Command::Seek(t) => CommandView::Seek(*t),
            Command::SetVolume(v) => CommandView::SetVolume(*v),
        }
    }
}

/// The mathematical form of a [`Session`].
pub struct SessionView {
    /// The track paths, sorted.
    pub tracks: Seq<Seq<char>>,
    /// The selection cursor.
    pub selected: Option<usize>,
    /// The focused region.
    pub focus: CursorState,
    /// The autoplay toggles.
    pub autoplay: AutoplayState,
    /// The search buffer.
    pub search: Seq<char>,
    /// The volume to apply once, after the first track is loaded.
    pub initial_volume: Option<u32>,
    /// Whether the initial volume has been handed out for applying.
    pub volume_applied: bool,
    /// Whether the session ends when a track completes and no autoplay toggle
    /// says what comes next.
    pub exit_when_idle: bool,
}

impl SessionView {
    /// The cursor is unset exactly when there are no tracks, and is a valid
    /// index otherwise.
    pub open spec fn valid(self) -> bool {
        &&& cursor_ok(self.selected, self.tracks.len() as usize)
        &&& (self.selected is None <==> self.tracks.len() == 0)
        &&& self.tracks.len() <= usize::MAX
    }
}

/// Keys handled the same way whatever region has the focus.
pub open spec fn is_global(key: Key) -> bool {
    key == Key::Esc || key == Key::Char('q') || key == Key::Tab || key == Key::Char(' ')
}

/// The adjustment that an arrow, `Home` or `End` key stands for: horizontal
/// arrows are fine steps, vertical arrows coarse ones.
pub open spec fn adjust_of(key: Key) -> Option<Adjust> {
    match key {
        Key::Left => Some(Adjust::Down),
        Key::Right => Some(Adjust::Up),
        Key::Down => Some(Adjust::BigDown),
        Key::Up => Some(Adjust::BigUp),
        Key::Home => Some(Adjust::ToStart),
        Key::End => Some(Adjust::ToEnd),
        _ => None,
    }
}

/// The autoplay toggle that a key flips in the control region.
pub open spec fn flag_of(key: Key) -> Option<AutoplayFlag> {
    if key == Key::Char('r') {
        Some(AutoplayFlag::Repeat)
    } else if key == Key::Char('s') {
        Some(AutoplayFlag::Shuffle)
    } else if key == Key::Char('l') {
        Some(AutoplayFlag::Sequential)
    } else if key == Key::Char('i') {
        Some(AutoplayFlag::RepeatList)
    } else {
        None
    }
}

/// Loading the track at `uri`: the initial volume goes along with the first
/// load only, and the latch is set as it goes.
pub open spec fn load_step(v: SessionView, uri: Seq<char>) -> (SessionView, CommandView) {
    if v.initial_volume is Some && !v.volume_applied {
        (
            SessionView { volume_applied: true, ..v },
            CommandView::Load { uri, settle_volume: v.initial_volume },
        )
    } else {
        (v, CommandView::Load { uri, settle_volume: None })
    }
}

/// A key in the track list region.
pub open spec fn list_step(v: SessionView, key: Key, draw: usize) -> (SessionView, CommandView) {
    let n = v.tracks.len() as usize;
    let moved = |sel: Option<usize>| (SessionView { selected: sel, ..v }, CommandView::Idle);
    match key {
        Key::Down => moved(forward_spec(v.selected, n)),
        Key::Up => moved(back_spec(v.selected, n)),
        Key::Right => moved(page_forward_spec(v.selected, n)),
        Key::Left => moved(page_back_spec(v.selected, n)),
        Key::Home => moved(first_spec(v.selected, n)),
        Key::End => moved(last_spec(v.selected, n)),
        Key::Enter => match v.selected {
            Some(i) => load_step(v, uri_of(v.tracks[i as int])),
            None => (v, CommandView::Idle),
        },
        Key::Char(c) => if c == 'r' {
            moved(pick_spec(v.selected, n, draw))
        } else if c == 'R' && n > 0 {
            let i = draw % n;
            load_step(SessionView { selected: Some(i), ..v }, uri_of(v.tracks[i as int]))
        } else {
            (v, CommandView::Idle)
        },
        _ => (v, CommandView::Idle),
    }
}

/// A key in the volume region: the new volume is worked out from the one the
/// engine reports.
pub open spec fn volume_step(v: SessionView, key: Key, st: EngineStatus) -> (SessionView, CommandView) {
    match adjust_of(key) {
        Some(a) => (v, CommandView::SetVolume(volume_after(st.volume, a))),
        None => (v, CommandView::Idle),
    }
}

/// A key in the control region: seeking, or flipping an autoplay toggle.
pub open spec fn control_step(v: SessionView, key: Key, st: EngineStatus) -> (SessionView, CommandView) {
    match adjust_of(key) {
        Some(a) => match seek_after(st.position, st.duration, a) {
            Some(t) => (v, CommandView::Seek(t)),
            None => (v, CommandView::Idle),
        },
        None => match flag_of(key) {
            Some(f) => (SessionView { autoplay: v.autoplay.toggled(f), ..v }, CommandView::Idle),
            None => (v, CommandView::Idle),
        },
    }
}

/// A key in the search region: editing the buffer, or moving the cursor to
/// the next track whose path contains it, ignoring case.
pub open spec fn search_step(v: SessionView, key: Key) -> (SessionView, CommandView) {
    match key {
        Key::Char(c) => (SessionView { search: v.search.push(c), ..v }, CommandView::Idle),
        Key::Backspace => (
            SessionView {
                search: if v.search.len() > 0 { v.search.drop_last() } else { v.search },
                ..v
            },
            CommandView::Idle,
        ),
        Key::Delete => (SessionView { search: Seq::empty(), ..v }, CommandView::Idle),
        Key::Enter => match v.selected {
            Some(i) => match first_match_after(folded(v.tracks), i as int, lower_of(v.search)) {
                Some(j) => (SessionView { selected: Some(j as usize), ..v }, CommandView::Idle),
                None => (v, CommandView::Idle),
            },
            None => (v, CommandView::Idle),
        },
        _ => (v, CommandView::Idle),
    }
}

/// One key press: the global keys first, then the focused region's keys.
pub open spec fn key_step(v: SessionView, key: Key, st: EngineStatus, draw: usize) -> (
    SessionView,
    CommandView,
) {
    if key == Key::Esc || key == Key::Char('q') {
        (v, CommandView::Quit)
    } else if key == Key::Tab {
        (SessionView { focus: v.focus.successor(), ..v }, CommandView::Idle)
    } else if key == Key::Char(' ') {
        if looks_paused(st.position, st.position_again) {
            (v, CommandView::Play)
        } else {
            (v, CommandView::Pause)
        }
    } else {
        match v.focus {
            CursorState::MusicList => list_step(v, key, draw),
            CursorState::Volume => volume_step(v, key, st),
            CursorState::Control => control_step(v, key, st),
            CursorState::Search => search_step(v, key),
        }
    }
}

/// The track that follows track `i` when playing sequentially: the next one,
/// or the first after the last if the list repeats; `None` past the end.
pub open spec fn successor_track(n: int, i: int, repeat_list: bool) -> Option<int> {
    if i + 1 < n {
        Some(i + 1)
    } else if repeat_list && n > 0 {
        Some(0)
    } else {
        None
    }
}

/// One pass of the completion check. When the loaded track has completed, the
/// autoplay rule decides: replay it; load the track after it in the list
/// (found by its URI); load a random track; leave; or stay idle. A URI that
/// no track has is left alone.
pub open spec fn tick_step(v: SessionView, st: EngineStatus, draw: usize) -> (SessionView, CommandView) {
    let n = v.tracks.len() as int;
    if !completed(st.position, st.duration) {
        (v, CommandView::Idle)
    } else {
        match v.autoplay.rule_spec(v.exit_when_idle) {
            CompletionRule::Replay => (v, CommandView::Play),
            CompletionRule::Advance => match st.uri {
                Some(u) => match index_of_uri(v.tracks, u@) {
                    Some(i) => match successor_track(n, i, v.autoplay.repeat_list) {
                        Some(t) => load_step(v, uri_of(v.tracks[t])),
                        None => (v, CommandView::Idle),
                    },
                    None => (v, CommandView::Idle),
                },
                None => (v, CommandView::Idle),
            },
            CompletionRule::Shuffle => if n > 0 {
                load_step(v, uri_of(v.tracks[(draw % (n as usize)) as int]))
            } else {
                (v, CommandView::Idle)
            },
            CompletionRule::Exit => (v, CommandView::Quit),
            CompletionRule::Stay => (v, CommandView::Idle),
        }
    }
}

/// The command that starts a session: the file asked for, if any; else a
/// random track, if asked for and there is one; else nothing.
pub open spec fn start_step(v: SessionView, play: Option<Seq<char>>, random: bool, draw: usize) -> (
    SessionView,
    CommandView,
) {
    match play {
        Some(p) => load_step(v, uri_of(p)),
        None => if random && v.tracks.len() > 0 {
            load_step(v, uri_of(v.tracks[(draw % (v.tracks.len() as usize)) as int]))
        } else {
            (v, CommandView::Idle)
        },
    }
}

/// The characters of an optional path.
pub open spec fn path_view(p: Option<String>) -> Option<Seq<char>> {
    match p {
        Some(s) => Some(s@),
        None => None,
    }
}

/// Relies on `String::push`: appends one character.
#[verifier::external_body]
fn push_char(s: &mut String, c: char)
    ensures
        final(s)@ == old(s)@.push(c),
{
    s.push(c);
}

/// Relies on `String::pop`: removes the last character, if there is one.
#[verifier::external_body]
fn pop_char(s: &mut String)
    ensures
        final(s)@ == if old(s)@.len() > 0 { old(s)@.drop_last() } else { old(s)@ },
{
    s.pop();
}

/// The state of one playback session.
pub struct Session {
    tracks: TrackList,
    selected: Option<usize>,
    focus: CursorState,
    autoplay: AutoplayState,
    search: String,
    initial_volume: Option<u32>,
    volume_applied: bool,
    exit_when_idle: bool,
}

impl View for Session {
    type V = SessionView;

    closed spec fn view(&self) -> SessionView {
        SessionView {
            tracks: self.tracks@,
            selected: self.selected,
            focus: self.focus,
            autoplay: self.autoplay,
            search: self.search@,
            initial_volume: self.initial_volume,
            volume_applied: self.volume_applied,
            exit_when_idle: self.exit_when_idle,
        }
    }
}

impl Session {
    /// The track list keeps its internal form, and the view is valid.
    pub closed spec fn wf(&self) -> bool {
        self.tracks.wf() && self@.valid()
    }

    /// A session over the paths of a directory listing, which it sorts. The
    /// first track is selected, the track list has the focus, the search
    /// buffer is empty, and the initial volume has not been applied.
    pub fn new(
        listing: Vec<String>,
        autoplay: AutoplayState,
        initial_volume: Option<u32>,
        exit_when_idle: bool,
    ) -> (r: Session)
        ensures
            r.wf(),
            crate::tracks::sorted(r@.tracks),
            r@.tracks.to_multiset() == crate::tracks::views(listing@).to_multiset(),
            r@.selected == (if listing@.len() > 0 { Some(0usize) } else { None }),
            r@.focus == CursorState::MusicList,
            r@.autoplay == autoplay,
            r@.search.len() == 0,
            r@.initial_volume == initial_volume,
            !r@.volume_applied,
            r@.exit_when_idle == exit_when_idle,
    {
        let tracks = TrackList::from_listing(listing);
        proof {
            tracks@.to_multiset_ensures();
            crate::tracks::views(listing@).to_multiset_ensures();
        }
        let selected = if tracks.len() > 0 { Some(0) } else { None };
        Session {
            tracks,
            selected,
            focus: CursorState::MusicList,
            autoplay,
            search: String::new(),
            initial_volume,
            volume_applied: false,
            exit_when_idle,
        }
    }

    /// The track list.
    pub fn tracks(&self) -> (r: &TrackList)
        ensures
            r@ == self@.tracks,
    {
        &self.tracks
    }

    /// The selection cursor.
    pub fn selected(&self) -> (r: Option<usize>)
        ensures
            r == self@.selected,
    {
        self.selected
    }

    /// The focused region.
    pub fn focus(&self) -> (r: CursorState)
        ensures
            r == self@.focus,
    {
        self.focus
    }

    /// The autoplay toggles.
    pub fn autoplay(&self) -> (r: AutoplayState)
        ensures
            r == self@.autoplay,
    {
        self.autoplay
    }

    /// The search buffer.
    pub fn search(&self) -> (r: &String)
        ensures
            r@ == self@.search,
    {
        &self.search
    }

    /// Whether the initial volume has been handed out for applying.
    pub fn volume_applied(&self) -> (r: bool)
        ensures
            r == self@.volume_applied,
    {
        self.volume_applied
    }

    fn load(&mut self, uri: String) -> (c: Command)
        requires
            old(self).wf(),
        ensures
            final(self).wf(),
            (final(self)@, c@) == load_step(old(self)@, uri@),
    {
        let settle_volume = match self.initial_volume {
            Some(v) => if !self.volume_applied {
                self.volume_applied = true;
                Some(v)
            } else {
                None
            },
            None => None,
        };
        Command::Load { uri, settle_volume }
    }

    fn list_key(&mut self, key: Key, draw: usize) -> (c: Command)
        requires
            old(self).wf(),
        ensures
            final(self).wf(),
            (final(self)@, c@) == list_step(old(self)@, key, draw),
    {
        let n = self.tracks.len();
        match key {
            Key::Down => {
                self.selected = select_next(self.selected, n);
                Command::Idle
            },
            Key::Up => {
                self.selected = select_prev(self.selected, n);
                Command::Idle
            },
            Key::Right => {
                self.selected = page_down(self.selected, n);
                Command::Idle
            },
            Key::Left => {
                self.selected = page_up(self.selected, n);
                Command::Idle
            },
            Key::Home => {
                self.selected = select_first(self.selected, n);
                Command::Idle
            },
            Key::End => {
                self.selected = select_last(self.selected, n);
                Command::Idle
            },
            Key::Enter => match self.selected {
                Some(i) => {
                    let uri = self.tracks.uri(i);
                    self.load(uri)
                },
                None => Command::Idle,
            },
            Key::Char(c) => if c == 'r' {
                self.selected = select_drawn(self.selected, n, draw);
                Command::Idle
            } else if c == 'R' && n > 0 {
                let i = draw % n;
                self.selected = Some(i);
                let uri = self.tracks.uri(i);
                self.load(uri)
            } else {
                Command::Idle
            },
            _ => Command::Idle,
        }
    }

    fn control_key(&mut self, key: Key, status: &EngineStatus) -> (c: Command)
        requires
            old(self).wf(),
        ensures
            final(self).wf(),
            (final(self)@, c@) == control_step(old(self)@, key, *status),
    {
        match adjust_key(key) {
            Some(a) => match seek_target(status.position, status.duration, a) {
                Some(t) => Command::Seek(t),
                None => Command::Idle,
            },
            None => {
                if key == Key::Char('r') {
                    self.autoplay.toggle(AutoplayFlag::Repeat);
                } else if key == Key::Char('s') {
                    self.autoplay.toggle(AutoplayFlag::Shuffle);
                } else if key == Key::Char('l') {
                    self.autoplay.toggle(AutoplayFlag::Sequential);
                } else if key == Key::Char('i') {
                    self.autoplay.toggle(AutoplayFlag::RepeatList);
                }
                Command::Idle
            },
        }
    }

    fn search_key(&mut self, key: Key) -> (c: Command)
        requires
            old(self).wf(),
        ensures
            final(self).wf(),
            (final(self)@, c@) == search_step(old(self)@, key),
            key == Key::Enter && old(self)@.search.len() == 0 ==> (old(self)@.selected matches Some(
                i,
            ) ==> final(self)@.selected == Some(((i + 1) % (old(self)@.tracks.len() as int)) as usize)),
    {
        match key {
            Key::Char(c) => {
                push_char(&mut self.search, c);
                Command::Idle
            },
            Key::Backspace => {
                pop_char(&mut self.search);
                Command::Idle
            },
            Key::Delete => {
                self.search = String::new();
                Command::Idle
            },
            Key::Enter => {
                if let Some(i) = self.selected {
                    if let Some(j) = self.tracks.next_match(i, &self.search) {
                        self.selected = Some(j);
                    }
                }
                Command::Idle
            },
            _ => Command::Idle,
        }
    }

    /// Handles one key press, with `draw` as the random number that a random
    /// pick uses.
    pub fn key_with(&mut self, key: Key, status: &EngineStatus, draw: usize) -> (c: Command)
        requires
            old(self).wf(),
        ensures
            final(self).wf(),
            (final(self)@, c@) == key_step(old(self)@, key, *status, draw),
            old(self)@.focus == CursorState::Search && key == Key::Enter && old(self)@.search.len()
                == 0 ==> (old(self)@.selected matches Some(i) ==> final(self)@.selected == Some(
                ((i + 1) % (old(self)@.tracks.len() as int)) as usize,
            )),
    {
        if key == Key::Esc || key == Key::Char('q') {
            return Command::Quit;
        }
        if key == Key::Tab {
            self.focus.overflowing_next();
            return Command::Idle;
        }
        if key == Key::Char(' ') {
            return if is_paused(status.position, status.position_again) {
                Command::Play
            } else {
                Command::Pause
            };
        }
        match self.focus {
            CursorState::MusicList => self.list_key(key, draw),
            CursorState::Volume => match adjust_key(key) {
                Some(a) => Command::SetVolume(adjust_volume(status.volume, a)),
                None => Command::Idle,
            },
            CursorState::Control => self.control_key(key, status),
            CursorState::Search => self.search_key(key),
        }
    }

    /// Handles one key press, drawing a random number for a random pick.
    pub fn handle_key(&mut self, key: Key, status: &EngineStatus) -> (c: Command)
        requires
            old(self).wf(),
        ensures
            final(self).wf(),
            exists|draw: usize| (final(self)@, c@) == key_step(old(self)@, key, *status, draw),
    {
        let draw = random_draw();
        self.key_with(key, status, draw)
    }

    /// Runs the completion check, with `draw` as the random number that a
    /// shuffle pick uses.
    pub fn tick_with(&mut self, status: &EngineStatus, draw: usize) -> (c: Command)
        requires
            old(self).wf(),
        ensures
            final(self).wf(),
            (final(self)@, c@) == tick_step(old(self)@, *status, draw),
    {
        if !is_complete(status.position, status.duration) {
            return Command::Idle;
        }
        let n = self.tracks.len();
        match self.autoplay.completion_rule(self.exit_when_idle) {
            CompletionRule::Replay => Command::Play,
            CompletionRule::Advance => {
                let i = match &status.uri {
                    Some(u) => match self.tracks.position_of_uri(u) {
                        Some(i) => i,
                        None => {
                            return Command::Idle;
                        },
                    },
                    None => {
                        return Command::Idle;
                    },
                };
                let target = if i + 1 < n {
                    i + 1
                } else if self.autoplay.repeat_list && n > 0 {
                    0
                } else {
                    return Command::Idle;
                };
                let uri = self.tracks.uri(target);
                self.load(uri)
            },
            CompletionRule::Shuffle => if n > 0 {
                let uri = self.tracks.uri(draw % n);
                self.load(uri)
            } else {
                Command::Idle
            },
            CompletionRule::Exit => Command::Quit,
            CompletionRule::Stay => Command::Idle,
        }
    }

    /// Runs the completion check, drawing a random number for a shuffle pick.
    pub fn tick(&mut self, status: &EngineStatus) -> (c: Command)
        requires
            old(self).wf(),
        ensures
            final(self).wf(),
            exists|draw: usize| (final(self)@, c@) == tick_step(old(self)@, *status, draw),
    {
        let draw = random_draw();
        self.tick_with(status, draw)
    }

    /// The command that starts the session, with `draw` as the random number
    /// that a random start uses: the file `play` if given, else a random
    /// track if `random` is set and there is one.
    pub fn start_with(&mut self, play: Option<String>, random: bool, draw: usize) -> (c: Command)
        requires
            old(self).wf(),
        ensures
            final(self).wf(),
            (final(self)@, c@) == start_step(
                old(self)@,
                path_view(play),
                random,
                draw,
            ),
    {
        match play {
            Some(p) => {
                let uri = file_uri(p.as_str());
                self.load(uri)
            },
            None => {
                let n = self.tracks.len();
                if random && n > 0 {
                    let uri = self.tracks.uri(draw % n);
                    self.load(uri)
                } else {
                    Command::Idle
                }
            },
        }
    }

    /// The command that starts the session, drawing a random number for a
    /// random start.
    pub fn start(&mut self, play: Option<String>, random: bool) -> (c: Command)
        requires
            old(self).wf(),
        ensures
            final(self).wf(),
            exists|draw: usize|
                (final(self)@, c@) == #[trigger] start_step(
                    old(self)@,
                    path_view(play),
                    random,
                    draw,
                ),
    {
        let draw = random_draw();
        self.start_with(play, random, draw)
    }
}

/// The adjustment that a key stands for; see [`adjust_of`].
pub fn adjust_key(key: Key) -> (r: Option<Adjust>)
    ensures
        r == adjust_of(key),
{
    match key {
        Key::Left => Some(Adjust::Down),
        Key::Right => Some(Adjust::Up),
        Key::Down => Some(Adjust::BigDown),
        Key::Up => Some(Adjust::BigUp),
        Key::Home => Some(Adjust::ToStart),
        Key::End => Some(Adjust::ToEnd),
        _ => None,
    }
}

/// With no tracks, every key of the track list region that is not a global
/// key, and a confirmed search, leave the session as it was and ask nothing of
/// the engine.
pub proof fn lemma_empty_list_keys_do_nothing(v: SessionView, key: Key, st: EngineStatus, draw: usize)
    requires
        v.valid(),
        v.tracks.len() == 0,
        !is_global(key),
        v.focus == CursorState::MusicList || (v.focus == CursorState::Search && key == Key::Enter),
    ensures
        key_step(v, key, st, draw) == (v, CommandView::Idle),
{
}

/// In the control region, pressing the key of an autoplay toggle twice gives
/// back the session one started from.
pub proof fn lemma_toggle_key_twice(
    v: SessionView,
    c: char,
    st: EngineStatus,
    first_draw: usize,
    second_draw: usize,
)
    requires
        v.focus == CursorState::Control,
        flag_of(Key::Char(c)) is Some,
    ensures
        key_step(key_step(v, Key::Char(c), st, first_draw).0, Key::Char(c), st, second_draw).0 == v,
{
    let f = flag_of(Key::Char(c))->0;
    crate::autoplay::lemma_toggle_twice(v.autoplay, f);
}

} // verus!
