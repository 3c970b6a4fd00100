//! The player's state and its reaction to each key: the decisions of the
//! player, apart from the sound device, the terminal and the files, which
//! its caller drives as the returned `Action` says.

use vstd::prelude::*;
use crate::editor::{clamp_to, law_delete_undoes_enter, remove_before, InputLine};
use crate::library::{
    law_duration_is_lofty_duration, law_information_is_title_artist_album, lofty_duration_ms,
    lofty_primary_tag, lofty_reads, get_msc_duration, get_msc_information, msc_files_list, music_file_indices, numbered,
    playlist_msc_names, playlist_titles, track_duration, track_information,
};

verus! {

/// Whether the keys go to the commands or to the text field.
#[derive(Clone, Copy, Debug, PartialEq, Eq, Structural)]
pub enum InputMode {
    Normal,
    Editing,
}

/// Whether the current track plays.
#[derive(Clone, Copy, Debug, PartialEq, Eq, Structural)]
pub enum MscState {
    Playing,
    Paused,
}

/// Whether the arrow keys scroll the playlist.
#[derive(Clone, Copy, Debug, PartialEq, Eq, Structural)]
pub enum ScrollState {
    Activated,
    Deactivated,
}

/// A key the user pressed.
#[derive(Clone, Copy, Debug, PartialEq, Eq, Structural)]
pub enum Key {
    Char(char),
    Up,
    Down,
    Left,
    Right,
    Tab,
    Enter,
    Backspace,
    Other,
}

/// What the sound device must do when the play/pause key is pressed.
#[derive(Clone, Copy, Debug, PartialEq, Eq, Structural)]
pub enum Playback {
    /// Hand the current track to the device, then play.
    StartAndPlay,
    Play,
    Pause,
}

/// The outside work a key asks for, which the caller performs.
#[derive(Clone, Copy, Debug, PartialEq, Eq, Structural)]
pub enum Action {
    Nothing,
    Playback(Playback),
    VolumeUp,
    VolumeDown,
    /// The current track changed: empty the device, then read the new
    /// current track and call `restart_the_current_msc`.
    TrackChanged,
    /// Read the folder the text field names and call `submit_message`.
    Submit,
    /// The playlist scrolled to `vertical_scroll`.
    ScrollMoved,
}

/// The state of the player, as the contracts speak of it.
pub struct PlayerView {
    pub text: Seq<char>,
    pub char_index: nat,
    pub input_mode: InputMode,
    pub play_list: Seq<Seq<char>>,
    pub file_count: usize,
    pub index: usize,
    pub has_current: bool,
    pub information: Seq<Seq<char>>,
    pub msc_state: MscState,
    pub scroll_window: ScrollState,
    pub vertical_scroll: usize,
    pub loaded: bool,
    pub elapsed_ms: u128,
    pub duration_ms: u128,
    pub exit: bool,
}

/// The player.
pub struct Player {
    /// The field where the folder of the playlist is typed.
    pub input: InputLine,
    pub input_mode: InputMode,
    /// The numbered titles of the playlist.
    pub play_list_vec: Vec<String>,
    /// The number of files of the folder the player accepts.
    pub file_count: usize,
    /// The position of the current track.
    pub current_file_msc_index: usize,
    /// Whether a current track was opened.
    pub has_current_msc: bool,
    /// Title, artist and album of the current track.
    pub current_mcs_infor: Vec<String>,
    pub msc_state: MscState,
    pub scroll_state_window: ScrollState,
    pub vertical_scroll: usize,
    /// Whether the sound device was handed the current track.
    pub msc_is_loaded: bool,
    /// Milliseconds of the current track played so far.
    pub current_msc_time: u128,
    /// Duration of the current track in milliseconds.
    pub msc_time: u128,
    pub exit: bool,
}

impl View for Player {
    type V = PlayerView;

    open spec fn view(&self) -> PlayerView {
        PlayerView {
            text: self.input@.0,
            char_index: self.input@.1,
            input_mode: self.input_mode,
            play_list: self.play_list_vec.deep_view(),
            file_count: self.file_count,
            index: self.current_file_msc_index,
            has_current: self.has_current_msc,
            information: self.current_mcs_infor.deep_view(),
            msc_state: self.msc_state,
            scroll_window: self.scroll_state_window,
            vertical_scroll: self.vertical_scroll,
            loaded: self.msc_is_loaded,
            elapsed_ms: self.current_msc_time,
            duration_ms: self.msc_time,
            exit: self.exit,
        }
    }
}

/// The current track is a position of the playlist, or 0 when it is empty.
pub open spec fn index_in_playlist(s: PlayerView) -> bool {
    if s.play_list.len() == 0 {
        s.index == 0
    } else {
        s.index < s.play_list.len()
    }
}

/// The state after the play/pause key.
pub open spec fn toggled(s: PlayerView) -> PlayerView {
    match s.msc_state {
        MscState::Paused => PlayerView { msc_state: MscState::Playing, loaded: s.loaded || s.has_current, ..s },
        MscState::Playing => PlayerView { msc_state: MscState::Paused, ..s },
    }
}

/// What the sound device does on the play/pause key.
pub open spec fn toggle_playback(s: PlayerView) -> Playback {
    match s.msc_state {
        MscState::Paused => if !s.loaded && s.has_current {
            Playback::StartAndPlay
        } else {
            Playback::Play
        },
        MscState::Playing => Playback::Pause,
    }
}

/// Whether `'+'` (next) or `'-'` (previous) can move from the current track.
pub open spec fn can_move_track(s: PlayerView, operation: char) -> bool {
    ||| operation == '+' && s.index != s.play_list.len() - 1
    ||| operation == '-' && s.index != 0
}

/// The state after a move to the next (`'+'`) or previous (`'-'`) track:
/// paused on it, or unchanged when there is no such track.
pub open spec fn track_moved(s: PlayerView, operation: char) -> PlayerView {
    if can_move_track(s, operation) {
        PlayerView {
            msc_state: MscState::Paused,
            index: if operation == '-' {
                (s.index - 1) as usize
            } else {
                (s.index + 1) as usize
            },
            ..s
        }
    } else {
        s
    }
}

/// A key the player must refuse: it would ask for the track after the last
/// of an empty playlist.
pub open spec fn key_overflows(s: PlayerView, key: Key) -> bool {
    &&& s.input_mode == InputMode::Normal
    &&& s.scroll_window == ScrollState::Deactivated
    &&& key == Key::Char('p')
    &&& s.play_list.len() == 0
}

/// The state after a key.
pub open spec fn after_key(s: PlayerView, key: Key) -> PlayerView {
    match (s.input_mode, s.scroll_window) {
        (InputMode::Normal, ScrollState::Deactivated) => match key {
            Key::Char(c) => if c == 'q' {
                PlayerView { exit: true, ..s }
            } else if c == ' ' {
                toggled(s)
            } else if c == 'p' {
                track_moved(s, '+')
            } else if c == 'n' {
                track_moved(s, '-')
            } else {
                s
            },
            Key::Tab => PlayerView { input_mode: InputMode::Editing, ..s },
            _ => s,
        },
        (InputMode::Editing, ScrollState::Deactivated) => match key {
            Key::Char(c) => PlayerView {
                text: s.text.take(s.char_index as int).push(c) + s.text.skip(s.char_index as int),
                char_index: s.char_index + 1,
                ..s
            },
            Key::Backspace => if s.char_index == 0 {
                s
            } else {
                PlayerView {
                    text: remove_before(s.text, s.char_index),
                    char_index: (s.char_index - 1) as nat,
                    ..s
                }
            },
            Key::Left => PlayerView { char_index: clamp_to(s.char_index - 1, s.text.len()), ..s },
            Key::Right => PlayerView { char_index: clamp_to(s.char_index + 1int, s.text.len()), ..s },
            Key::Tab => PlayerView {
                input_mode: InputMode::Normal,
                scroll_window: ScrollState::Activated,
                ..s
            },
            _ => s,
        },
        (InputMode::Normal, ScrollState::Activated) => match key {
            Key::Up => PlayerView {
                vertical_scroll: if s.vertical_scroll == 0 {
                    0
                } else {
                    (s.vertical_scroll - 1) as usize
                },
                ..s
            },
            Key::Down => PlayerView {
                vertical_scroll: if s.vertical_scroll == usize::MAX {
                    usize::MAX
                } else {
                    (s.vertical_scroll + 1) as usize
                },
                ..s
            },
            Key::Tab => PlayerView { scroll_window: ScrollState::Deactivated, ..s },
            _ => s,
        },
        (InputMode::Editing, ScrollState::Activated) => s,
    }
}

/// The outside work a key asks for.
pub open spec fn key_action(s: PlayerView, key: Key) -> Action {
    match (s.input_mode, s.scroll_window) {
        (InputMode::Normal, ScrollState::Deactivated) => match key {
            Key::Char(c) => if c == ' ' {
                Action::Playback(toggle_playback(s))
            } else if c == 'p' && can_move_track(s, '+') {
                Action::TrackChanged
            } else if c == 'n' && can_move_track(s, '-') {
                Action::TrackChanged
            } else {
                Action::Nothing
            },
            Key::Up => Action::VolumeUp,
            Key::Down => Action::VolumeDown,
            _ => Action::Nothing,
        },
        (InputMode::Editing, ScrollState::Deactivated) => match key {
            Key::Enter => Action::Submit,
            _ => Action::Nothing,
        },
        (InputMode::Normal, ScrollState::Activated) => match key {
            Key::Up => Action::ScrollMoved,
            Key::Down => Action::ScrollMoved,
            _ => Action::Nothing,
        },
        (InputMode::Editing, ScrollState::Activated) => Action::Nothing,
    }
}

impl Player {
    /// The invariant of the player: the current track lies in the playlist,
    /// and the cursor in the text.
    pub open spec fn wf(&self) -> bool {
        &&& index_in_playlist(self@)
        &&& self@.char_index <= self@.text.len()
    }

    /// A player with nothing loaded: empty field, normal mode, no playlist,
    /// paused, the playlist scrolled to line 1.
    pub fn new() -> (r: Self)
        ensures
            r.wf(),
            r@ == (PlayerView {
                text: Seq::empty(),
                char_index: 0,
                input_mode: InputMode::Normal,
                play_list: Seq::empty(),
                file_count: 0,
                index: 0,
                has_current: false,
                information: Seq::empty(),
                msc_state: MscState::Paused,
                scroll_window: ScrollState::Deactivated,
                vertical_scroll: 1,
                loaded: false,
                elapsed_ms: 0,
                duration_ms: 0,
                exit: false,
            }),
    {
        let r = Player {
            input: InputLine::new(),
            input_mode: InputMode::Normal,
            play_list_vec: Vec::new(),
            file_count: 0,
            current_file_msc_index: 0,
            has_current_msc: false,
            current_mcs_infor: Vec::new(),
            msc_state: MscState::Paused,
            scroll_state_window: ScrollState::Deactivated,
            vertical_scroll: 1,
            msc_is_loaded: false,
            current_msc_time: 0,
            msc_time: 0,
            exit: false,
        };
        assert(r@.play_list =~= Seq::<Seq<char>>::empty());
        assert(r@.information =~= Seq::<Seq<char>>::empty());
        r
    }

    /// Marks the player as finished.
    pub fn exit(&mut self)
        ensures
            final(self)@ == (PlayerView { exit: true, ..old(self)@ }),
    {
        self.exit = true;
    }

    /// Play or pause the current track.
    pub fn toggle_play_pause(&mut self) -> (r: Playback)
        ensures
            final(self)@ == toggled(old(self)@),
            r == toggle_playback(old(self)@),
    {
        match self.msc_state {
            MscState::Paused => {
                let mut r = Playback::Play;
                if !self.msc_is_loaded && self.has_current_msc {
                    r = Playback::StartAndPlay;
                    self.msc_is_loaded = true;
                }
                self.msc_state = MscState::Playing;
                r
            },
            MscState::Playing => {
                self.msc_state = MscState::Paused;
                Playback::Pause
            },
        }
    }

    /// Move to the next (`'+'`) or previous (`'-'`) track, paused; returns
    /// whether it moved. The next track of an empty playlist is refused.
    pub fn load_new_msc(&mut self, operation: char) -> (r: bool)
        requires
            old(self).wf(),
            operation == '+' ==> old(self)@.play_list.len() > 0,
        ensures
            final(self).wf(),
            final(self)@ == track_moved(old(self)@, operation),
            r == can_move_track(old(self)@, operation),
    {
        if (operation == '+' && self.current_file_msc_index != self.play_list_vec.len() - 1) || (
        operation == '-' && self.current_file_msc_index != 0) {
            self.msc_state = MscState::Paused;
            self.current_file_msc_index = if operation == '-' {
                self.current_file_msc_index - 1
            } else {
                self.current_file_msc_index + 1
            };
            true
        } else {
            false
        }
    }

    /// The player's reaction to a key: its new state is `after_key`, and the
    /// outside work it asks for `key_action`.
    pub fn handle_key_event(&mut self, key_event: Key) -> (r: Action)
        requires
            old(self).wf(),
            !key_overflows(old(self)@, key_event),
        ensures
            final(self).wf(),
            final(self)@ == after_key(old(self)@, key_event),
            r == key_action(old(self)@, key_event),
            !(old(self)@.input_mode == InputMode::Editing && old(self)@.scroll_window
                == ScrollState::Activated) ==> !(final(self)@.input_mode == InputMode::Editing
                && final(self)@.scroll_window == ScrollState::Activated),
    {
        match (self.input_mode, self.scroll_state_window) {
            (InputMode::Normal, ScrollState::Deactivated) => match key_event {
                Key::Char('q') => {
                    self.exit();
                    Action::Nothing
                },
                Key::Char(' ') => Action::Playback(self.toggle_play_pause()),
                Key::Up => Action::VolumeUp,
                Key::Down => Action::VolumeDown,
                Key::Char('p') => if self.load_new_msc('+') {
                    Action::TrackChanged
                } else {
                    Action::Nothing
                },
                Key::Char('n') => if self.load_new_msc('-') {
                    Action::TrackChanged
                } else {
                    Action::Nothing
                },
                Key::Tab => {
                    self.input_mode = InputMode::Editing;
                    Action::Nothing
                },
                _ => Action::Nothing,
            },
            (InputMode::Editing, ScrollState::Deactivated) => match key_event {
                Key::Enter => Action::Submit,
                Key::Char(to_insert) => {
                    self.input.enter_char(to_insert);
                    Action::Nothing
                },
                Key::Backspace => {
                    self.input.delete_char();
                    Action::Nothing
                },
                Key::Left => {
                    self.input.move_cursor_left();
                    Action::Nothing
                },
                Key::Right => {
                    self.input.move_cursor_right();
                    Action::Nothing
                },
                Key::Tab => {
                    self.input_mode = InputMode::Normal;
                    self.scroll_state_window = ScrollState::Activated;
                    Action::Nothing
                },
                _ => Action::Nothing,
            },
            (InputMode::Normal, ScrollState::Activated) => match key_event {
                Key::Up => {
                    self.vertical_scroll = self.vertical_scroll.saturating_sub(1);
                    Action::ScrollMoved
                },
                Key::Down => {
                    self.vertical_scroll = self.vertical_scroll.saturating_add(1);
                    Action::ScrollMoved
                },
                Key::Tab => {
                    self.scroll_state_window = ScrollState::Deactivated;
                    Action::Nothing
                },
                _ => Action::Nothing,
            },
            _ => Action::Nothing,
        }
    }

    /// Loads the playlist of a folder, given the contents of its files in the
    /// order they are listed: the numbered titles, the number of accepted
    /// files, no current track, both times 0, the first track current.
    /// Returns the positions of the accepted files.
    pub fn submit_message(&mut self, files: &Vec<Vec<u8>>) -> (r: Vec<usize>)
        requires
            old(self).wf(),
        ensures
            final(self).wf(),
            r@.map_values(|j: usize| j as int) == music_file_indices(files.deep_view()),
            final(self)@ == (PlayerView {
                has_current: false,
                duration_ms: 0,
                elapsed_ms: 0,
                play_list: numbered(playlist_titles(files.deep_view())),
                file_count: r.len() as usize,
                index: 0,
                ..old(self)@
            }),
    {
        self.has_current_msc = false;
        self.msc_time = 0;
        self.current_msc_time = 0;
        self.play_list_vec = playlist_msc_names(files);
        let accepted = msc_files_list(files);
        self.file_count = accepted.len();
        self.current_file_msc_index = 0;
        accepted
    }

    /// The position of the current track among the accepted files, if it is one.
    pub fn current_track(&self) -> (r: Option<usize>)
        ensures
            r == (if self@.index < self@.file_count {
                Some(self@.index)
            } else {
                None
            }),
    {
        if self.current_file_msc_index < self.file_count {
            Some(self.current_file_msc_index)
        } else {
            None
        }
    }

    /// Takes the current track again from its start: given the contents of
    /// its file, or `None` when the file could not be read. Returns whether
    /// the sound device must be handed the track (paused, at the volume).
    pub fn restart_the_current_msc(&mut self, track: Option<&[u8]>) -> (r: bool)
        requires
            old(self).wf(),
        ensures
            final(self).wf(),
            final(self)@ == restarted(old(self)@, track.deep_view()),
            r == (old(self)@.index < old(self)@.file_count && track is Some),
    {
        if self.current_file_msc_index < self.file_count {
            match track {
                Some(bytes) => {
                    assert(bytes.deep_view() =~= bytes@);
                    self.current_mcs_infor = get_msc_information(bytes);
                    self.msc_time = get_msc_duration(bytes);
                    self.current_msc_time = 0;
                    self.has_current_msc = true;
                    self.msc_is_loaded = true;
                    true
                },
                None => false,
            }
        } else {
            self.has_current_msc = false;
            self.current_mcs_infor = Vec::new();
            assert(self.current_mcs_infor.deep_view() =~= Seq::<Seq<char>>::empty());
            false
        }
    }

    /// Advances the time played by the time passed since `last`, both
    /// read from the clock in milliseconds, while the track plays and is
    /// not over; while paused only `last` follows the clock.
    pub fn advance_msc_time(&mut self, last: &mut i64, now: i64)
        requires
            clock_fits(old(self)@, *old(last), now),
        ensures
            (final(self)@, *final(last)) == clock_advanced(old(self)@, *old(last), now),
    {
        match self.msc_state {
            MscState::Playing => {
                if self.msc_time > self.current_msc_time {
                    self.current_msc_time = self.current_msc_time + (now - *last) as u128;
                    *last = now;
                }
            },
            MscState::Paused => {
                *last = now;
            },
        }
    }

    /// `advance_msc_time` with the clock's time now. Returns whether the
    /// clock could be read and the time passed fits the counters; when not,
    /// changes nothing.
    pub fn update_msc_time(&mut self, last: &mut i64) -> (r: bool)
        ensures
            exists|reading: Option<i64>|
                #[trigger] clock_outcome(old(self)@, *old(last), final(self)@, *final(last), r, reading),
    {
        let now = match utc_now_millis() {
            Some(now) => now,
            None => {
                assert(clock_outcome(old(self)@, *old(last), self@, *last, false, None));
                return false;
            },
        };
        if let MscState::Playing = self.msc_state {
            if self.msc_time > self.current_msc_time {
                match now.checked_sub(*last) {
                    Some(passed) => {
                        if self.current_msc_time.checked_add(passed as u128).is_none() {
                            assert(clock_outcome(old(self)@, *old(last), self@, *last, false, Some(now)));
                            return false;
                        }
                    },
                    None => {
                        assert(clock_outcome(old(self)@, *old(last), self@, *last, false, Some(now)));
                        return false;
                    },
                }
            }
        }
        self.advance_msc_time(last, now);
        assert(clock_outcome(old(self)@, *old(last), self@, *last, true, Some(now)));
        true
    }
}

/// The state after `restart_the_current_msc`: with no current track when
/// the position is past the accepted files; unchanged when the file could
/// not be read; else with the track's information and duration, nothing
/// played, opened and handed to the device.
pub open spec fn restarted(s: PlayerView, track: Option<Seq<u8>>) -> PlayerView {
    if s.index >= s.file_count {
        PlayerView { has_current: false, information: Seq::empty(), ..s }
    } else {
        match track {
            Some(b) => PlayerView {
                information: track_information(b),
                duration_ms: track_duration(b),
                elapsed_ms: 0,
                has_current: true,
                loaded: true,
                ..s
            },
            None => s,
        }
    }
}

/// Whether the clock moves the time played at all.
pub open spec fn clock_runs(s: PlayerView) -> bool {
    s.msc_state == MscState::Playing && s.duration_ms > s.elapsed_ms
}

/// The time passed from `last` to `now` fits an `i64`, and the time played
/// plus that time (taken modulo 2^128, as the cast to `u128` does) fits a
/// `u128`, whenever the clock moves the time played.
pub open spec fn clock_fits(s: PlayerView, last: i64, now: i64) -> bool {
    clock_runs(s) ==> (i64::MIN <= now - last <= i64::MAX && s.elapsed_ms + ((now - last) as u128)
        <= u128::MAX)
}

/// What `update_msc_time` did, given the clock's `reading`: it succeeds
/// exactly when the clock was read and the time passed fits, then doing
/// what `advance_msc_time` does; otherwise nothing changes.
pub open spec fn clock_outcome(
    s: PlayerView,
    last: i64,
    s2: PlayerView,
    last2: i64,
    r: bool,
    reading: Option<i64>,
) -> bool {
    &&& r == (reading is Some && clock_fits(s, last, reading->0))
    &&& r ==> (s2, last2) == clock_advanced(s, last, reading->0)
    &&& !r ==> s2 == s && last2 == last
}

/// The state and the last clock reading after the clock reads `now`.
pub open spec fn clock_advanced(s: PlayerView, last: i64, now: i64) -> (PlayerView, i64) {
    if clock_runs(s) {
        (PlayerView { elapsed_ms: (s.elapsed_ms + ((now - last) as u128)) as u128, ..s }, now)
    } else if s.msc_state == MscState::Paused {
        (s, now)
    } else {
        (s, last)
    }
}

/// The clock's time in milliseconds since 1970-01-01 00:00 UTC:
/// `SystemTime::now().duration_since(UNIX_EPOCH)`, its whole seconds made an
/// `i64`, then `chrono::DateTime::<Utc>::from_timestamp` and
/// `timestamp_millis`. `None` when the clock reads before 1970 or beyond what
/// `chrono` represents; none of these calls panics. Nothing is stated of the
/// value, which is the time.
#[verifier::external_body]
fn utc_now_millis() -> Option<i64> {
    let since_epoch = std::time::SystemTime::now().duration_since(std::time::UNIX_EPOCH).ok()?;
    let secs = i64::try_from(since_epoch.as_secs()).ok()?;
    let now = chrono::DateTime::<chrono::Utc>::from_timestamp(secs, since_epoch.subsec_nanos())?;
    Some(now.timestamp_millis())
}

/// No key the player accepts takes the current track out of the playlist.
pub proof fn law_keys_keep_track_in_playlist(s: PlayerView, key: Key)
    requires
        index_in_playlist(s),
        !key_overflows(s, key),
    ensures
        index_in_playlist(after_key(s, key)),
{
}

/// In the text field, backspace right after typing a character gives back
/// the field as it was.
pub proof fn law_backspace_undoes_typing(s: PlayerView, c: char)
    requires
        s.input_mode == InputMode::Editing,
        s.scroll_window == ScrollState::Deactivated,
        s.char_index <= s.text.len(),
    ensures
        after_key(after_key(s, Key::Char(c)), Key::Backspace) == s,
{
    law_delete_undoes_enter(s.text, s.char_index, c);
}

/// Play/pause twice leaves the track playing or paused as it was, and the
/// second press undoes what the first asked of the device.
pub proof fn law_toggle_twice(s: PlayerView)
    ensures
        toggled(toggled(s)).msc_state == s.msc_state,
        toggled(toggled(s)).index == s.index,
        toggle_playback(s) == Playback::Pause <==> toggle_playback(toggled(s)) != Playback::Pause,
{
}

/// Moving to the next track and back returns to the same track, paused.
pub proof fn law_next_then_previous(s: PlayerView)
    requires
        index_in_playlist(s),
        s.play_list.len() <= usize::MAX,
        can_move_track(s, '+'),
    ensures
        can_move_track(track_moved(s, '+'), '-'),
        track_moved(track_moved(s, '+'), '-') == (PlayerView { msc_state: MscState::Paused, ..s }),
{
}

/// Taking the current track again from the same file changes nothing more.
pub proof fn law_restart_idempotent(s: PlayerView, track: Option<Seq<u8>>)
    ensures
        restarted(restarted(s, track), track) == restarted(s, track),
{
}

/// While paused the time played stands still; while playing it never goes
/// back when the clock goes forward.
pub proof fn law_time_played_never_goes_back(s: PlayerView, last: i64, now: i64)
    requires
        clock_fits(s, last, now),
        last <= now,
    ensures
        clock_advanced(s, last, now).0.elapsed_ms >= s.elapsed_ms,
        s.msc_state == MscState::Paused ==> clock_advanced(s, last, now).0 == s,
{
}

/// No key enters editing while the playlist scrolls, and no key moves the
/// cursor past the end of the text.
pub proof fn law_keys_keep_modes_and_cursor(s: PlayerView, key: Key)
    requires
        !(s.input_mode == InputMode::Editing && s.scroll_window == ScrollState::Activated),
        s.char_index <= s.text.len(),
    ensures
        !(after_key(s, key).input_mode == InputMode::Editing && after_key(s, key).scroll_window
            == ScrollState::Activated),
        after_key(s, key).char_index <= after_key(s, key).text.len(),
{
}

/// In normal mode with the playlist not scrolling, each command key acts as
/// the matching operation: space as `toggle_play_pause`, `p` and `n` as
/// `load_new_msc` with `'+'` and `'-'`, `q` as `exit`, the arrows ask for a
/// volume change and change nothing else, Tab starts editing, and every
/// other key does nothing.
pub proof fn law_normal_keys_match_methods(s: PlayerView, key: Key)
    requires
        s.input_mode == InputMode::Normal,
        s.scroll_window == ScrollState::Deactivated,
        !key_overflows(s, key),
    ensures
        key == Key::Char(' ') ==> after_key(s, key) == toggled(s) && key_action(s, key)
            == Action::Playback(toggle_playback(s)),
        key == Key::Char('p') ==> after_key(s, key) == track_moved(s, '+') && (key_action(s, key)
            == Action::TrackChanged <==> can_move_track(s, '+')),
        key == Key::Char('n') ==> after_key(s, key) == track_moved(s, '-') && (key_action(s, key)
            == Action::TrackChanged <==> can_move_track(s, '-')),
        key == Key::Char('q') ==> after_key(s, key) == (PlayerView { exit: true, ..s }) && key_action(
            s,
            key,
        ) == Action::Nothing,
        key == Key::Up ==> after_key(s, key) == s && key_action(s, key) == Action::VolumeUp,
        key == Key::Down ==> after_key(s, key) == s && key_action(s, key) == Action::VolumeDown,
        key == Key::Tab ==> after_key(s, key) == (PlayerView { input_mode: InputMode::Editing, ..s })
            && key_action(s, key) == Action::Nothing,
        !(key == Key::Char(' ') || key == Key::Char('p') || key == Key::Char('n') || key == Key::Char(
            'q',
        ) || key == Key::Up || key == Key::Down || key == Key::Tab) ==> after_key(s, key) == s
            && key_action(s, key) == Action::Nothing,
{
}

/// Taking an accepted track again from a file that could be read starts it
/// from nothing played, with the duration `lofty` reads (0 when it cannot
/// read the file), title, artist and album from its primary tag, the track
/// opened and handed to the device, and the playlist and position kept. Past
/// the accepted files there is no current track and no information.
pub proof fn law_restart_takes_track_from_start(s: PlayerView, bytes: Seq<u8>)
    ensures
        s.index < s.file_count ==> {
            let t = restarted(s, Some(bytes));
            &&& t.elapsed_ms == 0
            &&& lofty_reads(bytes) ==> t.duration_ms == lofty_duration_ms(bytes)
            &&& !lofty_reads(bytes) ==> t.duration_ms == 0
            &&& lofty_reads(bytes) && lofty_primary_tag(bytes) is Some ==> t.information.len() == 3
            &&& !(lofty_reads(bytes) && lofty_primary_tag(bytes) is Some) ==> t.information.len() == 0
            &&& t.has_current && t.loaded
            &&& t.index == s.index && t.play_list == s.play_list && t.msc_state == s.msc_state
        },
        s.index >= s.file_count ==> {
            let t = restarted(s, Some(bytes));
            &&& !t.has_current
            &&& t.information.len() == 0
            &&& t.elapsed_ms == s.elapsed_ms
        },
{
    law_duration_is_lofty_duration(bytes);
    law_information_is_title_artist_album(bytes);
}

/// While the track plays and is not over, a clock reading `now` at or after
/// `last` adds exactly `now - last` milliseconds to the time played, and
/// `now` becomes the last reading.
pub proof fn law_time_played_advances_by_clock_difference(s: PlayerView, last: i64, now: i64)
    requires
        s.msc_state == MscState::Playing,
        s.elapsed_ms < s.duration_ms,
        last <= now,
        clock_fits(s, last, now),
    ensures
        clock_advanced(s, last, now).0.elapsed_ms == s.elapsed_ms + (now - last),
        clock_advanced(s, last, now).1 == now,
{
}

} // verus!
