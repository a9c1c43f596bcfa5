//! The terminal interface: its commands, key bindings and state. The
//! state folds in the playback events, takes the keys, and says what to
//! send to the engine adapter and what to show; reading keys and drawing
//! are left to the loop around it. Times are in milliseconds.

pub mod commands;
pub mod keybindings;
pub mod screen;

use crate::libmpv_handler::{
    chapter_views, current_view, text_view, Chapter, CurrentChapter, LibMpvEventMessage,
    LibMpvMessage,
};
use crate::number::{push_two_digits, two_digits};
use crate::position::PlaybackPosition;
use crate::text::{chars_of, push_chars, push_str, string_of, words};
use crate::timer::{TimerFired, TimerKind, TimerSet};
use crate::tui::commands::{
    generate_completion_suggestions, map_str_to_tuicommand, parse_command, str_views,
    suggestions_for, TuiCommand, TuiState,
};
use crate::tui::keybindings::{bound_command, KeyBinding, KeyCode, KeyEvent, Keybindings};
use crate::tui::screen::{
    chapters_text, command_line_text, cursor_column, format_chapters, format_command_line,
    format_help_view, format_player, format_timer, help_view_text, player_text, timer_text,
};
use vstd::prelude::*;

verus! {

/// How `seconds` is shown: hours, minutes and seconds, two digits each at
/// the least, with a colon between them.
pub open spec fn hms_text(seconds: nat) -> Seq<char> {
    two_digits(seconds / 3600) + seq![':'] + two_digits((seconds % 3600) / 60) + seq![':']
        + two_digits(seconds % 60)
}

/// Appends `seconds` as hours, minutes and seconds to `out`.
pub fn push_hms(out: &mut Vec<char>, seconds: u64)
    ensures
        final(out)@ == old(out)@ + hms_text(seconds as nat),
{
    let h = seconds / 3600;
    let m = (seconds - h * 3600) / 60;
    let s = seconds - h * 3600 - m * 60;
    push_two_digits(out, h);
    out.push(':');
    push_two_digits(out, m);
    out.push(':');
    push_two_digits(out, s);
}

/// Writes `seconds` as hours, minutes and seconds.
pub fn secs_to_hms(seconds: u64) -> (r: String)
    ensures
        r@ == hms_text(seconds as nat),
{
    let mut out: Vec<char> = Vec::new();
    push_hms(&mut out, seconds);
    string_of(&out)
}

/// The command line's walk through the names that complete what was
/// typed.
pub struct CompletionCycle {
    /// The names on offer.
    pub suggestions: Vec<&'static str>,
    /// The place of the name that stands in the command line.
    pub selected: usize,
}

/// What the loop is to do after a key or a timer.
#[derive(Debug, Clone, Copy, PartialEq, Eq, Structural)]
pub struct TuiAction {
    /// The control message to send to the engine adapter.
    pub message: Option<LibMpvMessage>,
    /// Whether to leave the interface.
    pub quit: bool,
}

/// Nothing to send, and no leaving.
pub open spec fn no_action() -> TuiAction {
    TuiAction { message: None, quit: false }
}

/// Sending `message`, and no leaving.
pub open spec fn send(message: LibMpvMessage) -> TuiAction {
    TuiAction { message: Some(message), quit: false }
}

/// Telling the engine adapter to quit, and leaving.
pub open spec fn quit_action() -> TuiAction {
    TuiAction { message: Some(LibMpvMessage::Quit), quit: true }
}

/// The scroll offset `scroll` moved by `lines`, held to what a `u16`
/// holds.
pub open spec fn scrolled(scroll: u16, lines: i16) -> u16 {
    let s = scroll + lines;
    if s < 0 {
        0
    } else if s > u16::MAX {
        u16::MAX
    } else {
        s as u16
    }
}

/// What the command `command` has the loop do.
pub open spec fn action_for(command: TuiCommand) -> TuiAction {
    match command {
        TuiCommand::Quit => quit_action(),
        TuiCommand::Volume(delta) => send(LibMpvMessage::UpdateVolume(delta)),
        TuiCommand::SetVolume(volume) => send(LibMpvMessage::SetVolume(volume)),
        TuiCommand::Seek(offset) => send(LibMpvMessage::UpdatePosition(offset)),
        TuiCommand::SetPosition(position) => send(LibMpvMessage::SetPosition(position)),
        TuiCommand::PlayPause => send(LibMpvMessage::PlayPause),
        TuiCommand::NextChapter => send(LibMpvMessage::NextChapter),
        TuiCommand::PrevChapter => send(LibMpvMessage::PrevChapter),
        _ => no_action(),
    }
}

/// What a timer that fired has the loop do: pause, or quit.
pub open spec fn action_for_timer(fired: Option<TimerFired>) -> TuiAction {
    match fired {
        Some(TimerFired::PauseDeadlineReached) => send(LibMpvMessage::Pause),
        Some(TimerFired::QuitDeadlineReached) => quit_action(),
        None => no_action(),
    }
}

/// What is shown for a command line that stands for no command.
pub open spec fn unknown_command_text(line: Seq<char>) -> Seq<char> {
    "unknown command: "@ + line
}

/// The state of the terminal interface as plain values.
pub struct TuiModel {
    /// The view that is shown.
    pub state: TuiState,
    /// Whether the command line is open.
    pub command_mode: bool,
    /// What stands in the command line.
    pub command_text: Seq<char>,
    /// Where in the command line the next character goes.
    pub cursor: int,
    /// The names that the command line walks through, and the place of
    /// the one that stands in it.
    pub completion: Option<(Seq<Seq<char>>, int)>,
    /// What went wrong with the last command line.
    pub error: Option<Seq<char>>,
    pub position: PlaybackPosition,
    /// The chapters, each as title and start.
    pub chapters: Seq<(Seq<char>, u64)>,
    /// The chapter that plays, as title and place.
    pub chapter: Option<(Seq<char>, usize)>,
    pub volume: i64,
    pub title: Seq<char>,
    pub artist: Option<Seq<char>>,
    pub timers: TimerSet,
    /// How many lines the view is scrolled down.
    pub scroll: u16,
}

impl TuiModel {
    /// Whether the cursor is in the command line and the name that the
    /// completion has selected is one of those on offer.
    pub open spec fn well_formed(self) -> bool {
        &&& 0 <= self.cursor <= self.command_text.len()
        &&& self.completion matches Some(c) ==> 0 <= c.1 < c.0.len()
    }

    /// The interface before any file: the player view, the command line
    /// closed, nothing known of the playback.
    pub open spec fn initial() -> Self {
        TuiModel {
            state: TuiState::Player,
            command_mode: false,
            command_text: Seq::empty(),
            cursor: 0,
            completion: None,
            error: None,
            position: PlaybackPosition::initial(),
            chapters: Seq::empty(),
            chapter: None,
            volume: 0,
            title: Seq::empty(),
            artist: None,
            timers: TimerSet { active: None },
            scroll: 0,
        }
    }

    /// The state with the command line opened or closed: either way it is
    /// empty, and nothing is left of a completion or an error.
    pub open spec fn with_command_line(self, open: bool) -> Self {
        TuiModel {
            command_mode: open,
            command_text: Seq::empty(),
            cursor: 0,
            completion: None,
            error: None,
            ..self
        }
    }

    /// The state after the command `command` at `now`. What concerns the
    /// engine changes nothing here: see [`action_for`].
    pub open spec fn after_command(self, command: TuiCommand, now: u64) -> Self {
        match command {
            TuiCommand::State(s) => TuiModel { state: s, ..self },
            TuiCommand::EnterCommandMode(open) => self.with_command_line(open),
            TuiCommand::PauseAfter(minutes) => TuiModel {
                timers: self.timers.after_set(TimerKind::PauseAfter, minutes, now),
                ..self
            },
            TuiCommand::QuitAfter(minutes) => TuiModel {
                timers: self.timers.after_set(TimerKind::QuitAfter, minutes, now),
                ..self
            },
            TuiCommand::Scroll(lines) => TuiModel { scroll: scrolled(self.scroll, lines), ..self },
            _ => self,
        }
    }

    /// The state after the playback event `event` at `now`.
    pub open spec fn after_event(self, event: LibMpvEventMessage, now: u64) -> Self {
        match event {
            LibMpvEventMessage::StartFile => TuiModel {
                position: self.position.after_start_file(),
                ..self
            },
            LibMpvEventMessage::PlaybackRestart(paused) => TuiModel {
                position: self.position.after_restart(paused, now),
                ..self
            },
            LibMpvEventMessage::PlaybackPause => TuiModel {
                position: self.position.after_pause(now),
                ..self
            },
            LibMpvEventMessage::PlaybackResume => TuiModel {
                position: self.position.after_resume(now),
                ..self
            },
            LibMpvEventMessage::FileLoaded(data) => TuiModel {
                position: self.position.after_file_loaded(data.duration, now),
                title: data.media_title@,
                artist: text_view(data.artist),
                volume: data.volume,
                chapters: chapter_views(data.chapters@),
                chapter: current_view(data.chapter),
                ..self
            },
            LibMpvEventMessage::VolumeUpdate(volume) => TuiModel { volume, ..self },
            LibMpvEventMessage::PositionUpdate(position) => TuiModel {
                position: self.position.after_seek(position, now),
                ..self
            },
            LibMpvEventMessage::ChapterUpdate(chapter) => TuiModel {
                chapter: Some(chapter@),
                ..self
            },
            LibMpvEventMessage::Quit => self,
        }
    }

    /// The state after the timers were asked at `now`.
    pub open spec fn after_timers(self, now: u64) -> Self {
        TuiModel { timers: self.timers.after_poll(now), ..self }
    }

    /// The state after `c` was typed into the command line: it goes in at
    /// the cursor, which moves behind it.
    pub open spec fn after_insert(self, c: char) -> Self {
        TuiModel {
            command_text: self.command_text.insert(self.cursor, c),
            cursor: self.cursor + 1,
            completion: None,
            ..self
        }
    }

    /// The state after backspace: the character before the cursor goes,
    /// where there is one.
    pub open spec fn after_backspace(self) -> Self {
        if self.cursor > 0 {
            TuiModel {
                command_text: self.command_text.remove(self.cursor - 1),
                cursor: self.cursor - 1,
                completion: None,
                ..self
            }
        } else {
            TuiModel { completion: None, ..self }
        }
    }

    /// The state after the cursor went left, where it can.
    pub open spec fn after_left(self) -> Self {
        if self.cursor > 0 {
            TuiModel { cursor: self.cursor - 1, ..self }
        } else {
            self
        }
    }

    /// The state after the cursor went right, where it can.
    pub open spec fn after_right(self) -> Self {
        if self.cursor < self.command_text.len() {
            TuiModel { cursor: self.cursor + 1, ..self }
        } else {
            self
        }
    }

    /// The state with the name at `at` of `list` in the command line and
    /// the cursor behind it.
    pub open spec fn with_suggestion(self, list: Seq<Seq<char>>, at: int) -> Self {
        TuiModel {
            command_text: list[at],
            cursor: list[at].len() as int,
            completion: Some((list, at)),
            ..self
        }
    }

    /// The state after a step through the suggestions, on to the next or
    /// back to the one before, around the ends. The first step asks for
    /// the names that complete what stands in the command line and takes
    /// the first of them, or the last going back; later steps walk the
    /// same names. Where nothing completes the text nothing changes.
    pub open spec fn after_tab(self, forward: bool) -> Self {
        match self.completion {
            Some((list, at)) => {
                let next = if forward {
                    if at + 1 >= list.len() {
                        0
                    } else {
                        at + 1
                    }
                } else {
                    if at <= 0 {
                        list.len() - 1
                    } else {
                        at - 1
                    }
                };
                self.with_suggestion(list, next)
            },
            None => {
                let list = suggestions_for(self.command_text);
                if list.len() == 0 {
                    self
                } else if forward {
                    self.with_suggestion(list, 0)
                } else {
                    self.with_suggestion(list, list.len() - 1)
                }
            },
        }
    }

    /// The state after enter: the command line closes, and the command
    /// that stood in it is carried out. A line that stands for none and
    /// is not blank leaves an error to show.
    pub open spec fn after_enter(self, now: u64) -> Self {
        match parse_command(self.command_text) {
            Some(command) => self.with_command_line(false).after_command(command, now),
            None => if words(self.command_text).len() > 0 {
                TuiModel {
                    error: Some(unknown_command_text(self.command_text)),
                    ..self.with_command_line(false)
                }
            } else {
                self.with_command_line(false)
            },
        }
    }

    /// The state after the key `key` at `now`. With the command line open
    /// the key edits it; a key that came up is passed over. Otherwise the
    /// command that the key is bound to is carried out.
    pub open spec fn after_key(self, key: KeyEvent, bindings: Seq<KeyBinding>, now: u64) -> Self {
        if self.command_mode {
            if key.kind is Release {
                self
            } else {
                match key.code {
                    KeyCode::Char(c) => self.after_insert(c),
                    KeyCode::Backspace => self.after_backspace(),
                    KeyCode::Left => self.after_left(),
                    KeyCode::Right => self.after_right(),
                    KeyCode::Tab => self.after_tab(true),
                    KeyCode::BackTab => self.after_tab(false),
                    KeyCode::Enter => self.after_enter(now),
                    KeyCode::Esc => self.with_command_line(false),
                    KeyCode::Other => self,
                }
            }
        } else {
            match bound_command(bindings, key) {
                Some(command) => self.after_command(command, now),
                None => self,
            }
        }
    }

    /// The text of the view that is shown, at `now`; `keys` is the help
    /// on the keys.
    pub open spec fn shown_text(self, keys: Seq<char>, now: u64) -> Seq<char> {
        match self.state {
            TuiState::Player => player_text(
                self.title,
                self.artist,
                self.chapter,
                self.position,
                self.volume,
                now,
            ),
            TuiState::Chapters => chapters_text(self.chapters, self.chapter, self.position.duration),
            TuiState::Help => help_view_text(keys),
        }
    }

    /// The command line as shown and the column of its cursor, while it
    /// is open.
    pub open spec fn shown_command_line(self) -> Option<(Seq<char>, u16)> {
        if self.command_mode {
            Some((command_line_text(self.command_text), cursor_column(self.cursor)))
        } else {
            None
        }
    }

    /// What the key `key` has the loop do.
    pub open spec fn action_for_key(self, key: KeyEvent, bindings: Seq<KeyBinding>) -> TuiAction {
        if self.command_mode {
            if !(key.kind is Release) && key.code is Enter {
                match parse_command(self.command_text) {
                    Some(command) => action_for(command),
                    None => no_action(),
                }
            } else {
                no_action()
            }
        } else {
            match bound_command(bindings, key) {
                Some(command) => action_for(command),
                None => no_action(),
            }
        }
    }
}

impl View for CompletionCycle {
    type V = (Seq<Seq<char>>, int);

    open spec fn view(&self) -> (Seq<Seq<char>>, int) {
        (str_views(self.suggestions@), self.selected as int)
    }
}

/// The completion, if any, as names and place.
pub open spec fn completion_view(o: Option<CompletionCycle>) -> Option<(Seq<Seq<char>>, int)> {
    match o {
        Some(c) => Some(c@),
        None => None,
    }
}

/// The state of the terminal interface.
pub struct Tui {
    state: TuiState,
    command_mode: bool,
    command_text: Vec<char>,
    cursor: usize,
    completion: Option<CompletionCycle>,
    error: Option<String>,
    position: PlaybackPosition,
    chapters: Vec<Chapter>,
    chapter: Option<CurrentChapter>,
    volume: i64,
    title: String,
    artist: Option<String>,
    timers: TimerSet,
    scroll: u16,
}

impl View for Tui {
    type V = TuiModel;

    closed spec fn view(&self) -> TuiModel {
        TuiModel {
            state: self.state,
            command_mode: self.command_mode,
            command_text: self.command_text@,
            cursor: self.cursor as int,
            completion: completion_view(self.completion),
            error: text_view(self.error),
            position: self.position,
            chapters: chapter_views(self.chapters@),
            chapter: current_view(self.chapter),
            volume: self.volume,
            title: self.title@,
            artist: text_view(self.artist),
            timers: self.timers,
            scroll: self.scroll,
        }
    }
}

impl Tui {
    /// The interface before any file.
    pub fn new() -> (r: Self)
        ensures
            r@ == TuiModel::initial(),
            r@.well_formed(),
    {
        let r = Tui {
            state: TuiState::Player,
            command_mode: false,
            command_text: Vec::new(),
            cursor: 0,
            completion: None,
            error: None,
            position: PlaybackPosition::new(),
            chapters: Vec::new(),
            chapter: None,
            volume: 0,
            title: String::new(),
            artist: None,
            timers: TimerSet::new(),
            scroll: 0,
        };
        proof {
            assert(r@.command_text =~= Seq::<char>::empty());
            assert(r@.chapters =~= Seq::<(Seq<char>, u64)>::empty());
            assert(r@.title =~= Seq::<char>::empty());
        }
        r
    }

    /// Opens the command line, or closes it.
    pub fn set_command_mode(&mut self, open: bool)
        ensures
            final(self)@ == old(self)@.with_command_line(open),
            final(self)@.well_formed(),
    {
        self.cursor = 0;
        self.command_text = Vec::new();
        self.command_mode = open;
        self.completion = None;
        self.error = None;
        proof {
            assert(self@.command_text =~= Seq::<char>::empty());
        }
    }

    /// Carries out a command: a change of the view, the command line, the
    /// timers or the scroll offset is made here, and what concerns the
    /// engine is handed back as a control message.
    pub fn dispatch(&mut self, command: TuiCommand, now: u64) -> (action: TuiAction)
        requires
            old(self)@.well_formed(),
        ensures
            action == action_for(command),
            final(self)@ == old(self)@.after_command(command, now),
            final(self)@.well_formed(),
    {
        match command {
            TuiCommand::State(s) => {
                self.state = s;
                TuiAction { message: None, quit: false }
            },
            TuiCommand::Quit => TuiAction { message: Some(LibMpvMessage::Quit), quit: true },
            TuiCommand::Volume(delta) => TuiAction {
                message: Some(LibMpvMessage::UpdateVolume(delta)),
                quit: false,
            },
            TuiCommand::SetVolume(volume) => TuiAction {
                message: Some(LibMpvMessage::SetVolume(volume)),
                quit: false,
            },
            TuiCommand::Seek(offset) => TuiAction {
                message: Some(LibMpvMessage::UpdatePosition(offset)),
                quit: false,
            },
            TuiCommand::SetPosition(position) => TuiAction {
                message: Some(LibMpvMessage::SetPosition(position)),
                quit: false,
            },
            TuiCommand::PlayPause => TuiAction {
                message: Some(LibMpvMessage::PlayPause),
                quit: false,
            },
            TuiCommand::NextChapter => TuiAction {
                message: Some(LibMpvMessage::NextChapter),
                quit: false,
            },
            TuiCommand::PrevChapter => TuiAction {
                message: Some(LibMpvMessage::PrevChapter),
                quit: false,
            },
            TuiCommand::EnterCommandMode(open) => {
                self.set_command_mode(open);
                TuiAction { message: None, quit: false }
            },
            TuiCommand::PauseAfter(minutes) => {
                self.timers.set_pause_after(minutes, now);
                TuiAction { message: None, quit: false }
            },
            TuiCommand::QuitAfter(minutes) => {
                self.timers.set_quit_after(minutes, now);
                TuiAction { message: None, quit: false }
            },
            TuiCommand::Scroll(lines) => {
                let moved: i32 = self.scroll as i32 + lines as i32;
                self.scroll = if moved < 0 {
                    0
                } else if moved > 0xffff {
                    0xffff
                } else {
                    moved as u16
                };
                TuiAction { message: None, quit: false }
            },
        }
    }

    /// Asks the timers at `now`. A pause timer that is due has the loop
    /// send a pause, a quit timer a quit, after which the loop leaves.
    pub fn check_timers(&mut self, now: u64) -> (action: TuiAction)
        requires
            old(self)@.well_formed(),
        ensures
            action == action_for_timer(old(self)@.timers.fires_at(now)),
            final(self)@ == old(self)@.after_timers(now),
            final(self)@.well_formed(),
    {
        match self.timers.poll(now) {
            Some(TimerFired::PauseDeadlineReached) => TuiAction {
                message: Some(LibMpvMessage::Pause),
                quit: false,
            },
            Some(TimerFired::QuitDeadlineReached) => TuiAction {
                message: Some(LibMpvMessage::Quit),
                quit: true,
            },
            None => TuiAction { message: None, quit: false },
        }
    }

    /// Folds one playback event into the state, and says whether it tells
    /// the interface to leave.
    pub fn handle_event(&mut self, event: LibMpvEventMessage, now: u64) -> (quit: bool)
        requires
            old(self)@.well_formed(),
        ensures
            quit == (event is Quit),
            final(self)@ == old(self)@.after_event(event, now),
            final(self)@.well_formed(),
    {
        match event {
            LibMpvEventMessage::StartFile => {
                self.position.start_file();
                false
            },
            LibMpvEventMessage::PlaybackRestart(paused) => {
                self.position.playback_restart(paused, now);
                false
            },
            LibMpvEventMessage::PlaybackPause => {
                self.position.pause(now);
                false
            },
            LibMpvEventMessage::PlaybackResume => {
                self.position.resume(now);
                false
            },
            LibMpvEventMessage::FileLoaded(data) => {
                self.position.file_loaded(data.duration, now);
                self.title = data.media_title;
                self.artist = data.artist;
                self.volume = data.volume;
                self.chapters = data.chapters;
                self.chapter = data.chapter;
                false
            },
            LibMpvEventMessage::VolumeUpdate(volume) => {
                self.volume = volume;
                false
            },
            LibMpvEventMessage::PositionUpdate(position) => {
                self.position.seek(position, now);
                false
            },
            LibMpvEventMessage::ChapterUpdate(chapter) => {
                self.chapter = Some(chapter);
                false
            },
            LibMpvEventMessage::Quit => true,
        }
    }

    fn insert_char(&mut self, c: char)
        requires
            old(self)@.well_formed(),
        ensures
            final(self)@ == old(self)@.after_insert(c),
            final(self)@.well_formed(),
    {
        self.completion = None;
        self.command_text.insert(self.cursor, c);
        let n = self.command_text.len();
        assert(self.cursor < n);
        self.cursor = self.cursor + 1;
    }

    fn backspace(&mut self)
        requires
            old(self)@.well_formed(),
        ensures
            final(self)@ == old(self)@.after_backspace(),
            final(self)@.well_formed(),
    {
        self.completion = None;
        if self.cursor > 0 {
            self.cursor = self.cursor - 1;
            self.command_text.remove(self.cursor);
        }
    }

    fn cursor_left(&mut self)
        requires
            old(self)@.well_formed(),
        ensures
            final(self)@ == old(self)@.after_left(),
            final(self)@.well_formed(),
    {
        if self.cursor > 0 {
            self.cursor = self.cursor - 1;
        }
    }

    fn cursor_right(&mut self)
        requires
            old(self)@.well_formed(),
        ensures
            final(self)@ == old(self)@.after_right(),
            final(self)@.well_formed(),
    {
        if self.cursor < self.command_text.len() {
            self.cursor = self.cursor + 1;
        }
    }

    fn cycle(&mut self, forward: bool)
        requires
            old(self)@.well_formed(),
        ensures
            final(self)@ == old(self)@.after_tab(forward),
            final(self)@.well_formed(),
    {
        let (list, next) = match self.completion.take() {
            Some(c) => {
                let n = c.suggestions.len();
                let next = if forward {
                    if c.selected + 1 >= n {
                        0
                    } else {
                        c.selected + 1
                    }
                } else {
                    if c.selected == 0 {
                        n - 1
                    } else {
                        c.selected - 1
                    }
                };
                (c.suggestions, next)
            },
            None => {
                let text = string_of(&self.command_text);
                let list = generate_completion_suggestions(text.as_str());
                if list.len() == 0 {
                    return ;
                }
                let next = if forward {
                    0
                } else {
                    list.len() - 1
                };
                (list, next)
            },
        };
        let name = chars_of(list[next]);
        self.cursor = 0;
        self.command_text = name;
        self.cursor = self.command_text.len();
        self.completion = Some(CompletionCycle { suggestions: list, selected: next });
    }

    fn enter(&mut self, now: u64) -> (action: TuiAction)
        requires
            old(self)@.well_formed(),
        ensures
            action == (match parse_command(old(self)@.command_text) {
                Some(command) => action_for(command),
                None => no_action(),
            }),
            final(self)@ == old(self)@.after_enter(now),
            final(self)@.well_formed(),
    {
        let text = string_of(&self.command_text);
        match map_str_to_tuicommand(text.as_str()) {
            Some(command) => {
                self.set_command_mode(false);
                self.dispatch(command, now)
            },
            None => {
                let blank = crate::text::split_words(&self.command_text).len() == 0;
                let mut message: Vec<char> = Vec::new();
                push_str(&mut message, "unknown command: ");
                push_chars(&mut message, &self.command_text);
                self.set_command_mode(false);
                if !blank {
                    self.error = Some(string_of(&message));
                }
                TuiAction { message: None, quit: false }
            },
        }
    }

    /// Takes one key. With the command line open the key edits it, and
    /// enter carries out what stands in it; otherwise the command that the
    /// key is bound to in `bindings` is carried out.
    pub fn handle_key(&mut self, key: &KeyEvent, bindings: &Keybindings, now: u64) -> (action:
        TuiAction)
        requires
            old(self)@.well_formed(),
        ensures
            action == old(self)@.action_for_key(*key, bindings.map@),
            final(self)@ == old(self)@.after_key(*key, bindings.map@, now),
            final(self)@.well_formed(),
    {
        let nothing = TuiAction { message: None, quit: false };
        if self.command_mode {
            match key.kind {
                crate::tui::keybindings::KeyEventKind::Release => {
                    return nothing;
                },
                _ => {},
            }
            match key.code {
                KeyCode::Char(c) => {
                    self.insert_char(c);
                    nothing
                },
                KeyCode::Backspace => {
                    self.backspace();
                    nothing
                },
                KeyCode::Left => {
                    self.cursor_left();
                    nothing
                },
                KeyCode::Right => {
                    self.cursor_right();
                    nothing
                },
                KeyCode::Tab => {
                    self.cycle(true);
                    nothing
                },
                KeyCode::BackTab => {
                    self.cycle(false);
                    nothing
                },
                KeyCode::Enter => self.enter(now),
                KeyCode::Esc => {
                    self.set_command_mode(false);
                    nothing
                },
                KeyCode::Other => nothing,
            }
        } else {
            match bindings.map_keyevent_to_tuicommand(key) {
                Some(command) => self.dispatch(command, now),
                None => nothing,
            }
        }
    }

    /// The view that is shown.
    pub fn state(&self) -> (r: TuiState)
        ensures
            r == self@.state,
    {
        self.state
    }

    /// Whether the command line is open.
    pub fn command_mode(&self) -> (r: bool)
        ensures
            r == self@.command_mode,
    {
        self.command_mode
    }

    /// What stands in the command line.
    pub fn command_text(&self) -> (r: String)
        ensures
            r@ == self@.command_text,
    {
        string_of(&self.command_text)
    }

    /// Where in the command line the next character goes.
    pub fn cursor(&self) -> (r: usize)
        ensures
            r == self@.cursor,
    {
        self.cursor
    }

    /// What went wrong with the last command line.
    pub fn error(&self) -> (r: Option<String>)
        ensures
            text_view(r) == self@.error,
    {
        match &self.error {
            Some(e) => Some(e.clone()),
            None => None,
        }
    }

    /// What is remembered of the playback position.
    pub fn position(&self) -> (r: PlaybackPosition)
        ensures
            r == self@.position,
    {
        self.position
    }

    /// The playback position at `now`.
    pub fn current_time(&self, now: u64) -> (r: u64)
        ensures
            r == self@.position.time_at(now),
    {
        self.position.current_time(now)
    }

    /// The volume as last reported.
    pub fn volume(&self) -> (r: i64)
        ensures
            r == self@.volume,
    {
        self.volume
    }

    /// The title of the file.
    pub fn title(&self) -> (r: String)
        ensures
            r@ == self@.title,
    {
        self.title.clone()
    }

    /// The artist of the file.
    pub fn artist(&self) -> (r: Option<String>)
        ensures
            text_view(r) == self@.artist,
    {
        match &self.artist {
            Some(a) => Some(a.clone()),
            None => None,
        }
    }

    /// The chapters of the file.
    pub fn chapters(&self) -> (r: &Vec<Chapter>)
        ensures
            chapter_views(r@) == self@.chapters,
    {
        &self.chapters
    }

    /// The chapter that plays.
    pub fn chapter(&self) -> (r: Option<CurrentChapter>)
        ensures
            current_view(r) == self@.chapter,
    {
        match &self.chapter {
            Some(c) => Some(CurrentChapter { title: c.title.clone(), index: c.index }),
            None => None,
        }
    }

    /// The timers.
    pub fn timers(&self) -> (r: TimerSet)
        ensures
            r == self@.timers,
    {
        self.timers
    }

    /// How many lines the view is scrolled down.
    pub fn scroll(&self) -> (r: u16)
        ensures
            r == self@.scroll,
    {
        self.scroll
    }

    /// The text of the view that is shown, at `now`; `keys` is the help
    /// on the keys.
    pub fn text(&self, keys: &str, now: u64) -> (r: String)
        ensures
            r@ == self@.shown_text(keys@, now),
    {
        let out = match self.state {
            TuiState::Player => format_player(
                self.title.as_str(),
                &self.artist,
                &self.chapter,
                &self.position,
                self.volume,
                now,
            ),
            TuiState::Chapters => format_chapters(
                &self.chapters,
                &self.chapter,
                self.position.duration,
            ),
            TuiState::Help => format_help_view(keys),
        };
        string_of(&out)
    }

    /// The command line as shown and the column of its cursor, while it
    /// is open.
    pub fn command_line(&self) -> (r: Option<(String, u16)>)
        ensures
            match self@.shown_command_line() {
                Some(shown) => r matches Some(line) && line.0@ == shown.0 && line.1 == shown.1,
                None => r is None,
            },
    {
        if self.command_mode {
            Some(format_command_line(&self.command_text, self.cursor))
        } else {
            None
        }
    }

    /// What is shown of the pending timer at `now`.
    pub fn timer_label(&self, now: u64) -> (r: Option<String>)
        ensures
            text_view(r) == timer_text(self@.timers, now),
    {
        format_timer(&self.timers, now)
    }
}

} // verus!
