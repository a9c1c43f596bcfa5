//! The engine adapter: what the playback loop decides. It turns control
//! messages into operations of the playback engine and the engine's
//! events into playback events for the loops that show the state. The
//! loop itself, which talks to the engine, is not here. Times are in
//! milliseconds.

use crate::number::{fits_u64, format_seconds, millis_of, parse_millis, seconds_text};
use crate::text::{chars_of, string_of};
use vstd::prelude::*;
use vstd::string::StringExecFns;

verus! {

/// A control message: what a loop asks of the engine adapter.
#[derive(Debug, Clone, Copy, PartialEq, Eq, Structural)]
pub enum LibMpvMessage {
    Quit,
    /// Change the volume by this much.
    UpdateVolume(i64),
    /// Set the volume to this.
    SetVolume(i64),
    /// Move the position by this much.
    UpdatePosition(i64),
    /// Move the position to this.
    SetPosition(u64),
    Resume,
    Pause,
    PlayPause,
    NextChapter,
    PrevChapter,
}

/// A named part of the file. It ends where the next begins.
#[derive(Debug, Clone, PartialEq, Eq)]
pub struct Chapter {
    pub title: String,
    /// Where the chapter begins.
    pub time: u64,
}

/// The chapter that plays: its title and its place in the list.
#[derive(Debug, Clone, PartialEq, Eq)]
pub struct CurrentChapter {
    pub title: String,
    pub index: usize,
}

impl View for Chapter {
    type V = (Seq<char>, u64);

    open spec fn view(&self) -> (Seq<char>, u64) {
        (self.title@, self.time)
    }
}

impl View for CurrentChapter {
    type V = (Seq<char>, usize);

    open spec fn view(&self) -> (Seq<char>, usize) {
        (self.title@, self.index)
    }
}

/// The chapters of `v` as title and start.
pub open spec fn chapter_views(v: Seq<Chapter>) -> Seq<(Seq<char>, u64)> {
    Seq::new(v.len(), |i: int| v[i]@)
}

/// The characters of a text that may be missing.
pub open spec fn text_view(o: Option<String>) -> Option<Seq<char>> {
    match o {
        Some(s) => Some(s@),
        None => None,
    }
}

/// The chapter that plays, if any, as title and place.
pub open spec fn current_view(o: Option<CurrentChapter>) -> Option<(Seq<char>, usize)> {
    match o {
        Some(c) => Some(c@),
        None => None,
    }
}

/// What is known of a file once it is loaded.
#[derive(Debug, Clone, PartialEq, Eq)]
pub struct FileLoadedData {
    pub media_title: String,
    pub artist: Option<String>,
    pub album: Option<String>,
    pub duration: u64,
    pub volume: i64,
    pub chapter: Option<CurrentChapter>,
    pub chapters: Vec<Chapter>,
}

/// A playback event: what the engine adapter tells every loop that shows
/// the state.
#[derive(Debug, Clone, PartialEq, Eq)]
pub enum LibMpvEventMessage {
    StartFile,
    /// Playback has begun anew; whether it is paused.
    PlaybackRestart(bool),
    PlaybackPause,
    PlaybackResume,
    FileLoaded(FileLoadedData),
    VolumeUpdate(i64),
    PositionUpdate(u64),
    ChapterUpdate(CurrentChapter),
    Quit,
}

/// What the engine reports of a file that it has loaded.
#[derive(Debug, Clone, PartialEq, Eq)]
pub struct LoadedFile {
    pub media_title: String,
    pub artist: Option<String>,
    pub album: Option<String>,
    pub duration: u64,
    pub volume: i64,
    /// The index of the chapter that plays, as the engine gives it.
    pub chapter: i64,
    pub chapters: Vec<Chapter>,
}

/// An event of the engine, with what the loop has read from the engine on
/// its arrival.
#[derive(Debug, Clone, PartialEq, Eq)]
pub enum EngineEvent {
    StartFile,
    PlaybackRestart { paused: bool },
    PauseChanged(bool),
    VolumeChanged(i64),
    ChapterChanged(i64),
    /// A seek has settled at this position.
    Seek { position: u64 },
    FileLoaded(LoadedFile),
    /// Any other event.
    Other,
}

/// What the loop has read from the engine before it hands over a control
/// message.
#[derive(Debug, Clone, Copy, PartialEq, Eq, Structural)]
pub struct EngineReadings {
    pub volume: i64,
    pub chapter: i64,
    pub position: u64,
}

/// Which of the readings a control message calls for. The loop reads
/// those from the engine, and a reading that fails is a failure of the
/// loop; the others it leaves at any value.
#[derive(Debug, Clone, Copy, PartialEq, Eq, Structural)]
pub struct ReadingsWanted {
    pub volume: bool,
    pub chapter: bool,
    pub position: bool,
}

/// An operation of the engine.
#[derive(Debug, Clone, Copy, PartialEq, Eq, Structural)]
pub enum EngineCommand {
    Nothing,
    /// Load the file, append it and play.
    LoadFile,
    SetVolume(i64),
    SeekRelative(i64),
    SeekAbsolute(u64),
    SetPause(bool),
    TogglePause,
    SetChapter(i64),
    /// Write down `resume_position` for the file, tell the engine to
    /// quit, tell the loops that show the state to quit, and stop. Each
    /// step is tried, whether or not the one before it went well.
    Shutdown { resume_position: u64 },
}

/// Where the adapter stands.
#[derive(Debug, Clone, Copy, PartialEq, Eq, Structural)]
pub enum EnginePhase {
    Idle,
    Loading,
    Playing,
    Paused,
    Quitting,
}

/// The loudest volume of the engine: twice the nominal full volume.
pub const ENGINE_VOLUME_MAX: i64 = 200;

/// How far before the place where playback stopped the next run begins.
pub const RESUME_MARGIN: u64 = 5_000;

/// The volume after a change by `delta`, held to 0..=200.
pub open spec fn adjusted_volume(volume: i64, delta: i64) -> i64 {
    let v = volume + delta;
    if v < 0 {
        0
    } else if v > ENGINE_VOLUME_MAX {
        ENGINE_VOLUME_MAX
    } else {
        v as i64
    }
}

/// The volume `v`, held to 0..=200.
pub open spec fn limited_volume(v: i64) -> i64 {
    if v < 0 {
        0
    } else if v > ENGINE_VOLUME_MAX {
        ENGINE_VOLUME_MAX
    } else {
        v
    }
}

/// The position that is written down for a file that stopped at
/// `position`: five seconds earlier, and not before the start.
pub open spec fn resume_position(position: u64) -> u64 {
    if position > RESUME_MARGIN {
        (position - RESUME_MARGIN) as u64
    } else {
        0
    }
}

/// The chapter `steps` after the one at `chapter`, where there is one
/// among `count` chapters.
pub open spec fn chapter_target(chapter: i64, steps: int, count: nat) -> Option<i64> {
    let target = chapter + steps;
    if 0 <= target < count && target <= i64::MAX {
        Some(target as i64)
    } else {
        None
    }
}

/// Whether `index` is the place of a chapter in `chapters`.
pub open spec fn is_chapter_index(chapters: Seq<Chapter>, index: i64) -> bool {
    0 <= index < chapters.len()
}

/// Computes [`adjusted_volume`].
pub fn adjust_volume(volume: i64, delta: i64) -> (r: i64)
    ensures
        r == adjusted_volume(volume, delta),
        0 <= r <= ENGINE_VOLUME_MAX,
{
    match volume.checked_add(delta) {
        Some(v) => limit_volume(v),
        None => if delta < 0 {
            0
        } else {
            ENGINE_VOLUME_MAX
        },
    }
}

/// Computes [`limited_volume`].
pub fn limit_volume(v: i64) -> (r: i64)
    ensures
        r == limited_volume(v),
        0 <= r <= ENGINE_VOLUME_MAX,
{
    if v < 0 {
        0
    } else if v > ENGINE_VOLUME_MAX {
        ENGINE_VOLUME_MAX
    } else {
        v
    }
}

/// Computes [`resume_position`].
pub fn resume_position_for(position: u64) -> (r: u64)
    ensures
        r == resume_position(position),
{
    if position > RESUME_MARGIN {
        position - RESUME_MARGIN
    } else {
        0
    }
}

/// What is written into the file that keeps the position for the next
/// run: `resume_position` in seconds.
pub fn resume_file_text(resume_position: u64) -> (r: String)
    ensures
        r@ == seconds_text(resume_position as nat),
{
    let chars = format_seconds(resume_position);
    string_of(&chars)
}

/// What the file that keeps the position for the next run says: the
/// milliseconds in its text, or none where the text is no number of
/// seconds.
pub fn read_resume_file(text: &str) -> (r: Option<u64>)
    ensures
        r == fits_u64(millis_of(text@)),
{
    let chars = chars_of(text);
    parse_millis(&chars)
}

/// The name of the file that keeps the position for the file at `path`.
pub fn resume_file_name(path: &str) -> (r: String)
    ensures
        r@ == path@ + ".txt"@,
{
    String::from_str(path).concat(".txt")
}

/// A copy of `chapters`.
pub fn copy_chapters(chapters: &Vec<Chapter>) -> (r: Vec<Chapter>)
    ensures
        r@ == chapters@,
{
    let mut r: Vec<Chapter> = Vec::new();
    let mut i: usize = 0;
    while i < chapters.len()
        invariant
            i <= chapters.len(),
            r@ == chapters@.take(i as int),
        decreases chapters.len() - i,
    {
        r.push(Chapter { title: chapters[i].title.clone(), time: chapters[i].time });
        i += 1;
    }
    r
}

/// The chapter at `index` of `chapters`, where there is one. An index
/// that is none of theirs stands for no chapter.
pub open spec fn current_chapter(chapters: Seq<Chapter>, index: i64) -> Option<CurrentChapter> {
    if is_chapter_index(chapters, index) {
        Some(CurrentChapter { title: chapters[index as int].title, index: index as usize })
    } else {
        None
    }
}

/// Looks up [`current_chapter`].
pub fn chapter_at(chapters: &Vec<Chapter>, index: i64) -> (r: Option<CurrentChapter>)
    ensures
        r == current_chapter(chapters@, index),
{
    if index < 0 {
        return None;
    }
    if index as u64 >= chapters.len() as u64 {
        return None;
    }
    let i = index as usize;
    Some(CurrentChapter { title: chapters[i].title.clone(), index: i })
}

/// What the adapter does on an event of the engine.
#[derive(Debug, Clone, PartialEq, Eq)]
pub struct EventReaction {
    /// The playback event to send to every loop that shows the state: the
    /// same event to each, in the order in which the reactions come.
    pub broadcast: Option<LibMpvEventMessage>,
    /// The operation to ask of the engine.
    pub command: EngineCommand,
}

/// The state of the engine adapter.
#[derive(Debug, Clone, PartialEq, Eq)]
pub struct LibMpvHandler {
    pub phase: EnginePhase,
    /// The chapters of the file that is loaded.
    pub chapters: Vec<Chapter>,
    /// The position from which a file plays once it is loaded.
    pub resume_at: u64,
    /// The position that the engine gave last: what is written down
    /// where the engine can no longer be asked.
    pub last_position: u64,
}

impl LibMpvHandler {
    /// The readings that the control message `msg` calls for: the
    /// position for a quit, the volume for a change of the volume, the
    /// chapter for a move among chapters where there are any.
    pub open spec fn readings_for(self, msg: LibMpvMessage) -> ReadingsWanted {
        ReadingsWanted {
            volume: !(self.phase is Quitting) && msg is UpdateVolume,
            chapter: !(self.phase is Quitting) && (msg is NextChapter || msg is PrevChapter)
                && self.chapters@.len() > 0,
            position: !(self.phase is Quitting) && msg is Quit,
        }
    }

    /// The position that the engine gave last, after the control message
    /// `msg` with the readings `readings`.
    pub open spec fn position_after_message(self, msg: LibMpvMessage, readings: EngineReadings) -> u64 {
        if self.readings_for(msg).position {
            readings.position
        } else {
            self.last_position
        }
    }

    /// The position that the engine gave last, after the event `ev`.
    pub open spec fn position_after_event(self, ev: EngineEvent) -> u64 {
        if !(self.phase is Quitting) && ev is Seek {
            ev->Seek_position
        } else {
            self.last_position
        }
    }

    /// The operation that the control message `msg` asks of the engine,
    /// given what was read from the engine. Once the adapter quits it asks
    /// nothing more. A move to a chapter that is not there is no move.
    pub open spec fn command_for(self, msg: LibMpvMessage, readings: EngineReadings) -> EngineCommand {
        if self.phase is Quitting {
            EngineCommand::Nothing
        } else {
            match msg {
                LibMpvMessage::Quit => EngineCommand::Shutdown {
                    resume_position: resume_position(readings.position),
                },
                LibMpvMessage::UpdateVolume(delta) => EngineCommand::SetVolume(
                    adjusted_volume(readings.volume, delta),
                ),
                LibMpvMessage::SetVolume(v) => EngineCommand::SetVolume(limited_volume(v)),
                LibMpvMessage::UpdatePosition(offset) => EngineCommand::SeekRelative(offset),
                LibMpvMessage::SetPosition(position) => EngineCommand::SeekAbsolute(position),
                LibMpvMessage::Resume => EngineCommand::SetPause(false),
                LibMpvMessage::Pause => EngineCommand::SetPause(true),
                LibMpvMessage::PlayPause => EngineCommand::TogglePause,
                LibMpvMessage::NextChapter => match chapter_target(
                    readings.chapter,
                    1,
                    self.chapters@.len(),
                ) {
                    Some(target) => EngineCommand::SetChapter(target),
                    None => EngineCommand::Nothing,
                },
                LibMpvMessage::PrevChapter => match chapter_target(
                    readings.chapter,
                    -1,
                    self.chapters@.len(),
                ) {
                    Some(target) => EngineCommand::SetChapter(target),
                    None => EngineCommand::Nothing,
                },
            }
        }
    }

    /// Where the adapter stands after the control message `msg`.
    pub open spec fn phase_after_message(self, msg: LibMpvMessage) -> EnginePhase {
        if msg is Quit {
            EnginePhase::Quitting
        } else {
            self.phase
        }
    }

    /// The playback event that the event `ev` of the engine becomes. Once
    /// the adapter quits there is none. A change to a chapter that is not
    /// in the list is passed over.
    pub open spec fn event_for(self, ev: EngineEvent) -> Option<LibMpvEventMessage> {
        if self.phase is Quitting {
            None
        } else {
            match ev {
                EngineEvent::StartFile => Some(LibMpvEventMessage::StartFile),
                EngineEvent::PlaybackRestart { paused } => Some(
                    LibMpvEventMessage::PlaybackRestart(paused),
                ),
                EngineEvent::PauseChanged(paused) => if paused {
                    Some(LibMpvEventMessage::PlaybackPause)
                } else {
                    Some(LibMpvEventMessage::PlaybackResume)
                },
                EngineEvent::VolumeChanged(volume) => Some(LibMpvEventMessage::VolumeUpdate(volume)),
                EngineEvent::ChapterChanged(index) => match current_chapter(self.chapters@, index) {
                    Some(chapter) => Some(LibMpvEventMessage::ChapterUpdate(chapter)),
                    None => None,
                },
                EngineEvent::Seek { position } => Some(LibMpvEventMessage::PositionUpdate(position)),
                EngineEvent::FileLoaded(file) => Some(
                    LibMpvEventMessage::FileLoaded(
                        FileLoadedData {
                            media_title: file.media_title,
                            artist: file.artist,
                            album: file.album,
                            duration: file.duration,
                            volume: file.volume,
                            chapter: current_chapter(file.chapters@, file.chapter),
                            chapters: file.chapters,
                        },
                    ),
                ),
                EngineEvent::Other => None,
            }
        }
    }

    /// The operation that the event `ev` of the engine calls for: a file
    /// that was loaded is played from where the last run stopped.
    pub open spec fn command_after_event(self, ev: EngineEvent) -> EngineCommand {
        if !(self.phase is Quitting) && ev is FileLoaded {
            EngineCommand::SeekAbsolute(self.resume_at)
        } else {
            EngineCommand::Nothing
        }
    }

    /// Where the adapter stands after the event `ev` of the engine.
    pub open spec fn phase_after_event(self, ev: EngineEvent) -> EnginePhase {
        if self.phase is Quitting {
            EnginePhase::Quitting
        } else {
            match ev {
                EngineEvent::StartFile => EnginePhase::Loading,
                EngineEvent::FileLoaded(_) => if self.phase is Paused {
                    EnginePhase::Paused
                } else {
                    EnginePhase::Playing
                },
                EngineEvent::PlaybackRestart { paused } => if paused {
                    EnginePhase::Paused
                } else {
                    EnginePhase::Playing
                },
                EngineEvent::PauseChanged(paused) => if self.phase is Playing || self.phase is Paused {
                    if paused {
                        EnginePhase::Paused
                    } else {
                        EnginePhase::Playing
                    }
                } else {
                    self.phase
                },
                _ => self.phase,
            }
        }
    }

    /// The chapters that the adapter knows after the event `ev`: those of
    /// the file, once one is loaded.
    pub open spec fn chapters_after_event(self, ev: EngineEvent) -> Seq<Chapter> {
        if !(self.phase is Quitting) && ev is FileLoaded {
            ev->FileLoaded_0.chapters@
        } else {
            self.chapters@
        }
    }

    /// An adapter that has not begun, for a file that is to play from
    /// `resume_at`.
    pub fn new(resume_at: u64) -> (r: Self)
        ensures
            r.phase is Idle,
            r.chapters@.len() == 0,
            r.resume_at == resume_at,
            r.last_position == resume_at,
    {
        LibMpvHandler {
            phase: EnginePhase::Idle,
            chapters: Vec::new(),
            resume_at,
            last_position: resume_at,
        }
    }

    /// Says which readings the control message `msg` calls for.
    pub fn wanted(&self, msg: &LibMpvMessage) -> (r: ReadingsWanted)
        ensures
            r == self.readings_for(*msg),
    {
        let live = match self.phase {
            EnginePhase::Quitting => false,
            _ => true,
        };
        let (volume, chapter, position) = match msg {
            LibMpvMessage::UpdateVolume(_) => (true, false, false),
            LibMpvMessage::NextChapter => (false, self.chapters.len() > 0, false),
            LibMpvMessage::PrevChapter => (false, self.chapters.len() > 0, false),
            LibMpvMessage::Quit => (false, false, true),
            _ => (false, false, false),
        };
        ReadingsWanted {
            volume: live && volume,
            chapter: live && chapter,
            position: live && position,
        }
    }

    /// Takes a failure of the loop: a call of the engine or a send to
    /// another loop went wrong. The adapter quits, and where it had not
    /// quit before it asks for the shutdown, so that the position is
    /// written down before the loop ends with its failure. `position` is
    /// the position of the engine, or the last that it gave.
    pub fn handle_failure(&mut self, position: u64) -> (c: EngineCommand)
        ensures
            !(old(self).phase is Quitting) ==> c == (EngineCommand::Shutdown {
                resume_position: resume_position(position),
            }),
            old(self).phase is Quitting ==> c is Nothing,
            final(self).phase is Quitting,
            final(self).chapters == old(self).chapters,
            final(self).resume_at == old(self).resume_at,
            final(self).last_position == old(self).last_position,
    {
        let quitting = match self.phase {
            EnginePhase::Quitting => true,
            _ => false,
        };
        self.phase = EnginePhase::Quitting;
        if quitting {
            EngineCommand::Nothing
        } else {
            EngineCommand::Shutdown { resume_position: resume_position_for(position) }
        }
    }

    /// Begins: an adapter that is idle asks the engine to load the file
    /// and waits for it. One that has begun asks nothing.
    pub fn start(&mut self) -> (c: EngineCommand)
        ensures
            old(self).phase is Idle ==> c is LoadFile && final(self).phase is Loading,
            !(old(self).phase is Idle) ==> c is Nothing && final(self).phase == old(self).phase,
            final(self).chapters == old(self).chapters,
            final(self).resume_at == old(self).resume_at,
            final(self).last_position == old(self).last_position,
    {
        match self.phase {
            EnginePhase::Idle => {
                self.phase = EnginePhase::Loading;
                EngineCommand::LoadFile
            },
            _ => EngineCommand::Nothing,
        }
    }

    /// Takes one control message and says what to ask of the engine.
    pub fn handle_message(&mut self, msg: LibMpvMessage, readings: EngineReadings) -> (c:
        EngineCommand)
        ensures
            c == old(self).command_for(msg, readings),
            final(self).phase == old(self).phase_after_message(msg),
            final(self).chapters == old(self).chapters,
            final(self).resume_at == old(self).resume_at,
            final(self).last_position == old(self).position_after_message(msg, readings),
    {
        let quitting = match self.phase {
            EnginePhase::Quitting => true,
            _ => false,
        };
        let count = self.chapters.len();
        let c = if quitting {
            EngineCommand::Nothing
        } else {
            match msg {
                LibMpvMessage::Quit => EngineCommand::Shutdown {
                    resume_position: resume_position_for(readings.position),
                },
                LibMpvMessage::UpdateVolume(delta) => EngineCommand::SetVolume(
                    adjust_volume(readings.volume, delta),
                ),
                LibMpvMessage::SetVolume(v) => EngineCommand::SetVolume(limit_volume(v)),
                LibMpvMessage::UpdatePosition(offset) => EngineCommand::SeekRelative(offset),
                LibMpvMessage::SetPosition(position) => EngineCommand::SeekAbsolute(position),
                LibMpvMessage::Resume => EngineCommand::SetPause(false),
                LibMpvMessage::Pause => EngineCommand::SetPause(true),
                LibMpvMessage::PlayPause => EngineCommand::TogglePause,
                LibMpvMessage::NextChapter => {
                    if readings.chapter >= -1 && readings.chapter < i64::MAX && ((readings.chapter
                        + 1) as u64) < count as u64 {
                        EngineCommand::SetChapter(readings.chapter + 1)
                    } else {
                        EngineCommand::Nothing
                    }
                },
                LibMpvMessage::PrevChapter => {
                    if readings.chapter >= 1 && ((readings.chapter - 1) as u64) < count as u64 {
                        EngineCommand::SetChapter(readings.chapter - 1)
                    } else {
                        EngineCommand::Nothing
                    }
                },
            }
        };
        match msg {
            LibMpvMessage::Quit => {
                if !quitting {
                    self.last_position = readings.position;
                }
                self.phase = EnginePhase::Quitting;
            },
            _ => {},
        }
        c
    }

    /// Takes one event of the engine and says what to tell the loops that
    /// show the state and what to ask of the engine.
    pub fn handle_event(&mut self, ev: EngineEvent) -> (r: EventReaction)
        ensures
            r.broadcast == old(self).event_for(ev),
            r.command == old(self).command_after_event(ev),
            final(self).phase == old(self).phase_after_event(ev),
            final(self).chapters@ == old(self).chapters_after_event(ev),
            final(self).resume_at == old(self).resume_at,
            final(self).last_position == old(self).position_after_event(ev),
    {
        let (quitting, ready, was_paused) = match self.phase {
            EnginePhase::Quitting => (true, false, false),
            EnginePhase::Playing => (false, true, false),
            EnginePhase::Paused => (false, true, true),
            _ => (false, false, false),
        };
        if quitting {
            return EventReaction { broadcast: None, command: EngineCommand::Nothing };
        }
        match ev {
            EngineEvent::StartFile => {
                self.phase = EnginePhase::Loading;
                EventReaction {
                    broadcast: Some(LibMpvEventMessage::StartFile),
                    command: EngineCommand::Nothing,
                }
            },
            EngineEvent::PlaybackRestart { paused } => {
                self.phase = if paused {
                    EnginePhase::Paused
                } else {
                    EnginePhase::Playing
                };
                EventReaction {
                    broadcast: Some(LibMpvEventMessage::PlaybackRestart(paused)),
                    command: EngineCommand::Nothing,
                }
            },
            EngineEvent::PauseChanged(paused) => {
                if ready {
                    self.phase = if paused {
                        EnginePhase::Paused
                    } else {
                        EnginePhase::Playing
                    };
                }
                let event = if paused {
                    LibMpvEventMessage::PlaybackPause
                } else {
                    LibMpvEventMessage::PlaybackResume
                };
                EventReaction { broadcast: Some(event), command: EngineCommand::Nothing }
            },
            EngineEvent::VolumeChanged(volume) => EventReaction {
                broadcast: Some(LibMpvEventMessage::VolumeUpdate(volume)),
                command: EngineCommand::Nothing,
            },
            EngineEvent::ChapterChanged(index) => {
                let broadcast = match chapter_at(&self.chapters, index) {
                    Some(chapter) => Some(LibMpvEventMessage::ChapterUpdate(chapter)),
                    None => None,
                };
                EventReaction { broadcast, command: EngineCommand::Nothing }
            },
            EngineEvent::Seek { position } => {
                self.last_position = position;
                EventReaction {
                    broadcast: Some(LibMpvEventMessage::PositionUpdate(position)),
                    command: EngineCommand::Nothing,
                }
            },
            EngineEvent::FileLoaded(file) => {
                self.chapters = copy_chapters(&file.chapters);
                self.phase = if was_paused {
                    EnginePhase::Paused
                } else {
                    EnginePhase::Playing
                };
                let chapter = chapter_at(&file.chapters, file.chapter);
                let data = FileLoadedData {
                    media_title: file.media_title,
                    artist: file.artist,
                    album: file.album,
                    duration: file.duration,
                    volume: file.volume,
                    chapter,
                    chapters: file.chapters,
                };
                EventReaction {
                    broadcast: Some(LibMpvEventMessage::FileLoaded(data)),
                    command: EngineCommand::SeekAbsolute(self.resume_at),
                }
            },
            EngineEvent::Other => EventReaction { broadcast: None, command: EngineCommand::Nothing },
        }
    }
}

/// Only the readings that a control message calls for bear on what the
/// adapter asks of the engine.
pub proof fn lemma_only_wanted_readings_count(
    adapter: LibMpvHandler,
    msg: LibMpvMessage,
    a: EngineReadings,
    b: EngineReadings,
)
    requires
        adapter.readings_for(msg).volume ==> a.volume == b.volume,
        adapter.readings_for(msg).chapter ==> a.chapter == b.chapter,
        adapter.readings_for(msg).position ==> a.position == b.position,
    ensures
        adapter.command_for(msg, a) == adapter.command_for(msg, b),
        adapter.position_after_message(msg, a) == adapter.position_after_message(msg, b),
{
}

} // verus!
