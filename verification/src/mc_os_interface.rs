//! The media-session loop: what it decides. It keeps its own copy of the
//! playback position, says what to show in the operating system's media
//! session, and turns the transport requests of the operating system into
//! control messages. The loop itself, which talks to the operating
//! system, is not here. Times are in milliseconds.

use crate::libmpv_handler::{LibMpvEventMessage, LibMpvMessage};
use crate::position::PlaybackPosition;
use vstd::prelude::*;

verus! {

/// What arrives at the media-session loop from outside the player.
#[derive(Debug, Clone, PartialEq, Eq)]
pub enum MCOSInterfaceSignals {
    Pause,
    Resume,
    /// Pause if playing, play if paused.
    Toggle,
    PlayNext,
    PlayPrev,
    UpdateMetadataTitle(String),
    End,
}

/// What the loop is to do to the media session of the operating system.
#[derive(Debug, Clone, PartialEq, Eq)]
pub enum SessionAction {
    /// Show the transport as playing or paused, at the position
    /// `progress`.
    SetPlayback { playing: bool, progress: Option<u64> },
    /// Show what plays.
    SetMetadata { title: String, artist: Option<String>, album: Option<String> },
}

/// What the loop is to do after a playback event.
#[derive(Debug, Clone, PartialEq, Eq)]
pub struct SessionStep {
    pub action: Option<SessionAction>,
    /// Whether to leave the loop.
    pub quit: bool,
}

/// What the media-session loop remembers.
#[derive(Debug, Clone, Copy, PartialEq, Eq, Structural)]
pub struct MCOSInterface {
    pub position: PlaybackPosition,
    pub volume: i64,
    /// When the position was last reported to the media session.
    pub last_report: u64,
}

/// How long the loop lets pass between two reports of the position,
/// whether or not events arrive.
pub const REPORT_INTERVAL: u64 = 250;

/// The control message that a transport request of the operating system
/// becomes. The other signals become none.
pub open spec fn message_for_signal(signal: MCOSInterfaceSignals) -> Option<LibMpvMessage> {
    match signal {
        MCOSInterfaceSignals::Pause => Some(LibMpvMessage::Pause),
        MCOSInterfaceSignals::Resume => Some(LibMpvMessage::Resume),
        MCOSInterfaceSignals::Toggle => Some(LibMpvMessage::PlayPause),
        MCOSInterfaceSignals::PlayNext => Some(LibMpvMessage::NextChapter),
        MCOSInterfaceSignals::PlayPrev => Some(LibMpvMessage::PrevChapter),
        MCOSInterfaceSignals::UpdateMetadataTitle(_) => None,
        MCOSInterfaceSignals::End => None,
    }
}

/// Turns a signal into the control message for the engine adapter.
pub fn control_message(signal: &MCOSInterfaceSignals) -> (r: Option<LibMpvMessage>)
    ensures
        r == message_for_signal(*signal),
{
    match signal {
        MCOSInterfaceSignals::Pause => Some(LibMpvMessage::Pause),
        MCOSInterfaceSignals::Resume => Some(LibMpvMessage::Resume),
        MCOSInterfaceSignals::Toggle => Some(LibMpvMessage::PlayPause),
        MCOSInterfaceSignals::PlayNext => Some(LibMpvMessage::NextChapter),
        MCOSInterfaceSignals::PlayPrev => Some(LibMpvMessage::PrevChapter),
        MCOSInterfaceSignals::UpdateMetadataTitle(_) => None,
        MCOSInterfaceSignals::End => None,
    }
}

impl MCOSInterface {
    /// What the loop remembers before any file.
    pub open spec fn initial() -> Self {
        MCOSInterface { position: PlaybackPosition::initial(), volume: 0, last_report: 0 }
    }

    /// Whether the file plays.
    pub open spec fn playing(self) -> bool {
        self.position.ready && !self.position.paused
    }

    /// What is shown of the transport at `now`.
    pub open spec fn playback_at(self, now: u64) -> SessionAction {
        SessionAction::SetPlayback {
            playing: self.playing(),
            progress: Some(self.position.time_at(now) as u64),
        }
    }

    /// What the loop remembers after the playback event `event` at `now`:
    /// the position is kept as every loop keeps it.
    pub open spec fn after_event(self, event: LibMpvEventMessage, now: u64) -> Self {
        match event {
            LibMpvEventMessage::StartFile => MCOSInterface {
                position: self.position.after_start_file(),
                ..self
            },
            LibMpvEventMessage::PlaybackRestart(paused) => MCOSInterface {
                position: self.position.after_restart(paused, now),
                ..self
            },
            LibMpvEventMessage::PlaybackPause => MCOSInterface {
                position: self.position.after_pause(now),
                ..self
            },
            LibMpvEventMessage::PlaybackResume => MCOSInterface {
                position: self.position.after_resume(now),
                ..self
            },
            LibMpvEventMessage::FileLoaded(data) => MCOSInterface {
                position: self.position.after_file_loaded(data.duration, now),
                volume: data.volume,
                ..self
            },
            LibMpvEventMessage::VolumeUpdate(volume) => MCOSInterface { volume, ..self },
            LibMpvEventMessage::PositionUpdate(position) => MCOSInterface {
                position: self.position.after_seek(position, now),
                ..self
            },
            LibMpvEventMessage::ChapterUpdate(_) => self,
            LibMpvEventMessage::Quit => self,
        }
    }

    /// What the playback event `event` has the loop show: what plays once
    /// a file is loaded, and the transport at once when playback begins
    /// anew, pauses or goes on.
    pub open spec fn action_for_event(self, event: LibMpvEventMessage, now: u64) -> Option<
        SessionAction,
    > {
        match event {
            LibMpvEventMessage::PlaybackRestart(_) => Some(
                self.after_event(event, now).playback_at(now),
            ),
            LibMpvEventMessage::PlaybackPause => Some(self.after_event(event, now).playback_at(now)),
            LibMpvEventMessage::PlaybackResume => Some(self.after_event(event, now).playback_at(now)),
            LibMpvEventMessage::FileLoaded(data) => Some(
                SessionAction::SetMetadata {
                    title: data.media_title,
                    artist: data.artist,
                    album: data.album,
                },
            ),
            _ => None,
        }
    }

    /// What the loop remembers before any file.
    pub fn new() -> (r: Self)
        ensures
            r == Self::initial(),
    {
        MCOSInterface { position: PlaybackPosition::new(), volume: 0, last_report: 0 }
    }

    /// Whether a report of the position is due at `now`: the interval
    /// has passed since the last one.
    pub open spec fn report_due(self, now: u64) -> bool {
        now >= self.last_report && now - self.last_report >= REPORT_INTERVAL
    }

    /// Says what to show of the transport where a report of the position
    /// is due at `now`, and takes note of the report.
    pub fn report(&mut self, now: u64) -> (r: Option<SessionAction>)
        ensures
            r == (if old(self).report_due(now) {
                Some(old(self).playback_at(now))
            } else {
                None
            }),
            *final(self) == (if old(self).report_due(now) {
                MCOSInterface { last_report: now, ..*old(self) }
            } else {
                *old(self)
            }),
    {
        if now >= self.last_report && now - self.last_report >= REPORT_INTERVAL {
            self.last_report = now;
            Some(self.playback(now))
        } else {
            None
        }
    }

    /// What to show of the transport at `now`.
    pub fn playback(&self, now: u64) -> (r: SessionAction)
        ensures
            r == self.playback_at(now),
    {
        SessionAction::SetPlayback {
            playing: self.position.ready && !self.position.paused,
            progress: Some(self.position.current_time(now)),
        }
    }

    /// Folds one playback event into what the loop remembers, and says
    /// what to show and whether to leave.
    pub fn handle_event(&mut self, event: LibMpvEventMessage, now: u64) -> (r: SessionStep)
        ensures
            *final(self) == old(self).after_event(event, now),
            r.action == old(self).action_for_event(event, now),
            r.quit == (event is Quit),
    {
        match event {
            LibMpvEventMessage::StartFile => {
                self.position.start_file();
                SessionStep { action: None, quit: false }
            },
            LibMpvEventMessage::PlaybackRestart(paused) => {
                self.position.playback_restart(paused, now);
                SessionStep { action: Some(self.playback(now)), quit: false }
            },
            LibMpvEventMessage::PlaybackPause => {
                self.position.pause(now);
                SessionStep { action: Some(self.playback(now)), quit: false }
            },
            LibMpvEventMessage::PlaybackResume => {
                self.position.resume(now);
                SessionStep { action: Some(self.playback(now)), quit: false }
            },
            LibMpvEventMessage::FileLoaded(data) => {
                self.position.file_loaded(data.duration, now);
                self.volume = data.volume;
                SessionStep {
                    action: Some(
                        SessionAction::SetMetadata {
                            title: data.media_title,
                            artist: data.artist,
                            album: data.album,
                        },
                    ),
                    quit: false,
                }
            },
            LibMpvEventMessage::VolumeUpdate(volume) => {
                self.volume = volume;
                SessionStep { action: None, quit: false }
            },
            LibMpvEventMessage::PositionUpdate(position) => {
                self.position.seek(position, now);
                SessionStep { action: None, quit: false }
            },
            LibMpvEventMessage::ChapterUpdate(_) => SessionStep { action: None, quit: false },
            LibMpvEventMessage::Quit => SessionStep { action: None, quit: true },
        }
    }
}

} // verus!
