//! What holds of the three loops together: the engine adapter, the
//! terminal interface and the media-session loop.

use crate::libmpv_handler::{
    limited_volume, EngineCommand, EngineEvent, EngineReadings, LibMpvEventMessage, LibMpvHandler,
    LibMpvMessage, ENGINE_VOLUME_MAX,
};
use crate::mc_os_interface::MCOSInterface;
use crate::timer::{minutes_as_millis, TimerKind};
use crate::tui::commands::TuiCommand;
use crate::tui::{action_for_timer, no_action, quit_action, TuiModel};
use vstd::prelude::*;

verus! {

/// How long each loop waits for its own input, in milliseconds, before
/// it looks at its channel again.
pub const POLL_INTERVAL: u64 = 16;

/// One of the three loops.
#[derive(Debug, Clone, Copy, PartialEq, Eq, Structural)]
pub enum LoopId {
    Engine,
    Terminal,
    Session,
}

/// What a loop that ends sends to the other two, so that all end
/// together.
#[derive(Debug, Clone, PartialEq, Eq)]
pub struct QuitNotices {
    /// For the engine adapter.
    pub engine: Option<LibMpvMessage>,
    /// For the terminal interface.
    pub terminal: Option<LibMpvEventMessage>,
    /// For the media-session loop.
    pub session: Option<LibMpvEventMessage>,
}

/// Says what the loop `ended` sends to the others before it goes: the
/// word to quit to each of them, and nothing to itself.
pub fn quit_notices(ended: LoopId) -> (r: QuitNotices)
    ensures
        r.engine == (if ended is Engine {
            None
        } else {
            Some(LibMpvMessage::Quit)
        }),
        r.terminal == (if ended is Terminal {
            None
        } else {
            Some(LibMpvEventMessage::Quit)
        }),
        r.session == (if ended is Session {
            None
        } else {
            Some(LibMpvEventMessage::Quit)
        }),
{
    let mut r = QuitNotices {
        engine: Some(LibMpvMessage::Quit),
        terminal: Some(LibMpvEventMessage::Quit),
        session: Some(LibMpvEventMessage::Quit),
    };
    match ended {
        LoopId::Engine => {
            r.engine = None;
        },
        LoopId::Terminal => {
            r.terminal = None;
        },
        LoopId::Session => {
            r.session = None;
        },
    }
    r
}

/// A playback event and when a loop takes it.
pub struct TimedEvent {
    pub event: LibMpvEventMessage,
    pub at: u64,
}

/// The state of the terminal interface after the events of `events`,
/// first to last.
pub open spec fn tui_after_events(tui: TuiModel, events: Seq<TimedEvent>) -> TuiModel
    decreases events.len(),
{
    if events.len() == 0 {
        tui
    } else {
        tui_after_events(tui.after_event(events[0].event, events[0].at), events.drop_first())
    }
}

/// What the media-session loop remembers after the events of `events`,
/// first to last.
pub open spec fn session_after_events(session: MCOSInterface, events: Seq<TimedEvent>) -> MCOSInterface
    decreases events.len(),
{
    if events.len() == 0 {
        session
    } else {
        session_after_events(
            session.after_event(events[0].event, events[0].at),
            events.drop_first(),
        )
    }
}

/// Two loops that agree on the playback position and the volume and take
/// the same events at the same times agree afterwards: each keeps its own
/// copy, and the copies stay alike.
pub proof fn lemma_loops_stay_alike(tui: TuiModel, session: MCOSInterface, events: Seq<TimedEvent>)
    requires
        tui.position == session.position,
        tui.volume == session.volume,
    ensures
        tui_after_events(tui, events).position == session_after_events(session, events).position,
        tui_after_events(tui, events).volume == session_after_events(session, events).volume,
    decreases events.len(),
{
    if events.len() > 0 {
        lemma_loops_stay_alike(
            tui.after_event(events[0].event, events[0].at),
            session.after_event(events[0].event, events[0].at),
            events.drop_first(),
        );
    }
}

/// A volume that is set goes round: the adapter asks the engine for the
/// volume, held to what the engine takes; the engine's report of that
/// volume becomes a playback event; and both loops that take the event
/// know the volume afterwards, whatever they knew before.
pub proof fn lemma_set_volume_goes_round(
    adapter: LibMpvHandler,
    tui: TuiModel,
    session: MCOSInterface,
    volume: i64,
    readings: EngineReadings,
    tui_now: u64,
    session_now: u64,
)
    requires
        !(adapter.phase is Quitting),
    ensures
        ({
            let set = limited_volume(volume);
            let event = LibMpvEventMessage::VolumeUpdate(set);
            &&& adapter.command_for(LibMpvMessage::SetVolume(volume), readings)
                == EngineCommand::SetVolume(set)
            &&& 0 <= volume <= ENGINE_VOLUME_MAX ==> set == volume
            &&& adapter.event_for(EngineEvent::VolumeChanged(set)) == Some(event)
            &&& tui.after_event(event, tui_now).volume == set
            &&& session.after_event(event, session_now).volume == set
        }),
{
}

/// A pause timer and then a quit timer leave the quit timer pending and
/// no other: what fires is a quit, never a pause, and it fires once the
/// minutes of the quit timer have passed.
pub proof fn lemma_quit_timer_replaces_pause_timer(
    tui: TuiModel,
    pause_minutes: u64,
    pause_now: u64,
    quit_minutes: u64,
    quit_now: u64,
    now: u64,
)
    ensures
        ({
            let set = tui.after_command(TuiCommand::PauseAfter(pause_minutes), pause_now).after_command(
                TuiCommand::QuitAfter(quit_minutes),
                quit_now,
            );
            let action = action_for_timer(set.timers.fires_at(now));
            &&& set.timers.active matches Some(t) && t.kind == TimerKind::QuitAfter
            &&& action == quit_action() || action == no_action()
            &&& now >= quit_now + minutes_as_millis(quit_minutes) ==> action == quit_action()
            &&& action == quit_action() ==> set.after_timers(now).timers.active is None
        }),
{
}

} // verus!
