use unplugged_audiobook_player::libmpv_handler::{
    Chapter, CurrentChapter, FileLoadedData, LibMpvEventMessage, LibMpvMessage,
};
use unplugged_audiobook_player::position::PlaybackPosition;
use unplugged_audiobook_player::timer::{DeadlineTimer, TimerKind};
use unplugged_audiobook_player::tui::commands::{TuiCommand, TuiState};
use unplugged_audiobook_player::tui::keybindings::{KeyCode, KeyEvent, KeyEventKind, Keybindings, NONE};
use unplugged_audiobook_player::tui::screen::chapter_spans;
use unplugged_audiobook_player::tui::{secs_to_hms, Tui, TuiAction};

const NOTHING: TuiAction = TuiAction { message: None, quit: false };

fn press(tui: &mut Tui, code: KeyCode) -> TuiAction {
    tui.handle_key(&KeyEvent::new(code, NONE), &Keybindings::new(), 0)
}

fn type_text(tui: &mut Tui, text: &str) {
    for c in text.chars() {
        assert_eq!(press(tui, KeyCode::Char(c)), NOTHING);
    }
}

fn command_line(text: &str) -> Tui {
    let mut tui = Tui::new();
    assert_eq!(press(&mut tui, KeyCode::Char(':')), NOTHING);
    assert!(tui.command_mode());
    type_text(&mut tui, text);
    tui
}

fn book() -> FileLoadedData {
    FileLoadedData {
        media_title: String::from("Book"),
        artist: Some(String::from("Author")),
        album: None,
        duration: 3_725_900,
        volume: 80,
        chapter: Some(CurrentChapter { title: String::from("Two"), index: 1 }),
        chapters: vec![
            Chapter { title: String::from("One"), time: 0 },
            Chapter { title: String::from("Two"), time: 60_000 },
            Chapter { title: String::from("Three"), time: 3_600_000 },
        ],
    }
}

#[test]
fn seconds_are_shown_as_hours_minutes_seconds() {
    assert_eq!(secs_to_hms(0), "00:00:00");
    assert_eq!(secs_to_hms(59), "00:00:59");
    assert_eq!(secs_to_hms(60), "00:01:00");
    assert_eq!(secs_to_hms(3_723), "01:02:03");
    assert_eq!(secs_to_hms(359_999), "99:59:59");
    assert_eq!(secs_to_hms(360_000), "100:00:00");
    assert_eq!(secs_to_hms(u64::MAX), "5124095576030431:00:15");
}

#[test]
fn chapters_end_where_the_next_begins() {
    let data = book();
    assert_eq!(
        chapter_spans(&data.chapters, data.duration),
        vec![(0, 60_000), (60_000, 3_600_000), (3_600_000, 3_725_900)]
    );
    assert_eq!(chapter_spans(&Vec::new(), 10), Vec::new());
    assert_eq!(chapter_spans(&data.chapters[..1].to_vec(), 10), vec![(0, 10)]);
}

#[test]
fn new_interface_shows_an_empty_player() {
    let tui = Tui::new();
    assert_eq!(tui.state(), TuiState::Player);
    assert!(!tui.command_mode());
    assert_eq!(tui.command_text(), "");
    assert_eq!(tui.cursor(), 0);
    assert_eq!(tui.error(), None);
    assert_eq!(tui.position(), PlaybackPosition::new());
    assert_eq!(tui.volume(), 0);
    assert_eq!(tui.title(), "");
    assert_eq!(tui.artist(), None);
    assert_eq!(tui.chapter(), None);
    assert_eq!(tui.chapters().len(), 0);
    assert_eq!(tui.timers().active, None);
    assert_eq!(tui.scroll(), 0);
    assert_eq!(tui.command_line(), None);
    assert_eq!(tui.timer_label(0), None);
    assert_eq!(tui.text("", 0), "\n\n\n| 00:00:00 / 00:00:00 vol: 0");
}

#[test]
fn events_are_folded_into_the_state() {
    let mut tui = Tui::new();
    assert!(!tui.handle_event(LibMpvEventMessage::StartFile, 0));
    assert!(!tui.handle_event(LibMpvEventMessage::FileLoaded(book()), 1_000));
    assert_eq!(tui.title(), "Book");
    assert_eq!(tui.artist(), Some(String::from("Author")));
    assert_eq!(tui.volume(), 80);
    assert_eq!(tui.chapters(), &book().chapters);
    assert_eq!(tui.chapter(), Some(CurrentChapter { title: String::from("Two"), index: 1 }));
    assert_eq!(tui.current_time(2_000), 0);
    assert!(!tui.handle_event(LibMpvEventMessage::PositionUpdate(37_000), 1_500));
    assert!(!tui.handle_event(LibMpvEventMessage::PlaybackRestart(false), 2_000));
    assert_eq!(tui.current_time(5_000), 40_000);
    assert!(!tui.handle_event(LibMpvEventMessage::PlaybackPause, 5_000));
    assert_eq!(tui.current_time(9_000), 40_000);
    assert!(!tui.handle_event(LibMpvEventMessage::PlaybackResume, 9_000));
    assert_eq!(tui.current_time(10_000), 41_000);
    assert!(!tui.handle_event(LibMpvEventMessage::VolumeUpdate(150), 10_000));
    assert_eq!(tui.volume(), 150);
    let three = CurrentChapter { title: String::from("Three"), index: 2 };
    assert!(!tui.handle_event(LibMpvEventMessage::ChapterUpdate(three.clone()), 10_000));
    assert_eq!(tui.chapter(), Some(three));
    assert!(tui.handle_event(LibMpvEventMessage::Quit, 10_000));
    assert_eq!(tui.volume(), 150);
}

#[test]
fn player_view_shows_what_plays() {
    let mut tui = Tui::new();
    tui.handle_event(LibMpvEventMessage::FileLoaded(book()), 0);
    tui.handle_event(LibMpvEventMessage::PositionUpdate(3_723_400), 0);
    tui.handle_event(LibMpvEventMessage::PlaybackRestart(false), 0);
    assert_eq!(tui.text("", 1_700), "Book\nAuthor\nTwo\n> 01:02:05 / 01:02:05 vol: 80");
    assert_eq!(tui.text("", 600), "Book\nAuthor\nTwo\n> 01:02:04 / 01:02:05 vol: 80");
    tui.handle_event(LibMpvEventMessage::PlaybackPause, 600);
    tui.handle_event(LibMpvEventMessage::VolumeUpdate(-3), 600);
    assert_eq!(tui.text("", 9_000), "Book\nAuthor\nTwo\n| 01:02:04 / 01:02:05 vol: -3");
}

#[test]
fn chapters_view_marks_the_chapter_that_plays() {
    let mut tui = Tui::new();
    tui.handle_event(LibMpvEventMessage::FileLoaded(book()), 0);
    tui.dispatch(TuiCommand::State(TuiState::Chapters), 0);
    assert_eq!(
        tui.text("", 0),
        "  One  00:00:00 - 00:01:00\n> Two  00:01:00 - 01:00:00\n  Three  01:00:00 - 01:02:05"
    );
}

#[test]
fn help_view_shows_commands_and_keys() {
    let mut tui = Tui::new();
    assert_eq!(press(&mut tui, KeyCode::Char('0')), NOTHING);
    assert_eq!(tui.state(), TuiState::Help);
    assert_eq!(
        tui.text("global  q  quit, q", 0),
        "Commands:\nquit, q\nvol <+N|-N|N>\nseek <+S|-S|S|HH:MM:SS>\nplay-pause\nplay-next\nplay-prev\npause-after <minutes>\nquit-after <minutes>\nview <player|chapters|help>\n\nKeys:\nglobal  q  quit, q"
    );
}

#[test]
fn bound_keys_send_control_messages() {
    let mut tui = Tui::new();
    assert_eq!(press(&mut tui, KeyCode::Char(' ')), TuiAction { message: Some(LibMpvMessage::PlayPause), quit: false });
    assert_eq!(press(&mut tui, KeyCode::Char(']')), TuiAction { message: Some(LibMpvMessage::UpdateVolume(10)), quit: false });
    assert_eq!(press(&mut tui, KeyCode::Left), TuiAction { message: Some(LibMpvMessage::UpdatePosition(-10_000)), quit: false });
    assert_eq!(press(&mut tui, KeyCode::Char('b')), TuiAction { message: Some(LibMpvMessage::NextChapter), quit: false });
    assert_eq!(press(&mut tui, KeyCode::Char('z')), TuiAction { message: Some(LibMpvMessage::PrevChapter), quit: false });
    assert_eq!(press(&mut tui, KeyCode::Char('x')), NOTHING);
    assert_eq!(press(&mut tui, KeyCode::Char('q')), TuiAction { message: Some(LibMpvMessage::Quit), quit: true });
}

#[test]
fn commands_change_view_scroll_and_timers() {
    let mut tui = Tui::new();
    assert_eq!(tui.dispatch(TuiCommand::State(TuiState::Chapters), 0), NOTHING);
    assert_eq!(tui.state(), TuiState::Chapters);
    assert_eq!(tui.dispatch(TuiCommand::Scroll(-1), 0), NOTHING);
    assert_eq!(tui.scroll(), 0);
    tui.dispatch(TuiCommand::Scroll(3), 0);
    tui.dispatch(TuiCommand::Scroll(-1), 0);
    assert_eq!(tui.scroll(), 2);
    tui.dispatch(TuiCommand::Scroll(i16::MAX), 0);
    tui.dispatch(TuiCommand::Scroll(i16::MAX), 0);
    tui.dispatch(TuiCommand::Scroll(i16::MAX), 0);
    assert_eq!(tui.scroll(), u16::MAX);
    assert_eq!(tui.dispatch(TuiCommand::SetVolume(150), 0), TuiAction { message: Some(LibMpvMessage::SetVolume(150)), quit: false });
    assert_eq!(tui.dispatch(TuiCommand::SetPosition(5), 0), TuiAction { message: Some(LibMpvMessage::SetPosition(5)), quit: false });
    assert_eq!(tui.dispatch(TuiCommand::PauseAfter(2), 500), NOTHING);
    assert_eq!(
        tui.timers().active,
        Some(DeadlineTimer { kind: TimerKind::PauseAfter, set_at: 500, total_duration: 120_000 })
    );
    assert_eq!(tui.timer_label(500), Some(String::from("pause in 00:02:00")));
    assert_eq!(tui.timer_label(60_501), Some(String::from("pause in 00:00:59")));
}

#[test]
fn pause_timer_then_quit_timer_fires_quit() {
    let mut tui = Tui::new();
    tui.dispatch(TuiCommand::PauseAfter(1), 0);
    tui.dispatch(TuiCommand::QuitAfter(2), 0);
    assert_eq!(tui.timer_label(0), Some(String::from("quit in 00:02:00")));
    assert_eq!(tui.check_timers(60_000), NOTHING);
    assert_eq!(tui.check_timers(119_999), NOTHING);
    assert_eq!(tui.check_timers(120_000), TuiAction { message: Some(LibMpvMessage::Quit), quit: true });
    assert_eq!(tui.timers().active, None);
    assert_eq!(tui.check_timers(120_001), NOTHING);
}

#[test]
fn pause_timer_fires_pause_once() {
    let mut tui = Tui::new();
    tui.dispatch(TuiCommand::PauseAfter(1), 1_000);
    assert_eq!(tui.check_timers(60_999), NOTHING);
    assert_eq!(tui.check_timers(61_000), TuiAction { message: Some(LibMpvMessage::Pause), quit: false });
    assert_eq!(tui.check_timers(61_001), NOTHING);
    assert_eq!(tui.timer_label(61_001), None);
}

#[test]
fn command_line_is_edited_at_the_cursor() {
    let mut tui = command_line("vl 5");
    assert_eq!(tui.command_text(), "vl 5");
    assert_eq!(tui.cursor(), 4);
    assert_eq!(tui.command_line(), Some((String::from(":vl 5"), 5)));
    press(&mut tui, KeyCode::Left);
    press(&mut tui, KeyCode::Left);
    press(&mut tui, KeyCode::Left);
    assert_eq!(tui.cursor(), 1);
    press(&mut tui, KeyCode::Char('o'));
    assert_eq!(tui.command_text(), "vol 5");
    assert_eq!(tui.cursor(), 2);
    press(&mut tui, KeyCode::Right);
    press(&mut tui, KeyCode::Right);
    press(&mut tui, KeyCode::Right);
    press(&mut tui, KeyCode::Right);
    press(&mut tui, KeyCode::Right);
    assert_eq!(tui.cursor(), 5);
    press(&mut tui, KeyCode::Backspace);
    assert_eq!(tui.command_text(), "vol ");
    press(&mut tui, KeyCode::Left);
    press(&mut tui, KeyCode::Left);
    press(&mut tui, KeyCode::Backspace);
    assert_eq!(tui.command_text(), "vl ");
    assert_eq!(tui.cursor(), 1);
    press(&mut tui, KeyCode::Backspace);
    press(&mut tui, KeyCode::Backspace);
    press(&mut tui, KeyCode::Left);
    assert_eq!(tui.command_text(), "l ");
    assert_eq!(tui.cursor(), 0);
    assert_eq!(press(&mut tui, KeyCode::Other), NOTHING);
    assert_eq!(tui.command_text(), "l ");
}

#[test]
fn keys_that_come_up_are_passed_over_in_the_command_line() {
    let mut tui = command_line("q");
    let released = KeyEvent { code: KeyCode::Char('x'), modifiers: NONE, kind: KeyEventKind::Release, state: 0 };
    assert_eq!(tui.handle_key(&released, &Keybindings::new(), 0), NOTHING);
    let released_enter = KeyEvent { code: KeyCode::Enter, modifiers: NONE, kind: KeyEventKind::Release, state: 0 };
    assert_eq!(tui.handle_key(&released_enter, &Keybindings::new(), 0), NOTHING);
    assert_eq!(tui.command_text(), "q");
    assert!(tui.command_mode());
    let held = KeyEvent { code: KeyCode::Char('x'), modifiers: NONE, kind: KeyEventKind::Repeat, state: 0 };
    tui.handle_key(&held, &Keybindings::new(), 0);
    assert_eq!(tui.command_text(), "qx");
}

#[test]
fn enter_carries_out_the_command_line() {
    let mut tui = command_line("vol +10");
    assert_eq!(press(&mut tui, KeyCode::Enter), TuiAction { message: Some(LibMpvMessage::UpdateVolume(10)), quit: false });
    assert!(!tui.command_mode());
    assert_eq!(tui.command_text(), "");
    assert_eq!(tui.cursor(), 0);
    assert_eq!(tui.error(), None);
    let mut tui = command_line("view chapters");
    assert_eq!(press(&mut tui, KeyCode::Enter), NOTHING);
    assert_eq!(tui.state(), TuiState::Chapters);
    let mut tui = command_line("quit-after 1");
    assert_eq!(tui.handle_key(&KeyEvent::new(KeyCode::Enter, NONE), &Keybindings::new(), 7), NOTHING);
    assert_eq!(
        tui.timers().active,
        Some(DeadlineTimer { kind: TimerKind::QuitAfter, set_at: 7, total_duration: 60_000 })
    );
    let mut tui = command_line("q");
    assert_eq!(press(&mut tui, KeyCode::Enter), TuiAction { message: Some(LibMpvMessage::Quit), quit: true });
}

#[test]
fn enter_on_an_unknown_command_leaves_an_error() {
    let mut tui = command_line("bogus 1");
    assert_eq!(press(&mut tui, KeyCode::Enter), NOTHING);
    assert!(!tui.command_mode());
    assert_eq!(tui.command_text(), "");
    assert_eq!(tui.error(), Some(String::from("unknown command: bogus 1")));
    press(&mut tui, KeyCode::Char(':'));
    assert_eq!(tui.error(), None);
    type_text(&mut tui, "   ");
    assert_eq!(press(&mut tui, KeyCode::Enter), NOTHING);
    assert_eq!(tui.error(), None);
    assert!(!tui.command_mode());
}

#[test]
fn escape_cancels_the_command_line() {
    let mut tui = command_line("vol 5");
    assert_eq!(press(&mut tui, KeyCode::Esc), NOTHING);
    assert!(!tui.command_mode());
    assert_eq!(tui.command_text(), "");
    assert_eq!(tui.command_line(), None);
    assert_eq!(tui.volume(), 0);
    assert_eq!(press(&mut tui, KeyCode::Esc), NOTHING);
    assert!(!tui.command_mode());
}

#[test]
fn tab_walks_through_the_suggestions() {
    let mut tui = command_line("pl");
    press(&mut tui, KeyCode::Tab);
    assert_eq!(tui.command_text(), "play-next");
    assert_eq!(tui.cursor(), 9);
    press(&mut tui, KeyCode::Tab);
    assert_eq!(tui.command_text(), "play-prev");
    press(&mut tui, KeyCode::Tab);
    assert_eq!(tui.command_text(), "play-pause");
    assert_eq!(tui.cursor(), 10);
    press(&mut tui, KeyCode::Tab);
    assert_eq!(tui.command_text(), "play-next");
    press(&mut tui, KeyCode::BackTab);
    assert_eq!(tui.command_text(), "play-pause");
    press(&mut tui, KeyCode::BackTab);
    assert_eq!(tui.command_text(), "play-prev");
    press(&mut tui, KeyCode::Left);
    press(&mut tui, KeyCode::Tab);
    assert_eq!(tui.command_text(), "play-pause");
    assert_eq!(press(&mut tui, KeyCode::Enter), TuiAction { message: Some(LibMpvMessage::PlayPause), quit: false });
}

#[test]
fn back_tab_begins_at_the_last_suggestion() {
    let mut tui = command_line("q");
    press(&mut tui, KeyCode::BackTab);
    assert_eq!(tui.command_text(), "quit-after");
    press(&mut tui, KeyCode::BackTab);
    assert_eq!(tui.command_text(), "quit");
    press(&mut tui, KeyCode::BackTab);
    assert_eq!(tui.command_text(), "q");
}

#[test]
fn typing_ends_the_walk_through_the_suggestions() {
    let mut tui = command_line("v");
    press(&mut tui, KeyCode::Tab);
    assert_eq!(tui.command_text(), "vol");
    press(&mut tui, KeyCode::Backspace);
    assert_eq!(tui.command_text(), "vo");
    press(&mut tui, KeyCode::Tab);
    assert_eq!(tui.command_text(), "vol");
    press(&mut tui, KeyCode::Tab);
    assert_eq!(tui.command_text(), "vol");
    type_text(&mut tui, "x");
    press(&mut tui, KeyCode::Tab);
    assert_eq!(tui.command_text(), "volx");
    assert_eq!(tui.cursor(), 4);
}
