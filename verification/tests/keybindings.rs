use unplugged_audiobook_player::tui::commands::{TuiCommand, TuiState};
use unplugged_audiobook_player::tui::keybindings::{
    format_help, format_key, key_label, HelpEntry, KeyBinding, KeyCode, KeyEvent, KeyEventKind,
    Keybindings, NONE, SHIFT,
};

fn key(code: KeyCode, modifiers: u8) -> KeyEvent {
    KeyEvent::new(code, modifiers)
}

#[test]
fn default_keys_are_bound() {
    let k = Keybindings::new();
    assert_eq!(k.map.len(), 19);
    assert_eq!(k.map_keyevent_to_tuicommand(&key(KeyCode::Char('q'), NONE)), Some(TuiCommand::Quit));
    assert_eq!(k.map_keyevent_to_tuicommand(&key(KeyCode::Char('1'), NONE)), Some(TuiCommand::State(TuiState::Player)));
    assert_eq!(k.map_keyevent_to_tuicommand(&key(KeyCode::Char('2'), NONE)), Some(TuiCommand::State(TuiState::Chapters)));
    assert_eq!(k.map_keyevent_to_tuicommand(&key(KeyCode::Char('0'), NONE)), Some(TuiCommand::State(TuiState::Help)));
    assert_eq!(k.map_keyevent_to_tuicommand(&key(KeyCode::Char('{'), NONE)), Some(TuiCommand::Volume(-1)));
    assert_eq!(k.map_keyevent_to_tuicommand(&key(KeyCode::Char('}'), NONE)), Some(TuiCommand::Volume(1)));
    assert_eq!(k.map_keyevent_to_tuicommand(&key(KeyCode::Char('['), NONE)), Some(TuiCommand::Volume(-10)));
    assert_eq!(k.map_keyevent_to_tuicommand(&key(KeyCode::Char(']'), NONE)), Some(TuiCommand::Volume(10)));
    assert_eq!(k.map_keyevent_to_tuicommand(&key(KeyCode::Left, NONE)), Some(TuiCommand::Seek(-10_000)));
    assert_eq!(k.map_keyevent_to_tuicommand(&key(KeyCode::Left, SHIFT)), Some(TuiCommand::Seek(-60_000)));
    assert_eq!(k.map_keyevent_to_tuicommand(&key(KeyCode::Right, NONE)), Some(TuiCommand::Seek(10_000)));
    assert_eq!(k.map_keyevent_to_tuicommand(&key(KeyCode::Right, SHIFT)), Some(TuiCommand::Seek(60_000)));
    assert_eq!(k.map_keyevent_to_tuicommand(&key(KeyCode::Char('z'), NONE)), Some(TuiCommand::PrevChapter));
    assert_eq!(k.map_keyevent_to_tuicommand(&key(KeyCode::Char('b'), NONE)), Some(TuiCommand::NextChapter));
    assert_eq!(k.map_keyevent_to_tuicommand(&key(KeyCode::Char(' '), NONE)), Some(TuiCommand::PlayPause));
    assert_eq!(k.map_keyevent_to_tuicommand(&key(KeyCode::Char('j'), NONE)), Some(TuiCommand::Scroll(1)));
    assert_eq!(k.map_keyevent_to_tuicommand(&key(KeyCode::Char('k'), NONE)), Some(TuiCommand::Scroll(-1)));
    assert_eq!(k.map_keyevent_to_tuicommand(&key(KeyCode::Char(':'), NONE)), Some(TuiCommand::EnterCommandMode(true)));
    assert_eq!(k.map_keyevent_to_tuicommand(&key(KeyCode::Esc, NONE)), Some(TuiCommand::EnterCommandMode(false)));
}

#[test]
fn unbound_keys_give_nothing() {
    let k = Keybindings::new();
    assert_eq!(k.map_keyevent_to_tuicommand(&key(KeyCode::Char('x'), NONE)), None);
    assert_eq!(k.map_keyevent_to_tuicommand(&key(KeyCode::Enter, NONE)), None);
    assert_eq!(k.map_keyevent_to_tuicommand(&key(KeyCode::Left, 2)), None);
    assert_eq!(k.map_keyevent_to_tuicommand(&key(KeyCode::Other, NONE)), None);
    let released = KeyEvent { code: KeyCode::Char('q'), modifiers: NONE, kind: KeyEventKind::Release, state: 0 };
    assert_eq!(k.map_keyevent_to_tuicommand(&released), None);
    let keypad = KeyEvent { code: KeyCode::Char('q'), modifiers: NONE, kind: KeyEventKind::Press, state: 1 };
    assert_eq!(k.map_keyevent_to_tuicommand(&keypad), None);
}

#[test]
fn capital_letters_count_as_shifted() {
    let k = Keybindings::new();
    assert_eq!(k.map_keyevent_to_tuicommand(&key(KeyCode::Char('Q'), NONE)), None);
    assert_eq!(k.map_keyevent_to_tuicommand(&key(KeyCode::Char('q'), SHIFT)), None);
    assert!(key(KeyCode::Char('Q'), NONE).is_same_key(&key(KeyCode::Char('q'), SHIFT)));
    assert!(key(KeyCode::Char('Q'), NONE).is_same_key(&key(KeyCode::Char('Q'), SHIFT)));
    assert!(!key(KeyCode::Char('Q'), NONE).is_same_key(&key(KeyCode::Char('q'), NONE)));
    assert!(key(KeyCode::Char('1'), SHIFT).is_same_key(&key(KeyCode::Char('1'), SHIFT)));
    assert!(!key(KeyCode::Char('1'), SHIFT).is_same_key(&key(KeyCode::Char('1'), NONE)));
    assert_eq!(key(KeyCode::Char('a'), 3).normalize(), key(KeyCode::Char('A'), 3));
    assert_eq!(key(KeyCode::Char('Z'), 2).normalize(), key(KeyCode::Char('Z'), 3));
    assert_eq!(key(KeyCode::Char('é'), SHIFT).normalize(), key(KeyCode::Char('é'), SHIFT));
    assert_eq!(key(KeyCode::Left, SHIFT).normalize(), key(KeyCode::Left, SHIFT));
    let shifted = Keybindings {
        map: vec![KeyBinding { key: key(KeyCode::Char('g'), SHIFT), command: TuiCommand::Quit, help: None }],
    };
    assert_eq!(shifted.map_keyevent_to_tuicommand(&key(KeyCode::Char('G'), NONE)), Some(TuiCommand::Quit));
}

#[test]
fn first_binding_of_a_key_wins() {
    let k = Keybindings {
        map: vec![
            KeyBinding { key: key(KeyCode::Tab, NONE), command: TuiCommand::PlayPause, help: None },
            KeyBinding { key: key(KeyCode::Tab, NONE), command: TuiCommand::Quit, help: None },
        ],
    };
    assert_eq!(k.map_keyevent_to_tuicommand(&key(KeyCode::Tab, NONE)), Some(TuiCommand::PlayPause));
}

#[test]
fn help_lists_the_default_keys_by_what_they_do() {
    let expected = [
        "global  b       play-next",
        "global  space   play-pause",
        "global  z       play-prev",
        "global  q       quit, q",
        "global  j       scroll +1",
        "global  k       scroll -1",
        "global  Right   seek +10",
        "global  Left    seek -10",
        "global  Left+Shift  seek -60",
        "global  Right+Shift  seek -60",
        "global  2       view chapters",
        "global  0       view help",
        "global  1       view player",
        "global  }       vol +1",
        "global  ]       vol +10",
        "global  {       vol -1",
        "global  [       vol -10",
    ]
    .join("\n");
    assert_eq!(Keybindings::new().generate_help_str(6), expected);
}

#[test]
fn help_columns_are_as_wide_as_asked() {
    let k = Keybindings {
        map: vec![
            KeyBinding { key: key(KeyCode::Esc, NONE), command: TuiCommand::Quit, help: Some("leave") },
            KeyBinding { key: key(KeyCode::Tab, NONE), command: TuiCommand::PlayPause, help: None },
            KeyBinding { key: key(KeyCode::BackTab, NONE), command: TuiCommand::PlayPause, help: Some("back") },
            KeyBinding { key: key(KeyCode::Char('x'), SHIFT), command: TuiCommand::PlayPause, help: Some("cut") },
            KeyBinding { key: key(KeyCode::Other, NONE), command: TuiCommand::PlayPause, help: Some("any") },
        ],
    };
    assert_eq!(
        k.generate_help_str(0),
        "global  Other  any\nglobal  Back Tab  back\nglobal  x+Shift  cut\nglobal  Esc  leave"
    );
    assert_eq!(
        k.generate_help_str(10),
        "global      Other       any\nglobal      Back Tab    back\nglobal      x+Shift     cut\nglobal      Esc         leave"
    );
    assert_eq!(Keybindings { map: Vec::new() }.generate_help_str(4), "");
}

#[test]
fn help_entries_carry_the_names_of_the_keys() {
    let entries = Keybindings::new().help_entries();
    assert_eq!(entries.len(), 17);
    assert_eq!(entries[8].key, key(KeyCode::Left, NONE));
    assert_eq!(entries[8].description, "seek -10");
    assert_eq!(entries[8].code_label, "Left");
    assert_eq!(entries[8].modifiers_label, "");
    assert_eq!(entries[9].code_label, "Left");
    assert_eq!(entries[9].modifiers_label, "Shift");
    assert_eq!(entries[14].code_label, "Space");
    assert_eq!(entries[3].code_label, "q");
}

#[test]
fn help_is_written_from_given_names() {
    let entries = vec![
        HelpEntry {
            key: key(KeyCode::Enter, 2),
            description: "b",
            code_label: String::from("Return"),
            modifiers_label: String::from("Control"),
        },
        HelpEntry {
            key: key(KeyCode::Char(' '), SHIFT),
            description: "a",
            code_label: String::from("Space"),
            modifiers_label: String::from("Shift"),
        },
        HelpEntry {
            key: key(KeyCode::Char('c'), NONE),
            description: "a",
            code_label: String::from("ignored"),
            modifiers_label: String::from("ignored"),
        },
    ];
    assert_eq!(format_help(&entries, 3), "global  space  a\nglobal  c    a\nglobal  Return+Control  b");
    let shown: String = format_key(&key(KeyCode::Left, SHIFT), "Left", "Shift").into_iter().collect();
    assert_eq!(shown, "Left+Shift");
}

#[test]
fn keys_are_named_as_the_terminal_names_them() {
    assert_eq!(key_label(KeyCode::Left), "Left");
    assert_eq!(key_label(KeyCode::Right), "Right");
    assert_eq!(key_label(KeyCode::Tab), "Tab");
    assert_eq!(key_label(KeyCode::BackTab), "Back Tab");
    assert_eq!(key_label(KeyCode::Esc), "Esc");
    assert_eq!(key_label(KeyCode::Char('x')), "x");
    assert_eq!(key_label(KeyCode::Char(' ')), "Space");
    assert_eq!(key_label(KeyCode::Other), "Other");
    let enter = key_label(KeyCode::Enter);
    assert!(enter == "Enter" || enter == "Return");
    let backspace = key_label(KeyCode::Backspace);
    assert!(backspace == "Backspace" || backspace == "Delete");
}
