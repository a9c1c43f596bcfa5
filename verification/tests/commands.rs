use unplugged_audiobook_player::tui::commands::{
    calculate_insertion_distance, command_names, generate_completion_suggestions,
    map_str_to_tuicommand, TuiCommand, TuiState,
};

#[test]
fn parse_relative_volume() {
    assert_eq!(map_str_to_tuicommand("vol +10"), Some(TuiCommand::Volume(10)));
    assert_eq!(map_str_to_tuicommand("vol -10"), Some(TuiCommand::Volume(-10)));
    assert_eq!(map_str_to_tuicommand("vol -500"), Some(TuiCommand::Volume(-200)));
    assert_eq!(map_str_to_tuicommand("vol +500"), Some(TuiCommand::Volume(200)));
    assert_eq!(map_str_to_tuicommand("vol -0"), Some(TuiCommand::Volume(0)));
}

#[test]
fn parse_absolute_volume_is_clamped() {
    assert_eq!(map_str_to_tuicommand("vol 500"), Some(TuiCommand::SetVolume(200)));
    assert_eq!(map_str_to_tuicommand("vol 150"), Some(TuiCommand::SetVolume(150)));
    assert_eq!(map_str_to_tuicommand("vol 200"), Some(TuiCommand::SetVolume(200)));
    assert_eq!(map_str_to_tuicommand("vol 201"), Some(TuiCommand::SetVolume(200)));
    assert_eq!(map_str_to_tuicommand("vol 0"), Some(TuiCommand::SetVolume(0)));
}

#[test]
fn parse_volume_rejects_what_is_no_number() {
    assert_eq!(map_str_to_tuicommand("vol"), None);
    assert_eq!(map_str_to_tuicommand("vol abc"), None);
    assert_eq!(map_str_to_tuicommand("vol +"), None);
    assert_eq!(map_str_to_tuicommand("vol -"), None);
    assert_eq!(map_str_to_tuicommand("vol 1.5"), None);
    assert_eq!(map_str_to_tuicommand("vol 99999999999999999999"), None);
    assert_eq!(map_str_to_tuicommand("vol 9223372036854775807"), Some(TuiCommand::SetVolume(200)));
    assert_eq!(map_str_to_tuicommand("vol -9223372036854775808"), Some(TuiCommand::Volume(-200)));
    assert_eq!(map_str_to_tuicommand("vol -9223372036854775809"), None);
}

#[test]
fn parse_seek_clock_form() {
    assert_eq!(map_str_to_tuicommand("seek 01:02:03"), Some(TuiCommand::SetPosition(3_723_000)));
    assert_eq!(map_str_to_tuicommand("seek 0:0:0"), Some(TuiCommand::SetPosition(0)));
    assert_eq!(map_str_to_tuicommand("seek 1:00:00.5"), Some(TuiCommand::SetPosition(3_600_500)));
    assert_eq!(map_str_to_tuicommand("seek 1:2"), None);
    assert_eq!(map_str_to_tuicommand("seek 1:2:3:4"), None);
    assert_eq!(map_str_to_tuicommand("seek 1::3"), None);
    assert_eq!(map_str_to_tuicommand("seek a:b:c"), None);
}

#[test]
fn parse_seek_relative_and_absolute() {
    assert_eq!(map_str_to_tuicommand("seek +10"), Some(TuiCommand::Seek(10_000)));
    assert_eq!(map_str_to_tuicommand("seek -10"), Some(TuiCommand::Seek(-10_000)));
    assert_eq!(map_str_to_tuicommand("seek -1.5"), Some(TuiCommand::Seek(-1_500)));
    assert_eq!(map_str_to_tuicommand("seek +0.25"), Some(TuiCommand::Seek(250)));
    assert_eq!(map_str_to_tuicommand("seek 90"), Some(TuiCommand::SetPosition(90_000)));
    assert_eq!(map_str_to_tuicommand("seek 90.125"), Some(TuiCommand::SetPosition(90_125)));
    assert_eq!(map_str_to_tuicommand("seek 90.1259"), Some(TuiCommand::SetPosition(90_125)));
    assert_eq!(map_str_to_tuicommand("seek .5"), Some(TuiCommand::SetPosition(500)));
    assert_eq!(map_str_to_tuicommand("seek 5."), Some(TuiCommand::SetPosition(5_000)));
    assert_eq!(map_str_to_tuicommand("seek ."), None);
    assert_eq!(map_str_to_tuicommand("seek +"), None);
    assert_eq!(map_str_to_tuicommand("seek"), None);
    assert_eq!(map_str_to_tuicommand("seek ten"), None);
    assert_eq!(map_str_to_tuicommand("seek 1.2.3"), None);
}

#[test]
fn parse_seek_rejects_what_does_not_fit() {
    assert_eq!(map_str_to_tuicommand("seek 18446744073709551"), Some(TuiCommand::SetPosition(18_446_744_073_709_551_000)));
    assert_eq!(map_str_to_tuicommand("seek 18446744073709552"), None);
    assert_eq!(map_str_to_tuicommand("seek +9223372036854775"), Some(TuiCommand::Seek(9_223_372_036_854_775_000)));
    assert_eq!(map_str_to_tuicommand("seek +9223372036854776"), None);
}

#[test]
fn parse_bogus_is_none() {
    assert_eq!(map_str_to_tuicommand("bogus"), None);
    assert_eq!(map_str_to_tuicommand(""), None);
    assert_eq!(map_str_to_tuicommand("   "), None);
    assert_eq!(map_str_to_tuicommand("vol 1 2"), None);
    assert_eq!(map_str_to_tuicommand("quit now please"), None);
    assert_eq!(map_str_to_tuicommand("Quit"), None);
}

#[test]
fn parse_commands_without_argument() {
    assert_eq!(map_str_to_tuicommand("quit"), Some(TuiCommand::Quit));
    assert_eq!(map_str_to_tuicommand("q"), Some(TuiCommand::Quit));
    assert_eq!(map_str_to_tuicommand("  q  "), Some(TuiCommand::Quit));
    assert_eq!(map_str_to_tuicommand("\tq\u{a0}"), Some(TuiCommand::Quit));
    assert_eq!(map_str_to_tuicommand("quit now"), Some(TuiCommand::Quit));
    assert_eq!(map_str_to_tuicommand("play-pause"), Some(TuiCommand::PlayPause));
    assert_eq!(map_str_to_tuicommand("play-next"), Some(TuiCommand::NextChapter));
    assert_eq!(map_str_to_tuicommand("play-prev"), Some(TuiCommand::PrevChapter));
}

#[test]
fn parse_timers() {
    assert_eq!(map_str_to_tuicommand("pause-after 30"), Some(TuiCommand::PauseAfter(30)));
    assert_eq!(map_str_to_tuicommand("quit-after 5"), Some(TuiCommand::QuitAfter(5)));
    assert_eq!(map_str_to_tuicommand("quit-after +5"), Some(TuiCommand::QuitAfter(5)));
    assert_eq!(map_str_to_tuicommand("quit-after -5"), None);
    assert_eq!(map_str_to_tuicommand("pause-after"), None);
    assert_eq!(map_str_to_tuicommand("pause-after soon"), None);
    assert_eq!(
        map_str_to_tuicommand("pause-after 18446744073709551615"),
        Some(TuiCommand::PauseAfter(u64::MAX))
    );
    assert_eq!(map_str_to_tuicommand("pause-after 18446744073709551616"), None);
}

#[test]
fn parse_view_names() {
    assert_eq!(map_str_to_tuicommand("view player"), Some(TuiCommand::State(TuiState::Player)));
    assert_eq!(map_str_to_tuicommand("view chapters"), Some(TuiCommand::State(TuiState::Chapters)));
    assert_eq!(map_str_to_tuicommand("view help"), Some(TuiCommand::State(TuiState::Help)));
    assert_eq!(map_str_to_tuicommand("view nothing"), None);
    assert_eq!(map_str_to_tuicommand("view"), None);
}

#[test]
fn suggest_pl_orders_by_suffix_length_then_name() {
    assert_eq!(generate_completion_suggestions("pl"), vec!["play-next", "play-prev", "play-pause"]);
}

#[test]
fn suggest_empty_gives_all_names_by_length_then_name() {
    assert_eq!(
        generate_completion_suggestions(""),
        vec![
            "q",
            "vol",
            "quit",
            "seek",
            "view",
            "play-next",
            "play-prev",
            "play-pause",
            "quit-after",
            "pause-after"
        ]
    );
}

#[test]
fn suggest_q_and_whole_names() {
    assert_eq!(generate_completion_suggestions("q"), vec!["q", "quit", "quit-after"]);
    assert_eq!(generate_completion_suggestions("quit"), vec!["quit", "quit-after"]);
    assert_eq!(generate_completion_suggestions("view"), vec!["view"]);
    assert_eq!(generate_completion_suggestions("p"), vec!["play-next", "play-prev", "play-pause", "pause-after"]);
}

#[test]
fn suggest_nothing_for_what_begins_no_name() {
    assert_eq!(generate_completion_suggestions("x"), Vec::<&str>::new());
    assert_eq!(generate_completion_suggestions("quit "), Vec::<&str>::new());
    assert_eq!(generate_completion_suggestions("views"), Vec::<&str>::new());
}

#[test]
fn every_name_is_suggested_for_itself_and_parses() {
    let names = command_names();
    assert_eq!(names.len(), 10);
    for name in names {
        assert_eq!(generate_completion_suggestions(name)[0], name);
        assert_eq!(calculate_insertion_distance(name, name), Some(0));
    }
}

#[test]
fn insertion_distance_counts_missing_characters() {
    assert_eq!(calculate_insertion_distance("pl", "play-next"), Some(7));
    assert_eq!(calculate_insertion_distance("", "q"), Some(1));
    assert_eq!(calculate_insertion_distance("play-next", "play-next"), Some(0));
    assert_eq!(calculate_insertion_distance("x", "play-next"), None);
    assert_eq!(calculate_insertion_distance("play-next-", "play-next"), None);
    let long = "a".repeat(255);
    assert_eq!(calculate_insertion_distance("", &long), Some(255));
    let longer = "a".repeat(256);
    assert_eq!(calculate_insertion_distance("", &longer), None);
    assert_eq!(calculate_insertion_distance("a", &longer), Some(255));
}
