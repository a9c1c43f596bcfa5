use unplugged_audiobook_player::libmpv_handler::{
    adjust_volume, chapter_at, copy_chapters, limit_volume, read_resume_file, resume_file_name,
    resume_file_text,
    resume_position_for, Chapter, CurrentChapter, EngineCommand, EngineEvent, EnginePhase,
    EngineReadings, EventReaction, FileLoadedData, LibMpvEventMessage, LibMpvHandler,
    LibMpvMessage, LoadedFile, ReadingsWanted,
};

fn chapters() -> Vec<Chapter> {
    vec![
        Chapter { title: String::from("One"), time: 0 },
        Chapter { title: String::from("Two"), time: 60_000 },
        Chapter { title: String::from("Three"), time: 150_500 },
    ]
}

fn readings(volume: i64, chapter: i64, position: u64) -> EngineReadings {
    EngineReadings { volume, chapter, position }
}

fn loaded() -> LibMpvHandler {
    let mut h = LibMpvHandler::new(37_000);
    assert_eq!(h.start(), EngineCommand::LoadFile);
    let file = LoadedFile {
        media_title: String::from("Book"),
        artist: Some(String::from("Author")),
        album: None,
        duration: 200_000,
        volume: 80,
        chapter: 1,
        chapters: chapters(),
    };
    h.handle_event(EngineEvent::FileLoaded(file));
    h
}

#[test]
fn resume_position_keeps_a_margin_of_five_seconds() {
    assert_eq!(resume_position_for(42_000), 37_000);
    assert_eq!(resume_position_for(3_000), 0);
    assert_eq!(resume_position_for(5_000), 0);
    assert_eq!(resume_position_for(5_001), 1);
    assert_eq!(resume_position_for(0), 0);
}

#[test]
fn resume_file_holds_the_seconds() {
    assert_eq!(resume_file_text(resume_position_for(42_000)), "37");
    assert_eq!(resume_file_text(resume_position_for(3_000)), "0");
    assert_eq!(resume_file_text(resume_position_for(42_500)), "37.5");
    assert_eq!(resume_file_text(37_000), "37");
    assert_eq!(resume_file_name("/books/a.m4b"), "/books/a.m4b.txt");
    assert_eq!(read_resume_file("37"), Some(37_000));
    assert_eq!(read_resume_file("37.5"), Some(37_500));
    assert_eq!(read_resume_file(&resume_file_text(123_456)), Some(123_456));
    assert_eq!(read_resume_file(""), None);
    assert_eq!(read_resume_file("37\n"), None);
    assert_eq!(read_resume_file("-1"), None);
}

#[test]
fn volume_changes_are_held_to_the_engine_range() {
    assert_eq!(adjust_volume(100, 10), 110);
    assert_eq!(adjust_volume(195, 10), 200);
    assert_eq!(adjust_volume(5, -10), 0);
    assert_eq!(adjust_volume(i64::MAX, 1), 200);
    assert_eq!(adjust_volume(i64::MIN, -1), 0);
    assert_eq!(limit_volume(150), 150);
    assert_eq!(limit_volume(201), 200);
    assert_eq!(limit_volume(-1), 0);
}

#[test]
fn adapter_starts_once() {
    let mut h = LibMpvHandler::new(0);
    assert_eq!(h.phase, EnginePhase::Idle);
    assert_eq!(h.start(), EngineCommand::LoadFile);
    assert_eq!(h.phase, EnginePhase::Loading);
    assert_eq!(h.start(), EngineCommand::Nothing);
    assert_eq!(h.phase, EnginePhase::Loading);
}

#[test]
fn set_volume_round_trip_reaches_the_event() {
    let mut h = loaded();
    let command = h.handle_message(LibMpvMessage::SetVolume(150), readings(80, 1, 0));
    assert_eq!(command, EngineCommand::SetVolume(150));
    let reaction = h.handle_event(EngineEvent::VolumeChanged(150));
    assert_eq!(
        reaction,
        EventReaction {
            broadcast: Some(LibMpvEventMessage::VolumeUpdate(150)),
            command: EngineCommand::Nothing
        }
    );
}

#[test]
fn control_messages_become_engine_commands() {
    let mut h = loaded();
    let r = readings(190, 1, 42_000);
    assert_eq!(h.handle_message(LibMpvMessage::UpdateVolume(20), r), EngineCommand::SetVolume(200));
    assert_eq!(h.handle_message(LibMpvMessage::UpdateVolume(-20), r), EngineCommand::SetVolume(170));
    assert_eq!(h.handle_message(LibMpvMessage::SetVolume(500), r), EngineCommand::SetVolume(200));
    assert_eq!(h.handle_message(LibMpvMessage::UpdatePosition(-10_000), r), EngineCommand::SeekRelative(-10_000));
    assert_eq!(h.handle_message(LibMpvMessage::SetPosition(3_723_000), r), EngineCommand::SeekAbsolute(3_723_000));
    assert_eq!(h.handle_message(LibMpvMessage::Pause, r), EngineCommand::SetPause(true));
    assert_eq!(h.handle_message(LibMpvMessage::Resume, r), EngineCommand::SetPause(false));
    assert_eq!(h.handle_message(LibMpvMessage::PlayPause, r), EngineCommand::TogglePause);
}

#[test]
fn chapter_moves_stay_within_the_list() {
    let mut h = loaded();
    assert_eq!(h.handle_message(LibMpvMessage::NextChapter, readings(0, 1, 0)), EngineCommand::SetChapter(2));
    assert_eq!(h.handle_message(LibMpvMessage::NextChapter, readings(0, 2, 0)), EngineCommand::Nothing);
    assert_eq!(h.handle_message(LibMpvMessage::NextChapter, readings(0, -1, 0)), EngineCommand::SetChapter(0));
    assert_eq!(h.handle_message(LibMpvMessage::NextChapter, readings(0, -2, 0)), EngineCommand::Nothing);
    assert_eq!(h.handle_message(LibMpvMessage::NextChapter, readings(0, i64::MAX, 0)), EngineCommand::Nothing);
    assert_eq!(h.handle_message(LibMpvMessage::PrevChapter, readings(0, 1, 0)), EngineCommand::SetChapter(0));
    assert_eq!(h.handle_message(LibMpvMessage::PrevChapter, readings(0, 0, 0)), EngineCommand::Nothing);
    assert_eq!(h.handle_message(LibMpvMessage::PrevChapter, readings(0, 3, 0)), EngineCommand::SetChapter(2));
    assert_eq!(h.handle_message(LibMpvMessage::PrevChapter, readings(0, 4, 0)), EngineCommand::Nothing);
    assert_eq!(h.handle_message(LibMpvMessage::PrevChapter, readings(0, i64::MIN, 0)), EngineCommand::Nothing);
    let mut empty = LibMpvHandler::new(0);
    assert_eq!(empty.handle_message(LibMpvMessage::NextChapter, readings(0, 0, 0)), EngineCommand::Nothing);
    assert_eq!(empty.handle_message(LibMpvMessage::PrevChapter, readings(0, 1, 0)), EngineCommand::Nothing);
}

#[test]
fn quit_shuts_down_with_the_resume_position() {
    let mut h = loaded();
    assert_eq!(
        h.handle_message(LibMpvMessage::Quit, readings(80, 1, 42_000)),
        EngineCommand::Shutdown { resume_position: 37_000 }
    );
    assert_eq!(h.phase, EnginePhase::Quitting);
    assert_eq!(h.handle_message(LibMpvMessage::PlayPause, readings(80, 1, 42_000)), EngineCommand::Nothing);
    assert_eq!(h.handle_message(LibMpvMessage::Quit, readings(80, 1, 42_000)), EngineCommand::Nothing);
    assert_eq!(
        h.handle_event(EngineEvent::VolumeChanged(1)),
        EventReaction { broadcast: None, command: EngineCommand::Nothing }
    );
    let mut early = loaded();
    assert_eq!(
        early.handle_message(LibMpvMessage::Quit, readings(80, 1, 3_000)),
        EngineCommand::Shutdown { resume_position: 0 }
    );
}

#[test]
fn file_loaded_is_announced_and_played_from_the_resume_position() {
    let mut h = LibMpvHandler::new(37_000);
    h.start();
    let file = LoadedFile {
        media_title: String::from("Book"),
        artist: Some(String::from("Author")),
        album: Some(String::from("Series")),
        duration: 200_000,
        volume: 80,
        chapter: 1,
        chapters: chapters(),
    };
    let reaction = h.handle_event(EngineEvent::FileLoaded(file));
    assert_eq!(reaction.command, EngineCommand::SeekAbsolute(37_000));
    assert_eq!(
        reaction.broadcast,
        Some(LibMpvEventMessage::FileLoaded(FileLoadedData {
            media_title: String::from("Book"),
            artist: Some(String::from("Author")),
            album: Some(String::from("Series")),
            duration: 200_000,
            volume: 80,
            chapter: Some(CurrentChapter { title: String::from("Two"), index: 1 }),
            chapters: chapters(),
        }))
    );
    assert_eq!(h.chapters, chapters());
    assert_eq!(h.phase, EnginePhase::Playing);
    assert_eq!(h.resume_at, 37_000);
}

#[test]
fn file_without_chapters_has_no_current_chapter() {
    let mut h = LibMpvHandler::new(0);
    h.start();
    let file = LoadedFile {
        media_title: String::from("Book"),
        artist: None,
        album: None,
        duration: 1,
        volume: 0,
        chapter: 0,
        chapters: Vec::new(),
    };
    match h.handle_event(EngineEvent::FileLoaded(file)).broadcast {
        Some(LibMpvEventMessage::FileLoaded(data)) => {
            assert_eq!(data.chapter, None);
            assert_eq!(data.chapters, Vec::new());
        }
        other => panic!("unexpected {:?}", other),
    }
    assert_eq!(
        h.handle_event(EngineEvent::ChapterChanged(0)),
        EventReaction { broadcast: None, command: EngineCommand::Nothing }
    );
}

#[test]
fn engine_events_become_playback_events() {
    let mut h = loaded();
    let nothing = EngineCommand::Nothing;
    assert_eq!(
        h.handle_event(EngineEvent::StartFile),
        EventReaction { broadcast: Some(LibMpvEventMessage::StartFile), command: nothing }
    );
    assert_eq!(h.phase, EnginePhase::Loading);
    assert_eq!(
        h.handle_event(EngineEvent::PauseChanged(true)),
        EventReaction { broadcast: Some(LibMpvEventMessage::PlaybackPause), command: nothing }
    );
    assert_eq!(h.phase, EnginePhase::Loading);
    assert_eq!(
        h.handle_event(EngineEvent::PlaybackRestart { paused: true }),
        EventReaction { broadcast: Some(LibMpvEventMessage::PlaybackRestart(true)), command: nothing }
    );
    assert_eq!(h.phase, EnginePhase::Paused);
    assert_eq!(
        h.handle_event(EngineEvent::PauseChanged(false)),
        EventReaction { broadcast: Some(LibMpvEventMessage::PlaybackResume), command: nothing }
    );
    assert_eq!(h.phase, EnginePhase::Playing);
    assert_eq!(
        h.handle_event(EngineEvent::Seek { position: 42_000 }),
        EventReaction { broadcast: Some(LibMpvEventMessage::PositionUpdate(42_000)), command: nothing }
    );
    assert_eq!(
        h.handle_event(EngineEvent::ChapterChanged(2)),
        EventReaction {
            broadcast: Some(LibMpvEventMessage::ChapterUpdate(CurrentChapter {
                title: String::from("Three"),
                index: 2
            })),
            command: nothing
        }
    );
    assert_eq!(h.handle_event(EngineEvent::ChapterChanged(3)), EventReaction { broadcast: None, command: nothing });
    assert_eq!(h.handle_event(EngineEvent::ChapterChanged(-1)), EventReaction { broadcast: None, command: nothing });
    assert_eq!(h.handle_event(EngineEvent::Other), EventReaction { broadcast: None, command: nothing });
    assert_eq!(h.chapters, chapters());
}

#[test]
fn chapters_are_found_by_index_and_copied() {
    let list = chapters();
    assert_eq!(chapter_at(&list, 0), Some(CurrentChapter { title: String::from("One"), index: 0 }));
    assert_eq!(chapter_at(&list, 2), Some(CurrentChapter { title: String::from("Three"), index: 2 }));
    assert_eq!(chapter_at(&list, 3), None);
    assert_eq!(chapter_at(&list, -1), None);
    assert_eq!(chapter_at(&Vec::new(), 0), None);
    assert_eq!(copy_chapters(&list), list);
}

#[test]
fn failure_shuts_down_with_the_resume_position() {
    let mut h = loaded();
    assert_eq!(h.handle_failure(42_000), EngineCommand::Shutdown { resume_position: 37_000 });
    assert_eq!(h.phase, EnginePhase::Quitting);
    assert_eq!(h.chapters, chapters());
    assert_eq!(h.resume_at, 37_000);
    assert_eq!(h.handle_failure(42_000), EngineCommand::Nothing);
    assert_eq!(h.phase, EnginePhase::Quitting);
    let mut early = LibMpvHandler::new(0);
    assert_eq!(early.handle_failure(3_000), EngineCommand::Shutdown { resume_position: 0 });
    assert_eq!(early.phase, EnginePhase::Quitting);
    let mut quit = loaded();
    quit.handle_message(LibMpvMessage::Quit, readings(0, 0, 50_000));
    assert_eq!(quit.handle_failure(50_000), EngineCommand::Nothing);
}

#[test]
fn adapter_remembers_the_position_that_the_engine_gave_last() {
    let mut h = LibMpvHandler::new(37_000);
    assert_eq!(h.last_position, 37_000);
    h.start();
    h.handle_event(EngineEvent::Seek { position: 42_000 });
    assert_eq!(h.last_position, 42_000);
    h.handle_event(EngineEvent::VolumeChanged(3));
    h.handle_message(LibMpvMessage::UpdateVolume(1), readings(1, 0, 99));
    assert_eq!(h.last_position, 42_000);
    h.handle_message(LibMpvMessage::Quit, readings(0, 0, 60_000));
    assert_eq!(h.last_position, 60_000);
    h.handle_event(EngineEvent::Seek { position: 1 });
    h.handle_message(LibMpvMessage::Quit, readings(0, 0, 2));
    assert_eq!(h.last_position, 60_000);
}

#[test]
fn each_message_calls_for_its_readings() {
    let none = ReadingsWanted { volume: false, chapter: false, position: false };
    let h = loaded();
    assert_eq!(h.wanted(&LibMpvMessage::UpdateVolume(5)), ReadingsWanted { volume: true, ..none });
    assert_eq!(h.wanted(&LibMpvMessage::NextChapter), ReadingsWanted { chapter: true, ..none });
    assert_eq!(h.wanted(&LibMpvMessage::PrevChapter), ReadingsWanted { chapter: true, ..none });
    assert_eq!(h.wanted(&LibMpvMessage::Quit), ReadingsWanted { position: true, ..none });
    for msg in [
        LibMpvMessage::SetVolume(5),
        LibMpvMessage::UpdatePosition(5),
        LibMpvMessage::SetPosition(5),
        LibMpvMessage::Resume,
        LibMpvMessage::Pause,
        LibMpvMessage::PlayPause,
    ] {
        assert_eq!(h.wanted(&msg), none);
    }
    let empty = LibMpvHandler::new(0);
    assert_eq!(empty.wanted(&LibMpvMessage::NextChapter), none);
    assert_eq!(empty.wanted(&LibMpvMessage::PrevChapter), none);
    let mut quit = loaded();
    quit.handle_message(LibMpvMessage::Quit, readings(0, 0, 0));
    assert_eq!(quit.wanted(&LibMpvMessage::Quit), none);
    assert_eq!(quit.wanted(&LibMpvMessage::UpdateVolume(1)), none);
}
