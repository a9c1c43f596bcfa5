use unplugged_audiobook_player::position::PlaybackPosition;

fn playing_from(offset: u64, reference: u64, duration: u64) -> PlaybackPosition {
    PlaybackPosition { offset, reference, paused: false, ready: true, duration }
}

#[test]
fn position_is_zero_until_ready() {
    let mut p = PlaybackPosition::new();
    assert_eq!(p.current_time(0), 0);
    assert_eq!(p.current_time(1_000_000), 0);
    p.file_loaded(60_000, 100);
    p.seek(5_000, 100);
    assert_eq!(p.current_time(200), 0);
    p.playback_restart(false, 300);
    assert_eq!(p.current_time(300), 5_000);
    assert_eq!(p.current_time(1_300), 6_000);
    p.start_file();
    assert_eq!(p.current_time(1_300), 0);
}

#[test]
fn position_adds_up_the_playing_stretches() {
    let mut p = PlaybackPosition::new();
    p.file_loaded(600_000, 0);
    p.playback_restart(false, 1_000);
    p.pause(4_000);
    assert_eq!(p.current_time(4_000), 3_000);
    assert_eq!(p.current_time(9_000), 3_000);
    p.resume(10_000);
    assert_eq!(p.current_time(10_000), 3_000);
    assert_eq!(p.current_time(12_500), 5_500);
    p.pause(13_000);
    p.resume(20_000);
    p.pause(21_000);
    assert_eq!(p.current_time(99_000), 7_000);
    assert_eq!(p.current_time(99_000), 7_000);
}

#[test]
fn position_stops_at_the_end_of_the_file() {
    let p = playing_from(9_000, 0, 10_000);
    assert_eq!(p.current_time(500), 9_500);
    assert_eq!(p.current_time(1_000), 10_000);
    assert_eq!(p.current_time(5_000), 10_000);
    let far = playing_from(u64::MAX - 1, 0, u64::MAX);
    assert_eq!(far.current_time(10), u64::MAX);
}

#[test]
fn position_follows_a_seek() {
    let mut p = playing_from(1_000, 0, 100_000);
    p.seek(42_000, 5_000);
    assert_eq!(p.current_time(5_000), 42_000);
    assert_eq!(p.current_time(6_000), 43_000);
    assert_eq!(p, PlaybackPosition { offset: 42_000, reference: 5_000, paused: false, ready: true, duration: 100_000 });
}

#[test]
fn position_does_not_run_backwards_with_the_clock() {
    let mut p = playing_from(1_000, 5_000, 100_000);
    assert_eq!(p.current_time(4_000), 1_000);
    p.pause(4_000);
    assert_eq!(p.offset, 1_000);
    assert!(p.paused);
}

#[test]
fn file_loaded_starts_at_zero_with_its_length() {
    let mut p = playing_from(7_000, 0, 10_000);
    p.file_loaded(90_000, 2_000);
    assert_eq!(p, PlaybackPosition { offset: 0, reference: 2_000, paused: false, ready: true, duration: 90_000 });
}
