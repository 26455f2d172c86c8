use climusic::{Action, Command, LoadState, Session, Song};

fn songs(n: usize) -> Vec<Song> {
    (0..n)
        .map(|i| Song::new(format!("t{}.mp3", i), format!("music/t{}.mp3", i), 180_000))
        .collect()
}

/// A session whose first track is loaded and playing since `now`.
fn started(n: usize, rows: usize, now: u64) -> Session {
    let mut s = Session::new(songs(n), rows).unwrap();
    assert_eq!(s.tick(now, false), Action::Load(0));
    s.load_finished(true, now);
    s
}

#[test]
fn empty_catalog_gives_no_session() {
    assert!(Session::new(Vec::new(), 10).is_none());
}

#[test]
fn new_session_is_idle_until_first_tick() {
    let mut s = Session::new(songs(2), 10).unwrap();
    assert_eq!(s.load, LoadState::Idle);
    assert!(!s.playing);
    assert_eq!(s.volume, 5);
    assert_eq!(s.tick(1_000, false), Action::Load(0));
    assert!(s.playing);
    assert_eq!(s.current, 0);
    assert_eq!(s.elapsed(1_500), 500);
}

#[test]
fn drain_advances_and_wraps() {
    let mut s = Session::new(
        vec![
            Song::new("A".to_string(), "A".to_string(), 180_000),
            Song::new("B".to_string(), "B".to_string(), 120_000),
        ],
        10,
    )
    .unwrap();
    s.tick(0, false);
    s.load_finished(true, 0);
    assert_eq!((s.current, s.selected, s.playing, s.elapsed(0)), (0, 0, true, 0));
    assert_eq!(s.tick(180_000, true), Action::Load(1));
    s.load_finished(true, 180_000);
    assert_eq!((s.current, s.selected, s.playing, s.elapsed(180_000)), (1, 1, true, 0));
    assert_eq!(s.tick(300_000, true), Action::Load(0));
    assert_eq!(s.current, 0);
    assert_eq!(s.selected, 0);
}

#[test]
fn no_advance_while_paused_or_not_drained() {
    let mut s = started(3, 10, 0);
    assert_eq!(s.tick(10, false), Action::Nothing);
    assert_eq!(s.handle(Command::TogglePlayPause, 20), Action::Pause);
    assert_eq!(s.tick(30, true), Action::Nothing);
    assert_eq!(s.current, 0);
}

#[test]
fn four_moves_down_scroll_window() {
    let mut s = started(10, 3, 0);
    for _ in 0..4 {
        assert_eq!(s.handle(Command::MoveSelectionDown, 0), Action::Nothing);
    }
    assert_eq!(s.selected, 4);
    assert_eq!(s.viewport_start, 2);
}

#[test]
fn selection_stays_visible_over_moves() {
    let mut s = started(7, 3, 0);
    let moves = [
        Command::MoveSelectionDown,
        Command::MoveSelectionDown,
        Command::MoveSelectionDown,
        Command::MoveSelectionDown,
        Command::MoveSelectionUp,
        Command::MoveSelectionDown,
        Command::MoveSelectionDown,
        Command::MoveSelectionDown,
        Command::MoveSelectionDown,
        Command::MoveSelectionUp,
        Command::MoveSelectionUp,
        Command::MoveSelectionUp,
        Command::MoveSelectionUp,
        Command::MoveSelectionUp,
        Command::MoveSelectionUp,
        Command::MoveSelectionUp,
    ];
    for m in moves {
        s.handle(m, 0);
        assert!(s.viewport_start <= s.selected && s.selected < s.viewport_start + 3);
        assert!(s.viewport_start <= 4);
    }
    assert_eq!(s.selected, 0);
    assert_eq!(s.viewport_start, 0);
}

#[test]
fn toggle_twice_restores_state() {
    let mut s = started(2, 10, 0);
    let before = s.elapsed(4_000);
    s.handle(Command::TogglePlayPause, 4_000);
    assert!(!s.playing);
    s.handle(Command::TogglePlayPause, 4_000);
    assert!(s.playing);
    assert_eq!(s.elapsed(4_000), before);

    s.handle(Command::TogglePlayPause, 5_000);
    let paused = s.elapsed(5_000);
    assert_eq!(s.handle(Command::TogglePlayPause, 9_000), Action::Play);
    assert_eq!(s.handle(Command::TogglePlayPause, 9_000), Action::Pause);
    assert!(!s.playing);
    assert_eq!(s.elapsed(9_000), paused);
}

#[test]
fn pause_resume_across_delay_keeps_elapsed() {
    let mut s = started(2, 10, 0);
    s.handle(Command::TogglePlayPause, 12_000);
    assert_eq!(s.elapsed(60_000), 12_000);
    s.handle(Command::TogglePlayPause, 60_000);
    assert_eq!(s.elapsed(60_000), 12_000);
    assert_eq!(s.elapsed(61_000), 13_000);
}

#[test]
fn boundary_commands_are_no_ops() {
    let mut s = started(3, 10, 0);
    assert_eq!(s.handle(Command::MoveSelectionUp, 0), Action::Nothing);
    assert_eq!(s.selected, 0);
    s.handle(Command::MoveSelectionDown, 0);
    s.handle(Command::MoveSelectionDown, 0);
    assert_eq!(s.handle(Command::MoveSelectionDown, 0), Action::Nothing);
    assert_eq!(s.selected, 2);
    for _ in 0..5 {
        s.handle(Command::VolumeUp, 0);
    }
    assert_eq!(s.volume, 10);
    assert_eq!(s.handle(Command::VolumeUp, 0), Action::Nothing);
    assert_eq!(s.volume, 10);
    for _ in 0..10 {
        s.handle(Command::VolumeDown, 0);
    }
    assert_eq!(s.volume, 0);
    assert_eq!(s.handle(Command::VolumeDown, 0), Action::Nothing);
    assert_eq!(s.volume, 0);
}

#[test]
fn volume_steps_tell_engine() {
    let mut s = started(1, 10, 0);
    assert_eq!(s.handle(Command::VolumeUp, 0), Action::SetVolume(6));
    assert_eq!(s.handle(Command::VolumeDown, 0), Action::SetVolume(5));
    assert_eq!(s.handle(Command::VolumeDown, 0), Action::SetVolume(4));
}

#[test]
fn activate_plays_selected_from_start() {
    let mut s = started(5, 10, 0);
    s.handle(Command::MoveSelectionDown, 100);
    s.handle(Command::MoveSelectionDown, 100);
    s.handle(Command::TogglePlayPause, 2_000);
    assert_eq!(s.handle(Command::ActivateSelection, 3_000), Action::Load(2));
    assert_eq!(s.current, 2);
    assert_eq!(s.selected, 2);
    assert!(s.playing);
    assert_eq!(s.elapsed(3_400), 400);
}

#[test]
fn skip_next_wraps_and_selection_follows() {
    let mut s = started(3, 2, 0);
    s.handle(Command::MoveSelectionDown, 0);
    assert_eq!(s.handle(Command::SkipNext, 0), Action::Load(1));
    assert_eq!((s.current, s.selected), (1, 1));
    assert_eq!(s.handle(Command::SkipNext, 0), Action::Load(2));
    assert_eq!((s.current, s.selected, s.viewport_start), (2, 2, 1));
    assert_eq!(s.handle(Command::SkipNext, 0), Action::Load(0));
    assert_eq!((s.current, s.selected, s.viewport_start), (0, 0, 0));
}

#[test]
fn quit_asks_to_exit() {
    let mut s = started(2, 10, 0);
    assert_eq!(s.handle(Command::Quit, 0), Action::Exit);
    assert_eq!(s.current, 0);
}

#[test]
fn failed_load_skips_once_per_tick() {
    let mut s = started(3, 10, 0);
    assert_eq!(s.handle(Command::SkipNext, 0), Action::Load(1));
    s.load_finished(false, 50);
    assert_eq!(s.load, LoadState::Failed);
    assert!(!s.playing);
    assert_eq!(s.current, 1);
    assert_eq!(s.tick(100, false), Action::Load(2));
    assert!(s.playing);
    s.load_finished(true, 100);
    assert_eq!(s.load, LoadState::Ready);
    assert_eq!(s.failures, 0);
    assert_eq!((s.current, s.selected), (2, 2));
}

#[test]
fn retries_stop_after_every_track_failed() {
    let mut s = Session::new(songs(3), 10).unwrap();
    assert_eq!(s.tick(0, false), Action::Load(0));
    s.load_finished(false, 0);
    assert_eq!(s.tick(1, false), Action::Load(1));
    s.load_finished(false, 1);
    assert_eq!(s.tick(2, false), Action::Load(2));
    s.load_finished(false, 2);
    assert_eq!(s.load, LoadState::Exhausted);
    assert!(!s.playing);
    assert_eq!(s.tick(3, true), Action::Nothing);
    assert_eq!(s.tick(4, false), Action::Nothing);
    assert_eq!(s.handle(Command::ActivateSelection, 5), Action::Load(2));
    assert_eq!(s.load, LoadState::Ready);
    assert_eq!(s.failures, 0);
}

#[test]
fn resize_keeps_selection_visible() {
    let mut s = started(10, 5, 0);
    for _ in 0..6 {
        s.handle(Command::MoveSelectionDown, 0);
    }
    assert_eq!((s.selected, s.viewport_start), (6, 2));
    s.set_visible_rows(2);
    assert_eq!(s.viewport_start, 5);
    s.set_visible_rows(20);
    assert_eq!(s.viewport_start, 0);
    s.set_visible_rows(0);
    assert_eq!(s.viewport_start, 7);
}

#[test]
fn frame_shows_window_and_progress() {
    let mut s = started(10, 3, 0);
    for _ in 0..4 {
        s.handle(Command::MoveSelectionDown, 0);
    }
    let f = s.frame(90_000, 30);
    assert!(f.playing);
    assert_eq!(f.volume_percent, 50);
    assert_eq!(f.current, 0);
    assert_eq!(f.elapsed_ms, 90_000);
    assert_eq!(f.elapsed_text, "01:30");
    assert_eq!(f.duration_text, "03:00");
    assert_eq!(f.bar_filled, 15);
    let idx: Vec<usize> = f.rows.iter().map(|r| r.index).collect();
    assert_eq!(idx, vec![2, 3, 4]);
    assert!(f.rows.iter().all(|r| !r.is_current));
    assert!(f.rows[2].is_selected && !f.rows[0].is_selected);
}

#[test]
fn frame_with_zero_rows_or_short_list() {
    let s = started(2, 0, 0);
    assert!(s.frame(0, 30).rows.is_empty());
    let s = started(2, 8, 0);
    let f = s.frame(0, 10);
    assert_eq!(f.rows.len(), 2);
    assert!(f.rows[0].is_current && f.rows[0].is_selected);
    assert_eq!(f.bar_filled, 0);
}
