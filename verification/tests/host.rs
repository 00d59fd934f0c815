use doom_snapshot::host::{DoomState, HostCall, HostReply, DOOM_CLOCK_STEP_MS};
use doom_snapshot::schedule::{DriveSchedule, DriveStep};

fn quiet_calls() -> Vec<HostCall> {
    vec![
        HostCall::RegisterSound,
        HostCall::StartSound,
        HostCall::StopSound,
        HostCall::UpdateSoundParams,
        HostCall::SoundIsPlaying,
        HostCall::RegisterSong,
        HostCall::UnregisterSong,
        HostCall::PlaySong,
        HostCall::StopSong,
        HostCall::PauseSong,
        HostCall::ResumeSong,
        HostCall::SetMusicVolume,
        HostCall::SongIsPlaying,
        HostCall::OnErrorMessage,
        HostCall::OnInfoMessage,
        HostCall::WriteSaveGame { len: 12 },
        HostCall::ReadSaveGame,
        HostCall::SizeOfSaveGame,
        HostCall::ReadWads,
        HostCall::WadSizes,
    ]
}

#[test]
fn fresh_host_has_no_frame() {
    let s = DoomState::new();
    assert_eq!(s.clock_ms(), 0);
    assert_eq!(s.frame_offset(), None);
    assert_eq!(s.frame_width(), 0);
    assert_eq!(s.frame_height(), 0);
}

#[test]
fn clock_self_advances_one_step_per_read() {
    let mut s = DoomState::new();
    for k in 1..=5i64 {
        assert_eq!(s.handle(HostCall::TimeInMilliseconds), HostReply::I64(1000 * k));
    }
    assert_eq!(s.clock_ms(), 5 * DOOM_CLOCK_STEP_MS);
}

#[test]
fn clock_reading_counts_only_reads() {
    let mut s = DoomState::new();
    s.handle(HostCall::TimeInMilliseconds);
    for c in quiet_calls() {
        s.handle(c);
    }
    s.handle(HostCall::DrawFrame { offset: 64 });
    assert_eq!(s.handle(HostCall::TimeInMilliseconds), HostReply::I64(2000));
}

#[test]
fn quiet_calls_answer_the_least_the_module_accepts() {
    let mut s = DoomState::new();
    let expected = [
        HostReply::Nothing,
        HostReply::Nothing,
        HostReply::Nothing,
        HostReply::Nothing,
        HostReply::I32(0),
        HostReply::I32(0),
        HostReply::Nothing,
        HostReply::Nothing,
        HostReply::Nothing,
        HostReply::Nothing,
        HostReply::Nothing,
        HostReply::Nothing,
        HostReply::I32(0),
        HostReply::Nothing,
        HostReply::Nothing,
        HostReply::I32(12),
        HostReply::I32(0),
        HostReply::I32(0),
        HostReply::Nothing,
        HostReply::Nothing,
    ];
    for (c, r) in quiet_calls().into_iter().zip(expected) {
        assert_eq!(s.handle(c), r);
    }
    assert_eq!(s.clock_ms(), 0);
    assert_eq!(s.frame_offset(), None);
    assert_eq!((s.frame_width(), s.frame_height()), (0, 0));
}

#[test]
fn write_save_game_reports_the_whole_length() {
    let mut s = DoomState::new();
    assert_eq!(s.handle(HostCall::WriteSaveGame { len: 4096 }), HostReply::I32(4096));
    assert_eq!(s.handle(HostCall::WriteSaveGame { len: 0 }), HostReply::I32(0));
}

#[test]
fn last_draw_frame_wins() {
    let mut s = DoomState::new();
    s.handle(HostCall::DrawFrame { offset: 100 });
    s.handle(HostCall::TimeInMilliseconds);
    s.handle(HostCall::DrawFrame { offset: 2048 });
    s.handle(HostCall::StartSound);
    assert_eq!(s.frame_offset(), Some(2048));
}

#[test]
fn draw_frame_offset_is_reinterpreted_unsigned() {
    let mut s = DoomState::new();
    assert_eq!(s.handle(HostCall::DrawFrame { offset: -4 }), HostReply::Nothing);
    assert_eq!(s.frame_offset(), Some(4294967292));
}

#[test]
fn on_game_init_records_dimensions() {
    let mut s = DoomState::new();
    s.handle(HostCall::OnGameInit { width: 320, height: 200 });
    s.handle(HostCall::OnGameInit { width: 640, height: 400 });
    assert_eq!((s.frame_width(), s.frame_height()), (640, 400));
}

#[test]
fn captured_frame_is_the_slice_at_the_offset() {
    let mut s = DoomState::new();
    s.handle(HostCall::OnGameInit { width: 2, height: 1 });
    s.handle(HostCall::DrawFrame { offset: 3 });
    let memory: Vec<u8> = (0u8..16).collect();
    let (frame, w, h) = s.captured_frame(&memory);
    assert_eq!(frame, vec![3, 4, 5, 6, 7, 8, 9, 10]);
    assert_eq!((w, h), (2, 1));
}

#[test]
fn captured_frame_may_end_at_memory_end() {
    let mut s = DoomState::new();
    s.handle(HostCall::OnGameInit { width: 1, height: 1 });
    s.handle(HostCall::DrawFrame { offset: 4 });
    let memory: Vec<u8> = vec![0, 0, 0, 0, 9, 8, 7, 6];
    assert_eq!(s.captured_frame(&memory).0, vec![9, 8, 7, 6]);
}

#[test]
fn schedule_inits_ticks_then_captures() {
    let mut s = DriveSchedule::new(3);
    let steps: Vec<DriveStep> = (0..6).map(|_| s.next()).collect();
    assert_eq!(
        steps,
        vec![
            DriveStep::InitGame,
            DriveStep::TickGame,
            DriveStep::TickGame,
            DriveStep::TickGame,
            DriveStep::Capture,
            DriveStep::Capture,
        ]
    );
}

#[test]
fn schedule_with_no_ticks_captures_right_after_init() {
    let mut s = DriveSchedule::new(0);
    assert_eq!(s.next(), DriveStep::InitGame);
    assert_eq!(s.next(), DriveStep::Capture);
}
