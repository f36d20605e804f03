use milo::animation::{animation_steps, FrameAdvance, LoopCountdown, MiloState, PlaybackCursor};

#[test]
fn debug_cycle_includes_every_animation_state() {
    assert_eq!(MiloState::Idle.next(), MiloState::Sleeping);
    assert_eq!(MiloState::Sleeping.next(), MiloState::Curious);
    assert_eq!(MiloState::Curious.next(), MiloState::Concerned);
    assert_eq!(MiloState::Concerned.next(), MiloState::PlayWithYarn);
    assert_eq!(MiloState::PlayWithYarn.next(), MiloState::Idle);
}

#[test]
fn play_with_yarn_uses_all_frames_with_the_requested_timing() {
    let steps = animation_steps(MiloState::PlayWithYarn);
    assert_eq!(
        steps.iter().map(|step| step.frame).collect::<Vec<_>>(),
        [0, 1, 2, 3, 4, 5, 6, 7]
    );
    assert_eq!(
        steps.iter().map(|step| step.duration_ms).collect::<Vec<_>>(),
        [180, 180, 180, 220, 180, 220, 220, 260]
    );
}

#[test]
fn finite_playback_completes_after_exactly_three_loops() {
    let mut countdown = LoopCountdown::new(3);

    assert!(!countdown.completed_loop());
    assert!(!countdown.completed_loop());
    assert!(countdown.completed_loop());
}

#[test]
fn default_state_is_idle() {
    assert_eq!(MiloState::default(), MiloState::Idle);
}

#[test]
fn idle_schedule_returns_to_its_first_frame() {
    let steps = animation_steps(MiloState::Idle);
    assert_eq!(
        steps.iter().map(|step| (step.frame, step.duration_ms)).collect::<Vec<_>>(),
        [(0, 600), (1, 350), (2, 150), (3, 350), (0, 900)]
    );
}

#[test]
fn endless_playback_wraps_around() {
    let (mut cursor, first) = PlaybackCursor::start(MiloState::Curious, None);
    assert_eq!((first.frame, first.duration_ms), (0, 350));
    let shown: Vec<FrameAdvance> = (0..5).map(|_| cursor.advance()).collect();
    assert_eq!(
        shown,
        [
            FrameAdvance::Show { frame: 1, duration_ms: 250 },
            FrameAdvance::Show { frame: 2, duration_ms: 300 },
            FrameAdvance::Show { frame: 3, duration_ms: 350 },
            FrameAdvance::Show { frame: 0, duration_ms: 350 },
            FrameAdvance::Show { frame: 1, duration_ms: 250 },
        ]
    );
}

#[test]
fn three_yarn_loops_complete_after_exactly_twenty_four_frames() {
    let (mut cursor, _) = PlaybackCursor::start(MiloState::PlayWithYarn, Some(3));
    for _ in 0..23 {
        assert!(matches!(cursor.advance(), FrameAdvance::Show { .. }));
    }
    assert_eq!(cursor.advance(), FrameAdvance::Completed);
    assert_eq!(cursor.countdown, None);
}
