use milo::activity::ActivityCategory;
use milo::animation::MiloState;
use milo::behavior::{
    BehaviorEffects, BehaviorState, CozyActivity, CozyDelayGenerator, CuriousTimer,
    DistractionSeverity, StateTransition, APP_SWITCH_CURIOUS_MS, COZY_ACTIVITY_MAX_DELAY_SECONDS,
    COZY_ACTIVITY_MIN_DELAY_SECONDS, CURIOUS_AFTER_RESUME_MS,
};
use milo::distraction::{
    DistractionEvent, DistractionKind, FIRST_THRESHOLD_SECONDS, NANOS_PER_SECOND,
    SECOND_THRESHOLD_SECONDS, THIRD_THRESHOLD_SECONDS,
};

fn started() -> DistractionEvent {
    DistractionEvent::Started(DistractionKind::YouTubeShorts)
}

fn threshold(seconds: u64) -> DistractionEvent {
    DistractionEvent::Threshold {
        kind: DistractionKind::YouTubeShorts,
        seconds,
    }
}

fn ended() -> DistractionEvent {
    DistractionEvent::Ended {
        kind: DistractionKind::YouTubeShorts,
        elapsed_nanos: 21 * NANOS_PER_SECOND,
    }
}

fn start_autonomous_yarn(state: &mut BehaviorState) -> u64 {
    let (transition, generation) = state.start_autonomous_play_with_yarn().unwrap();
    assert_eq!(transition.current, MiloState::PlayWithYarn);
    generation
}

#[test]
fn distraction_severity_progresses_and_thirty_seconds_stays_concerned() {
    let mut state = BehaviorState::new();

    assert_eq!(state.handle_distraction_event(started()), None);
    assert_eq!(state.current, MiloState::Idle);
    assert_eq!(
        state.handle_distraction_event(threshold(FIRST_THRESHOLD_SECONDS)),
        Some(StateTransition {
            previous: MiloState::Idle,
            current: MiloState::Curious,
        })
    );
    assert_eq!(
        state.handle_distraction_event(threshold(SECOND_THRESHOLD_SECONDS)),
        Some(StateTransition {
            previous: MiloState::Curious,
            current: MiloState::Concerned,
        })
    );
    assert_eq!(
        state.handle_distraction_event(threshold(THIRD_THRESHOLD_SECONDS)),
        None
    );
    assert_eq!(state.current, MiloState::Concerned);
}

#[test]
fn ending_sessions_returns_curious_or_concerned_to_idle() {
    for final_threshold in [FIRST_THRESHOLD_SECONDS, SECOND_THRESHOLD_SECONDS] {
        let mut state = BehaviorState::new();
        state.handle_distraction_event(started());
        state.handle_distraction_event(threshold(final_threshold));

        assert_eq!(
            state.handle_distraction_event(ended()).unwrap().current,
            MiloState::Idle
        );
    }
}

#[test]
fn system_idle_overrides_concerned() {
    let mut state = BehaviorState::new();
    state.handle_distraction_event(started());
    state.handle_distraction_event(threshold(SECOND_THRESHOLD_SECONDS));

    assert_eq!(state.system_idle().unwrap().current, MiloState::Sleeping);
}

#[test]
fn resume_after_sleeping_is_temporarily_curious_then_idle() {
    let mut state = BehaviorState::new();
    state.system_idle();

    let (generation, resumed) = state.resume();
    assert_eq!(resumed.unwrap().current, MiloState::Curious);
    assert_eq!(
        state.finish_temporary_reaction(generation).unwrap().current,
        MiloState::Idle
    );
}

#[test]
fn new_session_after_concerned_restarts_at_idle() {
    let mut state = BehaviorState::new();
    state.handle_distraction_event(started());
    state.handle_distraction_event(threshold(SECOND_THRESHOLD_SECONDS));
    state.handle_distraction_event(ended());

    assert_eq!(state.handle_distraction_event(started()), None);
    assert_eq!(state.current, MiloState::Idle);
    assert_eq!(state.distraction_severity, DistractionSeverity::Active);
}

#[test]
fn switching_distraction_kind_resets_severity() {
    let mut state = BehaviorState::new();
    state.handle_distraction_event(started());
    state.handle_distraction_event(threshold(SECOND_THRESHOLD_SECONDS));
    state.handle_distraction_event(ended());
    let transition =
        state.handle_distraction_event(DistractionEvent::Started(DistractionKind::InstagramReels));

    assert_eq!(transition, None);
    assert_eq!(state.current, MiloState::Idle);
    assert_eq!(state.distraction_severity, DistractionSeverity::Active);
}

#[test]
fn stale_temporary_timer_cannot_overwrite_concerned() {
    let mut state = BehaviorState::new();
    let (generation, _) = state.start_app_switch_reaction();
    state.handle_distraction_event(started());
    state.handle_distraction_event(threshold(SECOND_THRESHOLD_SECONDS));

    assert_eq!(state.finish_temporary_reaction(generation), None);
    assert_eq!(state.current, MiloState::Concerned);
}

#[test]
fn completing_resume_reaction_uses_persistent_distraction_state() {
    let mut state = BehaviorState::new();
    state.system_idle();
    let (generation, _) = state.resume();
    state.handle_distraction_event(started());
    state.handle_distraction_event(threshold(SECOND_THRESHOLD_SECONDS));

    assert_eq!(
        state.finish_temporary_reaction(generation).unwrap().current,
        MiloState::Concerned
    );
}

#[test]
fn app_switch_reactions_do_not_override_distraction_severity() {
    let mut state = BehaviorState::new();
    state.handle_distraction_event(started());

    assert!(!state.app_switch_reaction_allowed());
    state.handle_distraction_event(threshold(SECOND_THRESHOLD_SECONDS));
    assert!(!state.app_switch_reaction_allowed());
}

#[test]
fn play_with_yarn_may_start_from_calm_authoritative_idle() {
    let mut state = BehaviorState::new();
    let generation = start_autonomous_yarn(&mut state);

    assert_eq!(state.current, MiloState::PlayWithYarn);
    assert_eq!(state.cozy_activity, Some(CozyActivity::PlayWithYarn));
    assert_eq!(
        state.finish_play_with_yarn(generation),
        Some(StateTransition {
            previous: MiloState::PlayWithYarn,
            current: MiloState::Idle,
        })
    );
}

#[test]
fn play_with_yarn_completion_recomputes_authoritative_state() {
    let mut state = BehaviorState::new();
    let generation = start_autonomous_yarn(&mut state);
    state.distraction_severity = DistractionSeverity::Concerned;

    assert_eq!(
        state.finish_play_with_yarn(generation),
        Some(StateTransition {
            previous: MiloState::PlayWithYarn,
            current: MiloState::Concerned,
        })
    );
}

#[test]
fn play_with_yarn_cannot_start_while_system_idle() {
    let mut state = BehaviorState::new();
    state.system_idle();

    assert!(state.start_autonomous_play_with_yarn().is_none());
    assert_eq!(state.current, MiloState::Sleeping);
}

#[test]
fn play_with_yarn_cannot_start_during_curious_or_concerned_distraction() {
    for seconds in [FIRST_THRESHOLD_SECONDS, SECOND_THRESHOLD_SECONDS] {
        let mut state = BehaviorState::new();
        state.handle_distraction_event(started());
        state.handle_distraction_event(threshold(seconds));

        assert!(state.start_autonomous_play_with_yarn().is_none());
        assert_eq!(
            state.current,
            if seconds == FIRST_THRESHOLD_SECONDS {
                MiloState::Curious
            } else {
                MiloState::Concerned
            }
        );
    }
}

#[test]
fn play_with_yarn_cannot_start_during_an_active_distraction() {
    let mut state = BehaviorState::new();
    state.handle_distraction_event(started());

    assert!(state.start_autonomous_play_with_yarn().is_none());
    assert_eq!(state.current, MiloState::Idle);
}

#[test]
fn play_with_yarn_cannot_start_during_a_resume_reaction() {
    let mut state = BehaviorState::new();
    state.system_idle();
    state.resume();

    assert!(state.start_autonomous_play_with_yarn().is_none());
    assert_eq!(state.current, MiloState::Curious);
}

#[test]
fn play_with_yarn_cannot_start_during_an_app_switch_reaction() {
    let mut state = BehaviorState::new();
    state.start_app_switch_reaction();

    assert!(state.start_autonomous_play_with_yarn().is_none());
    assert_eq!(state.current, MiloState::Curious);
}

#[test]
fn play_with_yarn_waits_for_intervention_and_narrative_ui() {
    let mut state = BehaviorState::new();
    state.set_intervention_visible(true);
    assert!(state.start_autonomous_play_with_yarn().is_none());

    state.set_intervention_visible(false);
    state.set_narrative_active(true);
    assert!(state.start_autonomous_play_with_yarn().is_none());

    state.set_narrative_active(false);
    assert!(state.start_autonomous_play_with_yarn().is_some());
}

#[test]
fn system_idle_interrupts_play_with_yarn() {
    let mut state = BehaviorState::new();
    let generation = start_autonomous_yarn(&mut state);

    assert_eq!(state.system_idle().unwrap().current, MiloState::Sleeping);
    assert_eq!(state.finish_play_with_yarn(generation), None);
    assert_eq!(state.current, MiloState::Sleeping);
}

#[test]
fn distraction_concerned_interrupts_play_with_yarn() {
    let mut state = BehaviorState::new();
    let generation = start_autonomous_yarn(&mut state);

    assert_eq!(
        state
            .handle_distraction_event(threshold(SECOND_THRESHOLD_SECONDS))
            .unwrap()
            .current,
        MiloState::Concerned
    );
    assert_eq!(state.finish_play_with_yarn(generation), None);
    assert_eq!(state.current, MiloState::Concerned);
}

#[test]
fn stale_play_with_yarn_completion_cannot_overwrite_concerned() {
    let mut state = BehaviorState::new();
    let play_with_yarn_generation = start_autonomous_yarn(&mut state);
    state.handle_distraction_event(threshold(SECOND_THRESHOLD_SECONDS));

    assert_eq!(state.finish_play_with_yarn(play_with_yarn_generation), None);
    assert_eq!(state.current, MiloState::Concerned);
}

#[test]
fn cozy_delays_are_varied_and_stay_within_development_bounds() {
    let mut generator = CozyDelayGenerator::seeded(42);
    let delays = (0..16).map(|_| generator.next_delay()).collect::<Vec<_>>();

    assert!(delays.iter().all(|delay| {
        (COZY_ACTIVITY_MIN_DELAY_SECONDS..=COZY_ACTIVITY_MAX_DELAY_SECONDS).contains(delay)
    }));
    assert!(delays.windows(2).any(|pair| pair[0] != pair[1]));
}

#[test]
fn completion_policy_produces_another_randomized_opportunity() {
    let mut generator = CozyDelayGenerator::seeded(7);
    let first_opportunity = generator.next_delay();
    let after_completion = generator.next_delay();

    assert_ne!(first_opportunity, after_completion);
    assert!(after_completion >= COZY_ACTIVITY_MIN_DELAY_SECONDS);
    assert!(after_completion <= COZY_ACTIVITY_MAX_DELAY_SECONDS);
}

#[test]
fn zero_seed_still_produces_varied_delays() {
    let mut generator = CozyDelayGenerator::seeded(0);
    let first = generator.next_delay();
    let second = generator.next_delay();
    assert!((COZY_ACTIVITY_MIN_DELAY_SECONDS..=COZY_ACTIVITY_MAX_DELAY_SECONDS).contains(&first));
    assert_ne!(first, second);
}

#[test]
fn clock_seeded_generator_stays_within_bounds() {
    let mut generator = CozyDelayGenerator::from_clock(1_700_000_000_123_456_789, 4242);
    for _ in 0..8 {
        let delay = generator.next_delay();
        assert!((COZY_ACTIVITY_MIN_DELAY_SECONDS..=COZY_ACTIVITY_MAX_DELAY_SECONDS).contains(&delay));
    }
}

#[test]
fn stale_resume_timer_after_idle_is_ignored() {
    let mut state = BehaviorState::new();
    let (generation, _) = state.resume();
    state.system_idle();
    assert_eq!(state.finish_temporary_reaction(generation), None);
    assert_eq!(state.current, MiloState::Sleeping);
}

#[test]
fn category_change_starts_the_app_switch_reaction() {
    let mut state = BehaviorState::new();
    let effects = state.react_to_category_change(ActivityCategory::Terminal, ActivityCategory::Browser);
    assert_eq!(
        effects,
        BehaviorEffects {
            transition: Some(StateTransition {
                previous: MiloState::Idle,
                current: MiloState::Curious,
            }),
            cancel_curious_timer: true,
            curious_timer: Some(CuriousTimer {
                generation: state.temporary_generation,
                duration_ms: APP_SWITCH_CURIOUS_MS,
            }),
            reschedule_cozy: false,
        }
    );
    let unchanged = state;
    let effects = state.react_to_category_change(ActivityCategory::Browser, ActivityCategory::Browser);
    assert_eq!(effects.transition, None);
    assert!(!effects.cancel_curious_timer);
    assert_eq!(state, unchanged);
}

#[test]
fn category_change_during_a_session_does_nothing() {
    let mut state = BehaviorState::new();
    state.handle_distraction_event(started());
    let before = state;
    let effects = state.react_to_category_change(ActivityCategory::Browser, ActivityCategory::Terminal);
    assert_eq!(effects.curious_timer, None);
    assert_eq!(state, before);
}

#[test]
fn idle_and_resume_events_schedule_the_resume_reaction() {
    let mut state = BehaviorState::new();
    let generation = start_autonomous_yarn(&mut state);
    let effects = state.react_to_idle_event(true);
    assert_eq!(effects.transition.unwrap().current, MiloState::Sleeping);
    assert!(effects.cancel_curious_timer);
    assert!(effects.reschedule_cozy);
    assert_eq!(state.finish_play_with_yarn(generation), None);

    let effects = state.react_to_idle_event(false);
    assert_eq!(effects.transition.unwrap().current, MiloState::Curious);
    assert_eq!(
        effects.curious_timer,
        Some(CuriousTimer {
            generation: state.temporary_generation,
            duration_ms: CURIOUS_AFTER_RESUME_MS,
        })
    );
    assert!(!effects.reschedule_cozy);
}

#[test]
fn distraction_event_cancels_app_switch_timer_and_ui_interrupts_cozy() {
    let mut state = BehaviorState::new();
    state.start_app_switch_reaction();
    let effects = state.react_to_distraction_event(started());
    assert!(effects.cancel_curious_timer);
    assert_eq!(state.current, MiloState::Idle);

    let mut state = BehaviorState::new();
    start_autonomous_yarn(&mut state);
    let effects = state.react_to_intervention_visible(true);
    assert!(effects.reschedule_cozy);
    assert_eq!(effects.transition.unwrap().current, MiloState::Idle);

    let mut state = BehaviorState::new();
    start_autonomous_yarn(&mut state);
    let effects = state.react_to_narrative_active(true);
    assert!(effects.reschedule_cozy);
    assert_eq!(state.cozy_activity, None);

    let mut state = BehaviorState::new();
    let effects = state.react_to_debug_cycle();
    assert_eq!(
        effects.transition,
        Some(StateTransition {
            previous: MiloState::Idle,
            current: MiloState::Sleeping,
        })
    );
}
