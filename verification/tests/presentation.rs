use milo::browser::BrowserCommand;
use milo::intervention::InterventionResponse;
use milo::narrative::{DialogueSequence, NarrativeTrigger};
use milo::presentation::{
    dialogue_for_world_event, plan_intervention_response, InterventionResponsePlan,
    NarrativePresentation, NarrativePresentationState, NarrativePresentationTarget,
    NarrativePump, NarrativeSequenceKind, NarrativeStartupGuard, PresentationMode,
    PresentedDialogueLine, ROOM_ELI_PHOTO_Y, ROOM_MILO_DISPLAY_SIZE, ROOM_MILO_Y,
    ROOM_VIEWPORT_HEIGHT, ROOM_VIEWPORT_WIDTH, TRANSPARENT_MILO_DISPLAY_SIZE,
    TRANSPARENT_WINDOW_HEIGHT, TRANSPARENT_WINDOW_WIDTH,
};
use milo::world::{WorldEvent, WorldObject};

fn arguments(values: &[&str]) -> Vec<String> {
    values.iter().map(|value| value.to_string()).collect()
}

fn dialogue_text(dialogue: DialogueSequence) -> Vec<&'static str> {
    dialogue.into_lines().into_iter().map(|line| line.text).collect()
}

fn presentation(
    kind: NarrativeSequenceKind,
    target: NarrativePresentationTarget,
    lines: &[&'static str],
) -> NarrativePresentation {
    NarrativePresentation {
        kind,
        target,
        dialogue: DialogueSequence::new(lines),
    }
}

fn presented_line(pump: NarrativePump) -> (PresentedDialogueLine, bool) {
    match pump {
        NarrativePump::Present { line, is_new } => (line, is_new),
        other => panic!("expected a presentable narrative line, got {other:?}"),
    }
}

#[test]
fn take_break_narrative_is_planned_independently_from_browser_delivery() {
    assert_eq!(
        plan_intervention_response(InterventionResponse::TakeBreak),
        InterventionResponsePlan {
            record_break_accepted: true,
            browser_command: Some(BrowserCommand::CloseActiveDistractionTab),
        }
    );
    assert_eq!(
        plan_intervention_response(InterventionResponse::KeepScrolling),
        InterventionResponsePlan {
            record_break_accepted: false,
            browser_command: None,
        }
    );
}

#[test]
fn narrative_startup_guard_allows_only_one_scheduled_trigger() {
    let mut guard = NarrativeStartupGuard::default();

    assert!(guard.try_schedule());
    assert!(!guard.try_schedule());

    guard.cancel_pending();
    assert!(guard.try_schedule());
    assert!(!guard.try_schedule());
}

#[test]
fn transparent_companion_is_the_default_and_explicit_alias() {
    assert_eq!(
        PresentationMode::from_arguments(&arguments(&["milo"])),
        PresentationMode::TransparentCompanion
    );
    assert_eq!(
        PresentationMode::from_arguments(&arguments(&["milo", "--room", "--transparent"])),
        PresentationMode::TransparentCompanion
    );
    assert_eq!(
        PresentationMode::TransparentCompanion.window_size(),
        (TRANSPARENT_WINDOW_WIDTH, TRANSPARENT_WINDOW_HEIGHT)
    );
    assert_eq!(
        PresentationMode::TransparentCompanion.milo_display_size(),
        TRANSPARENT_MILO_DISPLAY_SIZE
    );
}

#[test]
fn room_argument_selects_the_compact_room_layout() {
    let mode = PresentationMode::from_arguments(&arguments(&["milo", "--room"]));

    assert_eq!(mode, PresentationMode::Room);
    assert_eq!(
        mode.window_size(),
        (ROOM_VIEWPORT_WIDTH, ROOM_VIEWPORT_HEIGHT)
    );
    assert_eq!(mode.milo_display_size(), ROOM_MILO_DISPLAY_SIZE);
}

#[test]
fn break_accepted_queued_during_intervention_resumes_without_loss() {
    let mut state = NarrativePresentationState::default();
    assert!(state.set_intervention_visible(true));
    assert!(state.enqueue(presentation(
        NarrativeSequenceKind::BreakAccepted,
        NarrativePresentationTarget::MiloBubble,
        &["Good.", "...I mean, I'll be fine."],
    )));

    assert_eq!(state.pump(), NarrativePump::SuppressedByIntervention);
    assert_eq!(state.queued_lines.len(), 2);

    assert!(state.set_intervention_visible(false));
    let (first, is_new) = presented_line(state.pump());
    assert!(is_new);
    assert_eq!(first.line.text, "Good.");

    assert_eq!(state.complete_current_line(), Some(first));
    let (second, is_new) = presented_line(state.pump());
    assert!(is_new);
    assert_eq!(second.line.text, "...I mean, I'll be fine.");
}

#[test]
fn interrupted_line_resumes_without_restarting_or_advancing() {
    let mut state = NarrativePresentationState::default();
    state.enqueue(presentation(
        NarrativeSequenceKind::BecameConcerned,
        NarrativePresentationTarget::MiloBubble,
        &["current", "next"],
    ));
    let (current, is_new) = presented_line(state.pump());
    assert!(is_new);

    state.set_intervention_visible(true);
    assert_eq!(state.pump(), NarrativePump::SuppressedByIntervention);
    state.set_intervention_visible(false);

    let (resumed, is_new) = presented_line(state.pump());
    assert!(!is_new);
    assert_eq!(resumed, current);
    state.complete_current_line();
    let (next, is_new) = presented_line(state.pump());
    assert!(is_new);
    assert_eq!(next.line.text, "next");
}

#[test]
fn photo_inspection_is_a_target_not_a_suppression_reason() {
    let mut state = NarrativePresentationState::default();
    state.enqueue(presentation(
        NarrativeSequenceKind::EliPhotoInspection,
        NarrativePresentationTarget::PhotoInspection,
        &["That's me."],
    ));

    let (line, is_new) = presented_line(state.pump());
    assert!(is_new);
    assert_eq!(line.target, NarrativePresentationTarget::PhotoInspection);
    assert_eq!(line.line.text, "That's me.");
}

#[test]
fn intervention_suppresses_then_resumes_photo_inspection_target() {
    let mut state = NarrativePresentationState::default();
    state.enqueue(presentation(
        NarrativeSequenceKind::EliPhotoInspection,
        NarrativePresentationTarget::PhotoInspection,
        &["That's me.", "And that's Eli."],
    ));
    let (current, _) = presented_line(state.pump());

    state.set_intervention_visible(true);
    assert_eq!(state.pump(), NarrativePump::SuppressedByIntervention);
    state.set_intervention_visible(false);

    let (resumed, is_new) = presented_line(state.pump());
    assert!(!is_new);
    assert_eq!(resumed, current);
    assert_eq!(resumed.target, NarrativePresentationTarget::PhotoInspection);
}

#[test]
fn mixed_targets_preserve_queue_order() {
    let mut state = NarrativePresentationState::default();
    state.enqueue(presentation(
        NarrativeSequenceKind::FirstLaunch,
        NarrativePresentationTarget::MiloBubble,
        &["first"],
    ));
    state.enqueue(presentation(
        NarrativeSequenceKind::EliPhotoInspection,
        NarrativePresentationTarget::PhotoInspection,
        &["second"],
    ));

    let (first, _) = presented_line(state.pump());
    assert_eq!(first.line.text, "first");
    assert_eq!(first.target, NarrativePresentationTarget::MiloBubble);
    state.complete_current_line();

    let (second, _) = presented_line(state.pump());
    assert_eq!(second.line.text, "second");
    assert_eq!(second.target, NarrativePresentationTarget::PhotoInspection);
}

#[test]
fn world_events_map_to_the_expected_dialogue() {
    let appearance = dialogue_for_world_event(WorldEvent::EliPhotoAppeared).unwrap();
    assert_eq!(appearance.kind, NarrativeSequenceKind::EliPhotoAppeared);
    assert_eq!(appearance.target, NarrativePresentationTarget::MiloBubble);
    assert_eq!(
        dialogue_text(appearance.dialogue),
        ["I left it here.", "Thought you might want to see it."]
    );

    let inspection =
        dialogue_for_world_event(WorldEvent::ObjectInspected(WorldObject::EliPhoto)).unwrap();
    assert_eq!(inspection.kind, NarrativeSequenceKind::EliPhotoInspection);
    assert_eq!(
        inspection.target,
        NarrativePresentationTarget::PhotoInspection
    );
    assert_eq!(
        dialogue_text(inspection.dialogue),
        [
            "That's me.",
            "And that's Eli.",
            "We used to play with that all the time.",
            "...I haven't seen him in a long time."
        ]
    );
    assert!(
        dialogue_for_world_event(WorldEvent::ObjectPending(WorldObject::EliPhoto)).is_none()
    );
}

#[test]
fn an_empty_queue_finishes_once_active() {
    let mut state = NarrativePresentationState::default();
    assert_eq!(state.pump(), NarrativePump::Finished { was_active: false });
    assert!(state.enqueue(presentation(
        NarrativeSequenceKind::FirstLaunch,
        NarrativePresentationTarget::MiloBubble,
        &["Hi."],
    )));
    assert!(!state.enqueue(presentation(
        NarrativeSequenceKind::BecameConcerned,
        NarrativePresentationTarget::MiloBubble,
        &["Hm."],
    )));
    presented_line(state.pump());
    state.complete_current_line();
    presented_line(state.pump());
    state.complete_current_line();
    assert_eq!(state.pump(), NarrativePump::Finished { was_active: true });
    assert_eq!(state.pump(), NarrativePump::Finished { was_active: false });
    assert!(!state.active);
}

#[test]
fn setting_the_same_intervention_visibility_is_no_change() {
    let mut state = NarrativePresentationState::default();
    assert!(!state.set_intervention_visible(false));
    assert!(state.set_intervention_visible(true));
    assert!(!state.set_intervention_visible(true));
    assert_eq!(state.complete_current_line(), None);
}

#[test]
fn mode_arguments_are_recognised() {
    assert!(PresentationMode::is_mode_argument(&"--room".to_string()));
    assert!(PresentationMode::is_mode_argument(&"--transparent".to_string()));
    assert!(!PresentationMode::is_mode_argument(&"--debug-intervention".to_string()));
    assert_eq!(
        PresentationMode::from_arguments(&arguments(&["milo", "--transparent", "--room", "-v"])),
        PresentationMode::Room
    );
    assert_eq!(PresentationMode::default(), PresentationMode::TransparentCompanion);
}

#[test]
fn narrative_triggers_name_their_sequences() {
    assert_eq!(
        NarrativeSequenceKind::from(NarrativeTrigger::FirstLaunch),
        NarrativeSequenceKind::FirstLaunch
    );
    assert_eq!(
        NarrativeSequenceKind::from(NarrativeTrigger::BecameConcerned),
        NarrativeSequenceKind::BecameConcerned
    );
    assert_eq!(
        NarrativeSequenceKind::from(NarrativeTrigger::BreakAccepted),
        NarrativeSequenceKind::BreakAccepted
    );
    assert_eq!(
        NarrativeSequenceKind::from(NarrativeTrigger::ReturnedAfterBreak),
        NarrativeSequenceKind::ReturnedAfterBreak
    );
}

#[test]
fn room_layout_stands_on_the_floor() {
    assert_eq!(ROOM_MILO_Y, 149);
    assert_eq!(ROOM_ELI_PHOTO_Y, 179);
}
