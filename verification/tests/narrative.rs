use milo::narrative::{
    apply_world_milestone, reconcile_world_progress, DialogueSequence, NarrativeController,
    NarrativeEngine, NarrativeMilestone, NarrativeProgress, NarrativeTrigger, NarrativeUpdate,
    DIALOGUE_LINE_DURATION_MS,
};
use milo::world::{WorldEngine, WorldEvent, WorldObject, WorldProgress};
use std::cell::RefCell;
use std::rc::Rc;

fn dialogue_text(update: &NarrativeUpdate) -> Vec<&'static str> {
    update
        .dialogue
        .clone()
        .into_iter()
        .flat_map(|dialogue| dialogue.into_lines())
        .map(|line| line.text)
        .collect()
}

#[test]
fn fresh_state_produces_first_launch_dialogue_once() {
    let mut engine = NarrativeEngine::new(NarrativeProgress::default());

    let update = engine.first_launch().unwrap();
    assert_eq!(update.trigger, NarrativeTrigger::FirstLaunch);
    assert_eq!(dialogue_text(&update), ["Hi.", "You work here?"]);
    assert!(engine.first_launch().is_none());
}

#[test]
fn first_real_concerned_event_produces_dialogue_once() {
    let mut engine = NarrativeEngine::new(NarrativeProgress::default());

    let update = engine.became_concerned().unwrap();
    assert_eq!(update.trigger, NarrativeTrigger::BecameConcerned);
    assert_eq!(
        dialogue_text(&update),
        ["You've been staring at that for a while."]
    );
    assert!(engine.became_concerned().is_none());
}

#[test]
fn unrelated_state_changes_do_not_trigger_concerned_dialogue() {
    let mut engine = NarrativeEngine::new(NarrativeProgress::default());

    engine.system_idle();
    assert!(engine.system_resumed().is_none());
    assert!(!engine.progress.concerned_dialogue_seen);
}

#[test]
fn first_and_second_breaks_return_their_dialogue() {
    let mut engine = NarrativeEngine::new(NarrativeProgress::default());

    let first = engine.break_accepted();
    assert_eq!(dialogue_text(&first), ["Good.", "...I mean, I'll be fine."]);
    assert_eq!(engine.progress.breaks_accepted, 1);

    let second = engine.break_accepted();
    assert_eq!(dialogue_text(&second), ["Going somewhere?", "...Good."]);
    assert_eq!(engine.progress.breaks_accepted, 2);
}

#[test]
fn third_break_reveals_eli_and_fourth_does_not_repeat_it() {
    let mut engine = NarrativeEngine::new(NarrativeProgress::default());
    let mut world = WorldEngine::default();
    engine.break_accepted();
    engine.break_accepted();

    let third = engine.break_accepted();
    assert_eq!(
        dialogue_text(&third),
        [
            "Found something earlier.",
            "It has a name on it.",
            "...Eli."
        ]
    );
    assert_eq!(third.milestone, Some(NarrativeMilestone::EliRevealed));
    assert!(engine.progress.eli_revealed);
    assert_eq!(
        apply_world_milestone(&mut world, &mut engine.progress, third.milestone),
        Some(WorldEvent::ObjectPending(WorldObject::EliPhoto))
    );
    assert!(!engine.progress.world.is_visible(WorldObject::EliPhoto));

    let fourth = engine.break_accepted();
    assert!(fourth.dialogue.is_none());
    assert_eq!(fourth.milestone, None);
    assert_eq!(engine.progress.breaks_accepted, 4);
}

#[test]
fn return_dialogue_requires_break_then_idle_then_resume() {
    let mut engine = NarrativeEngine::new(NarrativeProgress::default());

    assert!(engine.system_resumed().is_none());
    engine.break_accepted();
    assert!(engine.system_resumed().is_none());
    engine.system_idle();
    let returned = engine.system_resumed().unwrap();

    assert_eq!(returned.trigger, NarrativeTrigger::ReturnedAfterBreak);
    assert_eq!(
        dialogue_text(&returned),
        ["You came back.", "I wasn't waiting."]
    );
    assert!(engine.system_resumed().is_none());
}

#[test]
fn ordinary_idle_and_resume_has_no_return_dialogue() {
    let mut engine = NarrativeEngine::new(NarrativeProgress::default());

    engine.system_idle();
    assert!(engine.system_resumed().is_none());
    assert!(!engine.progress.return_dialogue_seen);
}

#[test]
fn chapter_one_progress_without_world_data_remains_compatible() {
    let decoded = NarrativeProgress {
        introduction_seen: true,
        concerned_dialogue_seen: true,
        breaks_accepted: 3,
        return_dialogue_seen: true,
        eli_revealed: true,
        world: WorldProgress::default(),
    };

    assert!(decoded.introduction_seen);
    assert!(decoded.concerned_dialogue_seen);
    assert_eq!(decoded.breaks_accepted, 3);
    assert!(decoded.return_dialogue_seen);
    assert!(decoded.eli_revealed);
    assert!(!decoded.world.is_visible(WorldObject::EliPhoto));

    let mut world = WorldEngine::default();
    let mut reconciled = decoded.clone();
    assert_eq!(
        reconcile_world_progress(&mut world, &mut reconciled),
        Some(WorldEvent::ObjectPending(WorldObject::EliPhoto))
    );
    assert!(!reconciled.world.is_visible(WorldObject::EliPhoto));
    assert!(reconciled.world.eli_photo_pending);
}

#[test]
fn reconciling_twice_reports_the_pending_photo_once() {
    let mut progress = NarrativeProgress {
        eli_revealed: true,
        ..NarrativeProgress::default()
    };
    let mut world = WorldEngine::default();
    assert!(reconcile_world_progress(&mut world, &mut progress).is_some());
    assert_eq!(reconcile_world_progress(&mut world, &mut progress), None);

    let mut untouched = NarrativeProgress::default();
    assert_eq!(reconcile_world_progress(&mut world, &mut untouched), None);
    assert_eq!(untouched, NarrativeProgress::default());
}

#[test]
fn dialogue_lines_have_the_standard_duration() {
    let lines = DialogueSequence::new(&["one", "two"]).into_lines();
    assert_eq!(lines.len(), 2);
    assert!(lines
        .iter()
        .all(|line| line.duration_ms == DIALOGUE_LINE_DURATION_MS));
    assert_eq!(DIALOGUE_LINE_DURATION_MS, 4_000);
    assert!(DialogueSequence::new(&[]).is_empty());
}

#[test]
fn became_concerned_after_first_launch_is_independent() {
    let mut engine = NarrativeEngine::new(NarrativeProgress::default());
    assert!(engine.first_launch().is_some());
    assert!(engine.became_concerned().is_some());
    assert!(engine.progress.introduction_seen);
    assert!(engine.progress.concerned_dialogue_seen);
}

type Log = Rc<RefCell<Vec<String>>>;

fn controller_with_log(
    progress: NarrativeProgress,
) -> (
    NarrativeController<
        impl Fn(NarrativeUpdate, NarrativeProgress),
        impl Fn(WorldEvent),
        impl Fn(NarrativeProgress),
    >,
    Log,
) {
    let log: Log = Rc::new(RefCell::new(Vec::new()));
    let saves = Rc::clone(&log);
    let updates = Rc::clone(&log);
    let events = Rc::clone(&log);
    let controller = NarrativeController::from_progress(
        progress,
        move |progress: NarrativeProgress| {
            saves
                .borrow_mut()
                .push(format!("save breaks={}", progress.breaks_accepted))
        },
        move |update: NarrativeUpdate, _progress: NarrativeProgress| {
            updates.borrow_mut().push(format!("update {:?}", update.trigger))
        },
        move |event: WorldEvent| events.borrow_mut().push(format!("world {event:?}")),
    );
    (controller, log)
}

#[test]
fn controller_saves_before_presenting_and_reports_world_events() {
    let (mut controller, log) = controller_with_log(NarrativeProgress::default());
    controller.first_launch();
    controller.first_launch();
    controller.break_accepted();
    controller.break_accepted();
    controller.break_accepted();
    assert!(!controller.is_world_object_visible(WorldObject::EliPhoto));
    controller.system_idle();
    controller.system_resumed();
    assert!(controller.is_world_object_visible(WorldObject::EliPhoto));
    controller.inspect_world_object(WorldObject::EliPhoto);
    controller.inspect_world_object(WorldObject::EliPhoto);

    assert_eq!(
        *log.borrow(),
        vec![
            "save breaks=0",
            "update FirstLaunch",
            "save breaks=1",
            "update BreakAccepted",
            "save breaks=2",
            "update BreakAccepted",
            "save breaks=3",
            "update BreakAccepted",
            "world ObjectPending(EliPhoto)",
            "save breaks=3",
            "update ReturnedAfterBreak",
            "world EliPhotoAppeared",
            "save breaks=3",
            "world ObjectInspected(EliPhoto)",
        ]
    );
    assert_eq!(controller.progress().breaks_accepted, 3);
}

#[test]
fn controller_migrates_old_progress_on_start() {
    let progress = NarrativeProgress {
        breaks_accepted: 3,
        eli_revealed: true,
        ..NarrativeProgress::default()
    };
    let (controller, log) = controller_with_log(progress);
    assert_eq!(
        *log.borrow(),
        vec!["save breaks=3", "world ObjectPending(EliPhoto)"]
    );
    assert!(controller.progress().world.eli_photo_pending);

    let (_fresh, log) = controller_with_log(NarrativeProgress::default());
    assert!(log.borrow().is_empty());
}
