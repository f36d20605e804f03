use milo::world::{WorldEngine, WorldEvent, WorldObject, WorldProgress};

fn visible_photo() -> (WorldEngine, WorldProgress) {
    let mut engine = WorldEngine::default();
    let mut progress = WorldProgress::default();
    engine.eli_revealed(&mut progress);
    engine.system_idle(&progress);
    engine.system_resumed(&mut progress);
    (engine, progress)
}

#[test]
fn fresh_world_has_no_photo() {
    let progress = WorldProgress::default();

    assert!(!progress.eli_photo_pending);
    assert!(!progress.is_visible(WorldObject::EliPhoto));
    assert!(!progress.eli_photo_inspected);
}

#[test]
fn eli_revelation_marks_photo_pending_without_showing_it() {
    let mut engine = WorldEngine::default();
    let mut progress = WorldProgress::default();

    assert_eq!(
        engine.eli_revealed(&mut progress),
        Some(WorldEvent::ObjectPending(WorldObject::EliPhoto))
    );
    assert!(progress.eli_photo_pending);
    assert!(!progress.is_visible(WorldObject::EliPhoto));
}

#[test]
fn ordinary_resume_does_not_reveal_pending_photo() {
    let mut engine = WorldEngine::default();
    let mut progress = WorldProgress::default();
    engine.eli_revealed(&mut progress);

    assert_eq!(engine.system_resumed(&mut progress), None);
    assert!(!progress.is_visible(WorldObject::EliPhoto));
}

#[test]
fn idle_then_resume_reveals_pending_photo_once() {
    let mut engine = WorldEngine::default();
    let mut progress = WorldProgress::default();
    engine.eli_revealed(&mut progress);

    engine.system_idle(&progress);
    assert_eq!(
        engine.system_resumed(&mut progress),
        Some(WorldEvent::EliPhotoAppeared)
    );
    assert!(progress.is_visible(WorldObject::EliPhoto));
    assert!(!progress.eli_photo_pending);
    assert!(progress.eli_photo_appearance_dialogue_seen);

    engine.system_idle(&progress);
    assert_eq!(engine.system_resumed(&mut progress), None);
}

#[test]
fn first_inspection_is_persisted_and_cannot_repeat() {
    let (mut engine, mut progress) = visible_photo();

    assert_eq!(
        engine.inspect(&mut progress, WorldObject::EliPhoto),
        Some(WorldEvent::ObjectInspected(WorldObject::EliPhoto))
    );
    assert!(progress.eli_photo_inspected);
    assert_eq!(engine.inspect(&mut progress, WorldObject::EliPhoto), None);
}

#[test]
fn hidden_photo_cannot_be_inspected() {
    let mut engine = WorldEngine::default();
    let mut progress = WorldProgress::default();

    assert_eq!(engine.inspect(&mut progress, WorldObject::EliPhoto), None);
    assert!(!progress.eli_photo_inspected);
}

#[test]
fn inspection_survives_restart_and_does_not_replay() {
    let (mut engine, mut progress) = visible_photo();
    engine.inspect(&mut progress, WorldObject::EliPhoto);

    let mut persisted = progress;
    let mut restarted_engine = WorldEngine::default();

    assert!(persisted.eli_photo_inspected);
    assert_eq!(
        restarted_engine.inspect(&mut persisted, WorldObject::EliPhoto),
        None
    );
}

#[test]
fn a_pending_photo_needs_an_idle_seen_in_this_run() {
    let mut engine = WorldEngine::default();
    let mut progress = WorldProgress::default();
    engine.eli_revealed(&mut progress);
    engine.system_idle(&progress);

    let mut restarted_engine = WorldEngine::default();
    let mut persisted = progress;
    assert_eq!(restarted_engine.system_resumed(&mut persisted), None);
    assert_eq!(
        engine.system_resumed(&mut progress),
        Some(WorldEvent::EliPhotoAppeared)
    );
}

#[test]
fn revealing_twice_reports_once() {
    let mut engine = WorldEngine::default();
    let mut progress = WorldProgress::default();
    assert!(engine.eli_revealed(&mut progress).is_some());
    assert_eq!(engine.eli_revealed(&mut progress), None);
    let (mut engine, mut visible) = visible_photo();
    assert_eq!(engine.eli_revealed(&mut visible), None);
    assert!(!visible.eli_photo_pending);
}

#[test]
fn idle_before_the_photo_is_pending_does_not_count() {
    let mut engine = WorldEngine::default();
    let mut progress = WorldProgress::default();
    engine.system_idle(&progress);
    engine.eli_revealed(&mut progress);
    assert_eq!(engine.system_resumed(&mut progress), None);
}
