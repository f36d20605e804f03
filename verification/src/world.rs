//! The world-object layer: the Eli photograph, its persistent flags and the
//! away cycle (system idle followed by resume) that reveals it.

use vstd::prelude::*;

verus! {

#[derive(Clone, Copy, Debug, PartialEq, Eq, Structural)]
pub enum WorldObject {
    EliPhoto,
}

#[derive(Clone, Copy, Debug, PartialEq, Eq, Structural)]
pub enum WorldEvent {
    ObjectPending(WorldObject),
    EliPhotoAppeared,
    ObjectInspected(WorldObject),
}

/// Persistent flags of the world objects.
#[derive(Clone, Copy, Debug, Default, PartialEq, Eq, Structural)]
pub struct WorldProgress {
    pub eli_photo_pending: bool,
    pub eli_photo_visible: bool,
    pub eli_photo_inspected: bool,
    pub eli_photo_appearance_dialogue_seen: bool,
}

impl WorldProgress {
    pub open spec fn spec_is_visible(self, object: WorldObject) -> bool {
        match object {
            WorldObject::EliPhoto => self.eli_photo_visible,
        }
    }

    pub fn is_visible(&self, object: WorldObject) -> (visible: bool)
        ensures
            visible == self.spec_is_visible(object),
    {
        match object {
            WorldObject::EliPhoto => self.eli_photo_visible,
        }
    }
}

/// In-memory world state: whether a system idle was observed while the
/// photograph was pending.
#[derive(Clone, Copy, Debug, Default, PartialEq, Eq, Structural)]
pub struct WorldEngine {
    pub eli_photo_away_observed: bool,
}

impl WorldEngine {
    /// The third accepted break marks the photograph pending, unless it is
    /// already pending or visible.
    pub fn eli_revealed(&mut self, progress: &mut WorldProgress) -> (event: Option<WorldEvent>)
        ensures
            *final(self) == *old(self),
            if old(progress).eli_photo_pending || old(progress).eli_photo_visible {
                &&& event is None
                &&& *final(progress) == *old(progress)
            } else {
                &&& event == Some(WorldEvent::ObjectPending(WorldObject::EliPhoto))
                &&& *final(progress) == WorldProgress { eli_photo_pending: true, ..*old(progress) }
            },
    {
        if progress.eli_photo_pending || progress.eli_photo_visible {
            return None;
        }
        progress.eli_photo_pending = true;
        Some(WorldEvent::ObjectPending(WorldObject::EliPhoto))
    }

    /// A system idle counts as the away half of the cycle only while the
    /// photograph is pending and hidden.
    pub fn system_idle(&mut self, progress: &WorldProgress)
        ensures
            *final(self) == spec_world_idle(*old(self), *progress),
    {
        if progress.eli_photo_pending && !progress.eli_photo_visible {
            self.eli_photo_away_observed = true;
        }
    }

    /// A resume after an observed away cycle reveals a pending photograph.
    pub fn system_resumed(&mut self, progress: &mut WorldProgress) -> (event: Option<WorldEvent>)
        ensures
            (*final(self), *final(progress), event) == spec_world_resume(*old(self), *old(progress)),
            !final(self).eli_photo_away_observed,
            if old(self).eli_photo_away_observed && old(progress).eli_photo_pending
                && !old(progress).eli_photo_visible {
                &&& event == Some(WorldEvent::EliPhotoAppeared)
                &&& *final(progress) == WorldProgress {
                    eli_photo_pending: false,
                    eli_photo_visible: true,
                    eli_photo_appearance_dialogue_seen: true,
                    ..*old(progress)
                }
            } else {
                &&& event is None
                &&& *final(progress) == *old(progress)
            },
    {
        if !self.eli_photo_away_observed {
            return None;
        }
        self.eli_photo_away_observed = false;
        if !progress.eli_photo_pending || progress.eli_photo_visible {
            return None;
        }
        progress.eli_photo_pending = false;
        progress.eli_photo_visible = true;
        progress.eli_photo_appearance_dialogue_seen = true;
        Some(WorldEvent::EliPhotoAppeared)
    }

    /// The first inspection of a visible photograph is recorded once.
    pub fn inspect(&mut self, progress: &mut WorldProgress, object: WorldObject) -> (event: Option<
        WorldEvent,
    >)
        ensures
            *final(self) == *old(self),
            if old(progress).eli_photo_visible && !old(progress).eli_photo_inspected {
                &&& event == Some(WorldEvent::ObjectInspected(object))
                &&& *final(progress) == WorldProgress { eli_photo_inspected: true, ..*old(progress) }
            } else {
                &&& event is None
                &&& *final(progress) == *old(progress)
            },
    {
        match object {
            WorldObject::EliPhoto => {
                if progress.eli_photo_visible && !progress.eli_photo_inspected {
                    progress.eli_photo_inspected = true;
                    Some(WorldEvent::ObjectInspected(WorldObject::EliPhoto))
                } else {
                    None
                }
            },
        }
    }
}

/// What a resume does, for reasoning about sequences of world operations.
pub open spec fn spec_world_resume(engine: WorldEngine, progress: WorldProgress) -> (
    WorldEngine,
    WorldProgress,
    Option<WorldEvent>,
) {
    if engine.eli_photo_away_observed && progress.eli_photo_pending && !progress.eli_photo_visible {
        (
            WorldEngine { eli_photo_away_observed: false },
            WorldProgress {
                eli_photo_pending: false,
                eli_photo_visible: true,
                eli_photo_appearance_dialogue_seen: true,
                ..progress
            },
            Some(WorldEvent::EliPhotoAppeared),
        )
    } else {
        (WorldEngine { eli_photo_away_observed: false }, progress, None)
    }
}

pub open spec fn spec_world_idle(engine: WorldEngine, progress: WorldProgress) -> WorldEngine {
    WorldEngine {
        eli_photo_away_observed: engine.eli_photo_away_observed || (progress.eli_photo_pending
            && !progress.eli_photo_visible),
    }
}

/// The photograph appears only after a pending idle/resume cycle and only
/// once: a resume without a preceding idle shows nothing, idle then resume
/// shows a pending photograph, and once it is visible no further cycle
/// reports an appearance and it never becomes hidden again.
pub proof fn lemma_photo_appears_once_after_an_away_cycle(progress: WorldProgress)
    requires
        progress.eli_photo_pending,
        !progress.eli_photo_visible,
    ensures
        ({
            let fresh = WorldEngine { eli_photo_away_observed: false };
            let (_, unchanged, none) = spec_world_resume(fresh, progress);
            let idle = spec_world_idle(fresh, progress);
            let (after, shown, appeared) = spec_world_resume(idle, progress);
            let again = spec_world_idle(after, shown);
            let (_, still_shown, repeated) = spec_world_resume(again, shown);
            &&& none is None && unchanged == progress
            &&& appeared == Some(WorldEvent::EliPhotoAppeared)
            &&& shown.eli_photo_visible && !shown.eli_photo_pending
            &&& repeated is None && still_shown == shown
        }),
{
}

/// Visibility is permanent: no world operation hides a visible photograph.
pub proof fn lemma_visible_photo_stays_visible(
    engine: WorldEngine,
    progress: WorldProgress,
    object: WorldObject,
)
    requires
        progress.eli_photo_visible,
    ensures
        spec_world_resume(engine, progress).1 == progress,
        !spec_world_idle(engine, progress).eli_photo_away_observed
            || engine.eli_photo_away_observed,
{
}

} // verus!
