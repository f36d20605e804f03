//! Narrative progression: one-time dialogue for first launch, the first
//! Concerned state, accepted breaks and the return after a proven break, plus
//! the milestone that leads to the Eli photograph.

use crate::world::{WorldEngine, WorldEvent, WorldObject, WorldProgress};
use vstd::prelude::*;

verus! {

pub const DIALOGUE_LINE_DURATION_MS: u64 = 4_000;

#[derive(Clone, Copy, Debug, PartialEq, Eq, Structural)]
pub enum NarrativeTrigger {
    FirstLaunch,
    BecameConcerned,
    BreakAccepted,
    ReturnedAfterBreak,
}

#[derive(Clone, Copy, Debug, PartialEq, Eq, Structural)]
pub enum NarrativeMilestone {
    EliRevealed,
}

/// One line of dialogue and how long it stays on screen.
#[derive(Clone, Copy, Debug, PartialEq, Eq)]
pub struct DialogueLine {
    pub text: &'static str,
    pub duration_ms: u64,
}

/// The lines for `texts`, each shown for the standard duration.
pub open spec fn dialogue_of(texts: Seq<&'static str>) -> Seq<DialogueLine> {
    texts.map_values(|text: &'static str| DialogueLine { text, duration_ms: DIALOGUE_LINE_DURATION_MS })
}

/// An ordered sequence of dialogue lines.
#[derive(Clone, Debug, PartialEq, Eq)]
pub struct DialogueSequence {
    lines: Vec<DialogueLine>,
}

impl View for DialogueSequence {
    type V = Seq<DialogueLine>;

    closed spec fn view(&self) -> Seq<DialogueLine> {
        self.lines@
    }
}

impl DialogueSequence {
    pub fn new(texts: &[&'static str]) -> (sequence: Self)
        ensures
            sequence@ == dialogue_of(texts@),
    {
        let mut lines: Vec<DialogueLine> = Vec::new();
        let mut index: usize = 0;
        while index < texts.len()
            invariant
                0 <= index <= texts@.len(),
                lines@ == dialogue_of(texts@.subrange(0, index as int)),
            decreases texts@.len() - index,
        {
            lines.push(DialogueLine { text: texts[index], duration_ms: DIALOGUE_LINE_DURATION_MS });
            assert(texts@.subrange(0, index + 1) =~= texts@.subrange(0, index as int).push(
                texts@[index as int],
            ));
            assert(lines@ =~= dialogue_of(texts@.subrange(0, index + 1)));
            index = index + 1;
        }
        assert(texts@.subrange(0, texts@.len() as int) =~= texts@);
        DialogueSequence { lines }
    }

    pub fn into_lines(self) -> (lines: Vec<DialogueLine>)
        ensures
            lines@ == self@,
    {
        self.lines
    }

    pub fn is_empty(&self) -> (empty: bool)
        ensures
            empty == (self@.len() == 0),
    {
        self.lines.len() == 0
    }
}

/// Persistent narrative progress.
#[derive(Clone, Copy, Debug, PartialEq, Eq, Structural)]
pub struct NarrativeProgress {
    pub introduction_seen: bool,
    pub concerned_dialogue_seen: bool,
    pub breaks_accepted: u32,
    pub return_dialogue_seen: bool,
    pub eli_revealed: bool,
    pub world: WorldProgress,
}

impl NarrativeProgress {
    pub open spec fn fresh() -> NarrativeProgress {
        NarrativeProgress {
            introduction_seen: false,
            concerned_dialogue_seen: false,
            breaks_accepted: 0,
            return_dialogue_seen: false,
            eli_revealed: false,
            world: WorldProgress {
                eli_photo_pending: false,
                eli_photo_visible: false,
                eli_photo_inspected: false,
                eli_photo_appearance_dialogue_seen: false,
            },
        }
    }

    /// Progress only moves forward: no flag is ever cleared and the break
    /// count never decreases.
    pub open spec fn extends(self, earlier: NarrativeProgress) -> bool {
        &&& earlier.introduction_seen ==> self.introduction_seen
        &&& earlier.concerned_dialogue_seen ==> self.concerned_dialogue_seen
        &&& earlier.breaks_accepted <= self.breaks_accepted
        &&& earlier.return_dialogue_seen ==> self.return_dialogue_seen
        &&& earlier.eli_revealed ==> self.eli_revealed
    }
}

impl Default for NarrativeProgress {
    fn default() -> (progress: Self)
        ensures
            progress == NarrativeProgress::fresh(),
    {
        NarrativeProgress {
            introduction_seen: false,
            concerned_dialogue_seen: false,
            breaks_accepted: 0,
            return_dialogue_seen: false,
            eli_revealed: false,
            world: WorldProgress {
                eli_photo_pending: false,
                eli_photo_visible: false,
                eli_photo_inspected: false,
                eli_photo_appearance_dialogue_seen: false,
            },
        }
    }
}

/// What a narrative trigger produced.
#[derive(Clone, Debug, PartialEq, Eq)]
pub struct NarrativeUpdate {
    pub trigger: NarrativeTrigger,
    pub dialogue: Option<DialogueSequence>,
    pub milestone: Option<NarrativeMilestone>,
}

/// A narrative update with its dialogue taken by value.
pub struct NarrativeUpdateView {
    pub trigger: NarrativeTrigger,
    pub dialogue: Option<Seq<DialogueLine>>,
    pub milestone: Option<NarrativeMilestone>,
}

impl View for NarrativeUpdate {
    type V = NarrativeUpdateView;

    open spec fn view(&self) -> NarrativeUpdateView {
        NarrativeUpdateView {
            trigger: self.trigger,
            dialogue: match self.dialogue {
                Some(d) => Some(d@),
                None => None,
            },
            milestone: self.milestone,
        }
    }
}

pub open spec fn update_view(update: Option<NarrativeUpdate>) -> Option<NarrativeUpdateView> {
    match update {
        Some(u) => Some(u@),
        None => None,
    }
}

pub open spec fn spec_update(
    trigger: NarrativeTrigger,
    texts: Option<Seq<&'static str>>,
    milestone: Option<NarrativeMilestone>,
) -> NarrativeUpdateView {
    NarrativeUpdateView {
        trigger,
        dialogue: match texts {
            Some(t) => Some(dialogue_of(t)),
            None => None,
        },
        milestone,
    }
}

/// The dialogue of the `count`-th accepted break.
pub open spec fn break_texts(count: u32) -> Option<Seq<&'static str>> {
    if count == 1 {
        Some(seq!["Good.", "...I mean, I'll be fine."])
    } else if count == 2 {
        Some(seq!["Going somewhere?", "...Good."])
    } else if count == 3 {
        Some(seq!["Found something earlier.", "It has a name on it.", "...Eli."])
    } else {
        None
    }
}

pub open spec fn first_launch_texts() -> Seq<&'static str> {
    seq!["Hi.", "You work here?"]
}

pub open spec fn concerned_texts() -> Seq<&'static str> {
    seq!["You've been staring at that for a while."]
}

pub open spec fn return_texts() -> Seq<&'static str> {
    seq!["You came back.", "I wasn't waiting."]
}

/// The narrative engine: persistent progress plus the in-memory proof of a
/// break (accepted, then system idle).
#[derive(Clone, Copy, Debug, PartialEq, Eq, Structural)]
pub struct NarrativeEngine {
    pub progress: NarrativeProgress,
    pub accepted_break_pending: bool,
    pub idle_after_accepted_break: bool,
}

impl NarrativeEngine {
    pub open spec fn spec_first_launch(self) -> (NarrativeEngine, Option<NarrativeUpdateView>) {
        if self.progress.introduction_seen {
            (self, None)
        } else {
            (
                NarrativeEngine {
                    progress: NarrativeProgress { introduction_seen: true, ..self.progress },
                    ..self
                },
                Some(spec_update(NarrativeTrigger::FirstLaunch, Some(first_launch_texts()), None)),
            )
        }
    }

    pub open spec fn spec_became_concerned(self) -> (NarrativeEngine, Option<NarrativeUpdateView>) {
        if self.progress.concerned_dialogue_seen {
            (self, None)
        } else {
            (
                NarrativeEngine {
                    progress: NarrativeProgress { concerned_dialogue_seen: true, ..self.progress },
                    ..self
                },
                Some(spec_update(NarrativeTrigger::BecameConcerned, Some(concerned_texts()), None)),
            )
        }
    }

    pub open spec fn spec_break_accepted(self) -> (NarrativeEngine, NarrativeUpdateView) {
        let count = if self.progress.breaks_accepted == u32::MAX {
            u32::MAX
        } else {
            (self.progress.breaks_accepted + 1) as u32
        };
        let reveal = count == 3 && !self.progress.eli_revealed;
        (
            NarrativeEngine {
                progress: NarrativeProgress {
                    breaks_accepted: count,
                    eli_revealed: self.progress.eli_revealed || reveal,
                    ..self.progress
                },
                accepted_break_pending: true,
                idle_after_accepted_break: false,
            },
            spec_update(
                NarrativeTrigger::BreakAccepted,
                break_texts(count),
                if reveal {
                    Some(NarrativeMilestone::EliRevealed)
                } else {
                    None
                },
            ),
        )
    }

    pub open spec fn spec_system_idle(self) -> NarrativeEngine {
        if self.accepted_break_pending {
            NarrativeEngine { idle_after_accepted_break: true, ..self }
        } else {
            self
        }
    }

    pub open spec fn spec_system_resumed(self) -> (NarrativeEngine, Option<NarrativeUpdateView>) {
        if !self.accepted_break_pending || !self.idle_after_accepted_break {
            (self, None)
        } else {
            let cleared = NarrativeEngine {
                accepted_break_pending: false,
                idle_after_accepted_break: false,
                ..self
            };
            if self.progress.return_dialogue_seen {
                (cleared, None)
            } else {
                (
                    NarrativeEngine {
                        progress: NarrativeProgress { return_dialogue_seen: true, ..self.progress },
                        ..cleared
                    },
                    Some(
                        spec_update(
                            NarrativeTrigger::ReturnedAfterBreak,
                            Some(return_texts()),
                            None,
                        ),
                    ),
                )
            }
        }
    }

    pub fn new(progress: NarrativeProgress) -> (engine: Self)
        ensures
            engine == (NarrativeEngine {
                progress,
                accepted_break_pending: false,
                idle_after_accepted_break: false,
            }),
    {
        NarrativeEngine { progress, accepted_break_pending: false, idle_after_accepted_break: false }
    }

    pub fn first_launch(&mut self) -> (update: Option<NarrativeUpdate>)
        ensures
            (*final(self), update_view(update)) == old(self).spec_first_launch(),
    {
        if self.progress.introduction_seen {
            return None;
        }
        self.progress.introduction_seen = true;
        let dialogue = DialogueSequence::new(&["Hi.", "You work here?"]);
        assert(dialogue@ =~= dialogue_of(first_launch_texts()));
        Some(NarrativeUpdate { trigger: NarrativeTrigger::FirstLaunch, dialogue: Some(dialogue), milestone: None })
    }

    pub fn became_concerned(&mut self) -> (update: Option<NarrativeUpdate>)
        ensures
            (*final(self), update_view(update)) == old(self).spec_became_concerned(),
    {
        if self.progress.concerned_dialogue_seen {
            return None;
        }
        self.progress.concerned_dialogue_seen = true;
        let dialogue = DialogueSequence::new(&["You've been staring at that for a while."]);
        assert(dialogue@ =~= dialogue_of(concerned_texts()));
        Some(
            NarrativeUpdate {
                trigger: NarrativeTrigger::BecameConcerned,
                dialogue: Some(dialogue),
                milestone: None,
            },
        )
    }

    pub fn break_accepted(&mut self) -> (update: NarrativeUpdate)
        ensures
            (*final(self), update@) == old(self).spec_break_accepted(),
    {
        self.progress.breaks_accepted = self.progress.breaks_accepted.saturating_add(1);
        self.accepted_break_pending = true;
        self.idle_after_accepted_break = false;
        let count = self.progress.breaks_accepted;
        let (dialogue, milestone) = if count == 1 {
            let d = DialogueSequence::new(&["Good.", "...I mean, I'll be fine."]);
            assert(d@ =~= dialogue_of(break_texts(1).unwrap()));
            (Some(d), None)
        } else if count == 2 {
            let d = DialogueSequence::new(&["Going somewhere?", "...Good."]);
            assert(d@ =~= dialogue_of(break_texts(2).unwrap()));
            (Some(d), None)
        } else if count == 3 {
            let milestone = if self.progress.eli_revealed {
                None
            } else {
                self.progress.eli_revealed = true;
                Some(NarrativeMilestone::EliRevealed)
            };
            let d = DialogueSequence::new(
                &["Found something earlier.", "It has a name on it.", "...Eli."],
            );
            assert(d@ =~= dialogue_of(break_texts(3).unwrap()));
            (Some(d), milestone)
        } else {
            (None, None)
        };
        NarrativeUpdate { trigger: NarrativeTrigger::BreakAccepted, dialogue, milestone }
    }

    pub fn system_idle(&mut self)
        ensures
            *final(self) == old(self).spec_system_idle(),
    {
        if self.accepted_break_pending {
            self.idle_after_accepted_break = true;
        }
    }

    pub fn system_resumed(&mut self) -> (update: Option<NarrativeUpdate>)
        ensures
            (*final(self), update_view(update)) == old(self).spec_system_resumed(),
    {
        if !self.accepted_break_pending || !self.idle_after_accepted_break {
            return None;
        }
        self.accepted_break_pending = false;
        self.idle_after_accepted_break = false;
        if self.progress.return_dialogue_seen {
            return None;
        }
        self.progress.return_dialogue_seen = true;
        let dialogue = DialogueSequence::new(&["You came back.", "I wasn't waiting."]);
        assert(dialogue@ =~= dialogue_of(return_texts()));
        Some(
            NarrativeUpdate {
                trigger: NarrativeTrigger::ReturnedAfterBreak,
                dialogue: Some(dialogue),
                milestone: None,
            },
        )
    }
}

/// Narrative progress only moves forward under every engine operation.
pub proof fn lemma_progress_only_moves_forward(engine: NarrativeEngine)
    ensures
        engine.spec_first_launch().0.progress.extends(engine.progress),
        engine.spec_became_concerned().0.progress.extends(engine.progress),
        engine.spec_break_accepted().0.progress.extends(engine.progress),
        engine.spec_system_idle().progress.extends(engine.progress),
        engine.spec_system_resumed().0.progress.extends(engine.progress),
{
}

/// One-time dialogue: each of the introduction, the Concerned line and the
/// return dialogue is produced only while its flag is clear, and producing it
/// sets the flag, which no operation clears.
pub proof fn lemma_one_time_dialogue(engine: NarrativeEngine)
    ensures
        engine.progress.introduction_seen ==> engine.spec_first_launch().1 is None,
        engine.spec_first_launch().0.progress.introduction_seen,
        engine.progress.concerned_dialogue_seen ==> engine.spec_became_concerned().1 is None,
        engine.spec_became_concerned().0.progress.concerned_dialogue_seen,
        engine.progress.return_dialogue_seen ==> engine.spec_system_resumed().1 is None,
        engine.spec_system_resumed().1 is Some
            ==> engine.spec_system_resumed().0.progress.return_dialogue_seen,
{
}

/// A return is proven only by an accepted break, then system idle, then
/// resume; a resume without that sequence produces nothing, and the sequence
/// produces the return dialogue while it has not been seen.
pub proof fn lemma_return_requires_break_idle_resume(engine: NarrativeEngine)
    ensures
        engine.spec_system_resumed().1 is Some ==> engine.accepted_break_pending
            && engine.idle_after_accepted_break,
        !engine.accepted_break_pending ==> engine.spec_system_idle().spec_system_resumed().1 is None,
        ({
            let after_break = engine.spec_break_accepted().0;
            let early_resume = after_break.spec_system_resumed();
            let (returned, update) = early_resume.0.spec_system_idle().spec_system_resumed();
            &&& early_resume.1 is None
            &&& early_resume.0.accepted_break_pending
            &&& !engine.progress.return_dialogue_seen ==> update == Some(
                spec_update(NarrativeTrigger::ReturnedAfterBreak, Some(return_texts()), None),
            )
            &&& !returned.accepted_break_pending
        }),
{
}

/// The Eli milestone is reached once: only by the third break and only while
/// Eli is not yet revealed.
pub proof fn lemma_eli_revealed_once(engine: NarrativeEngine)
    ensures
        engine.spec_break_accepted().1.milestone is Some ==> !engine.progress.eli_revealed
            && engine.spec_break_accepted().0.progress.eli_revealed
            && engine.spec_break_accepted().0.progress.breaks_accepted == 3,
        engine.progress.eli_revealed ==> engine.spec_break_accepted().1.milestone is None,
{
}

/// The world event a narrative milestone causes.
pub fn apply_world_milestone(
    world: &mut WorldEngine,
    progress: &mut NarrativeProgress,
    milestone: Option<NarrativeMilestone>,
) -> (event: Option<WorldEvent>)
    ensures
        *final(world) == *old(world),
        match milestone {
            Some(NarrativeMilestone::EliRevealed) => {
                if old(progress).world.eli_photo_pending || old(progress).world.eli_photo_visible {
                    event is None && *final(progress) == *old(progress)
                } else {
                    &&& event == Some(WorldEvent::ObjectPending(WorldObject::EliPhoto))
                    &&& *final(progress) == NarrativeProgress {
                        world: WorldProgress { eli_photo_pending: true, ..old(progress).world },
                        ..*old(progress)
                    }
                }
            },
            None => event is None && *final(progress) == *old(progress),
        },
{
    match milestone {
        Some(NarrativeMilestone::EliRevealed) => world.eli_revealed(&mut progress.world),
        None => None,
    }
}

/// Progress saved before the photograph existed: a revealed Eli becomes a
/// pending, still hidden photograph.
pub fn reconcile_world_progress(world: &mut WorldEngine, progress: &mut NarrativeProgress) -> (event:
    Option<WorldEvent>)
    ensures
        *final(world) == *old(world),
        if old(progress).eli_revealed && !old(progress).world.eli_photo_pending
            && !old(progress).world.eli_photo_visible {
            &&& event == Some(WorldEvent::ObjectPending(WorldObject::EliPhoto))
            &&& *final(progress) == NarrativeProgress {
                world: WorldProgress { eli_photo_pending: true, ..old(progress).world },
                ..*old(progress)
            }
        } else {
            event is None && *final(progress) == *old(progress)
        },
{
    if progress.eli_revealed {
        world.eli_revealed(&mut progress.world)
    } else {
        None
    }
}

/// Something the narrative controller handed to its owner.
pub enum NarrativeOutput {
    /// Progress was saved.
    Saved(NarrativeProgress),
    /// A narrative update was delivered, with the progress it was saved with.
    Update(NarrativeUpdateView, NarrativeProgress),
    /// A world event was delivered.
    World(WorldEvent),
}

/// What a commit hands out: nothing without news; otherwise the saved
/// progress first, then the update, then the world event.
pub open spec fn commit_outputs(
    update: Option<NarrativeUpdateView>,
    world_event: Option<WorldEvent>,
    progress: NarrativeProgress,
) -> Seq<NarrativeOutput> {
    if update is None && world_event is None {
        Seq::empty()
    } else {
        seq![NarrativeOutput::Saved(progress)] + match update {
            Some(u) => seq![NarrativeOutput::Update(u, progress)],
            None => Seq::empty(),
        } + match world_event {
            Some(e) => seq![NarrativeOutput::World(e)],
            None => Seq::empty(),
        }
    }
}

/// The narrative controller: the engine, the world engine, and the handlers
/// that save progress, present narrative updates and react to world events.
pub struct NarrativeController<
    U: Fn(NarrativeUpdate, NarrativeProgress),
    W: Fn(WorldEvent),
    S: Fn(NarrativeProgress),
> {
    engine: NarrativeEngine,
    world: WorldEngine,
    update_handler: U,
    world_event_handler: W,
    store: S,
    outputs: Ghost<Seq<NarrativeOutput>>,
}

impl<
    U: Fn(NarrativeUpdate, NarrativeProgress),
    W: Fn(WorldEvent),
    S: Fn(NarrativeProgress),
> NarrativeController<U, W, S> {
    pub closed spec fn engine(self) -> NarrativeEngine {
        self.engine
    }

    pub closed spec fn world(self) -> WorldEngine {
        self.world
    }

    /// Everything handed out so far, in order.
    pub closed spec fn outputs(self) -> Seq<NarrativeOutput> {
        self.outputs@
    }

    /// The handler that saves progress.
    pub closed spec fn store(self) -> S {
        self.store
    }

    /// The handler that presents narrative updates.
    pub closed spec fn update_handler(self) -> U {
        self.update_handler
    }

    /// The handler that reacts to world events.
    pub closed spec fn world_event_handler(self) -> W {
        self.world_event_handler
    }

    /// A call of the matching handler, among the given ones, with the
    /// output's values returned.
    pub open spec fn handed_by(store: S, update_handler: U, world_event_handler: W, output: NarrativeOutput) -> bool {
        match output {
            NarrativeOutput::Saved(p) => call_ensures(store, (p,), ()),
            NarrativeOutput::Update(u, p) => exists|update: NarrativeUpdate|
                #![trigger call_ensures(update_handler, (update, p), ())]
                update@ == u && call_ensures(update_handler, (update, p), ()),
            NarrativeOutput::World(e) => call_ensures(world_event_handler, (e,), ()),
        }
    }

    /// A call of this controller's matching handler with the output's values
    /// returned.
    pub open spec fn handed(self, output: NarrativeOutput) -> bool {
        Self::handed_by(self.store(), self.update_handler(), self.world_event_handler(), output)
    }

    /// Each output was handed to its handler.
    pub open spec fn outputs_by_calls(self) -> bool {
        forall|i: int| 0 <= i < self.outputs().len() ==> self.handed(#[trigger] self.outputs()[i])
    }

    /// The handlers are the ones the controller was made with.
    pub open spec fn same_handlers(self, other: Self) -> bool {
        &&& self.store() == other.store()
        &&& self.update_handler() == other.update_handler()
        &&& self.world_event_handler() == other.world_event_handler()
    }

    #[verifier::type_invariant]
    closed spec fn handlers_callable(self) -> bool {
        &&& forall|u: NarrativeUpdate, p: NarrativeProgress| self.update_handler.requires((u, p))
        &&& forall|e: WorldEvent| self.world_event_handler.requires((e,))
        &&& forall|p: NarrativeProgress| self.store.requires((p,))
        &&& forall|i: int|
            0 <= i < self.outputs@.len() ==> Self::handed_by(
                self.store,
                self.update_handler,
                self.world_event_handler,
                #[trigger] self.outputs@[i],
            )
    }

    /// Starts from loaded progress, migrating a revealed Eli to a pending
    /// photograph (and saving that) when the progress predates it.
    pub fn from_progress(
        progress: NarrativeProgress,
        store: S,
        update_handler: U,
        world_event_handler: W,
    ) -> (controller: Self)
        requires
            forall|u: NarrativeUpdate, p: NarrativeProgress| update_handler.requires((u, p)),
            forall|e: WorldEvent| world_event_handler.requires((e,)),
            forall|p: NarrativeProgress| store.requires((p,)),
        ensures
            controller.world() == (WorldEngine { eli_photo_away_observed: false }),
            controller.store() == store,
            controller.update_handler() == update_handler,
            controller.world_event_handler() == world_event_handler,
            controller.outputs_by_calls(),
            ({
                let migrate = progress.eli_revealed && !progress.world.eli_photo_pending
                    && !progress.world.eli_photo_visible;
                let reconciled = if migrate {
                    NarrativeProgress {
                        world: WorldProgress { eli_photo_pending: true, ..progress.world },
                        ..progress
                    }
                } else {
                    progress
                };
                &&& controller.engine() == NarrativeEngine {
                    progress: reconciled,
                    accepted_break_pending: false,
                    idle_after_accepted_break: false,
                }
                &&& controller.outputs() == commit_outputs(
                    None,
                    if migrate {
                        Some(WorldEvent::ObjectPending(WorldObject::EliPhoto))
                    } else {
                        None
                    },
                    reconciled,
                )
            }),
    {
        let mut progress = progress;
        let mut world = WorldEngine { eli_photo_away_observed: false };
        let compatibility_event = reconcile_world_progress(&mut world, &mut progress);
        let mut controller = NarrativeController {
            engine: NarrativeEngine::new(progress),
            world,
            update_handler,
            world_event_handler,
            store,
            outputs: Ghost(Seq::empty()),
        };
        controller.commit(None, compatibility_event);
        controller
    }

    pub fn first_launch(&mut self)
        ensures
            final(self).same_handlers(*old(self)),
            final(self).outputs_by_calls(),
            final(self).engine() == old(self).engine().spec_first_launch().0,
            final(self).world() == old(self).world(),
            final(self).outputs() == old(self).outputs() + commit_outputs(
                old(self).engine().spec_first_launch().1,
                None,
                final(self).engine().progress,
            ),
    {
        proof {
            use_type_invariant(&*self);
        }
        let mut engine = self.engine;
        let update = engine.first_launch();
        self.engine = engine;
        self.commit(update, None);
    }

    pub fn became_concerned(&mut self)
        ensures
            final(self).same_handlers(*old(self)),
            final(self).outputs_by_calls(),
            final(self).engine() == old(self).engine().spec_became_concerned().0,
            final(self).world() == old(self).world(),
            final(self).outputs() == old(self).outputs() + commit_outputs(
                old(self).engine().spec_became_concerned().1,
                None,
                final(self).engine().progress,
            ),
    {
        proof {
            use_type_invariant(&*self);
        }
        let mut engine = self.engine;
        let update = engine.became_concerned();
        self.engine = engine;
        self.commit(update, None);
    }

    /// An accepted break; the third one also marks the photograph pending.
    pub fn break_accepted(&mut self)
        ensures
            final(self).same_handlers(*old(self)),
            final(self).outputs_by_calls(),
            final(self).world() == old(self).world(),
            ({
                let (engine, update) = old(self).engine().spec_break_accepted();
                let reveal = update.milestone is Some && !engine.progress.world.eli_photo_pending
                    && !engine.progress.world.eli_photo_visible;
                let progress = if reveal {
                    NarrativeProgress {
                        world: WorldProgress { eli_photo_pending: true, ..engine.progress.world },
                        ..engine.progress
                    }
                } else {
                    engine.progress
                };
                &&& final(self).engine() == NarrativeEngine { progress, ..engine }
                &&& final(self).outputs() == old(self).outputs() + commit_outputs(
                    Some(update),
                    if reveal {
                        Some(WorldEvent::ObjectPending(WorldObject::EliPhoto))
                    } else {
                        None
                    },
                    progress,
                )
            }),
    {
        proof {
            use_type_invariant(&*self);
        }
        let mut engine = self.engine;
        let mut world = self.world;
        let update = engine.break_accepted();
        let world_event = apply_world_milestone(&mut world, &mut engine.progress, update.milestone);
        self.engine = engine;
        self.world = world;
        self.commit(Some(update), world_event);
    }

    pub fn system_idle(&mut self)
        ensures
            final(self).same_handlers(*old(self)),
            final(self).outputs_by_calls(),
            final(self).engine() == old(self).engine().spec_system_idle(),
            final(self).world() == spec_world_idle_for(old(self).world(), old(self).engine()),
            final(self).outputs() == old(self).outputs(),
    {
        proof {
            use_type_invariant(&*self);
        }
        let mut engine = self.engine;
        let mut world = self.world;
        engine.system_idle();
        world.system_idle(&engine.progress.world);
        self.engine = engine;
        self.world = world;
    }

    /// A resume: the return dialogue after a proven break, and the
    /// photograph after an observed away cycle.
    pub fn system_resumed(&mut self)
        ensures
            final(self).same_handlers(*old(self)),
            final(self).outputs_by_calls(),
            ({
                let (engine, update) = old(self).engine().spec_system_resumed();
                let (world, world_progress, world_event) = crate::world::spec_world_resume(
                    old(self).world(),
                    engine.progress.world,
                );
                let progress = NarrativeProgress { world: world_progress, ..engine.progress };
                &&& final(self).engine() == NarrativeEngine { progress, ..engine }
                &&& final(self).world() == world
                &&& final(self).outputs() == old(self).outputs() + commit_outputs(
                    update,
                    world_event,
                    progress,
                )
            }),
    {
        proof {
            use_type_invariant(&*self);
        }
        let mut engine = self.engine;
        let mut world = self.world;
        let update = engine.system_resumed();
        let world_event = world.system_resumed(&mut engine.progress.world);
        self.engine = engine;
        self.world = world;
        self.commit(update, world_event);
    }

    pub fn inspect_world_object(&mut self, object: WorldObject)
        ensures
            final(self).same_handlers(*old(self)),
            final(self).outputs_by_calls(),
            final(self).world() == old(self).world(),
            ({
                let old_world = old(self).engine().progress.world;
                let first = old_world.eli_photo_visible && !old_world.eli_photo_inspected;
                let progress = if first {
                    NarrativeProgress {
                        world: WorldProgress { eli_photo_inspected: true, ..old_world },
                        ..old(self).engine().progress
                    }
                } else {
                    old(self).engine().progress
                };
                &&& final(self).engine() == NarrativeEngine { progress, ..old(self).engine() }
                &&& final(self).outputs() == old(self).outputs() + commit_outputs(
                    None,
                    if first {
                        Some(WorldEvent::ObjectInspected(object))
                    } else {
                        None
                    },
                    progress,
                )
            }),
    {
        proof {
            use_type_invariant(&*self);
        }
        let mut engine = self.engine;
        let mut world = self.world;
        let world_event = world.inspect(&mut engine.progress.world, object);
        self.engine = engine;
        self.world = world;
        self.commit(None, world_event);
    }

    pub fn is_world_object_visible(&self, object: WorldObject) -> (visible: bool)
        ensures
            visible == self.engine().progress.world.spec_is_visible(object),
    {
        self.engine.progress.world.is_visible(object)
    }

    /// The current progress.
    pub fn progress(&self) -> (progress: NarrativeProgress)
        ensures
            progress == self.engine().progress,
    {
        self.engine.progress
    }

    fn commit(&mut self, update: Option<NarrativeUpdate>, world_event: Option<WorldEvent>)
        ensures
            final(self).same_handlers(*old(self)),
            final(self).outputs_by_calls(),
            final(self).engine() == old(self).engine(),
            final(self).world() == old(self).world(),
            final(self).outputs() == old(self).outputs() + commit_outputs(
                update_view(update),
                world_event,
                old(self).engine().progress,
            ),
    {
        proof {
            use_type_invariant(&*self);
        }
        if update.is_none() && world_event.is_none() {
            assert(commit_outputs(update_view(update), world_event, self.engine.progress)
                =~= Seq::empty());
            assert(self.outputs@ + Seq::<NarrativeOutput>::empty() =~= self.outputs@);
            return;
        }
        let progress = self.engine.progress;
        (self.store)(progress);
        let ghost saved = self.outputs@.push(NarrativeOutput::Saved(progress));
        proof {
            self.outputs@ = saved;
        }
        match update {
            Some(update) => {
                let ghost handed = update;
                (self.update_handler)(update, progress);
                proof {
                    assert(Self::handed_by(
                        self.store,
                        self.update_handler,
                        self.world_event_handler,
                        NarrativeOutput::Update(handed@, progress),
                    ));
                    self.outputs@ = self.outputs@.push(NarrativeOutput::Update(handed@, progress));
                }
            },
            None => {},
        }
        match world_event {
            Some(event) => {
                (self.world_event_handler)(event);
                proof {
                    self.outputs@ = self.outputs@.push(NarrativeOutput::World(event));
                }
            },
            None => {},
        }
        assert(self.outputs@ =~= old(self).outputs@ + commit_outputs(
            update_view(update),
            world_event,
            progress,
        ));
    }
}

/// The world engine after a system idle, given the narrative engine it
/// belongs to (the idle is observed after the narrative engine's own idle,
/// which does not change world progress).
pub open spec fn spec_world_idle_for(world: WorldEngine, engine: NarrativeEngine) -> WorldEngine {
    crate::world::spec_world_idle(world, engine.spec_system_idle().progress.world)
}

} // verus!
