//! How Milo is presented: the window layouts, the choice of layout from the
//! command line, what a response to an intervention leads to, and the queue
//! that shows narrative dialogue one line at a time.

use crate::browser::BrowserCommand;
use crate::intervention::InterventionResponse;
use crate::narrative::{dialogue_of, DialogueLine, DialogueSequence, NarrativeTrigger};
use crate::world::{WorldEvent, WorldObject};
use std::collections::VecDeque;
use vstd::prelude::*;

verus! {

pub const TRANSPARENT_WINDOW_WIDTH: i32 = 184;

pub const TRANSPARENT_WINDOW_HEIGHT: i32 = 128;

pub const TRANSPARENT_MILO_DISPLAY_SIZE: i32 = 128;

pub const ROOM_VIEWPORT_WIDTH: i32 = 400;

pub const ROOM_VIEWPORT_HEIGHT: i32 = 260;

pub const ROOM_MILO_DISPLAY_SIZE: i32 = 88;

pub const ROOM_FLOOR_BASELINE: i32 = 237;

pub const ROOM_MILO_X: i32 = 122;

pub const ROOM_MILO_Y: i32 = ROOM_FLOOR_BASELINE - ROOM_MILO_DISPLAY_SIZE;

pub const ELI_PHOTO_DISPLAY_WIDTH: i32 = 46;

pub const ELI_PHOTO_DISPLAY_HEIGHT: i32 = 58;

pub const ROOM_ELI_PHOTO_X: i32 = 239;

pub const ROOM_ELI_PHOTO_Y: i32 = ROOM_FLOOR_BASELINE - ELI_PHOTO_DISPLAY_HEIGHT;

/// The room layout stands on its floor: Milo and the photograph rest on the
/// floor baseline, and both lie inside the viewport.
pub proof fn lemma_room_layout_fits()
    ensures
        ROOM_MILO_Y + ROOM_MILO_DISPLAY_SIZE == ROOM_FLOOR_BASELINE,
        ROOM_ELI_PHOTO_Y + ELI_PHOTO_DISPLAY_HEIGHT == ROOM_FLOOR_BASELINE,
        ROOM_MILO_X >= 0,
        ROOM_MILO_X + ROOM_MILO_DISPLAY_SIZE <= ROOM_VIEWPORT_WIDTH,
        ROOM_ELI_PHOTO_X >= 0,
        ROOM_ELI_PHOTO_X + ELI_PHOTO_DISPLAY_WIDTH <= ROOM_VIEWPORT_WIDTH,
        ROOM_FLOOR_BASELINE <= ROOM_VIEWPORT_HEIGHT,
        ROOM_MILO_Y >= 0,
        ROOM_ELI_PHOTO_Y >= 0,
{
}

/// The two ways Milo is shown.
#[derive(Clone, Copy, Debug, PartialEq, Eq, Structural)]
pub enum PresentationMode {
    /// Milo alone in a small transparent window (the default).
    TransparentCompanion,
    /// Milo in a compact room with its world objects.
    Room,
}

impl Default for PresentationMode {
    fn default() -> (mode: Self)
        ensures
            mode == PresentationMode::TransparentCompanion,
    {
        PresentationMode::TransparentCompanion
    }
}

/// The mode the arguments select: the last `--room` or `--transparent`
/// wins; without either, the transparent companion.
pub open spec fn mode_from_arguments(arguments: Seq<Seq<char>>) -> PresentationMode
    decreases arguments.len(),
{
    if arguments.len() == 0 {
        PresentationMode::TransparentCompanion
    } else if arguments.last() == "--room"@ {
        PresentationMode::Room
    } else if arguments.last() == "--transparent"@ {
        PresentationMode::TransparentCompanion
    } else {
        mode_from_arguments(arguments.drop_last())
    }
}

/// The last mode argument decides: when the argument at `index` is
/// `--room` or `--transparent` and none after it is either, it selects the
/// mode; with no mode argument at all, the mode is the transparent companion.
pub proof fn lemma_last_mode_argument_wins(arguments: Seq<Seq<char>>, index: int)
    ensures
        0 <= index < arguments.len() && (arguments[index] == "--room"@ || arguments[index]
            == "--transparent"@) && (forall|j: int|
            index < j < arguments.len() ==> arguments[j] != "--room"@ && arguments[j]
                != "--transparent"@) ==> mode_from_arguments(arguments) == (if arguments[index]
            == "--room"@ {
            PresentationMode::Room
        } else {
            PresentationMode::TransparentCompanion
        }),
        (forall|j: int|
            0 <= j < arguments.len() ==> arguments[j] != "--room"@ && arguments[j]
                != "--transparent"@) ==> mode_from_arguments(arguments)
            == PresentationMode::TransparentCompanion,
    decreases arguments.len(),
{
    if arguments.len() > 0 {
        let rest = arguments.drop_last();
        lemma_last_mode_argument_wins(rest, index);
        assert forall|j: int| 0 <= j < rest.len() implies rest[j] == arguments[j] by {}
        if index < arguments.len() - 1 {
            assert(arguments[arguments.len() - 1] == arguments.last());
        }
    }
}

pub open spec fn argument_views(arguments: Seq<String>) -> Seq<Seq<char>> {
    arguments.map_values(|argument: String| argument@)
}

impl PresentationMode {
    pub fn from_arguments(arguments: &[String]) -> (mode: Self)
        ensures
            mode == mode_from_arguments(argument_views(arguments@)),
    {
        let room = "--room".to_owned();
        let transparent = "--transparent".to_owned();
        let mut mode = PresentationMode::TransparentCompanion;
        let mut index: usize = 0;
        while index < arguments.len()
            invariant
                0 <= index <= arguments@.len(),
                room@ == "--room"@,
                transparent@ == "--transparent"@,
                mode == mode_from_arguments(argument_views(arguments@.subrange(0, index as int))),
            decreases arguments@.len() - index,
        {
            let ghost before = argument_views(arguments@.subrange(0, index as int));
            let ghost after = argument_views(arguments@.subrange(0, index + 1));
            assert(after.drop_last() =~= before);
            assert(after.last() == arguments@[index as int]@);
            if arguments[index] == room {
                mode = PresentationMode::Room;
            } else if arguments[index] == transparent {
                mode = PresentationMode::TransparentCompanion;
            }
            index = index + 1;
        }
        assert(arguments@.subrange(0, arguments@.len() as int) =~= arguments@);
        mode
    }

    /// Whether `argument` selects a mode (and is not for GTK).
    pub fn is_mode_argument(argument: &String) -> (selects: bool)
        ensures
            selects == (argument@ == "--room"@ || argument@ == "--transparent"@),
    {
        let room = "--room".to_owned();
        let transparent = "--transparent".to_owned();
        *argument == room || *argument == transparent
    }

    pub fn milo_display_size(self) -> (size: i32)
        ensures
            size == (match self {
                PresentationMode::TransparentCompanion => TRANSPARENT_MILO_DISPLAY_SIZE,
                PresentationMode::Room => ROOM_MILO_DISPLAY_SIZE,
            }),
    {
        match self {
            PresentationMode::TransparentCompanion => TRANSPARENT_MILO_DISPLAY_SIZE,
            PresentationMode::Room => ROOM_MILO_DISPLAY_SIZE,
        }
    }

    pub fn window_size(self) -> (size: (i32, i32))
        ensures
            size == (match self {
                PresentationMode::TransparentCompanion => (
                    TRANSPARENT_WINDOW_WIDTH,
                    TRANSPARENT_WINDOW_HEIGHT,
                ),
                PresentationMode::Room => (ROOM_VIEWPORT_WIDTH, ROOM_VIEWPORT_HEIGHT),
            }),
    {
        match self {
            PresentationMode::TransparentCompanion => (
                TRANSPARENT_WINDOW_WIDTH,
                TRANSPARENT_WINDOW_HEIGHT,
            ),
            PresentationMode::Room => (ROOM_VIEWPORT_WIDTH, ROOM_VIEWPORT_HEIGHT),
        }
    }
}

/// Lets the first-launch narrative be scheduled once while Milo is mapped:
/// a schedule that was dropped before it ran can be made again.
#[derive(Debug)]
pub struct NarrativeStartupGuard {
    pub scheduled_or_triggered: bool,
}

impl Default for NarrativeStartupGuard {
    fn default() -> (guard: Self)
        ensures
            !guard.scheduled_or_triggered,
    {
        NarrativeStartupGuard { scheduled_or_triggered: false }
    }
}

impl NarrativeStartupGuard {
    /// Claims the one schedule: true when nothing was scheduled yet.
    pub fn try_schedule(&mut self) -> (claimed: bool)
        ensures
            claimed == !old(self).scheduled_or_triggered,
            final(self).scheduled_or_triggered,
    {
        let claimed = !self.scheduled_or_triggered;
        self.scheduled_or_triggered = true;
        claimed
    }

    /// Gives the schedule back when it was dropped before it ran.
    pub fn cancel_pending(&mut self)
        ensures
            !final(self).scheduled_or_triggered,
    {
        self.scheduled_or_triggered = false;
    }
}

/// What answering an intervention leads to: whether the accepted break is
/// recorded in the narrative, and the command sent to the browser.
#[derive(Clone, Copy, Debug, PartialEq, Eq, Structural)]
pub struct InterventionResponsePlan {
    pub record_break_accepted: bool,
    pub browser_command: Option<BrowserCommand>,
}

/// Taking a break is recorded and closes the distracting tab; scrolling on
/// does neither. The narrative does not wait on the browser.
pub fn plan_intervention_response(response: InterventionResponse) -> (plan:
    InterventionResponsePlan)
    ensures
        plan == (match response {
            InterventionResponse::TakeBreak => InterventionResponsePlan {
                record_break_accepted: true,
                browser_command: Some(BrowserCommand::CloseActiveDistractionTab),
            },
            InterventionResponse::KeepScrolling => InterventionResponsePlan {
                record_break_accepted: false,
                browser_command: None,
            },
        }),
{
    match response {
        InterventionResponse::TakeBreak => InterventionResponsePlan {
            record_break_accepted: true,
            browser_command: Some(BrowserCommand::CloseActiveDistractionTab),
        },
        InterventionResponse::KeepScrolling => InterventionResponsePlan {
            record_break_accepted: false,
            browser_command: None,
        },
    }
}

/// Which narrative sequence is presented.
#[derive(Clone, Copy, Debug, PartialEq, Eq, Structural)]
pub enum NarrativeSequenceKind {
    FirstLaunch,
    BecameConcerned,
    BreakAccepted,
    ReturnedAfterBreak,
    EliPhotoAppeared,
    EliPhotoInspection,
}

pub open spec fn kind_of_trigger(trigger: NarrativeTrigger) -> NarrativeSequenceKind {
    match trigger {
        NarrativeTrigger::FirstLaunch => NarrativeSequenceKind::FirstLaunch,
        NarrativeTrigger::BecameConcerned => NarrativeSequenceKind::BecameConcerned,
        NarrativeTrigger::BreakAccepted => NarrativeSequenceKind::BreakAccepted,
        NarrativeTrigger::ReturnedAfterBreak => NarrativeSequenceKind::ReturnedAfterBreak,
    }
}

impl From<NarrativeTrigger> for NarrativeSequenceKind {
    fn from(trigger: NarrativeTrigger) -> (kind: Self) {
        match trigger {
            NarrativeTrigger::FirstLaunch => NarrativeSequenceKind::FirstLaunch,
            NarrativeTrigger::BecameConcerned => NarrativeSequenceKind::BecameConcerned,
            NarrativeTrigger::BreakAccepted => NarrativeSequenceKind::BreakAccepted,
            NarrativeTrigger::ReturnedAfterBreak => NarrativeSequenceKind::ReturnedAfterBreak,
        }
    }
}

impl vstd::std_specs::convert::FromSpecImpl<NarrativeTrigger> for NarrativeSequenceKind {
    open spec fn obeys_from_spec() -> bool {
        true
    }

    open spec fn from_spec(trigger: NarrativeTrigger) -> NarrativeSequenceKind {
        kind_of_trigger(trigger)
    }
}

/// Where a line of dialogue is shown.
#[derive(Clone, Copy, Debug, PartialEq, Eq, Structural)]
pub enum NarrativePresentationTarget {
    /// The speech bubble above Milo.
    MiloBubble,
    /// The caption under the opened photograph.
    PhotoInspection,
}

/// A sequence of dialogue and where it is shown.
#[derive(Clone, Debug)]
pub struct NarrativePresentation {
    pub kind: NarrativeSequenceKind,
    pub target: NarrativePresentationTarget,
    pub dialogue: DialogueSequence,
}

pub open spec fn appearance_texts() -> Seq<&'static str> {
    seq!["I left it here.", "Thought you might want to see it."]
}

pub open spec fn inspection_texts() -> Seq<&'static str> {
    seq![
        "That's me.",
        "And that's Eli.",
        "We used to play with that all the time.",
        "...I haven't seen him in a long time.",
    ]
}

/// The dialogue a world event brings: the photograph's appearance is
/// remarked on in Milo's bubble, its inspection under the photograph; a
/// pending object says nothing yet.
pub fn dialogue_for_world_event(event: WorldEvent) -> (presentation: Option<NarrativePresentation>)
    ensures
        match event {
            WorldEvent::ObjectPending(_) => presentation is None,
            WorldEvent::EliPhotoAppeared => presentation matches Some(p) && p.kind
                == NarrativeSequenceKind::EliPhotoAppeared && p.target
                == NarrativePresentationTarget::MiloBubble && p.dialogue@ == dialogue_of(
                appearance_texts(),
            ),
            WorldEvent::ObjectInspected(WorldObject::EliPhoto) => presentation matches Some(p)
                && p.kind == NarrativeSequenceKind::EliPhotoInspection && p.target
                == NarrativePresentationTarget::PhotoInspection && p.dialogue@ == dialogue_of(
                inspection_texts(),
            ),
        },
{
    match event {
        WorldEvent::ObjectPending(_) => None,
        WorldEvent::EliPhotoAppeared => {
            let texts: [&'static str; 2] = ["I left it here.", "Thought you might want to see it."];
            assert(texts@ =~= appearance_texts());
            Some(
                NarrativePresentation {
                    kind: NarrativeSequenceKind::EliPhotoAppeared,
                    target: NarrativePresentationTarget::MiloBubble,
                    dialogue: DialogueSequence::new(&texts),
                },
            )
        },
        WorldEvent::ObjectInspected(WorldObject::EliPhoto) => {
            let texts: [&'static str; 4] = [
                "That's me.",
                "And that's Eli.",
                "We used to play with that all the time.",
                "...I haven't seen him in a long time.",
            ];
            assert(texts@ =~= inspection_texts());
            Some(
                NarrativePresentation {
                    kind: NarrativeSequenceKind::EliPhotoInspection,
                    target: NarrativePresentationTarget::PhotoInspection,
                    dialogue: DialogueSequence::new(&texts),
                },
            )
        },
    }
}

/// A line of dialogue together with where it is shown.
#[derive(Clone, Copy, Debug, PartialEq, Eq)]
pub struct PresentedDialogueLine {
    pub target: NarrativePresentationTarget,
    pub line: DialogueLine,
}

/// What the presentation queue asks the view to do next.
#[derive(Clone, Copy, Debug, PartialEq, Eq)]
pub enum NarrativePump {
    /// An intervention is on screen: show nothing.
    SuppressedByIntervention,
    /// Show `line`; `is_new` is false when it is the interrupted line again.
    Present { line: PresentedDialogueLine, is_new: bool },
    /// Nothing is left; `was_active` tells whether a sequence just ended.
    Finished { was_active: bool },
}

/// The abstract state of the presentation queue.
pub struct NarrativeQueueView {
    pub queued: Seq<PresentedDialogueLine>,
    pub current: Option<PresentedDialogueLine>,
    pub intervention_visible: bool,
    pub active: bool,
}

impl NarrativeQueueView {
    /// Every line still to be shown, the one on screen first.
    pub open spec fn pending(self) -> Seq<PresentedDialogueLine> {
        match self.current {
            Some(line) => seq![line] + self.queued,
            None => self.queued,
        }
    }

    pub open spec fn spec_enqueue(self, lines: Seq<PresentedDialogueLine>) -> (NarrativeQueueView, bool) {
        (NarrativeQueueView { queued: self.queued + lines, active: true, ..self }, !self.active)
    }

    pub open spec fn spec_set_intervention_visible(self, visible: bool) -> (NarrativeQueueView, bool) {
        (
            NarrativeQueueView { intervention_visible: visible, ..self },
            self.intervention_visible != visible,
        )
    }

    pub open spec fn spec_pump(self) -> (NarrativeQueueView, NarrativePump) {
        if self.intervention_visible {
            (self, NarrativePump::SuppressedByIntervention)
        } else if self.current is Some {
            (self, NarrativePump::Present { line: self.current->0, is_new: false })
        } else if self.queued.len() > 0 {
            (
                NarrativeQueueView {
                    queued: self.queued.drop_first(),
                    current: Some(self.queued[0]),
                    ..self
                },
                NarrativePump::Present { line: self.queued[0], is_new: true },
            )
        } else {
            (NarrativeQueueView { active: false, ..self }, NarrativePump::Finished { was_active: self.active })
        }
    }

    pub open spec fn spec_complete_current_line(self) -> (NarrativeQueueView, Option<PresentedDialogueLine>) {
        (NarrativeQueueView { current: None, ..self }, self.current)
    }
}

/// The lines of `dialogue`, each to be shown at `target`.
pub open spec fn presented_lines(target: NarrativePresentationTarget, dialogue: Seq<DialogueLine>) -> Seq<PresentedDialogueLine> {
    dialogue.map_values(|line: DialogueLine| PresentedDialogueLine { target, line })
}

/// The narrative dialogue waiting to be shown, one line at a time, paused
/// while an intervention is on screen.
#[derive(Debug)]
pub struct NarrativePresentationState {
    pub queued_lines: VecDeque<PresentedDialogueLine>,
    pub current_line: Option<PresentedDialogueLine>,
    pub intervention_visible: bool,
    pub active: bool,
}

impl View for NarrativePresentationState {
    type V = NarrativeQueueView;

    open spec fn view(&self) -> NarrativeQueueView {
        NarrativeQueueView {
            queued: self.queued_lines@,
            current: self.current_line,
            intervention_visible: self.intervention_visible,
            active: self.active,
        }
    }
}

impl Default for NarrativePresentationState {
    fn default() -> (state: Self)
        ensures
            state@ == (NarrativeQueueView {
                queued: Seq::empty(),
                current: None,
                intervention_visible: false,
                active: false,
            }),
    {
        NarrativePresentationState {
            queued_lines: VecDeque::new(),
            current_line: None,
            intervention_visible: false,
            active: false,
        }
    }
}

impl NarrativePresentationState {
    /// Queues the lines of `presentation`; true when the queue was idle and
    /// becomes active.
    pub fn enqueue(&mut self, presentation: NarrativePresentation) -> (became_active: bool)
        ensures
            (final(self)@, became_active) == old(self)@.spec_enqueue(
                presented_lines(presentation.target, presentation.dialogue@),
            ),
    {
        let target = presentation.target;
        let lines = presentation.dialogue.into_lines();
        let ghost added = presented_lines(target, lines@);
        let mut index: usize = 0;
        while index < lines.len()
            invariant
                0 <= index <= lines@.len(),
                added == presented_lines(target, lines@),
                self.queued_lines@ == old(self).queued_lines@ + added.subrange(0, index as int),
                self.current_line == old(self).current_line,
                self.intervention_visible == old(self).intervention_visible,
                self.active == old(self).active,
            decreases lines@.len() - index,
        {
            self.queued_lines.push_back(PresentedDialogueLine { target, line: lines[index] });
            assert(added.subrange(0, index + 1) =~= added.subrange(0, index as int).push(
                added[index as int],
            ));
            index = index + 1;
        }
        assert(added.subrange(0, added.len() as int) =~= added);
        if self.active {
            false
        } else {
            self.active = true;
            true
        }
    }

    /// Records whether an intervention is on screen; true when that changed.
    pub fn set_intervention_visible(&mut self, visible: bool) -> (changed: bool)
        ensures
            (final(self)@, changed) == old(self)@.spec_set_intervention_visible(visible),
    {
        let changed = self.intervention_visible != visible;
        self.intervention_visible = visible;
        changed
    }

    /// The next step of the presentation (see `spec_pump`).
    pub fn pump(&mut self) -> (step: NarrativePump)
        ensures
            (final(self)@, step) == old(self)@.spec_pump(),
    {
        if self.intervention_visible {
            return NarrativePump::SuppressedByIntervention;
        }
        if let Some(line) = self.current_line {
            return NarrativePump::Present { line, is_new: false };
        }
        if let Some(line) = self.queued_lines.pop_front() {
            self.current_line = Some(line);
            return NarrativePump::Present { line, is_new: true };
        }
        let was_active = self.active;
        self.active = false;
        NarrativePump::Finished { was_active }
    }

    /// The line on screen has had its time: it is taken off and returned.
    pub fn complete_current_line(&mut self) -> (completed: Option<PresentedDialogueLine>)
        ensures
            (final(self)@, completed) == old(self)@.spec_complete_current_line(),
    {
        self.current_line.take()
    }
}

/// Dialogue is shown in the order it was queued, each line once: pumping
/// never drops, repeats or reorders a pending line, the line it presents is
/// the first pending one, it finishes only when nothing is pending,
/// completing takes off exactly the line on screen, and queueing appends.
pub proof fn lemma_lines_shown_in_order(
    state: NarrativeQueueView,
    lines: Seq<PresentedDialogueLine>,
)
    ensures
        state.spec_pump().0.pending() == state.pending(),
        state.spec_pump().1 matches NarrativePump::Present { line, .. } ==> state.pending().len()
            > 0 && line == state.pending()[0],
        state.spec_pump().1 is Finished ==> state.pending().len() == 0,
        state.current is Some ==> state.spec_complete_current_line().0.pending()
            == state.pending().drop_first(),
        state.current is None ==> state.spec_complete_current_line().0.pending()
            == state.pending(),
        state.spec_enqueue(lines).0.pending() == state.pending() + lines,
{
    if !state.intervention_visible && state.current is None && state.queued.len() > 0 {
        assert(seq![state.queued[0]] + state.queued.drop_first() =~= state.queued);
    }
    if state.current is Some {
        assert((seq![state.current->0] + state.queued).drop_first() =~= state.queued);
        assert(seq![state.current->0] + (state.queued + lines) =~= seq![state.current->0]
            + state.queued + lines);
    }
}

/// While an intervention is on screen nothing is shown and nothing moves;
/// when it closes, the interrupted line comes back as it was, not as a new
/// line, and nothing pending is lost.
pub proof fn lemma_interrupted_line_resumes(state: NarrativeQueueView, line: PresentedDialogueLine)
    requires
        state.current == Some(line),
    ensures
        ({
            let (shown, _) = state.spec_set_intervention_visible(true);
            let (paused, first) = shown.spec_pump();
            let (closed, _) = paused.spec_set_intervention_visible(false);
            let (resumed, second) = closed.spec_pump();
            &&& first == NarrativePump::SuppressedByIntervention
            &&& paused == shown
            &&& second == NarrativePump::Present { line, is_new: false }
            &&& resumed.pending() == state.pending()
        }),
{
}

} // verus!
