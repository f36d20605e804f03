//! The authoritative behavior model: which state Milo shows, given system
//! idle, temporary Curious reactions, distraction severity, autonomous cozy
//! activities and visible UI.

use crate::activity::ActivityCategory;
use crate::animation::MiloState;
use crate::distraction::{
    DistractionEvent, DistractionKind, FIRST_THRESHOLD_SECONDS, SECOND_THRESHOLD_SECONDS,
};
use vstd::prelude::*;

verus! {

pub const DEVELOPMENT_IDLE_TIMEOUT_SECONDS: u32 = 60;

pub const CURIOUS_AFTER_RESUME_MS: u64 = 3_000;

pub const APP_SWITCH_CURIOUS_MS: u64 = 1_500;

pub const PLAY_WITH_YARN_LOOPS: usize = 3;

pub const COZY_ACTIVITY_MIN_DELAY_SECONDS: u64 = 120;

pub const COZY_ACTIVITY_MAX_DELAY_SECONDS: u64 = 300;

#[derive(Clone, Copy, Debug, PartialEq, Eq, Structural)]
pub enum CuriousReaction {
    Resume,
    AppSwitch,
}

#[derive(Clone, Copy, Debug, PartialEq, Eq, Structural)]
pub enum CozyActivity {
    PlayWithYarn,
}

#[derive(Clone, Copy, Debug, PartialEq, Eq, Structural)]
pub enum DistractionSeverity {
    NoSession,
    Active,
    Curious,
    Concerned,
}

#[derive(Clone, Copy, Debug, PartialEq, Eq, Structural)]
pub struct StateTransition {
    pub previous: MiloState,
    pub current: MiloState,
}

/// The transition from `previous` to `current`, if they differ.
pub open spec fn transition_between(previous: MiloState, current: MiloState) -> Option<
    StateTransition,
> {
    if previous == current {
        None
    } else {
        Some(StateTransition { previous, current })
    }
}

/// The generation after an invalidation (wrapping).
pub open spec fn next_generation(generation: u64) -> u64 {
    if generation == u64::MAX {
        0
    } else {
        (generation + 1) as u64
    }
}

/// Severity after a distraction event.
pub open spec fn severity_after(severity: DistractionSeverity, event: DistractionEvent) -> DistractionSeverity {
    match event {
        DistractionEvent::Started(_) => DistractionSeverity::Active,
        DistractionEvent::Threshold { seconds, .. } => {
            if seconds == FIRST_THRESHOLD_SECONDS {
                DistractionSeverity::Curious
            } else if seconds == SECOND_THRESHOLD_SECONDS {
                DistractionSeverity::Concerned
            } else {
                severity
            }
        },
        DistractionEvent::Ended { .. } => DistractionSeverity::NoSession,
    }
}

/// The pure state model behind the behavior controller.
#[derive(Clone, Copy, Debug, PartialEq, Eq, Structural)]
pub struct BehaviorState {
    pub system_idle: bool,
    pub curious_reaction: Option<CuriousReaction>,
    pub cozy_activity: Option<CozyActivity>,
    pub temporary_generation: u64,
    pub distraction_severity: DistractionSeverity,
    pub intervention_visible: bool,
    pub narrative_active: bool,
    pub current: MiloState,
}

impl BehaviorState {
    /// The state the conditions call for: system idle first, the resume
    /// reaction second, distraction severity third, the app-switch reaction
    /// fourth and Idle last.
    pub open spec fn spec_automatic_state(self) -> MiloState {
        if self.system_idle {
            MiloState::Sleeping
        } else if self.curious_reaction == Some(CuriousReaction::Resume) {
            MiloState::Curious
        } else {
            match self.distraction_severity {
                DistractionSeverity::Active => MiloState::Idle,
                DistractionSeverity::Curious => MiloState::Curious,
                DistractionSeverity::Concerned => MiloState::Concerned,
                DistractionSeverity::NoSession => {
                    if self.curious_reaction == Some(CuriousReaction::AppSwitch) {
                        MiloState::Curious
                    } else {
                        MiloState::Idle
                    }
                },
            }
        }
    }

    /// Cancels every temporary reaction and cozy activity and makes all
    /// earlier generation tokens stale.
    pub open spec fn invalidated(self) -> BehaviorState {
        BehaviorState {
            temporary_generation: next_generation(self.temporary_generation),
            curious_reaction: None,
            cozy_activity: None,
            ..self
        }
    }

    /// Displays the automatic state.
    pub open spec fn settled(self) -> BehaviorState {
        BehaviorState { current: self.spec_automatic_state(), ..self }
    }

    pub open spec fn spec_app_switch_reaction_allowed(self) -> bool {
        &&& !self.system_idle
        &&& self.curious_reaction != Some(CuriousReaction::Resume)
        &&& self.distraction_severity == DistractionSeverity::NoSession
    }

    /// Calm authoritative Idle: the only state an autonomous activity may
    /// start from.
    pub open spec fn spec_can_start_cozy_activity(self) -> bool {
        &&& !self.system_idle
        &&& self.curious_reaction is None
        &&& self.distraction_severity == DistractionSeverity::NoSession
        &&& !self.intervention_visible
        &&& !self.narrative_active
        &&& self.spec_automatic_state() == MiloState::Idle
        &&& self.current == MiloState::Idle
    }

    pub open spec fn spec_system_idle(self) -> (BehaviorState, Option<StateTransition>) {
        let next = BehaviorState { system_idle: true, ..self.invalidated() }.settled();
        (next, transition_between(self.current, next.current))
    }

    pub open spec fn spec_resume(self) -> (BehaviorState, u64, Option<StateTransition>) {
        let next = BehaviorState {
            system_idle: false,
            curious_reaction: Some(CuriousReaction::Resume),
            ..self.invalidated()
        }.settled();
        (next, next.temporary_generation, transition_between(self.current, next.current))
    }

    pub open spec fn spec_start_app_switch_reaction(self) -> (BehaviorState, u64, Option<
        StateTransition,
    >) {
        let next = BehaviorState {
            curious_reaction: Some(CuriousReaction::AppSwitch),
            ..self.invalidated()
        }.settled();
        (next, next.temporary_generation, transition_between(self.current, next.current))
    }

    pub open spec fn spec_finish_temporary_reaction(self, generation: u64) -> (
        BehaviorState,
        Option<StateTransition>,
    ) {
        if self.temporary_generation != generation {
            (self, None)
        } else {
            let next = BehaviorState { curious_reaction: None, ..self }.settled();
            (next, transition_between(self.current, next.current))
        }
    }

    pub open spec fn spec_start_autonomous_play_with_yarn(self) -> (
        BehaviorState,
        Option<(StateTransition, u64)>,
    ) {
        if !self.spec_can_start_cozy_activity() {
            (self, None)
        } else {
            let next = BehaviorState {
                cozy_activity: Some(CozyActivity::PlayWithYarn),
                current: MiloState::PlayWithYarn,
                ..self.invalidated()
            };
            (
                next,
                Some(
                    (
                        StateTransition { previous: self.current, current: MiloState::PlayWithYarn },
                        next.temporary_generation,
                    ),
                ),
            )
        }
    }

    pub open spec fn spec_finish_play_with_yarn(self, generation: u64) -> (
        BehaviorState,
        Option<StateTransition>,
    ) {
        if self.temporary_generation != generation || self.cozy_activity != Some(
            CozyActivity::PlayWithYarn,
        ) {
            (self, None)
        } else {
            let next = BehaviorState { cozy_activity: None, ..self }.settled();
            (next, transition_between(self.current, next.current))
        }
    }

    pub open spec fn spec_handle_distraction_event(self, event: DistractionEvent) -> (
        BehaviorState,
        Option<StateTransition>,
    ) {
        let base = if self.curious_reaction == Some(CuriousReaction::AppSwitch)
            || self.cozy_activity is Some {
            self.invalidated()
        } else {
            self
        };
        let next = BehaviorState {
            distraction_severity: severity_after(self.distraction_severity, event),
            ..base
        }.settled();
        (next, transition_between(self.current, next.current))
    }

    pub open spec fn spec_cycle_debug_state(self) -> (BehaviorState, StateTransition) {
        let next = BehaviorState { current: self.current.spec_next(), ..self.invalidated() };
        (next, StateTransition { previous: self.current, current: next.current })
    }

    /// Showing UI (intervention or narrative) interrupts a cozy activity; the
    /// flag is recorded either way.
    pub open spec fn spec_ui_change(self, shown: bool, updated: BehaviorState) -> (
        BehaviorState,
        Option<StateTransition>,
    ) {
        if shown && self.cozy_activity is Some {
            let next = BehaviorState {
                cozy_activity: None,
                temporary_generation: next_generation(self.temporary_generation),
                ..updated
            }.settled();
            (next, transition_between(self.current, next.current))
        } else {
            (updated, None)
        }
    }

    pub open spec fn spec_set_intervention_visible(self, visible: bool) -> (
        BehaviorState,
        Option<StateTransition>,
    ) {
        self.spec_ui_change(visible, BehaviorState { intervention_visible: visible, ..self })
    }

    pub open spec fn spec_set_narrative_active(self, active: bool) -> (
        BehaviorState,
        Option<StateTransition>,
    ) {
        self.spec_ui_change(active, BehaviorState { narrative_active: active, ..self })
    }

    pub fn new() -> (state: Self)
        ensures
            state == (BehaviorState {
                system_idle: false,
                curious_reaction: None,
                cozy_activity: None,
                temporary_generation: 0,
                distraction_severity: DistractionSeverity::NoSession,
                intervention_visible: false,
                narrative_active: false,
                current: MiloState::Idle,
            }),
            state.current == state.spec_automatic_state(),
    {
        BehaviorState {
            system_idle: false,
            curious_reaction: None,
            cozy_activity: None,
            temporary_generation: 0,
            distraction_severity: DistractionSeverity::NoSession,
            intervention_visible: false,
            narrative_active: false,
            current: MiloState::Idle,
        }
    }

    pub fn system_idle(&mut self) -> (transition: Option<StateTransition>)
        ensures
            (*final(self), transition) == old(self).spec_system_idle(),
            final(self).current == MiloState::Sleeping,
    {
        self.invalidate_temporary_state();
        self.system_idle = true;
        self.transition_to_automatic_state()
    }

    pub fn resume(&mut self) -> (result: (u64, Option<StateTransition>))
        ensures
            (*final(self), result.0, result.1) == old(self).spec_resume(),
            final(self).current == MiloState::Curious,
    {
        self.invalidate_temporary_state();
        self.system_idle = false;
        self.curious_reaction = Some(CuriousReaction::Resume);
        let transition = self.transition_to_automatic_state();
        (self.temporary_generation, transition)
    }

    pub fn start_app_switch_reaction(&mut self) -> (result: (u64, Option<StateTransition>))
        ensures
            (*final(self), result.0, result.1) == old(self).spec_start_app_switch_reaction(),
    {
        self.invalidate_temporary_state();
        self.curious_reaction = Some(CuriousReaction::AppSwitch);
        let transition = self.transition_to_automatic_state();
        (self.temporary_generation, transition)
    }

    /// Ends the temporary reaction of `generation`; a stale generation
    /// changes nothing.
    pub fn finish_temporary_reaction(&mut self, generation: u64) -> (transition: Option<
        StateTransition,
    >)
        ensures
            (*final(self), transition) == old(self).spec_finish_temporary_reaction(generation),
    {
        if self.temporary_generation != generation {
            return None;
        }
        self.curious_reaction = None;
        self.transition_to_automatic_state()
    }

    pub fn start_autonomous_play_with_yarn(&mut self) -> (started: Option<(StateTransition, u64)>)
        ensures
            (*final(self), started) == old(self).spec_start_autonomous_play_with_yarn(),
            started is Some <==> old(self).spec_can_start_cozy_activity(),
    {
        if !self.can_start_cozy_activity() {
            return None;
        }
        let previous = self.current;
        self.invalidate_temporary_state();
        self.cozy_activity = Some(CozyActivity::PlayWithYarn);
        self.current = MiloState::PlayWithYarn;
        let generation = self.temporary_generation;
        Some((StateTransition { previous, current: MiloState::PlayWithYarn }, generation))
    }

    pub fn finish_play_with_yarn(&mut self, generation: u64) -> (transition: Option<
        StateTransition,
    >)
        ensures
            (*final(self), transition) == old(self).spec_finish_play_with_yarn(generation),
    {
        if self.temporary_generation != generation {
            return None;
        }
        match self.cozy_activity {
            Some(CozyActivity::PlayWithYarn) => {},
            None => {
                return None;
            },
        }
        assert(old(self).cozy_activity == Some(CozyActivity::PlayWithYarn));
        self.cozy_activity = None;
        self.transition_to_automatic_state()
    }

    pub fn handle_distraction_event(&mut self, event: DistractionEvent) -> (transition: Option<
        StateTransition,
    >)
        ensures
            (*final(self), transition) == old(self).spec_handle_distraction_event(event),
            final(self).cozy_activity is None,
    {
        if self.has_app_switch_reaction() || self.cozy_activity.is_some() {
            self.invalidate_temporary_state();
        }
        match event {
            DistractionEvent::Started(_) => {
                self.distraction_severity = DistractionSeverity::Active;
            },
            DistractionEvent::Threshold { seconds, .. } => {
                if seconds == FIRST_THRESHOLD_SECONDS {
                    self.distraction_severity = DistractionSeverity::Curious;
                } else if seconds == SECOND_THRESHOLD_SECONDS {
                    self.distraction_severity = DistractionSeverity::Concerned;
                }
            },
            DistractionEvent::Ended { .. } => {
                self.distraction_severity = DistractionSeverity::NoSession;
            },
        }
        self.transition_to_automatic_state()
    }

    /// The manual debug override: cancels temporary state and shows the next
    /// state of the cycle.
    pub fn cycle_debug_state(&mut self) -> (transition: StateTransition)
        ensures
            (*final(self), transition) == old(self).spec_cycle_debug_state(),
    {
        self.invalidate_temporary_state();
        let previous = self.current;
        self.current = self.current.next();
        StateTransition { previous, current: self.current }
    }

    pub fn app_switch_reaction_allowed(&self) -> (allowed: bool)
        ensures
            allowed == self.spec_app_switch_reaction_allowed(),
    {
        !self.system_idle && !self.has_resume_reaction() && self.distraction_severity
            == DistractionSeverity::NoSession
    }

    pub fn has_app_switch_reaction(&self) -> (present: bool)
        ensures
            present == (self.curious_reaction == Some(CuriousReaction::AppSwitch)),
    {
        match self.curious_reaction {
            Some(CuriousReaction::AppSwitch) => true,
            _ => false,
        }
    }

    fn has_resume_reaction(&self) -> (present: bool)
        ensures
            present == (self.curious_reaction == Some(CuriousReaction::Resume)),
    {
        match self.curious_reaction {
            Some(CuriousReaction::Resume) => true,
            _ => false,
        }
    }

    pub fn has_autonomous_cozy_activity(&self) -> (present: bool)
        ensures
            present == self.cozy_activity is Some,
    {
        self.cozy_activity.is_some()
    }

    pub fn can_start_cozy_activity(&self) -> (allowed: bool)
        ensures
            allowed == self.spec_can_start_cozy_activity(),
    {
        !self.system_idle && self.curious_reaction.is_none() && self.distraction_severity
            == DistractionSeverity::NoSession && !self.intervention_visible && !self.narrative_active
            && self.automatic_state() == MiloState::Idle && self.current == MiloState::Idle
    }

    pub fn set_intervention_visible(&mut self, visible: bool) -> (transition: Option<
        StateTransition,
    >)
        ensures
            (*final(self), transition) == old(self).spec_set_intervention_visible(visible),
    {
        self.intervention_visible = visible;
        if visible && self.interrupt_cozy_activity() {
            self.transition_to_automatic_state()
        } else {
            None
        }
    }

    pub fn set_narrative_active(&mut self, active: bool) -> (transition: Option<StateTransition>)
        ensures
            (*final(self), transition) == old(self).spec_set_narrative_active(active),
    {
        self.narrative_active = active;
        if active && self.interrupt_cozy_activity() {
            self.transition_to_automatic_state()
        } else {
            None
        }
    }

    fn invalidate_temporary_state(&mut self)
        ensures
            *final(self) == old(self).invalidated(),
    {
        self.temporary_generation = self.temporary_generation.wrapping_add(1);
        self.curious_reaction = None;
        self.cozy_activity = None;
    }

    fn interrupt_cozy_activity(&mut self) -> (interrupted: bool)
        ensures
            interrupted == old(self).cozy_activity is Some,
            *final(self) == (if interrupted {
                BehaviorState {
                    cozy_activity: None,
                    temporary_generation: next_generation(old(self).temporary_generation),
                    ..*old(self)
                }
            } else {
                *old(self)
            }),
    {
        if self.cozy_activity.is_none() {
            return false;
        }
        self.cozy_activity = None;
        self.temporary_generation = self.temporary_generation.wrapping_add(1);
        true
    }

    fn transition_to_state(&mut self, next: MiloState) -> (transition: Option<StateTransition>)
        ensures
            *final(self) == (BehaviorState { current: next, ..*old(self) }),
            transition == transition_between(old(self).current, next),
    {
        if next == self.current {
            return None;
        }
        let transition = StateTransition { previous: self.current, current: next };
        self.current = next;
        Some(transition)
    }

    fn transition_to_automatic_state(&mut self) -> (transition: Option<StateTransition>)
        ensures
            *final(self) == old(self).settled(),
            transition == transition_between(old(self).current, final(self).current),
    {
        let next = self.automatic_state();
        self.transition_to_state(next)
    }

    pub fn automatic_state(&self) -> (state: MiloState)
        ensures
            state == self.spec_automatic_state(),
    {
        if self.system_idle {
            return MiloState::Sleeping;
        }
        if self.has_resume_reaction() {
            return MiloState::Curious;
        }
        match self.distraction_severity {
            DistractionSeverity::Active => MiloState::Idle,
            DistractionSeverity::Curious => MiloState::Curious,
            DistractionSeverity::Concerned => MiloState::Concerned,
            DistractionSeverity::NoSession => {
                if self.has_app_switch_reaction() {
                    MiloState::Curious
                } else {
                    MiloState::Idle
                }
            },
        }
    }
}

/// A temporary Curious reaction ends when its own timer fires: with the
/// current generation, no Curious reaction remains and Milo shows what the
/// lasting conditions call for (Sleeping while idle, else the distraction
/// severity's Curious or Concerned, else Idle), reporting the change if the
/// shown state changed; nothing else changes. A timer of an older generation
/// changes nothing and reports nothing.
pub proof fn lemma_temporary_reaction_ends(state: BehaviorState, generation: u64)
    ensures
        ({
            let (next, transition) = state.spec_finish_temporary_reaction(generation);
            &&& generation != state.temporary_generation ==> next == state && transition is None
            &&& generation == state.temporary_generation ==> {
                &&& next.curious_reaction is None
                &&& next.current == (if state.system_idle {
                    MiloState::Sleeping
                } else if state.distraction_severity == DistractionSeverity::Curious {
                    MiloState::Curious
                } else if state.distraction_severity == DistractionSeverity::Concerned {
                    MiloState::Concerned
                } else {
                    MiloState::Idle
                })
                &&& transition == (if state.current == next.current {
                    None
                } else {
                    Some(StateTransition { previous: state.current, current: next.current })
                })
                &&& next.system_idle == state.system_idle
                &&& next.cozy_activity == state.cozy_activity
                &&& next.temporary_generation == state.temporary_generation
                &&& next.distraction_severity == state.distraction_severity
                &&& next.intervention_visible == state.intervention_visible
                &&& next.narrative_active == state.narrative_active
            }
        }),
{
}

/// A timer that ends the temporary Curious reaction of `generation` after
/// `duration_ms`.
#[derive(Clone, Copy, Debug, PartialEq, Eq, Structural)]
pub struct CuriousTimer {
    pub generation: u64,
    pub duration_ms: u64,
}

/// What the behavior controller does after one input: show the transition,
/// cancel the pending Curious timer, start a new one, and schedule the next
/// cozy opportunity when a cozy activity was interrupted.
#[derive(Clone, Copy, Debug, PartialEq, Eq, Structural)]
pub struct BehaviorEffects {
    pub transition: Option<StateTransition>,
    pub cancel_curious_timer: bool,
    pub curious_timer: Option<CuriousTimer>,
    pub reschedule_cozy: bool,
}

pub open spec fn no_effects() -> BehaviorEffects {
    BehaviorEffects {
        transition: None,
        cancel_curious_timer: false,
        curious_timer: None,
        reschedule_cozy: false,
    }
}

impl BehaviorState {
    /// The focused application changed category: an allowed change starts a
    /// short app-switch Curious reaction; an unchanged category or one
    /// changed while the reaction is not allowed does nothing.
    pub fn react_to_category_change(&mut self, previous: ActivityCategory, current: ActivityCategory) -> (effects: BehaviorEffects)
        ensures
            if previous == current || !old(self).spec_app_switch_reaction_allowed() {
                *final(self) == *old(self) && effects == no_effects()
            } else {
                let (next, generation, transition) = old(self).spec_start_app_switch_reaction();
                &&& *final(self) == next
                &&& effects == (BehaviorEffects {
                    transition,
                    cancel_curious_timer: true,
                    curious_timer: Some(CuriousTimer { generation, duration_ms: APP_SWITCH_CURIOUS_MS }),
                    reschedule_cozy: old(self).cozy_activity is Some,
                })
            },
    {
        if previous == current || !self.app_switch_reaction_allowed() {
            return BehaviorEffects {
                transition: None,
                cancel_curious_timer: false,
                curious_timer: None,
                reschedule_cozy: false,
            };
        }
        let interrupted = self.has_autonomous_cozy_activity();
        let (generation, transition) = self.start_app_switch_reaction();
        BehaviorEffects {
            transition,
            cancel_curious_timer: true,
            curious_timer: Some(CuriousTimer { generation, duration_ms: APP_SWITCH_CURIOUS_MS }),
            reschedule_cozy: interrupted,
        }
    }

    /// The compositor reported the user idle (`idled`) or back: idle shows
    /// Sleeping; resuming starts the resume Curious reaction. Either cancels
    /// the pending Curious timer.
    pub fn react_to_idle_event(&mut self, idled: bool) -> (effects: BehaviorEffects)
        ensures
            idled ==> {
                let (next, transition) = old(self).spec_system_idle();
                &&& *final(self) == next
                &&& effects == (BehaviorEffects {
                    transition,
                    cancel_curious_timer: true,
                    curious_timer: None,
                    reschedule_cozy: old(self).cozy_activity is Some,
                })
            },
            !idled ==> {
                let (next, generation, transition) = old(self).spec_resume();
                &&& *final(self) == next
                &&& effects == (BehaviorEffects {
                    transition,
                    cancel_curious_timer: true,
                    curious_timer: Some(CuriousTimer { generation, duration_ms: CURIOUS_AFTER_RESUME_MS }),
                    reschedule_cozy: old(self).cozy_activity is Some,
                })
            },
    {
        let interrupted = self.has_autonomous_cozy_activity();
        if idled {
            let transition = self.system_idle();
            BehaviorEffects {
                transition,
                cancel_curious_timer: true,
                curious_timer: None,
                reschedule_cozy: interrupted,
            }
        } else {
            let (generation, transition) = self.resume();
            BehaviorEffects {
                transition,
                cancel_curious_timer: true,
                curious_timer: Some(CuriousTimer { generation, duration_ms: CURIOUS_AFTER_RESUME_MS }),
                reschedule_cozy: interrupted,
            }
        }
    }

    /// A distraction event: the severity changes; a pending app-switch
    /// reaction loses its timer and an interrupted cozy activity is
    /// rescheduled.
    pub fn react_to_distraction_event(&mut self, event: DistractionEvent) -> (effects: BehaviorEffects)
        ensures
            ({
                let (next, transition) = old(self).spec_handle_distraction_event(event);
                &&& *final(self) == next
                &&& effects == (BehaviorEffects {
                    transition,
                    cancel_curious_timer: old(self).curious_reaction == Some(CuriousReaction::AppSwitch),
                    curious_timer: None,
                    reschedule_cozy: old(self).cozy_activity is Some,
                })
            }),
    {
        let interrupted = self.has_autonomous_cozy_activity();
        let cancel = self.has_app_switch_reaction();
        let transition = self.handle_distraction_event(event);
        BehaviorEffects {
            transition,
            cancel_curious_timer: cancel,
            curious_timer: None,
            reschedule_cozy: interrupted,
        }
    }

    /// An intervention appeared or closed.
    pub fn react_to_intervention_visible(&mut self, visible: bool) -> (effects: BehaviorEffects)
        ensures
            ({
                let (next, transition) = old(self).spec_set_intervention_visible(visible);
                &&& *final(self) == next
                &&& effects == (BehaviorEffects {
                    transition,
                    cancel_curious_timer: false,
                    curious_timer: None,
                    reschedule_cozy: visible && old(self).cozy_activity is Some,
                })
            }),
    {
        let interrupted = visible && self.has_autonomous_cozy_activity();
        let transition = self.set_intervention_visible(visible);
        BehaviorEffects {
            transition,
            cancel_curious_timer: false,
            curious_timer: None,
            reschedule_cozy: interrupted,
        }
    }

    /// Narrative dialogue started or ended.
    pub fn react_to_narrative_active(&mut self, active: bool) -> (effects: BehaviorEffects)
        ensures
            ({
                let (next, transition) = old(self).spec_set_narrative_active(active);
                &&& *final(self) == next
                &&& effects == (BehaviorEffects {
                    transition,
                    cancel_curious_timer: false,
                    curious_timer: None,
                    reschedule_cozy: active && old(self).cozy_activity is Some,
                })
            }),
    {
        let interrupted = active && self.has_autonomous_cozy_activity();
        let transition = self.set_narrative_active(active);
        BehaviorEffects {
            transition,
            cancel_curious_timer: false,
            curious_timer: None,
            reschedule_cozy: interrupted,
        }
    }

    /// The debug key: the next state of the cycle, dropping any temporary
    /// reaction and its timer.
    pub fn react_to_debug_cycle(&mut self) -> (effects: BehaviorEffects)
        ensures
            ({
                let (next, transition) = old(self).spec_cycle_debug_state();
                &&& *final(self) == next
                &&& effects == (BehaviorEffects {
                    transition: Some(transition),
                    cancel_curious_timer: true,
                    curious_timer: None,
                    reschedule_cozy: old(self).cozy_activity is Some,
                })
            }),
    {
        let interrupted = self.has_autonomous_cozy_activity();
        let transition = self.cycle_debug_state();
        BehaviorEffects {
            transition: Some(transition),
            cancel_curious_timer: true,
            curious_timer: None,
            reschedule_cozy: interrupted,
        }
    }
}

/// Generations change on every invalidation (`next_generation` has no fixed
/// point).
pub proof fn lemma_next_generation_differs(generation: u64)
    ensures
        next_generation(generation) != generation,
{
}

/// App-switch reactions cannot override a distraction session: while a
/// session is active and the system is awake, the state after an app-switch
/// reaction is the one the session's severity calls for.
pub proof fn lemma_app_switch_cannot_override_distraction(state: BehaviorState)
    requires
        !state.system_idle,
        state.distraction_severity != DistractionSeverity::NoSession,
    ensures
        state.spec_start_app_switch_reaction().0.current == (match state.distraction_severity {
            DistractionSeverity::Curious => MiloState::Curious,
            DistractionSeverity::Concerned => MiloState::Concerned,
            _ => MiloState::Idle,
        }),
{
}

/// System idle has priority over everything: whatever else holds, an idle
/// system shows Sleeping after every operation that recomputes the state.
pub proof fn lemma_system_idle_has_priority(state: BehaviorState, event: DistractionEvent, generation: u64)
    requires
        state.system_idle,
    ensures
        state.spec_handle_distraction_event(event).0.current == MiloState::Sleeping,
        state.spec_start_app_switch_reaction().0.current == MiloState::Sleeping,
        state.spec_finish_temporary_reaction(generation).1 is Some
            ==> state.spec_finish_temporary_reaction(generation).0.current == MiloState::Sleeping,
        state.spec_finish_play_with_yarn(generation).1 is Some
            ==> state.spec_finish_play_with_yarn(generation).0.current == MiloState::Sleeping,
        state.spec_start_autonomous_play_with_yarn().1 is None,
{
}

/// A temporary callback whose generation is older than a newer event cannot
/// change anything: every event that cancels temporary state makes the
/// previous token stale.
pub proof fn lemma_stale_callbacks_are_ignored(state: BehaviorState, event: DistractionEvent)
    ensures
        ({
            let token = state.temporary_generation;
            let after_idle = state.spec_system_idle().0;
            let after_resume = state.spec_resume().0;
            let after_switch = state.spec_start_app_switch_reaction().0;
            let after_cycle = state.spec_cycle_debug_state().0;
            &&& after_idle.spec_finish_temporary_reaction(token) == (after_idle, None::<StateTransition>)
            &&& after_idle.spec_finish_play_with_yarn(token) == (after_idle, None::<StateTransition>)
            &&& after_resume.spec_finish_temporary_reaction(token) == (after_resume, None::<StateTransition>)
            &&& after_switch.spec_finish_temporary_reaction(token) == (after_switch, None::<StateTransition>)
            &&& after_cycle.spec_finish_temporary_reaction(token) == (after_cycle, None::<StateTransition>)
            &&& after_cycle.spec_finish_play_with_yarn(token) == (after_cycle, None::<StateTransition>)
        }),
        (state.curious_reaction == Some(CuriousReaction::AppSwitch) || state.cozy_activity is Some)
            ==> ({
            let after_event = state.spec_handle_distraction_event(event).0;
            &&& after_event.spec_finish_temporary_reaction(state.temporary_generation)
                == (after_event, None::<StateTransition>)
            &&& after_event.spec_finish_play_with_yarn(state.temporary_generation)
                == (after_event, None::<StateTransition>)
        }),
{
}

/// Any real behavior or UI event interrupts an autonomous cozy activity
/// immediately.
pub proof fn lemma_events_interrupt_cozy_activity(state: BehaviorState, event: DistractionEvent)
    requires
        state.cozy_activity is Some,
    ensures
        state.spec_system_idle().0.cozy_activity is None,
        state.spec_resume().0.cozy_activity is None,
        state.spec_start_app_switch_reaction().0.cozy_activity is None,
        state.spec_handle_distraction_event(event).0.cozy_activity is None,
        state.spec_cycle_debug_state().0.cozy_activity is None,
        state.spec_set_intervention_visible(true).0.cozy_activity is None,
        state.spec_set_narrative_active(true).0.cozy_activity is None,
{
}

/// System idle ends the distraction session, so resuming afterwards shows the
/// temporary Curious reaction and then Idle, never the old severity.
pub proof fn lemma_resume_after_idle_ends_at_idle(state: BehaviorState, ended: DistractionEvent)
    requires
        ended is Ended,
    ensures
        ({
            let idle = state.spec_system_idle().0;
            let session_ended = idle.spec_handle_distraction_event(ended).0;
            let (resumed, token, _) = session_ended.spec_resume();
            &&& idle.current == MiloState::Sleeping
            &&& session_ended.current == MiloState::Sleeping
            &&& resumed.current == MiloState::Curious
            &&& resumed.spec_finish_temporary_reaction(token).0.current == MiloState::Idle
        }),
{
}

/// What the distraction and reaction events show while the system is awake
/// and no resume reaction runs: a session start shows Idle, its 10-second
/// threshold persistent Curious, its 20-second threshold persistent
/// Concerned, the 30-second threshold keeps Concerned, and its end returns to
/// Idle. Resuming always shows Curious, for three seconds. With no session, an
/// app switch shows Curious for one and a half seconds, and its timer returns
/// Milo to Idle.
pub proof fn lemma_documented_reactions(state: BehaviorState, kind: DistractionKind, elapsed: u64)
    requires
        !state.system_idle,
        state.curious_reaction != Some(CuriousReaction::Resume),
    ensures
        state.spec_handle_distraction_event(DistractionEvent::Started(kind)).0.current
            == MiloState::Idle,
        state.spec_handle_distraction_event(DistractionEvent::Threshold { kind, seconds: 10 }).0.current
            == MiloState::Curious,
        state.spec_handle_distraction_event(DistractionEvent::Threshold { kind, seconds: 20 }).0.current
            == MiloState::Concerned,
        state.distraction_severity == DistractionSeverity::Concerned
            ==> state.spec_handle_distraction_event(
            DistractionEvent::Threshold { kind, seconds: 30 },
        ).0.current == MiloState::Concerned,
        state.spec_handle_distraction_event(DistractionEvent::Ended { kind, elapsed_nanos: elapsed }).0.current
            == MiloState::Idle,
        state.spec_resume().0.current == MiloState::Curious,
        CURIOUS_AFTER_RESUME_MS == 3000,
        state.distraction_severity == DistractionSeverity::NoSession ==> ({
            let (switched, token, _) = state.spec_start_app_switch_reaction();
            let (finished, transition) = switched.spec_finish_temporary_reaction(token);
            &&& switched.current == MiloState::Curious
            &&& finished.current == MiloState::Idle
            &&& finished.curious_reaction is None
            &&& transition == Some(
                StateTransition { previous: MiloState::Curious, current: MiloState::Idle },
            )
        }),
        APP_SWITCH_CURIOUS_MS == 1500,
{
}

/// The cozy delay generator: a xorshift sequence seeded from the clock. Its
/// state is never zero, the one value xorshift would never leave.
#[derive(Clone, Copy, Debug, PartialEq, Eq)]
pub struct CozyDelayGenerator {
    state: u64,
}

/// Seed used in place of zero, which xorshift would never leave.
pub const ZERO_SEED_REPLACEMENT: u64 = 0x9e37_79b9_7f4a_7c15;

/// One xorshift64 step.
pub open spec fn xorshift(value: u64) -> u64 {
    let a = value ^ (value << 13u64);
    let b = a ^ (a >> 7u64);
    b ^ (b << 17u64)
}

/// Number of possible whole-second delays.
pub open spec fn delay_range() -> u64 {
    (COZY_ACTIVITY_MAX_DELAY_SECONDS - COZY_ACTIVITY_MIN_DELAY_SECONDS + 1) as u64
}

/// Combines a wall-clock timestamp and the process id into a seed.
pub open spec fn clock_seed(timestamp_nanos: u128, process_id: u32) -> u64 {
    let pid = process_id as u64;
    (timestamp_nanos as u64) ^ ((timestamp_nanos >> 64u128) as u64) ^ ((pid << 32u64) | (pid >> 32u64))
}

/// The state a seed starts the generator in.
pub open spec fn seeded_state(seed: u64) -> u64 {
    if seed == 0 {
        ZERO_SEED_REPLACEMENT
    } else {
        seed
    }
}

impl CozyDelayGenerator {
    /// The current xorshift state.
    pub closed spec fn state(self) -> u64 {
        self.state
    }

    #[verifier::type_invariant]
    closed spec fn nonzero(self) -> bool {
        self.state != 0
    }

    /// A generator seeded from a wall-clock timestamp (nanoseconds since
    /// the Unix epoch) and the process id.
    pub fn from_clock(timestamp_nanos: u128, process_id: u32) -> (generator: Self)
        ensures
            generator.state() == seeded_state(clock_seed(timestamp_nanos, process_id)),
    {
        let pid = process_id as u64;
        let seed = (timestamp_nanos as u64) ^ ((timestamp_nanos >> 64u128) as u64) ^ ((pid
            << 32u64) | (pid >> 32u64));
        Self::seeded(seed)
    }

    pub fn seeded(seed: u64) -> (generator: Self)
        ensures
            generator.state() == seeded_state(seed),
            generator.state() != 0,
    {
        CozyDelayGenerator { state: if seed == 0 { ZERO_SEED_REPLACEMENT } else { seed } }
    }

    /// Advances the sequence and returns the next delay in whole seconds,
    /// between the minimum and maximum cozy delay.
    pub fn next_delay(&mut self) -> (seconds: u64)
        ensures
            final(self).state() == xorshift(old(self).state()),
            final(self).state() != 0,
            seconds == COZY_ACTIVITY_MIN_DELAY_SECONDS + final(self).state() % delay_range(),
            COZY_ACTIVITY_MIN_DELAY_SECONDS <= seconds <= COZY_ACTIVITY_MAX_DELAY_SECONDS,
    {
        proof {
            use_type_invariant(&*self);
            lemma_xorshift_keeps_nonzero(self.state);
        }
        let mut value = self.state;
        value = value ^ (value << 13u64);
        value = value ^ (value >> 7u64);
        value = value ^ (value << 17u64);
        self.state = value;
        let range = COZY_ACTIVITY_MAX_DELAY_SECONDS - COZY_ACTIVITY_MIN_DELAY_SECONDS + 1;
        COZY_ACTIVITY_MIN_DELAY_SECONDS + value % range
    }
}

/// A nonzero generator state stays nonzero, so the delay sequence never gets
/// stuck on one value.
pub proof fn lemma_xorshift_keeps_nonzero(value: u64)
    requires
        value != 0,
    ensures
        xorshift(value) != 0,
{
    let a = value ^ (value << 13u64);
    assert(a != 0) by (bit_vector)
        requires
            value != 0,
            a == value ^ (value << 13u64),
    ;
    let b = a ^ (a >> 7u64);
    assert(b != 0) by (bit_vector)
        requires
            a != 0,
            b == a ^ (a >> 7u64),
    ;
    let c = b ^ (b << 17u64);
    assert(c != 0) by (bit_vector)
        requires
            b != 0,
            c == b ^ (b << 17u64),
    ;
}

} // verus!
