//! The still-scrolling intervention: requested once per continuous
//! distraction session when it reaches the third threshold, dismissed by a
//! response, by the end of the session or by system idle.

use crate::distraction::{DistractionEvent, THIRD_THRESHOLD_SECONDS};
use vstd::prelude::*;

verus! {

pub const STILL_SCROLLING_PROMPT: &'static str = "Still scrolling?";

pub const TAKE_BREAK_LABEL: &'static str = "Take a break";

pub const KEEP_SCROLLING_LABEL: &'static str = "Keep scrolling";

#[derive(Clone, Copy, Debug, PartialEq, Eq, Structural)]
pub enum Intervention {
    StillScrolling,
}

impl Intervention {
    pub fn prompt(self) -> (prompt: &'static str)
        ensures
            prompt == STILL_SCROLLING_PROMPT,
    {
        match self {
            Intervention::StillScrolling => STILL_SCROLLING_PROMPT,
        }
    }
}

#[derive(Clone, Copy, Debug, PartialEq, Eq, Structural)]
pub enum InterventionResponse {
    TakeBreak,
    KeepScrolling,
}

impl InterventionResponse {
    pub fn label(self) -> (label: &'static str)
        ensures
            label == (match self {
                InterventionResponse::TakeBreak => TAKE_BREAK_LABEL,
                InterventionResponse::KeepScrolling => KEEP_SCROLLING_LABEL,
            }),
    {
        match self {
            InterventionResponse::TakeBreak => TAKE_BREAK_LABEL,
            InterventionResponse::KeepScrolling => KEEP_SCROLLING_LABEL,
        }
    }
}

#[derive(Clone, Copy, Debug, PartialEq, Eq, Structural)]
pub enum InterventionPresentation {
    Show(Intervention),
    Hide,
}

/// What the lifecycle asks its owner to do.
#[derive(Clone, Copy, Debug, PartialEq, Eq, Structural)]
pub enum InterventionAction {
    Present(InterventionPresentation),
    Response(InterventionResponse),
}

/// Whether a session is active, whether it already requested the
/// intervention, and what is visible.
#[derive(Clone, Copy, Debug, PartialEq, Eq, Structural)]
pub struct InterventionLifecycle {
    pub session_active: bool,
    pub requested_this_session: bool,
    pub visible: Option<Intervention>,
}

impl InterventionLifecycle {
    /// A visible intervention belongs to an active session that requested it.
    pub open spec fn well_formed(self) -> bool {
        self.visible is Some ==> self.session_active && self.requested_this_session
    }

    pub open spec fn spec_hide_if_visible(self) -> (InterventionLifecycle, Seq<InterventionAction>) {
        if self.visible is Some {
            (
                InterventionLifecycle { visible: None, ..self },
                seq![InterventionAction::Present(InterventionPresentation::Hide)],
            )
        } else {
            (self, Seq::empty())
        }
    }

    pub open spec fn spec_end_session(self) -> (InterventionLifecycle, Seq<InterventionAction>) {
        InterventionLifecycle {
            session_active: false,
            requested_this_session: false,
            ..self
        }.spec_hide_if_visible()
    }

    pub open spec fn spec_handle_distraction_event(self, event: DistractionEvent) -> (
        InterventionLifecycle,
        Seq<InterventionAction>,
    ) {
        match event {
            DistractionEvent::Started(_) => {
                let (hidden, actions) = self.spec_hide_if_visible();
                (
                    InterventionLifecycle {
                        session_active: true,
                        requested_this_session: false,
                        ..hidden
                    },
                    actions,
                )
            },
            DistractionEvent::Threshold { seconds, .. } => {
                if seconds == THIRD_THRESHOLD_SECONDS && self.session_active
                    && !self.requested_this_session {
                    (
                        InterventionLifecycle {
                            requested_this_session: true,
                            visible: Some(Intervention::StillScrolling),
                            ..self
                        },
                        seq![
                            InterventionAction::Present(
                                InterventionPresentation::Show(Intervention::StillScrolling),
                            ),
                        ],
                    )
                } else {
                    (self, Seq::empty())
                }
            },
            DistractionEvent::Ended { .. } => self.spec_end_session(),
        }
    }

    pub open spec fn spec_respond(self, response: InterventionResponse) -> (
        InterventionLifecycle,
        Seq<InterventionAction>,
    ) {
        if self.visible is None {
            (self, Seq::empty())
        } else {
            (
                InterventionLifecycle { visible: None, ..self },
                seq![
                    InterventionAction::Response(response),
                    InterventionAction::Present(InterventionPresentation::Hide),
                ],
            )
        }
    }

    pub fn new() -> (lifecycle: Self)
        ensures
            lifecycle == (InterventionLifecycle {
                session_active: false,
                requested_this_session: false,
                visible: None,
            }),
            lifecycle.well_formed(),
    {
        InterventionLifecycle { session_active: false, requested_this_session: false, visible: None }
    }

    pub fn handle_distraction_event(&mut self, event: DistractionEvent) -> (actions: Vec<
        InterventionAction,
    >)
        ensures
            (*final(self), actions@) == old(self).spec_handle_distraction_event(event),
            old(self).well_formed() ==> final(self).well_formed(),
    {
        match event {
            DistractionEvent::Started(_) => {
                let actions = self.hide_if_visible();
                self.session_active = true;
                self.requested_this_session = false;
                actions
            },
            DistractionEvent::Threshold { seconds, .. } => {
                if seconds == THIRD_THRESHOLD_SECONDS && self.session_active
                    && !self.requested_this_session {
                    let intervention = Intervention::StillScrolling;
                    self.requested_this_session = true;
                    self.visible = Some(intervention);
                    let mut actions = Vec::new();
                    actions.push(
                        InterventionAction::Present(InterventionPresentation::Show(intervention)),
                    );
                    assert(actions@ =~= seq![
                        InterventionAction::Present(
                            InterventionPresentation::Show(Intervention::StillScrolling),
                        ),
                    ]);
                    actions
                } else {
                    Vec::new()
                }
            },
            DistractionEvent::Ended { .. } => self.end_session(),
        }
    }

    /// A response dismisses a visible intervention; without a visible
    /// intervention it is ignored.
    pub fn respond(&mut self, response: InterventionResponse) -> (actions: Vec<InterventionAction>)
        ensures
            (*final(self), actions@) == old(self).spec_respond(response),
            old(self).well_formed() ==> final(self).well_formed(),
    {
        if self.visible.is_none() {
            return Vec::new();
        }
        self.visible = None;
        let mut actions = Vec::new();
        actions.push(InterventionAction::Response(response));
        actions.push(InterventionAction::Present(InterventionPresentation::Hide));
        assert(actions@ =~= seq![
            InterventionAction::Response(response),
            InterventionAction::Present(InterventionPresentation::Hide),
        ]);
        actions
    }

    pub fn system_idle(&mut self) -> (actions: Vec<InterventionAction>)
        ensures
            (*final(self), actions@) == old(self).spec_end_session(),
            final(self).well_formed(),
    {
        self.end_session()
    }

    pub fn end_session(&mut self) -> (actions: Vec<InterventionAction>)
        ensures
            (*final(self), actions@) == old(self).spec_end_session(),
            final(self).well_formed(),
    {
        self.session_active = false;
        self.requested_this_session = false;
        self.hide_if_visible()
    }

    pub fn hide_if_visible(&mut self) -> (actions: Vec<InterventionAction>)
        ensures
            (*final(self), actions@) == old(self).spec_hide_if_visible(),
            final(self).visible is None,
    {
        if self.visible.is_some() {
            self.visible = None;
            let mut actions = Vec::new();
            actions.push(InterventionAction::Present(InterventionPresentation::Hide));
            assert(actions@ =~= seq![InterventionAction::Present(InterventionPresentation::Hide)]);
            actions
        } else {
            Vec::new()
        }
    }
}

pub open spec fn shows(actions: Seq<InterventionAction>) -> bool {
    exists|i: int| 0 <= i < actions.len() && #[trigger] actions[i] is Present && actions[i]->Present_0 is Show
}

/// One request per continuous session: once a session has requested the
/// intervention, neither thresholds nor responses can show it again; only a
/// new session (Started), the end of the session or system idle reset the
/// eligibility, and a response never ends the session.
pub proof fn lemma_one_request_per_session(
    lifecycle: InterventionLifecycle,
    event: DistractionEvent,
    response: InterventionResponse,
)
    requires
        lifecycle.requested_this_session,
    ensures
        event is Threshold ==> !shows(lifecycle.spec_handle_distraction_event(event).1)
            && lifecycle.spec_handle_distraction_event(event).0.requested_this_session,
        !shows(lifecycle.spec_respond(response).1),
        lifecycle.spec_respond(response).0.requested_this_session,
        lifecycle.spec_respond(response).0.session_active == lifecycle.session_active,
{
    let r = lifecycle.spec_respond(response).1;
    if lifecycle.visible is Some {
        assert(r.len() == 2);
        assert(!(r[0] is Present));
        assert(r[1] == InterventionAction::Present(InterventionPresentation::Hide));
    }
}

/// A session end (or system idle) and a new session both dismiss a visible
/// intervention with exactly one Hide, and a new session reaching the third
/// threshold shows it again.
pub proof fn lemma_session_boundaries_dismiss_and_reset(
    lifecycle: InterventionLifecycle,
    ended: DistractionEvent,
    started: DistractionEvent,
    third: DistractionEvent,
)
    requires
        lifecycle.visible is Some,
        ended is Ended,
        started is Started,
        third matches DistractionEvent::Threshold { seconds, .. } && seconds == THIRD_THRESHOLD_SECONDS,
    ensures
        lifecycle.spec_handle_distraction_event(ended).1 == seq![
            InterventionAction::Present(InterventionPresentation::Hide),
        ],
        lifecycle.spec_end_session().1 == seq![
            InterventionAction::Present(InterventionPresentation::Hide),
        ],
        lifecycle.spec_handle_distraction_event(started).1 == seq![
            InterventionAction::Present(InterventionPresentation::Hide),
        ],
        ({
            let fresh = lifecycle.spec_handle_distraction_event(ended).0.spec_handle_distraction_event(
                started,
            ).0;
            fresh.spec_handle_distraction_event(third).1 == seq![
                InterventionAction::Present(
                    InterventionPresentation::Show(Intervention::StillScrolling),
                ),
            ]
        }),
{
}

/// The intervention controller: the lifecycle plus the handlers that present
/// interventions and receive responses, called in the order the lifecycle
/// emits its actions.
pub struct InterventionController<
    P: Fn(InterventionPresentation),
    R: Fn(InterventionResponse),
> {
    lifecycle: InterventionLifecycle,
    presentation_handler: P,
    response_handler: R,
    delivered: Ghost<Seq<InterventionAction>>,
}

impl<P: Fn(InterventionPresentation), R: Fn(InterventionResponse)> InterventionController<P, R> {
    pub closed spec fn lifecycle(self) -> InterventionLifecycle {
        self.lifecycle
    }

    /// Every action delivered to the handlers so far, in order.
    pub closed spec fn delivered(self) -> Seq<InterventionAction> {
        self.delivered@
    }

    /// The handler that presents interventions.
    pub closed spec fn presentation_handler(self) -> P {
        self.presentation_handler
    }

    /// The handler that receives responses.
    pub closed spec fn response_handler(self) -> R {
        self.response_handler
    }

    /// A call of the matching handler with the action's value returned.
    pub open spec fn handed(self, action: InterventionAction) -> bool {
        match action {
            InterventionAction::Present(p) => call_ensures(self.presentation_handler(), (p,), ()),
            InterventionAction::Response(r) => call_ensures(self.response_handler(), (r,), ()),
        }
    }

    /// Each delivered action was handed to its handler.
    pub open spec fn delivered_by_calls(self) -> bool {
        forall|i: int| 0 <= i < self.delivered().len() ==> self.handed(#[trigger] self.delivered()[i])
    }

    #[verifier::type_invariant]
    closed spec fn handlers_callable(self) -> bool {
        &&& forall|p: InterventionPresentation| self.presentation_handler.requires((p,))
        &&& forall|r: InterventionResponse| self.response_handler.requires((r,))
        &&& forall|i: int|
            0 <= i < self.delivered@.len() ==> match #[trigger] self.delivered@[i] {
                InterventionAction::Present(p) => call_ensures(self.presentation_handler, (p,), ()),
                InterventionAction::Response(r) => call_ensures(self.response_handler, (r,), ()),
            }
    }

    pub fn new(presentation_handler: P, response_handler: R) -> (controller: Self)
        requires
            forall|p: InterventionPresentation| presentation_handler.requires((p,)),
            forall|r: InterventionResponse| response_handler.requires((r,)),
        ensures
            controller.lifecycle() == InterventionLifecycle::new_spec(),
            controller.delivered() == Seq::<InterventionAction>::empty(),
            controller.presentation_handler() == presentation_handler,
            controller.response_handler() == response_handler,
            controller.delivered_by_calls(),
    {
        InterventionController {
            lifecycle: InterventionLifecycle::new(),
            presentation_handler,
            response_handler,
            delivered: Ghost(Seq::empty()),
        }
    }

    pub fn handle_distraction_event(&mut self, event: DistractionEvent)
        ensures
            final(self).presentation_handler() == old(self).presentation_handler(),
            final(self).response_handler() == old(self).response_handler(),
            final(self).delivered_by_calls(),
            final(self).lifecycle() == old(self).lifecycle().spec_handle_distraction_event(event).0,
            final(self).delivered() == old(self).delivered() + old(
                self,
            ).lifecycle().spec_handle_distraction_event(event).1,
    {
        proof {
            use_type_invariant(&*self);
        }
        let mut lifecycle = self.lifecycle;
        let actions = lifecycle.handle_distraction_event(event);
        self.lifecycle = lifecycle;
        self.handle_actions(actions);
    }

    pub fn respond(&mut self, response: InterventionResponse)
        ensures
            final(self).presentation_handler() == old(self).presentation_handler(),
            final(self).response_handler() == old(self).response_handler(),
            final(self).delivered_by_calls(),
            final(self).lifecycle() == old(self).lifecycle().spec_respond(response).0,
            final(self).delivered() == old(self).delivered() + old(self).lifecycle().spec_respond(
                response,
            ).1,
    {
        proof {
            use_type_invariant(&*self);
        }
        let mut lifecycle = self.lifecycle;
        let actions = lifecycle.respond(response);
        self.lifecycle = lifecycle;
        self.handle_actions(actions);
    }

    pub fn system_idle(&mut self)
        ensures
            final(self).presentation_handler() == old(self).presentation_handler(),
            final(self).response_handler() == old(self).response_handler(),
            final(self).delivered_by_calls(),
            final(self).lifecycle() == old(self).lifecycle().spec_end_session().0,
            final(self).delivered() == old(self).delivered() + old(
                self,
            ).lifecycle().spec_end_session().1,
    {
        proof {
            use_type_invariant(&*self);
        }
        let mut lifecycle = self.lifecycle;
        let actions = lifecycle.system_idle();
        self.lifecycle = lifecycle;
        self.handle_actions(actions);
    }

    fn handle_actions(&mut self, actions: Vec<InterventionAction>)
        ensures
            final(self).presentation_handler() == old(self).presentation_handler(),
            final(self).response_handler() == old(self).response_handler(),
            final(self).delivered_by_calls(),
            final(self).lifecycle() == old(self).lifecycle(),
            final(self).delivered() == old(self).delivered() + actions@,
    {
        proof {
            use_type_invariant(&*self);
        }
        let mut index: usize = 0;
        while index < actions.len()
            invariant
                0 <= index <= actions@.len(),
                self.lifecycle == old(self).lifecycle,
                self.delivered@ == old(self).delivered@ + actions@.subrange(0, index as int),
                forall|p: InterventionPresentation| self.presentation_handler.requires((p,)),
                forall|r: InterventionResponse| self.response_handler.requires((r,)),
                self.presentation_handler == old(self).presentation_handler,
                self.response_handler == old(self).response_handler,
                forall|i: int|
                    0 <= i < self.delivered@.len() ==> match #[trigger] self.delivered@[i] {
                        InterventionAction::Present(p) => call_ensures(
                            self.presentation_handler,
                            (p,),
                            (),
                        ),
                        InterventionAction::Response(r) => call_ensures(
                            self.response_handler,
                            (r,),
                            (),
                        ),
                    },
            decreases actions@.len() - index,
        {
            let action = actions[index];
            match action {
                InterventionAction::Present(presentation) => (self.presentation_handler)(
                    presentation,
                ),
                InterventionAction::Response(response) => (self.response_handler)(response),
            }
            proof {
                self.delivered@ = self.delivered@.push(action);
            }
            assert(actions@.subrange(0, index + 1) =~= actions@.subrange(0, index as int).push(
                action,
            ));
            index = index + 1;
        }
        assert(actions@.subrange(0, actions@.len() as int) =~= actions@);
    }
}

impl InterventionLifecycle {
    pub open spec fn new_spec() -> InterventionLifecycle {
        InterventionLifecycle { session_active: false, requested_this_session: false, visible: None }
    }
}

} // verus!
