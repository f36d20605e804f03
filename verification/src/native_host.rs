//! The native host's forwarding policy: a message for Milo is written on the
//! local connection, and when that fails the connection is dropped, made
//! again and the message written once more.

use vstd::prelude::*;

verus! {

/// Where forwarding one message stands.
#[derive(Clone, Copy, Debug, PartialEq, Eq, Structural)]
pub enum ForwardPhase {
    /// Waiting to learn whether a connection is (or could be made) open.
    Connecting,
    /// The message was written once; waiting for the outcome.
    FirstWrite,
    /// The first write failed; waiting to learn whether reconnecting worked.
    Reconnecting,
    /// The message was written again; waiting for the outcome.
    SecondWrite,
    /// Nothing more is done for this message.
    Done,
}

/// What the host does next.
#[derive(Clone, Copy, Debug, PartialEq, Eq, Structural)]
pub enum ForwardAction {
    /// Write the message on the open connection.
    Write,
    /// Drop the connection and try to connect again.
    Reconnect,
    /// Drop the connection.
    Disconnect,
    /// Stop: the message was forwarded or given up.
    Stop,
}

pub open spec fn spec_forward_step(phase: ForwardPhase, succeeded: bool) -> (ForwardPhase, ForwardAction) {
    match phase {
        ForwardPhase::Connecting => if succeeded {
            (ForwardPhase::FirstWrite, ForwardAction::Write)
        } else {
            (ForwardPhase::Done, ForwardAction::Stop)
        },
        ForwardPhase::FirstWrite => if succeeded {
            (ForwardPhase::Done, ForwardAction::Stop)
        } else {
            (ForwardPhase::Reconnecting, ForwardAction::Reconnect)
        },
        ForwardPhase::Reconnecting => if succeeded {
            (ForwardPhase::SecondWrite, ForwardAction::Write)
        } else {
            (ForwardPhase::Done, ForwardAction::Stop)
        },
        ForwardPhase::SecondWrite => if succeeded {
            (ForwardPhase::Done, ForwardAction::Stop)
        } else {
            (ForwardPhase::Done, ForwardAction::Disconnect)
        },
        ForwardPhase::Done => (ForwardPhase::Done, ForwardAction::Stop),
    }
}

/// One step of forwarding: `succeeded` is the outcome of what the previous
/// action did (connecting, or writing).
pub fn forward_step(phase: ForwardPhase, succeeded: bool) -> (next: (ForwardPhase, ForwardAction))
    ensures
        next == spec_forward_step(phase, succeeded),
{
    match phase {
        ForwardPhase::Connecting => if succeeded {
            (ForwardPhase::FirstWrite, ForwardAction::Write)
        } else {
            (ForwardPhase::Done, ForwardAction::Stop)
        },
        ForwardPhase::FirstWrite => if succeeded {
            (ForwardPhase::Done, ForwardAction::Stop)
        } else {
            (ForwardPhase::Reconnecting, ForwardAction::Reconnect)
        },
        ForwardPhase::Reconnecting => if succeeded {
            (ForwardPhase::SecondWrite, ForwardAction::Write)
        } else {
            (ForwardPhase::Done, ForwardAction::Stop)
        },
        ForwardPhase::SecondWrite => if succeeded {
            (ForwardPhase::Done, ForwardAction::Stop)
        } else {
            (ForwardPhase::Done, ForwardAction::Disconnect)
        },
        ForwardPhase::Done => (ForwardPhase::Done, ForwardAction::Stop),
    }
}

/// The actions taken from `phase` for the given outcomes, one per outcome.
pub open spec fn forward_actions(phase: ForwardPhase, outcomes: Seq<bool>) -> Seq<ForwardAction>
    decreases outcomes.len(),
{
    if outcomes.len() == 0 {
        Seq::empty()
    } else {
        let (next, action) = spec_forward_step(phase, outcomes[0]);
        seq![action] + forward_actions(next, outcomes.drop_first())
    }
}

/// The number of writes among `actions`.
pub open spec fn write_count(actions: Seq<ForwardAction>) -> nat
    decreases actions.len(),
{
    if actions.len() == 0 {
        0
    } else {
        (if actions[0] == ForwardAction::Write { 1nat } else { 0nat }) + write_count(
            actions.drop_first(),
        )
    }
}

/// Writes still allowed from a phase.
pub open spec fn write_budget(phase: ForwardPhase) -> nat {
    match phase {
        ForwardPhase::Connecting => 2,
        ForwardPhase::FirstWrite => 1,
        ForwardPhase::Reconnecting => 1,
        ForwardPhase::SecondWrite => 0,
        ForwardPhase::Done => 0,
    }
}

/// A message is written at most twice, whatever the connection does: once,
/// and once more after a reconnect.
pub proof fn lemma_message_written_at_most_twice(phase: ForwardPhase, outcomes: Seq<bool>)
    ensures
        write_count(forward_actions(phase, outcomes)) <= write_budget(phase),
    decreases outcomes.len(),
{
    if outcomes.len() > 0 {
        let (next, action) = spec_forward_step(phase, outcomes[0]);
        lemma_message_written_at_most_twice(next, outcomes.drop_first());
        let actions = forward_actions(phase, outcomes);
        assert(actions[0] == action);
        assert(actions.drop_first() =~= forward_actions(next, outcomes.drop_first()));
    }
}

} // verus!
