//! The per-connection handler, as a state machine.
//!
//! A handler task owns one raw connection. It drives the TLS handshake,
//! writes the fixed response, and closes; a failure during the handshake or
//! the write moves it to the absorbing `Errored` state. The driving loop
//! performs the I/O that each action names and feeds the outcome back in as
//! the next event.

use vstd::prelude::*;

use crate::ServerError;
use crate::spec_is_fatal;

verus! {

/// Where a handler stands in its life cycle.
#[derive(Clone, Copy, Debug, PartialEq, Eq, Structural)]
pub enum HandlerState {
    /// The raw connection is accepted; nothing has been attempted yet.
    Accepted,
    /// The TLS handshake is in flight.
    Handshaking,
    /// The handshake succeeded; the response write is in flight.
    HandshakeComplete,
    /// The whole response has been written and flushed.
    ResponseSent,
    /// The connection is released; nothing more happens.
    Closed,
    /// A handshake or write failure ended the handler; absorbing.
    Errored(ServerError),
}

/// What the driving loop observed since the last step.
#[derive(Clone, Copy, Debug, PartialEq, Eq, Structural)]
pub enum HandlerEvent {
    /// Nothing was pending; take the next step of the life cycle.
    Proceed,
    /// The TLS handshake completed and yielded a session.
    HandshakeSucceeded,
    /// The TLS handshake failed (malformed hello, protocol mismatch, I/O error).
    HandshakeFailed,
    /// The full response was written and flushed.
    WriteSucceeded,
    /// The write or the flush failed before completion.
    WriteFailed,
}

/// What the driving loop must do after a step.
#[derive(Clone, Copy, Debug, PartialEq, Eq, Structural)]
pub enum HandlerAction {
    /// Start the TLS handshake on the raw connection.
    BeginHandshake,
    /// Write the fixed response to the TLS session, then flush.
    SendResponse,
    /// Release the TLS session and the raw connection.
    ReleaseConnection,
    /// Report the error, then release the connection; the task ends.
    Report(ServerError),
    /// Nothing: the handler is finished or the event did not apply.
    DoNothing,
}

/// The transition relation of the handler: one handshake attempt, then at
/// most one write attempt, then closing. An event that cannot occur in the
/// given state changes nothing. Terminal states absorb every event.
pub open spec fn spec_handler_step(s: HandlerState, e: HandlerEvent) -> (HandlerState, HandlerAction) {
    match (s, e) {
        (HandlerState::Accepted, HandlerEvent::Proceed) => (
            HandlerState::Handshaking,
            HandlerAction::BeginHandshake,
        ),
        (HandlerState::Handshaking, HandlerEvent::HandshakeSucceeded) => (
            HandlerState::HandshakeComplete,
            HandlerAction::SendResponse,
        ),
        (HandlerState::Handshaking, HandlerEvent::HandshakeFailed) => (
            HandlerState::Errored(ServerError::HandshakeFailed),
            HandlerAction::Report(ServerError::HandshakeFailed),
        ),
        (HandlerState::HandshakeComplete, HandlerEvent::WriteSucceeded) => (
            HandlerState::ResponseSent,
            HandlerAction::ReleaseConnection,
        ),
        (HandlerState::HandshakeComplete, HandlerEvent::WriteFailed) => (
            HandlerState::Errored(ServerError::WriteFailed),
            HandlerAction::Report(ServerError::WriteFailed),
        ),
        (HandlerState::ResponseSent, HandlerEvent::Proceed) => (
            HandlerState::Closed,
            HandlerAction::DoNothing,
        ),
        _ => (s, HandlerAction::DoNothing),
    }
}

/// A state from which no further I/O happens.
pub open spec fn spec_is_terminal(s: HandlerState) -> bool {
    s is Closed || s is Errored
}

/// Takes one step of the handler life cycle.
pub fn handler_step(s: HandlerState, e: HandlerEvent) -> (r: (HandlerState, HandlerAction))
    ensures
        r == spec_handler_step(s, e),
{
    match (s, e) {
        (HandlerState::Accepted, HandlerEvent::Proceed) => (
            HandlerState::Handshaking,
            HandlerAction::BeginHandshake,
        ),
        (HandlerState::Handshaking, HandlerEvent::HandshakeSucceeded) => (
            HandlerState::HandshakeComplete,
            HandlerAction::SendResponse,
        ),
        (HandlerState::Handshaking, HandlerEvent::HandshakeFailed) => (
            HandlerState::Errored(ServerError::HandshakeFailed),
            HandlerAction::Report(ServerError::HandshakeFailed),
        ),
        (HandlerState::HandshakeComplete, HandlerEvent::WriteSucceeded) => (
            HandlerState::ResponseSent,
            HandlerAction::ReleaseConnection,
        ),
        (HandlerState::HandshakeComplete, HandlerEvent::WriteFailed) => (
            HandlerState::Errored(ServerError::WriteFailed),
            HandlerAction::Report(ServerError::WriteFailed),
        ),
        (HandlerState::ResponseSent, HandlerEvent::Proceed) => (
            HandlerState::Closed,
            HandlerAction::DoNothing,
        ),
        _ => (s, HandlerAction::DoNothing),
    }
}

/// The states a handler passes through on a sequence of events, starting
/// from `s`: element `i` is the state after the first `i` events.
pub open spec fn spec_run_states(s: HandlerState, events: Seq<HandlerEvent>) -> Seq<HandlerState>
    decreases events.len(),
{
    if events.len() == 0 {
        seq![s]
    } else {
        seq![s] + spec_run_states(spec_handler_step(s, events[0]).0, events.drop_first())
    }
}

/// The actions a handler emits on a sequence of events, starting from `s`.
pub open spec fn spec_run_actions(s: HandlerState, events: Seq<HandlerEvent>) -> Seq<HandlerAction>
    decreases events.len(),
{
    if events.len() == 0 {
        Seq::empty()
    } else {
        seq![spec_handler_step(s, events[0]).1] + spec_run_actions(
            spec_handler_step(s, events[0]).0,
            events.drop_first(),
        )
    }
}

/// How often an action occurs in a sequence of actions.
pub open spec fn spec_count_action(actions: Seq<HandlerAction>, a: HandlerAction) -> int
    decreases actions.len(),
{
    if actions.len() == 0 {
        0
    } else {
        spec_count_action(actions.drop_first(), a) + if actions[0] == a {
            1int
        } else {
            0int
        }
    }
}

/// No step ever moves into `Accepted` from elsewhere: a step that ends in
/// `Accepted` started there and did nothing. A handshake is begun only from
/// `Accepted`, and that step leaves it.
pub proof fn lemma_no_return_to_accepted(s: HandlerState, e: HandlerEvent)
    ensures
        spec_handler_step(s, e).0 is Accepted ==> s is Accepted && spec_handler_step(s, e).1
            == HandlerAction::DoNothing,
        spec_handler_step(s, e).1 is BeginHandshake ==> s is Accepted && spec_handler_step(s, e).0
            !is Accepted,
{
}

/// `Closed` and `Errored` absorb every event without further action.
pub proof fn lemma_terminal_states_absorb(s: HandlerState, e: HandlerEvent)
    requires
        spec_is_terminal(s),
    ensures
        spec_handler_step(s, e).0 == s,
        spec_handler_step(s, e).1 == HandlerAction::DoNothing,
{
}

/// `Errored` is reached only by a handshake failure while handshaking or a
/// write failure while sending, each carrying the matching error; and every
/// error a handler can end in is per-connection, never fatal to the server.
pub proof fn lemma_errored_only_from_io_failure(s: HandlerState, e: HandlerEvent)
    ensures
        spec_handler_step(s, e).0 matches HandlerState::Errored(err) ==> {
            ||| (s is Handshaking && e is HandshakeFailed && err == ServerError::HandshakeFailed)
            ||| (s is HandshakeComplete && e is WriteFailed && err == ServerError::WriteFailed)
            ||| s == HandlerState::Errored(err)
        },
        s !is Errored ==> (spec_handler_step(s, e).0 matches HandlerState::Errored(err)
            ==> !spec_is_fatal(err)),
{
}

/// A terminal handler never moves again: whatever events still arrive,
/// every later state of the run is the terminal state itself — a finished
/// or failed connection's task is over, and nothing can revive it.
pub proof fn lemma_terminal_run_constant(s: HandlerState, events: Seq<HandlerEvent>)
    requires
        spec_is_terminal(s),
    ensures
        forall|j: int|
            0 <= j < spec_run_states(s, events).len() ==> spec_run_states(s, events)[j] == s,
    decreases events.len(),
{
    if events.len() > 0 {
        lemma_terminal_states_absorb(s, events[0]);
        lemma_terminal_run_constant(s, events.drop_first());
        let rest = spec_run_states(s, events.drop_first());
        assert(spec_run_states(s, events) == seq![s] + rest);
        assert forall|j: int| 0 <= j < spec_run_states(s, events).len() implies spec_run_states(
            s,
            events,
        )[j] == s by {
            if j > 0 {
                assert((seq![s] + rest)[j] == rest[j - 1]);
            }
        }
    }
}

/// Every connection gets exactly one handshake attempt: however the run
/// goes, a handler started in any state begins at most one handshake, and
/// one started in `Accepted` begins at most one however many events arrive.
pub proof fn lemma_single_handshake_attempt(s: HandlerState, events: Seq<HandlerEvent>)
    ensures
        spec_count_action(spec_run_actions(s, events), HandlerAction::BeginHandshake) <= (
        if s is Accepted {
            1int
        } else {
            0int
        }),
    decreases events.len(),
{
    if events.len() > 0 {
        let step = spec_handler_step(s, events[0]);
        let rest = spec_run_actions(step.0, events.drop_first());
        assert(spec_run_actions(s, events) == seq![step.1] + rest);
        assert((seq![step.1] + rest)[0] == step.1);
        assert((seq![step.1] + rest).drop_first() =~= rest);
        lemma_no_return_to_accepted(s, events[0]);
        lemma_single_handshake_attempt(step.0, events.drop_first());
    }
}

} // verus!
