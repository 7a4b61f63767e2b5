//! The listener-loop decisions: what the server does at startup, what it
//! does with each item the listening socket yields, and how a finished
//! handler task's outcome is absorbed without touching the loop.

use vstd::prelude::*;

use crate::ServerError;
use crate::config::TlsServerConfig;
use crate::spec_is_fatal;

verus! {

/// What the process does once the configuration step is decided: bind the
/// listening socket, or exit with a fatal error before any bind is tried.
#[derive(Clone, Copy, Debug, PartialEq, Eq, Structural)]
pub enum StartupStep {
    /// The configuration was built: bind the listener and start accepting.
    BindListener,
    /// Startup failed: exit the process with this error; nothing is bound.
    Exit(ServerError),
}

/// Selects the one usable address from what resolution yielded: the first
/// resolved address, or `AddressResolution` when resolution yielded none.
pub fn select_address<A>(addrs: Vec<A>) -> (r: Result<A, ServerError>)
    ensures
        addrs@.len() == 0 <==> r is Err,
        r matches Ok(a) ==> a == addrs@[0],
        r matches Err(e) ==> e == ServerError::AddressResolution,
{
    let mut addrs = addrs;
    if addrs.len() == 0 {
        Err(ServerError::AddressResolution)
    } else {
        Ok(addrs.remove(0))
    }
}

/// Decides whether the process may bind the listener: only a successfully
/// built configuration leads to a bind, and a configuration failure exits
/// with exactly that error — the listener is never bound after one.
pub fn plan_startup(config: &Result<TlsServerConfig, ServerError>) -> (r: StartupStep)
    ensures
        config is Ok <==> r is BindListener,
        config matches Err(e) ==> r == StartupStep::Exit(*e),
{
    match config {
        Ok(_) => StartupStep::BindListener,
        Err(e) => StartupStep::Exit(*e),
    }
}

/// One item of the listening socket's infinite sequence, as the loop sees
/// it: either an established raw connection or a failed accept.
#[derive(Clone, Copy, Debug, PartialEq, Eq, Structural)]
pub enum ListenerItem {
    /// A raw connection was accepted.
    Connection,
    /// Accepting the next connection failed.
    AcceptError,
}

/// What the loop does with one listener item.
#[derive(Clone, Copy, Debug, PartialEq, Eq, Structural)]
pub enum DispatchStep {
    /// Duplicate the acceptor handle, hand the connection to a fresh
    /// independent task, and go on to the next item at once.
    SpawnHandler,
    /// Stop the listener loop with the given fatal error.
    StopListening(ServerError),
}

/// What becomes of a finished handler task's outcome at the task boundary.
/// There is deliberately no variant that reaches the listener loop.
#[derive(Clone, Copy, Debug, PartialEq, Eq, Structural)]
pub enum TaskReport {
    /// The handler finished cleanly; nothing to report.
    Completed,
    /// The handler failed; the error is reported once, with nothing retried.
    Reported(ServerError),
}

/// The decision the loop takes for one listener item: every accepted
/// connection is handed to its own task, and any accept failure ends the
/// whole loop.
pub open spec fn spec_dispatch(item: ListenerItem) -> DispatchStep {
    match item {
        ListenerItem::Connection => DispatchStep::SpawnHandler,
        ListenerItem::AcceptError => DispatchStep::StopListening(ServerError::AcceptFailed),
    }
}

/// Decides what to do with one listener item.
pub fn dispatch(item: ListenerItem) -> (r: DispatchStep)
    ensures
        r == spec_dispatch(item),
{
    match item {
        ListenerItem::Connection => DispatchStep::SpawnHandler,
        ListenerItem::AcceptError => DispatchStep::StopListening(ServerError::AcceptFailed),
    }
}

/// Absorbs a finished handler task's outcome: a clean finish reports
/// nothing, a failure is reported exactly once. Whatever the outcome, the
/// result has no way of stopping the listener or another task.
pub fn settle_task(outcome: Result<(), ServerError>) -> (r: TaskReport)
    ensures
        outcome is Ok <==> r is Completed,
        outcome matches Err(e) ==> r == TaskReport::Reported(e),
{
    match outcome {
        Ok(()) => TaskReport::Completed,
        Err(e) => TaskReport::Reported(e),
    }
}

/// The decisions the loop takes for a whole prefix of the listener's
/// sequence, one per item, in arrival order.
pub open spec fn spec_dispatch_run(items: Seq<ListenerItem>) -> Seq<DispatchStep> {
    items.map_values(|item: ListenerItem| spec_dispatch(item))
}

/// However many connections arrive and in whatever order they are
/// interleaved with nothing else, every one of them is handed to its own
/// handler task: as long as no accept fails, the loop spawns one handler
/// per item and never stops.
pub proof fn lemma_every_connection_spawned(items: Seq<ListenerItem>)
    requires
        forall|i: int| 0 <= i < items.len() ==> items[i] is Connection,
    ensures
        spec_dispatch_run(items).len() == items.len(),
        forall|i: int|
            0 <= i < items.len() ==> spec_dispatch_run(items)[i] == DispatchStep::SpawnHandler,
{
}

/// A handler task's outcome never stops the loop: the decision for any
/// later item is the same whatever any earlier task reported, because the
/// decision depends on that item alone.
pub proof fn lemma_task_outcome_cannot_stop_loop(items: Seq<ListenerItem>, i: int)
    requires
        0 <= i < items.len(),
    ensures
        spec_dispatch_run(items)[i] == spec_dispatch(items[i]),
        spec_dispatch(items[i]) is StopListening ==> items[i] is AcceptError,
{
}

/// The loop stops only for a fatal error: the error a `StopListening`
/// decision carries is fatal, and no per-connection error can appear there.
pub proof fn lemma_stop_is_fatal(item: ListenerItem)
    ensures
        spec_dispatch(item) matches DispatchStep::StopListening(e) ==> spec_is_fatal(e),
{
}

} // verus!
