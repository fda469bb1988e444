//! Decision rules of the reactor, the single task that drives the engine.
//!
//! Each tick of the reactor drains the engine's outgoing frames to the
//! transport, decides whether and how long to sleep, feeds buffered
//! incoming frames to the engine, and polls the engine until it settles.
//! The waiting, waking and re-polling decisions are functions of plain
//! observations; the unverified rim performs the awaits they call for.

use crate::socket_allocator::SocketKind;
use vstd::prelude::*;

verus! {

/// How long the reactor sleeps when the engine names no deadline: a safety
/// net, not a user-visible timeout.
pub const DEFAULT_TIMEOUT_MS: u64 = 60_000;

/// How long to sleep before the next tick: the engine's suggested poll
/// deadline, or the safety-net timeout when it names none.
pub fn wait_deadline_ms(poll_delay_ms: Option<u64>) -> (r: u64)
    ensures
        r == match poll_delay_ms {
            Some(d) => d,
            None => DEFAULT_TIMEOUT_MS,
        },
{
    match poll_delay_ms {
        Some(d) => d,
        None => DEFAULT_TIMEOUT_MS,
    }
}

/// What woke the reactor from its sleep.
#[derive(Clone, Copy, PartialEq, Eq, Structural, Debug)]
pub enum WakeEvent {
    /// The sleep deadline passed: time to poll the engine again.
    DeadlineExpired,
    /// The transport produced a frame.
    FrameArrived,
    /// A facade submitted outbound data and rang the notifier.
    Notified,
    /// The stop signal: the owner was dropped.
    Stopped,
}

/// Whether the loop runs another tick after this wake-up: every event
/// continues the loop except the stop signal, which ends the reactor.
pub fn tick_continues(event: WakeEvent) -> (r: bool)
    ensures
        r == !(event is Stopped),
{
    !matches!(event, WakeEvent::Stopped)
}

/// How one call of the engine's poll ended.
#[derive(Clone, Copy, PartialEq, Eq, Structural, Debug)]
pub enum PollOutcome {
    /// The poll completed and reported whether anything changed.
    Completed,
    /// The engine found no more work in its buffers.
    Exhausted,
    /// Any other engine error, to be logged and ignored.
    Failed,
}

/// Whether the engine is polled again in the same tick: a completed poll
/// and an exhausted engine both settle the tick; any other error is
/// ignored and the poll retried.
pub fn poll_again(outcome: PollOutcome) -> (r: bool)
    ensures
        r == (outcome is Failed),
{
    matches!(outcome, PollOutcome::Failed)
}

/// Whether tearing the reactor down issues a close for this socket: TCP
/// and UDP sockets are closed gracefully; raw sockets need no action.
pub fn needs_close(kind: SocketKind) -> (r: bool)
    ensures
        r == !(kind is Raw),
{
    !matches!(kind, SocketKind::Raw { .. })
}

} // verus!
