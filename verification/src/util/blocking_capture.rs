//! A packet transport over a capture API that only blocks.
//!
//! Where the OS capture handle has no non-blocking mode, its receive and
//! send callbacks each run on a worker thread, one call at a time. A
//! [`Runner`] owns one callback and is either idle, holding it, or
//! running, holding the join handle of the worker that will hand the
//! callback back together with its result. The state changes are
//! verified; the polling that drives a running worker to completion needs
//! the executor and lives outside the crate.

use std::io;
use tokio::task::JoinHandle;
use vstd::prelude::*;

verus! {

/// Relies on tokio's `JoinHandle`: an owned permission to join one
/// spawned task; opaque here, carried through and joined outside the
/// crate.
#[verifier::external_type_specification]
#[verifier::external_body]
#[verifier::reject_recursive_types(T)]
pub struct ExJoinHandle<T>(JoinHandle<T>);

/// Relies on tokio's `JoinError`, the error a join can end with; named
/// because `JoinHandle`'s `Future` impl mentions it.
#[verifier::external_type_specification]
#[verifier::external_body]
pub struct ExJoinError(tokio::task::JoinError);

/// Relies on the standard library's `io::Error`: the error type of the
/// capture callbacks; opaque here, carried through unread.
#[verifier::external_type_specification]
#[verifier::external_body]
pub struct ExIoError(io::Error);

/// One blocking callback and, while it runs, the worker running it.
#[verifier::reject_recursive_types(F)]
#[verifier::reject_recursive_types(R)]
pub enum Runner<F, R> {
    /// Placeholder held only inside a state change, while the callback
    /// moves between the other two states.
    Temp,
    /// The callback, idle and ready to be started.
    Idle(F),
    /// A worker thread is running the callback; joining the handle
    /// yields the callback's result and the callback itself.
    Running(JoinHandle<(R, F)>),
}

/// Relies on tokio's `spawn_blocking`: the worker thread runs `call` on
/// `f` once, and joining the returned handle yields the pair of `call`'s
/// result and `f`.
#[verifier::external_body]
fn spawn_callback<F, R, C>(call: C, f: F) -> JoinHandle<(R, F)> where
    C: Fn(&mut F) -> R + Send + Sync + 'static,
    F: Send + 'static,
    R: Send + 'static,
 {
    let mut func = f;
    tokio::task::spawn_blocking(move || (call(&mut func), func))
}

impl<F, R> Runner<F, R> where F: Send + 'static, R: Send + 'static {
    /// True while the callback waits to be started.
    pub fn is_idle(&self) -> (r: bool)
        ensures
            r == (self is Idle),
    {
        matches!(self, Runner::Idle(_))
    }

    /// Hands the idle callback to a worker thread.
    pub fn start<C>(&mut self, call: C) where C: Fn(&mut F) -> R + Send + Sync + 'static
        requires
            *old(self) is Idle,
        ensures
            *final(self) is Running,
    {
        let mut taken = Runner::Temp;
        core::mem::swap(self, &mut taken);
        let f = taken.get_func();
        let h = spawn_callback(call, f);
        *self = Runner::Running(h);
    }

    /// Takes the callback out of an idle runner.
    pub fn get_func(self) -> (f: F)
        requires
            self is Idle,
        ensures
            f == self->Idle_0,
    {
        match self {
            Runner::Idle(f) => f,
            _ => vstd::pervasive::unreached(),
        }
    }

    /// Takes the join handle out of a running runner.
    pub fn get_running(self) -> (h: JoinHandle<(R, F)>)
        requires
            self is Running,
        ensures
            h == self->Running_0,
    {
        match self {
            Runner::Running(h) => h,
            _ => vstd::pervasive::unreached(),
        }
    }
}

/// A duplex packet transport over two blocking callbacks: `recv` blocks
/// until it can return one received frame, `send` blocks until it has
/// written the frame it was given. Each runs on its own worker thread,
/// one call at a time; `temp` parks a frame whose send could not start.
#[verifier::reject_recursive_types(R)]
#[verifier::reject_recursive_types(S)]
pub struct BlockingCapture<R, S> {
    pub recv: Runner<R, io::Result<Vec<u8>>>,
    pub send: Runner<S, io::Result<()>>,
    pub temp: Option<Vec<u8>>,
}

impl<R, S> BlockingCapture<R, S> where
    R: FnMut() -> io::Result<Vec<u8>> + Send + Sync + 'static,
    S: FnMut(&[u8]) -> io::Result<()> + Send + Sync + 'static,
 {
    /// Wraps the two callbacks; both start idle, no frame is parked, and
    /// construction always succeeds.
    pub fn new(recv: R, send: S) -> (r: io::Result<BlockingCapture<R, S>>)
        ensures
            r is Ok,
            r->Ok_0.recv is Idle,
            r->Ok_0.send is Idle,
            r->Ok_0.temp is None,
    {
        Ok(BlockingCapture { recv: Runner::Idle(recv), send: Runner::Idle(send), temp: None })
    }
}

} // verus!
