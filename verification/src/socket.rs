//! Decision rules of the socket facades.
//!
//! A facade call briefly borrows the engine's socket, observes it, and then
//! does one of three things: completes, fails, or registers the task's waker
//! and suspends. The functions here take the observation as plain values and
//! return the decision; the unverified rim performs it. Every suspending
//! decision names the waker slot to register, so a task never suspends
//! without a wake-up arranged.

use crate::socket_allocator::{spec_add, tcp_meta, BufferSize, SocketAlloctor, SocketMeta};
use crate::wire::{IpEndpoint, SocketAddr};
use vstd::prelude::*;

verus! {

/// The engine's per-socket waker slots: one for the receive direction, one
/// for the send direction.
#[derive(Clone, Copy, PartialEq, Eq, Structural, Debug)]
pub enum WakerSlot {
    Recv,
    Send,
}

/// The states of the engine's TCP state machine.
#[derive(Clone, Copy, PartialEq, Eq, Structural, Debug)]
pub enum TcpState {
    Closed,
    Listen,
    SynSent,
    SynReceived,
    Established,
    FinWait1,
    FinWait2,
    CloseWait,
    Closing,
    LastAck,
    TimeWait,
}

/// The socket address carrying an endpoint's data.
pub open spec fn spec_ep2sa(ep: IpEndpoint) -> SocketAddr {
    SocketAddr { ip: ep.addr, port: ep.port }
}

/// The endpoint carrying a socket address's data.
pub open spec fn spec_sa2ep(sa: SocketAddr) -> IpEndpoint {
    IpEndpoint { addr: sa.ip, port: sa.port }
}

/// Translates an engine endpoint into an application socket address.
pub fn ep2sa(ep: &IpEndpoint) -> (r: SocketAddr)
    ensures
        r == spec_ep2sa(*ep),
        r.ip == ep.addr,
        r.port == ep.port,
{
    SocketAddr { ip: ep.addr, port: ep.port }
}

/// Translates an application socket address into an engine endpoint.
pub fn sa2ep(sa: &SocketAddr) -> (r: IpEndpoint)
    ensures
        r == spec_sa2ep(*sa),
        r.addr == sa.ip,
        r.port == sa.port,
{
    IpEndpoint { addr: sa.ip, port: sa.port }
}

/// An endpoint and a socket address carry the same data: translating one
/// into the other and back yields the value it started from.
pub proof fn lemma_endpoint_round_trip(ep: IpEndpoint, sa: SocketAddr)
    ensures
        spec_sa2ep(spec_ep2sa(ep)) == ep,
        spec_ep2sa(spec_sa2ep(sa)) == sa,
{
}

/// What a read on a TCP stream does after observing the socket.
#[derive(Clone, Copy, PartialEq, Eq, Structural, Debug)]
pub enum ReadStep {
    /// The peer can send nothing more: report end of stream (zero bytes).
    Eof,
    /// Received bytes are waiting: copy them out and complete.
    Recv,
    /// Nothing to read yet: register the named waker and suspend.
    Wait(WakerSlot),
}

/// What a write on a TCP stream does after observing the socket.
#[derive(Clone, Copy, PartialEq, Eq, Structural, Debug)]
pub enum WriteStep {
    /// The connection can take no more data, ever: fail with a broken pipe.
    BrokenPipe,
    /// Room in the transmit ring: enqueue the bytes, wake the reactor,
    /// and complete.
    Send,
    /// The ring is full: register the named waker and suspend.
    Wait(WakerSlot),
}

/// What a flush, a shutdown, a connect or an accept does after observing
/// the socket: complete now, or register the named waker and suspend.
#[derive(Clone, Copy, PartialEq, Eq, Structural, Debug)]
pub enum CompletionStep {
    Ready,
    Wait(WakerSlot),
}

/// How the engine answered a datagram send.
#[derive(Clone, Copy, PartialEq, Eq, Structural, Debug)]
pub enum SendOutcome {
    /// The payload entered the transmit buffer.
    Sent,
    /// The transmit buffer has no room for the payload.
    Truncated,
    /// Any other engine error.
    Failed,
}

/// How the engine answered a datagram receive.
#[derive(Clone, Copy, PartialEq, Eq, Debug)]
pub enum RecvOutcome {
    /// A datagram of `size` bytes from `source` was copied out.
    Received { size: usize, source: IpEndpoint },
    /// The receive buffer holds no datagram.
    Exhausted,
    /// Any other engine error.
    Failed,
}

/// What a datagram send does after the engine answered.
#[derive(Clone, Copy, PartialEq, Eq, Structural, Debug)]
pub enum SendToStep {
    /// Complete with the full payload length, after waking the reactor so
    /// it drains the transmit queue.
    NotifyAndComplete,
    /// Buffer full: register the named waker and suspend.
    Wait(WakerSlot),
    /// Surface the engine error to the caller.
    Fail,
}

/// What a datagram receive does after the engine answered.
#[derive(Clone, Copy, PartialEq, Eq, Debug)]
pub enum RecvFromStep {
    /// Complete with the size and the sender's socket address.
    Complete { size: usize, source: SocketAddr },
    /// Nothing buffered: register the named waker and suspend.
    Wait(WakerSlot),
    /// Surface the engine error to the caller.
    Fail,
}

/// A TCP read: end of stream once the peer can send nothing more, bytes
/// when some are buffered, otherwise suspend on the receive waker.
pub fn poll_read_step(may_recv: bool, can_recv: bool) -> (r: ReadStep)
    ensures
        r is Eof <==> !may_recv,
        r is Recv <==> may_recv && can_recv,
        r is Wait <==> may_recv && !can_recv,
        r is Wait ==> r->Wait_0 == WakerSlot::Recv,
{
    if !may_recv {
        ReadStep::Eof
    } else if can_recv {
        ReadStep::Recv
    } else {
        ReadStep::Wait(WakerSlot::Recv)
    }
}

/// A TCP write: broken pipe once the socket can send nothing more, enqueue
/// when the ring has room, otherwise suspend on the send waker.
pub fn poll_write_step(may_send: bool, can_send: bool) -> (r: WriteStep)
    ensures
        r is BrokenPipe <==> !may_send,
        r is Send <==> may_send && can_send,
        r is Wait <==> may_send && !can_send,
        r is Wait ==> r->Wait_0 == WakerSlot::Send,
{
    if !may_send {
        WriteStep::BrokenPipe
    } else if can_send {
        WriteStep::Send
    } else {
        WriteStep::Wait(WakerSlot::Send)
    }
}

/// A TCP flush: done once the transmit ring is empty, otherwise suspend on
/// the send waker. Only the local queue is awaited, not the peer's
/// acknowledgement.
pub fn poll_flush_step(send_queue: usize) -> (r: CompletionStep)
    ensures
        r is Ready <==> send_queue == 0,
        r is Wait <==> send_queue != 0,
        r is Wait ==> r->Wait_0 == WakerSlot::Send,
{
    if send_queue == 0 {
        CompletionStep::Ready
    } else {
        CompletionStep::Wait(WakerSlot::Send)
    }
}

/// A TCP shutdown, after the close was issued: done once the state machine
/// reaches `Closed`, otherwise suspend on the send waker.
pub fn poll_shutdown_step(state: TcpState) -> (r: CompletionStep)
    ensures
        r is Ready <==> state is Closed,
        r is Wait <==> !(state is Closed),
        r is Wait ==> r->Wait_0 == WakerSlot::Send,
{
    if state == TcpState::Closed {
        CompletionStep::Ready
    } else {
        CompletionStep::Wait(WakerSlot::Send)
    }
}

/// A connect or an accept: ready once the state machine reaches
/// `Established`, otherwise suspend on the send waker.
pub fn poll_established_step(state: TcpState) -> (r: CompletionStep)
    ensures
        r is Ready <==> state is Established,
        r is Wait <==> !(state is Established),
        r is Wait ==> r->Wait_0 == WakerSlot::Send,
{
    if state == TcpState::Established {
        CompletionStep::Ready
    } else {
        CompletionStep::Wait(WakerSlot::Send)
    }
}

/// A datagram send: a full transmit buffer suspends on the send waker, any
/// other error is surfaced, success completes after waking the reactor.
pub fn poll_send_to_step(outcome: SendOutcome) -> (r: SendToStep)
    ensures
        r is NotifyAndComplete <==> outcome is Sent,
        r is Wait <==> outcome is Truncated,
        r is Fail <==> outcome is Failed,
        r is Wait ==> r->Wait_0 == WakerSlot::Send,
{
    match outcome {
        SendOutcome::Sent => SendToStep::NotifyAndComplete,
        SendOutcome::Truncated => SendToStep::Wait(WakerSlot::Send),
        SendOutcome::Failed => SendToStep::Fail,
    }
}

/// A datagram receive: an empty receive buffer suspends on the receive
/// waker, any other error is surfaced, success completes with the size and
/// the sender's address.
pub fn poll_recv_from_step(outcome: RecvOutcome) -> (r: RecvFromStep)
    ensures
        r is Complete <==> outcome is Received,
        r is Wait <==> outcome is Exhausted,
        r is Fail <==> outcome is Failed,
        outcome is Received ==> r->Complete_size == outcome->Received_size
            && r->Complete_source.ip == outcome->Received_source.addr
            && r->Complete_source.port == outcome->Received_source.port,
        r is Wait ==> r->Wait_0 == WakerSlot::Recv,
{
    match outcome {
        RecvOutcome::Received { size, source } => RecvFromStep::Complete {
            size,
            source: ep2sa(&source),
        },
        RecvOutcome::Exhausted => RecvFromStep::Wait(WakerSlot::Recv),
        RecvOutcome::Failed => RecvFromStep::Fail,
    }
}


/// The record of a TCP socket listening on `local`.
pub open spec fn listening_meta(bs: BufferSize, local: IpEndpoint) -> SocketMeta {
    SocketMeta { bound: Some(local), ..tcp_meta(bs) }
}

/// One accept on the slot table: a fresh TCP socket is created and set
/// listening on the listener's local endpoint; the result pairs the new
/// table with the handle of the new listening socket.
pub open spec fn spec_accept(
    s: Seq<Option<SocketMeta>>,
    bs: BufferSize,
    local: IpEndpoint,
) -> (Seq<Option<SocketMeta>>, nat) {
    let (s1, h) = spec_add(s, tcp_meta(bs));
    (s1.update(h as int, Some(listening_meta(bs, local))), h)
}

/// The slot table and listener handle after `k` accepts in a row.
pub open spec fn apply_accepts(
    s: Seq<Option<SocketMeta>>,
    listener: nat,
    bs: BufferSize,
    local: IpEndpoint,
    k: nat,
) -> (Seq<Option<SocketMeta>>, nat)
    decreases k,
{
    if k == 0 {
        (s, listener)
    } else {
        let (prev, _) = apply_accepts(s, listener, bs, local, (k - 1) as nat);
        spec_accept(prev, bs, local)
    }
}

/// Accepting an established connection: the listener's slot becomes the
/// accepted stream's slot, and a fresh socket, listening on the same
/// local endpoint, takes over the listener handle. The accepted stream's
/// slot is untouched, and exactly one socket joins the table.
pub fn accept_swap(
    alloc: &mut SocketAlloctor,
    listener_handle: &mut usize,
    local_endpoint: IpEndpoint,
) -> (stream_handle: usize)
    requires
        old(alloc).set().live(*old(listener_handle) as nat),
    ensures
        stream_handle == *old(listener_handle),
        *final(listener_handle) != stream_handle,
        final(alloc).set().live(*final(listener_handle) as nat),
        final(alloc).set().slots()[*final(listener_handle) as int] == Some(
            listening_meta(old(alloc).spec_buffer_size(), local_endpoint),
        ),
        final(alloc).set().slots()[stream_handle as int] == old(alloc).set().slots()[stream_handle as int],
        final(alloc).set().slots() == spec_accept(
            old(alloc).set().slots(),
            old(alloc).spec_buffer_size(),
            local_endpoint,
        ).0,
        *final(listener_handle) == spec_accept(
            old(alloc).set().slots(),
            old(alloc).spec_buffer_size(),
            local_endpoint,
        ).1,
        final(alloc).set().live_count() == old(alloc).set().live_count() + 1,
        final(alloc).spec_buffer_size() == old(alloc).spec_buffer_size(),
    {
    let new_handle = alloc.new_tcp_socket();
    alloc.set_bound(new_handle, local_endpoint);
    let stream_handle = *listener_handle;
    *listener_handle = new_handle;
    stream_handle
}

/// However many connections a listener accepts, it is afterwards still
/// listening, on the same local endpoint.
pub proof fn lemma_listener_cycle(
    s: Seq<Option<SocketMeta>>,
    listener: nat,
    bs: BufferSize,
    local: IpEndpoint,
    k: nat,
)
    requires
        listener < s.len(),
        s[listener as int] == Some(listening_meta(bs, local)),
    ensures
        ({
            let (sk, lk) = apply_accepts(s, listener, bs, local, k);
            &&& lk < sk.len()
            &&& sk[lk as int] == Some(listening_meta(bs, local))
        }),
    decreases k,
{
    if k > 0 {
        lemma_listener_cycle(s, listener, bs, local, (k - 1) as nat);
        let (prev, _) = apply_accepts(s, listener, bs, local, (k - 1) as nat);
        crate::socket_allocator::lemma_first_free_in_range(prev);
    }
}

/// Whether a decision suspends the calling task.
pub open spec fn read_step_pending(r: ReadStep) -> bool {
    r is Wait
}

/// The waker slot a suspending read registers.
pub open spec fn read_step_waker(r: ReadStep) -> Option<WakerSlot> {
    match r {
        ReadStep::Wait(w) => Some(w),
        _ => None,
    }
}

/// Whether a decision suspends the calling task.
pub open spec fn write_step_pending(r: WriteStep) -> bool {
    r is Wait
}

/// The waker slot a suspending write registers.
pub open spec fn write_step_waker(r: WriteStep) -> Option<WakerSlot> {
    match r {
        WriteStep::Wait(w) => Some(w),
        _ => None,
    }
}

/// Whether a decision suspends the calling task.
pub open spec fn completion_step_pending(r: CompletionStep) -> bool {
    r is Wait
}

/// The waker slot a suspending completion registers.
pub open spec fn completion_step_waker(r: CompletionStep) -> Option<WakerSlot> {
    match r {
        CompletionStep::Wait(w) => Some(w),
        _ => None,
    }
}

/// Whether a decision suspends the calling task.
pub open spec fn send_to_step_pending(r: SendToStep) -> bool {
    r is Wait
}

/// The waker slot a suspending datagram send registers.
pub open spec fn send_to_step_waker(r: SendToStep) -> Option<WakerSlot> {
    match r {
        SendToStep::Wait(w) => Some(w),
        _ => None,
    }
}

/// Whether a decision suspends the calling task.
pub open spec fn recv_from_step_pending(r: RecvFromStep) -> bool {
    r is Wait
}

/// The waker slot a suspending datagram receive registers.
pub open spec fn recv_from_step_waker(r: RecvFromStep) -> Option<WakerSlot> {
    match r {
        RecvFromStep::Wait(w) => Some(w),
        _ => None,
    }
}

/// No facade call suspends without arranging its wake-up: a decision is
/// pending exactly when it registers a waker slot with the engine's
/// socket, for every facade operation.
pub proof fn lemma_pending_registers_waker()
    ensures
        forall|r: ReadStep| read_step_pending(r) <==> read_step_waker(r) is Some,
        forall|r: WriteStep| write_step_pending(r) <==> write_step_waker(r) is Some,
        forall|r: CompletionStep| completion_step_pending(r) <==> completion_step_waker(r) is Some,
        forall|r: SendToStep| send_to_step_pending(r) <==> send_to_step_waker(r) is Some,
        forall|r: RecvFromStep| recv_from_step_pending(r) <==> recv_from_step_waker(r) is Some,
{
}

} // verus!
