//! The buffered shim device between the synchronous protocol engine and an
//! asynchronous packet transport.
//!
//! The engine insists on acquiring receive and transmit tokens synchronously;
//! the transport produces and consumes whole frames asynchronously. The
//! [`BufferDevice`] decouples the two with a pair of bounded FIFO queues.
//! The bound (`max_burst_size`) gives backpressure: the device refuses
//! transmit tokens while the send queue is full, and accepts at most
//! `max_burst_size` incoming frames before the engine has processed them.

use std::collections::VecDeque;
use vstd::prelude::*;

verus! {

/// Value of `max_burst_size` used when the transport does not name one.
pub const DEFAULT_MAX_BURST_SIZE: usize = 100;

/// A whole link-layer frame, owned.
pub type Packet = Vec<u8>;

/// The link-layer framing a transport carries: Ethernet frames with MAC
/// addresses, or bare IP packets.
#[derive(Clone, Copy, PartialEq, Eq, Structural, Debug)]
pub enum Medium {
    Ethernet,
    Ip,
}

/// What a packet transport can do, fixed at its construction: the largest
/// frame it carries, how many frames it can take in one burst, and its
/// link-layer framing.
#[derive(Clone, Copy, Debug)]
pub struct DeviceCapabilities {
    pub max_transmission_unit: usize,
    pub max_burst_size: Option<usize>,
    pub medium: Medium,
}

/// The burst bound that a device built from `caps` uses for both queues.
pub open spec fn spec_burst_size(caps: DeviceCapabilities) -> usize {
    match caps.max_burst_size {
        Some(n) => n,
        None => DEFAULT_MAX_BURST_SIZE,
    }
}

/// The pair of bounded FIFOs that implements the engine's synchronous
/// device contract. The reactor moves frames between these queues and the
/// asynchronous transport; the engine pops received frames and pushes
/// frames to send, never suspending.
pub struct BufferDevice {
    caps: DeviceCapabilities,
    max_burst_size: usize,
    recv_queue: VecDeque<Packet>,
    send_queue: VecDeque<Packet>,
}

impl BufferDevice {
    /// The frames waiting to be handed to the engine, front first.
    pub closed spec fn recv_q(self) -> Seq<Packet> {
        self.recv_queue@
    }

    /// The frames the engine has produced, front first.
    pub closed spec fn send_q(self) -> Seq<Packet> {
        self.send_queue@
    }

    /// The bound both queues respect.
    pub closed spec fn burst_cap(self) -> usize {
        self.max_burst_size
    }

    /// The capabilities the device was built from.
    pub closed spec fn spec_caps(self) -> DeviceCapabilities {
        self.caps
    }

    /// Both queues hold at most `max_burst_size` frames.
    pub open spec fn wf(self) -> bool {
        &&& self.recv_q().len() <= self.burst_cap()
        &&& self.send_q().len() <= self.burst_cap()
        &&& self.burst_cap() == spec_burst_size(self.spec_caps())
    }

    /// Builds an empty device whose burst bound comes from `caps`.
    pub fn new(caps: DeviceCapabilities) -> (r: BufferDevice)
        ensures
            r.wf(),
            r.spec_caps() == caps,
            r.burst_cap() == spec_burst_size(caps),
            r.recv_q() =~= Seq::<Packet>::empty(),
            r.send_q() =~= Seq::<Packet>::empty(),
    {
        let max_burst_size = match caps.max_burst_size {
            Some(n) => n,
            None => DEFAULT_MAX_BURST_SIZE,
        };
        BufferDevice {
            caps,
            max_burst_size,
            recv_queue: VecDeque::with_capacity(max_burst_size),
            send_queue: VecDeque::with_capacity(max_burst_size),
        }
    }

    /// The capabilities the device reports to the engine.
    pub fn capabilities(&self) -> (r: DeviceCapabilities)
        ensures
            r == self.spec_caps(),
    {
        self.caps
    }

    /// The engine's receive side: pops the frame at the front of the
    /// receive queue, if any. The send queue is untouched.
    pub fn receive(&mut self) -> (r: Option<Packet>)
        requires
            old(self).wf(),
        ensures
            final(self).wf(),
            final(self).send_q() == old(self).send_q(),
            final(self).burst_cap() == old(self).burst_cap(),
            final(self).spec_caps() == old(self).spec_caps(),
            match r {
                Some(p) => {
                    &&& old(self).recv_q().len() > 0
                    &&& p == old(self).recv_q()[0]
                    &&& final(self).recv_q() == old(self).recv_q().subrange(
                        1,
                        old(self).recv_q().len() as int,
                    )
                },
                None => {
                    &&& old(self).recv_q().len() == 0
                    &&& final(self).recv_q() == old(self).recv_q()
                },
            },
    {
        self.recv_queue.pop_front()
    }

    /// The engine's transmit gate: a transmit token is issued only while
    /// the send queue is below the burst bound.
    pub fn can_transmit(&self) -> (r: bool)
        ensures
            r == (self.send_q().len() < self.burst_cap()),
    {
        self.send_queue.len() < self.max_burst_size
    }

    /// Consuming a transmit token: the frame the engine wrote enters the
    /// send queue, unless the queue is already at the burst bound, in
    /// which case the frame is refused (backpressure).
    pub fn push_send(&mut self, p: Packet) -> (accepted: bool)
        requires
            old(self).wf(),
        ensures
            final(self).wf(),
            accepted == (old(self).send_q().len() < old(self).burst_cap()),
            accepted ==> final(self).send_q() == old(self).send_q().push(p),
            !accepted ==> final(self).send_q() == old(self).send_q(),
            final(self).recv_q() == old(self).recv_q(),
            final(self).burst_cap() == old(self).burst_cap(),
            final(self).spec_caps() == old(self).spec_caps(),
    {
        if self.send_queue.len() < self.max_burst_size {
            self.send_queue.push_back(p);
            true
        } else {
            false
        }
    }

    /// Consuming a transmit token, completed: the frame enters the send
    /// queue only when the engine's write into it succeeded; a frame the
    /// engine failed to write is discarded.
    pub fn complete_transmit(&mut self, frame: Packet, write_ok: bool) -> (accepted: bool)
        requires
            old(self).wf(),
        ensures
            final(self).wf(),
            accepted == (write_ok && old(self).send_q().len() < old(self).burst_cap()),
            accepted ==> final(self).send_q() == old(self).send_q().push(frame),
            !accepted ==> final(self).send_q() == old(self).send_q(),
            final(self).recv_q() == old(self).recv_q(),
            final(self).burst_cap() == old(self).burst_cap(),
            final(self).spec_caps() == old(self).spec_caps(),
    {
        if write_ok {
            self.push_send(frame)
        } else {
            false
        }
    }

    /// Hands the reactor every frame the engine has produced, in the order
    /// the engine produced them, leaving the send queue empty.
    pub fn take_send_queue(&mut self) -> (r: VecDeque<Packet>)
        requires
            old(self).wf(),
        ensures
            final(self).wf(),
            r@ == old(self).send_q(),
            final(self).send_q() =~= Seq::<Packet>::empty(),
            final(self).recv_q() == old(self).recv_q(),
            final(self).burst_cap() == old(self).burst_cap(),
            final(self).spec_caps() == old(self).spec_caps(),
    {
        let mut taken: VecDeque<Packet> = VecDeque::with_capacity(self.max_burst_size);
        core::mem::swap(&mut self.send_queue, &mut taken);
        taken
    }

    /// Moves frames from the front of the reactor's burst buffer into the
    /// receive queue, as many as fit under the burst bound; the rest stay
    /// in the buffer, order kept on both sides.
    pub fn push_recv_queue(&mut self, packets: &mut VecDeque<Packet>)
        requires
            old(self).wf(),
        ensures
            final(self).wf(),
            final(self).recv_q() == old(self).recv_q() + old(packets)@.take(
                moved_count(*old(self), *old(packets)) as int,
            ),
            final(packets)@ == old(packets)@.skip(moved_count(*old(self), *old(packets)) as int),
            final(self).send_q() == old(self).send_q(),
            final(self).burst_cap() == old(self).burst_cap(),
            final(self).spec_caps() == old(self).spec_caps(),
    {
        let ghost dev0 = *self;
        let ghost pkts0 = *packets;
        let ghost mut i: int = 0;
        while packets.len() > 0 && self.recv_queue.len() < self.max_burst_size
            invariant
                0 <= i <= pkts0@.len(),
                self.recv_q().len() == dev0.recv_q().len() + i,
                i <= dev0.burst_cap() - dev0.recv_q().len(),
                self.wf(),
                self.recv_q() == dev0.recv_q() + pkts0@.take(i),
                packets@ == pkts0@.skip(i),
                self.send_q() == dev0.send_q(),
                self.burst_cap() == dev0.burst_cap(),
                self.spec_caps() == dev0.spec_caps(),
            decreases pkts0@.len() - i,
        {
            let p = packets.pop_front().unwrap();
            self.recv_queue.push_back(p);
            proof {
                assert(pkts0@.take(i + 1) =~= pkts0@.take(i).push(pkts0@[i]));
                i = i + 1;
            }
        }
        proof {
            let k = moved_count(dev0, pkts0) as int;
            if i < pkts0@.len() {
                assert(self.recv_q().len() == self.burst_cap());
                assert(i == k);
            } else {
                assert(i == k);
            }
        }
    }

    /// How many more frames the receive queue can take.
    pub fn avaliable_recv_queue(&self) -> (r: usize)
        requires
            self.wf(),
        ensures
            r == self.burst_cap() - self.recv_q().len(),
    {
        self.max_burst_size - self.recv_queue.len()
    }

    /// True when no received frame is waiting, so the reactor may sleep
    /// until a timer, a new frame, or a wake-up arrives.
    pub fn need_wait(&self) -> (r: bool)
        ensures
            r == (self.recv_q().len() == 0),
    {
        self.recv_queue.len() == 0
    }
}

/// How many frames a burst transfer moves: every buffered frame, unless
/// the receive queue's free room runs out first.
pub open spec fn moved_count(dev: BufferDevice, packets: VecDeque<Packet>) -> nat {
    let room = (dev.burst_cap() - dev.recv_q().len()) as nat;
    if packets@.len() <= room {
        packets@.len()
    } else {
        room
    }
}

} // verus!
