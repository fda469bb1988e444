//! Bookkeeping for the engine's socket table.
//!
//! The engine stores every socket in a slot table and hands out handles
//! that are indices into it. The allocator owns that table, chooses the
//! buffer sizes each kind of socket is born with, and guarantees that
//! every created socket occupies exactly one slot until its handle is
//! dropped, when exactly that slot is freed again.

use crate::wire::IpEndpoint;
use vstd::prelude::*;

verus! {

/// Per-kind sizes of the rx/tx byte rings and, for datagram sockets, of
/// their per-packet metadata rings, fixed at socket creation.
#[derive(Clone, Copy, PartialEq, Eq, Structural, Debug)]
pub struct BufferSize {
    pub tcp_rx_size: usize,
    pub tcp_tx_size: usize,
    pub udp_rx_size: usize,
    pub udp_tx_size: usize,
    pub udp_rx_meta_size: usize,
    pub udp_tx_meta_size: usize,
    pub raw_rx_size: usize,
    pub raw_tx_size: usize,
    pub raw_rx_meta_size: usize,
    pub raw_tx_meta_size: usize,
}

impl Default for BufferSize {
    /// 8 KiB byte rings everywhere; 32 metadata slots for datagram sockets.
    fn default() -> (r: BufferSize)
        ensures
            r.tcp_rx_size == 8192,
            r.tcp_tx_size == 8192,
            r.udp_rx_size == 8192,
            r.udp_tx_size == 8192,
            r.udp_rx_meta_size == 32,
            r.udp_tx_meta_size == 32,
            r.raw_rx_size == 8192,
            r.raw_tx_size == 8192,
            r.raw_rx_meta_size == 32,
            r.raw_tx_meta_size == 32,
    {
        BufferSize {
            tcp_rx_size: 8192,
            tcp_tx_size: 8192,
            udp_rx_size: 8192,
            udp_tx_size: 8192,
            udp_rx_meta_size: 32,
            udp_tx_meta_size: 32,
            raw_rx_size: 8192,
            raw_tx_size: 8192,
            raw_rx_meta_size: 32,
            raw_tx_meta_size: 32,
        }
    }
}

/// The IP version a raw socket is opened for.
#[derive(Clone, Copy, PartialEq, Eq, Structural, Debug)]
pub enum IpVersion {
    Ipv4,
    Ipv6,
}

/// An IP protocol number, as carried in the protocol field of a packet
/// header.
#[derive(Clone, Copy, PartialEq, Eq, Structural, Debug)]
pub struct IpProtocol(pub u8);

/// Which kind of socket a slot holds.
#[derive(Clone, Copy, PartialEq, Eq, Structural, Debug)]
pub enum SocketKind {
    Tcp,
    Udp,
    Raw { ip_version: IpVersion, ip_protocol: IpProtocol },
}

/// What the allocator records about one live socket: its kind, the buffer
/// sizes it was born with, and the local endpoint it listens or is bound
/// on, once a facade has set one.
#[derive(Clone, Copy, PartialEq, Eq, Debug)]
pub struct SocketMeta {
    pub kind: SocketKind,
    pub rx_size: usize,
    pub tx_size: usize,
    pub rx_meta_size: usize,
    pub tx_meta_size: usize,
    pub bound: Option<IpEndpoint>,
}

/// The record a fresh TCP socket gets: byte rings per the configuration,
/// no metadata rings, nothing bound yet.
pub open spec fn tcp_meta(bs: BufferSize) -> SocketMeta {
    SocketMeta {
        kind: SocketKind::Tcp,
        rx_size: bs.tcp_rx_size,
        tx_size: bs.tcp_tx_size,
        rx_meta_size: 0,
        tx_meta_size: 0,
        bound: None,
    }
}

/// The record a fresh UDP socket gets.
pub open spec fn udp_meta(bs: BufferSize) -> SocketMeta {
    SocketMeta {
        kind: SocketKind::Udp,
        rx_size: bs.udp_rx_size,
        tx_size: bs.udp_tx_size,
        rx_meta_size: bs.udp_rx_meta_size,
        tx_meta_size: bs.udp_tx_meta_size,
        bound: None,
    }
}

/// The record a fresh raw socket gets.
pub open spec fn raw_meta(bs: BufferSize, ip_version: IpVersion, ip_protocol: IpProtocol) -> SocketMeta {
    SocketMeta {
        kind: SocketKind::Raw { ip_version, ip_protocol },
        rx_size: bs.raw_rx_size,
        tx_size: bs.raw_tx_size,
        rx_meta_size: bs.raw_rx_meta_size,
        tx_meta_size: bs.raw_tx_meta_size,
        bound: None,
    }
}

/// How many slots of `s` hold a socket.
pub open spec fn count_live(s: Seq<Option<SocketMeta>>) -> nat
    decreases s.len(),
{
    if s.len() == 0 {
        0
    } else {
        count_live(s.drop_last()) + (if s.last() is Some {
            1nat
        } else {
            0nat
        })
    }
}

/// The first free slot of `s` at or after `i`; the length of `s` when all
/// slots from `i` on are taken.
pub open spec fn first_free_from(s: Seq<Option<SocketMeta>>, i: nat) -> nat
    decreases s.len() - i,
{
    if i >= s.len() {
        s.len()
    } else if s[i as int] is None {
        i
    } else {
        first_free_from(s, i + 1)
    }
}

/// The slot a new socket goes to: the first free one, else a fresh slot at
/// the end.
pub open spec fn first_free(s: Seq<Option<SocketMeta>>) -> nat {
    first_free_from(s, 0)
}

/// Adding a socket record: it fills the first free slot, or grows the
/// table by one; the result pairs the new table with the handle.
pub open spec fn spec_add(s: Seq<Option<SocketMeta>>, m: SocketMeta) -> (Seq<Option<SocketMeta>>, nat) {
    let h = first_free(s);
    if h < s.len() {
        (s.update(h as int, Some(m)), h)
    } else {
        (s.push(Some(m)), h)
    }
}

/// Removing a socket: its slot becomes free, everything else stays.
pub open spec fn spec_remove(s: Seq<Option<SocketMeta>>, h: nat) -> Seq<Option<SocketMeta>> {
    s.update(h as int, None)
}

/// Updating one slot changes the live count by the difference the slot
/// contributes.
proof fn lemma_count_update(s: Seq<Option<SocketMeta>>, i: int, v: Option<SocketMeta>)
    requires
        0 <= i < s.len(),
    ensures
        count_live(s.update(i, v)) == count_live(s) + (if v is Some {
            1int
        } else {
            0int
        }) - (if s[i] is Some {
            1int
        } else {
            0int
        }),
    decreases s.len(),
{
    let t = s.update(i, v);
    if i == s.len() - 1 {
        assert(t.drop_last() =~= s.drop_last());
    } else {
        assert(t.drop_last() =~= s.drop_last().update(i, v));
        lemma_count_update(s.drop_last(), i, v);
    }
}

/// Appending a slot adds its contribution to the live count.
proof fn lemma_count_push(s: Seq<Option<SocketMeta>>, v: Option<SocketMeta>)
    ensures
        count_live(s.push(v)) == count_live(s) + (if v is Some {
            1int
        } else {
            0int
        }),
{
    assert(s.push(v).drop_last() =~= s);
}

/// The first free slot is free, and everything before it is taken.
proof fn lemma_first_free_props(s: Seq<Option<SocketMeta>>, i: nat)
    requires
        i <= s.len(),
    ensures
        i <= first_free_from(s, i) <= s.len(),
        first_free_from(s, i) < s.len() ==> s[first_free_from(s, i) as int] is None,
        forall|j: int| i <= j < first_free_from(s, i) ==> s[j] is Some,
    decreases s.len() - i,
{
    if i < s.len() && !(s[i as int] is None) {
        lemma_first_free_props(s, i + 1);
    }
}

/// Scanning for a free slot from the start or from inside an all-taken
/// prefix finds the same slot.
proof fn lemma_first_free_prefix(s: Seq<Option<SocketMeta>>, i: nat)
    requires
        i <= s.len(),
        forall|j: int| 0 <= j < i ==> s[j] is Some,
    ensures
        first_free(s) == first_free_from(s, i),
    decreases i,
{
    if i > 0 {
        lemma_first_free_prefix(s, (i - 1) as nat);
    }
}

/// The slot a new socket goes to never lies beyond the end of the table.
pub proof fn lemma_first_free_in_range(s: Seq<Option<SocketMeta>>)
    ensures
        first_free(s) <= s.len(),
        first_free(s) < s.len() ==> s[first_free(s) as int] is None,
{
    lemma_first_free_props(s, 0);
}

/// The engine's socket table: a growable sequence of slots, each free or
/// holding one socket's record.
pub struct SocketSet {
    slots: Vec<Option<SocketMeta>>,
}

impl SocketSet {
    /// The slot table.
    pub closed spec fn slots(self) -> Seq<Option<SocketMeta>> {
        self.slots@
    }

    /// Handle `h` names a live socket.
    pub open spec fn live(self, h: nat) -> bool {
        h < self.slots().len() && self.slots()[h as int] is Some
    }

    /// How many sockets are live.
    pub open spec fn live_count(self) -> nat {
        count_live(self.slots())
    }

    /// An empty table.
    pub fn new() -> (r: SocketSet)
        ensures
            r.slots() =~= Seq::<Option<SocketMeta>>::empty(),
            r.live_count() == 0,
    {
        SocketSet { slots: Vec::new() }
    }

    /// Stores a new socket record in the first free slot (growing the
    /// table if none is free) and returns its handle.
    pub fn add(&mut self, meta: SocketMeta) -> (h: usize)
        ensures
            final(self).slots() == spec_add(old(self).slots(), meta).0,
            h == spec_add(old(self).slots(), meta).1,
            final(self).live(h as nat),
            final(self).slots()[h as int] == Some(meta),
            final(self).live_count() == old(self).live_count() + 1,
            forall|j: int|
                0 <= j < old(self).slots().len() && j != h ==> final(self).slots()[j] == old(
                    self,
                ).slots()[j],
            !old(self).live(h as nat),
    {
        let ghost s0 = self.slots@;
        let mut i: usize = 0;
        while i < self.slots.len() && self.slots[i].is_some()
            invariant
                0 <= i <= self.slots@.len(),
                self.slots@ == s0,
                forall|j: int| 0 <= j < i ==> s0[j] is Some,
            decreases self.slots@.len() - i,
        {
            i = i + 1;
        }
        proof {
            lemma_first_free_prefix(s0, i as nat);
            lemma_first_free_props(s0, i as nat);
            assert(first_free(s0) == i);
        }
        if i < self.slots.len() {
            self.slots[i] = Some(meta);
            proof {
                lemma_count_update(s0, i as int, Some(meta));
            }
        } else {
            self.slots.push(Some(meta));
            proof {
                lemma_count_push(s0, Some(meta));
            }
        }
        i
    }

    /// Reads the record of a live socket.
    pub fn get(&self, h: usize) -> (m: SocketMeta)
        requires
            self.live(h as nat),
        ensures
            Some(m) == self.slots()[h as int],
    {
        self.slots[h].unwrap()
    }

    /// Frees the slot a handle owns and returns its record; every other
    /// slot is untouched, and exactly one socket leaves the table.
    pub fn remove(&mut self, h: usize) -> (m: SocketMeta)
        requires
            old(self).live(h as nat),
        ensures
            final(self).slots() == spec_remove(old(self).slots(), h as nat),
            Some(m) == old(self).slots()[h as int],
            final(self).live_count() == old(self).live_count() - 1,
            forall|j: int|
                0 <= j < old(self).slots().len() && j != h ==> final(self).slots()[j] == old(
                    self,
                ).slots()[j],
    {
        let ghost s0 = self.slots@;
        let m = self.slots[h].unwrap();
        self.slots[h] = None;
        proof {
            lemma_count_update(s0, h as int, None);
        }
        m
    }

    /// Counts the live sockets, as the spec-level live count.
    pub fn live_sockets(&self) -> (r: usize)
        ensures
            r == self.live_count(),
    {
        let ghost s = self.slots@;
        let mut count: usize = 0;
        let mut i: usize = 0;
        while i < self.slots.len()
            invariant
                0 <= i <= s.len(),
                self.slots@ == s,
                count == count_live(s.take(i as int)),
                count <= i,
            decreases s.len() - i,
        {
            proof {
                assert(s.take(i + 1).drop_last() =~= s.take(i as int));
                assert(s.take(i + 1).last() == s[i as int]);
            }
            if self.slots[i].is_some() {
                count = count + 1;
            }
            i = i + 1;
        }
        proof {
            assert(s.take(s.len() as int) =~= s);
        }
        count
    }

    /// Records the local endpoint a live socket listens or is bound on.
    pub fn set_bound(&mut self, h: usize, endpoint: IpEndpoint)
        requires
            old(self).live(h as nat),
        ensures
            final(self).slots() == old(self).slots().update(
                h as int,
                Some(
                    SocketMeta {
                        bound: Some(endpoint),
                        ..old(self).slots()[h as int]->Some_0
                    },
                ),
            ),
            final(self).live_count() == old(self).live_count(),
            final(self).live(h as nat),
    {
        let ghost s0 = self.slots@;
        let mut m = self.slots[h].unwrap();
        m.bound = Some(endpoint);
        self.slots[h] = Some(m);
        proof {
            lemma_count_update(s0, h as int, Some(m));
        }
    }
}

/// Creating a socket and then dropping its handle frees exactly the slot
/// it occupied: the live count returns to what it was, and every slot
/// holds what it held before.
pub proof fn lemma_handle_lifecycle(s: Seq<Option<SocketMeta>>, m: SocketMeta)
    ensures
        ({
            let (s1, h) = spec_add(s, m);
            let s2 = spec_remove(s1, h);
            &&& count_live(s2) == count_live(s)
            &&& forall|j: int|
                0 <= j < s.len() && j != h ==> s2[j] == s[j]
            &&& forall|j: int| 0 <= j < s2.len() ==> (s2[j] is Some ==> j < s.len() && s[j] == s2[j])
        }),
{
    let h = first_free(s);
    lemma_first_free_props(s, 0);
    let (s1, hh) = spec_add(s, m);
    let s2 = spec_remove(s1, hh);
    if h < s.len() {
        lemma_count_update(s, h as int, Some(m));
        lemma_count_update(s1, h as int, None);
    } else {
        lemma_count_push(s, Some(m));
        lemma_count_update(s1, h as int, None);
    }
}

/// Owns the socket table and a buffer-size configuration; every socket it
/// creates is born with the rings the configuration names for its kind.
pub struct SocketAlloctor {
    set: SocketSet,
    buffer_size: BufferSize,
}

impl SocketAlloctor {
    /// The socket table.
    pub closed spec fn set(self) -> SocketSet {
        self.set
    }

    /// The configured buffer sizes.
    pub closed spec fn spec_buffer_size(self) -> BufferSize {
        self.buffer_size
    }

    /// An allocator over an empty table.
    pub fn new(buffer_size: BufferSize) -> (r: SocketAlloctor)
        ensures
            r.set().slots() =~= Seq::<Option<SocketMeta>>::empty(),
            r.set().live_count() == 0,
            r.spec_buffer_size() == buffer_size,
    {
        SocketAlloctor { set: SocketSet::new(), buffer_size }
    }

    /// Creates a TCP socket with the configured byte rings and returns its
    /// handle.
    pub fn new_tcp_socket(&mut self) -> (h: usize)
        ensures
            final(self).spec_buffer_size() == old(self).spec_buffer_size(),
            final(self).set().slots() == spec_add(
                old(self).set().slots(),
                tcp_meta(old(self).spec_buffer_size()),
            ).0,
            h == spec_add(old(self).set().slots(), tcp_meta(old(self).spec_buffer_size())).1,
            final(self).set().live(h as nat),
            final(self).set().slots()[h as int] == Some(tcp_meta(old(self).spec_buffer_size())),
            final(self).set().live_count() == old(self).set().live_count() + 1,
            !old(self).set().live(h as nat),
            forall|j: int|
                0 <= j < old(self).set().slots().len() && j != h ==> final(self).set().slots()[j]
                    == old(self).set().slots()[j],
    {
        let meta = self.alloc_tcp_socket();
        self.set.add(meta)
    }

    /// Creates a UDP socket with the configured byte and metadata rings
    /// and returns its handle.
    pub fn new_udp_socket(&mut self) -> (h: usize)
        ensures
            final(self).spec_buffer_size() == old(self).spec_buffer_size(),
            final(self).set().slots() == spec_add(
                old(self).set().slots(),
                udp_meta(old(self).spec_buffer_size()),
            ).0,
            h == spec_add(old(self).set().slots(), udp_meta(old(self).spec_buffer_size())).1,
            final(self).set().live(h as nat),
            final(self).set().slots()[h as int] == Some(udp_meta(old(self).spec_buffer_size())),
            final(self).set().live_count() == old(self).set().live_count() + 1,
            !old(self).set().live(h as nat),
            forall|j: int|
                0 <= j < old(self).set().slots().len() && j != h ==> final(self).set().slots()[j]
                    == old(self).set().slots()[j],
    {
        let meta = self.alloc_udp_socket();
        self.set.add(meta)
    }

    /// Creates a raw socket for one IP version and protocol, with the
    /// configured byte and metadata rings, and returns its handle.
    pub fn new_raw_socket(&mut self, ip_version: IpVersion, ip_protocol: IpProtocol) -> (h: usize)
        ensures
            final(self).spec_buffer_size() == old(self).spec_buffer_size(),
            final(self).set().slots() == spec_add(
                old(self).set().slots(),
                raw_meta(old(self).spec_buffer_size(), ip_version, ip_protocol),
            ).0,
            h == spec_add(
                old(self).set().slots(),
                raw_meta(old(self).spec_buffer_size(), ip_version, ip_protocol),
            ).1,
            final(self).set().live(h as nat),
            final(self).set().slots()[h as int] == Some(
                raw_meta(old(self).spec_buffer_size(), ip_version, ip_protocol),
            ),
            final(self).set().live_count() == old(self).set().live_count() + 1,
            !old(self).set().live(h as nat),
            forall|j: int|
                0 <= j < old(self).set().slots().len() && j != h ==> final(self).set().slots()[j]
                    == old(self).set().slots()[j],
    {
        let meta = self.alloc_raw_socket(ip_version, ip_protocol);
        self.set.add(meta)
    }

    /// Drops a handle: frees exactly the slot it owns.
    pub fn remove(&mut self, h: usize) -> (m: SocketMeta)
        requires
            old(self).set().live(h as nat),
        ensures
            final(self).spec_buffer_size() == old(self).spec_buffer_size(),
            final(self).set().slots() == spec_remove(old(self).set().slots(), h as nat),
            Some(m) == old(self).set().slots()[h as int],
            final(self).set().live_count() == old(self).set().live_count() - 1,
    {
        self.set.remove(h)
    }

    /// Reads the record of a live socket.
    pub fn get(&self, h: usize) -> (m: SocketMeta)
        requires
            self.set().live(h as nat),
        ensures
            Some(m) == self.set().slots()[h as int],
    {
        self.set.get(h)
    }

    /// Counts the live sockets, as the spec-level live count.
    pub fn live_sockets(&self) -> (r: usize)
        ensures
            r == self.set().live_count(),
    {
        self.set.live_sockets()
    }

    /// Records the local endpoint a live socket listens or is bound on.
    pub fn set_bound(&mut self, h: usize, endpoint: IpEndpoint)
        requires
            old(self).set().live(h as nat),
        ensures
            final(self).spec_buffer_size() == old(self).spec_buffer_size(),
            final(self).set().slots() == old(self).set().slots().update(
                h as int,
                Some(
                    SocketMeta {
                        bound: Some(endpoint),
                        ..old(self).set().slots()[h as int]->Some_0
                    },
                ),
            ),
            final(self).set().live_count() == old(self).set().live_count(),
            final(self).set().live(h as nat),
    {
        self.set.set_bound(h, endpoint)
    }

    fn alloc_tcp_socket(&self) -> (m: SocketMeta)
        ensures
            m == tcp_meta(self.spec_buffer_size()),
    {
        SocketMeta {
            kind: SocketKind::Tcp,
            rx_size: self.buffer_size.tcp_rx_size,
            tx_size: self.buffer_size.tcp_tx_size,
            rx_meta_size: 0,
            tx_meta_size: 0,
            bound: None,
        }
    }

    fn alloc_udp_socket(&self) -> (m: SocketMeta)
        ensures
            m == udp_meta(self.spec_buffer_size()),
    {
        SocketMeta {
            kind: SocketKind::Udp,
            rx_size: self.buffer_size.udp_rx_size,
            tx_size: self.buffer_size.udp_tx_size,
            rx_meta_size: self.buffer_size.udp_rx_meta_size,
            tx_meta_size: self.buffer_size.udp_tx_meta_size,
            bound: None,
        }
    }

    fn alloc_raw_socket(&self, ip_version: IpVersion, ip_protocol: IpProtocol) -> (m: SocketMeta)
        ensures
            m == raw_meta(self.spec_buffer_size(), ip_version, ip_protocol),
    {
        SocketMeta {
            kind: SocketKind::Raw { ip_version, ip_protocol },
            rx_size: self.buffer_size.raw_rx_size,
            tx_size: self.buffer_size.raw_tx_size,
            rx_meta_size: self.buffer_size.raw_rx_meta_size,
            tx_meta_size: self.buffer_size.raw_tx_meta_size,
            bound: None,
        }
    }
}

} // verus!
