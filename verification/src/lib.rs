//! Core logic of an asynchronous adapter around a poll-driven TCP/IP engine.
//!
//! The crate verifies the pieces of the adapter that decide and account:
//! the bounded packet queues bridging the engine to an async device, the
//! ephemeral-port allocator, endpoint/address translation, the socket-slot
//! bookkeeping, and the facade and reactor decision rules. The unverified
//! async plumbing (the executor task, the device adapters) lives outside
//! this crate and consults these functions for every decision.

use vstd::prelude::*;

pub mod device;
pub mod reactor;
pub mod socket;
pub mod socket_allocator;
pub mod util;
pub mod wire;

verus! {

/// First port of the ephemeral band.
pub const EPHEMERAL_PORT_FIRST: u16 = 10001;

/// Last port of the ephemeral band.
pub const EPHEMERAL_PORT_LAST: u16 = 60000;

/// True when `p` lies in the ephemeral band.
pub open spec fn port_in_band(p: u16) -> bool {
    EPHEMERAL_PORT_FIRST <= p <= EPHEMERAL_PORT_LAST
}

/// The port handed out right after `p`: the next one in the band,
/// wrapping from the last port back to the first.
pub open spec fn spec_port_successor(p: u16) -> u16 {
    if p >= EPHEMERAL_PORT_LAST {
        EPHEMERAL_PORT_FIRST
    } else {
        (p + 1) as u16
    }
}

/// Computes the successor of `p` in the ephemeral band.
pub fn port_successor(p: u16) -> (r: u16)
    ensures
        r == spec_port_successor(p),
{
    if p >= EPHEMERAL_PORT_LAST {
        EPHEMERAL_PORT_FIRST
    } else {
        p + 1
    }
}

/// The counter that hands out ephemeral source ports for outgoing
/// connections and for bind requests that carry port zero.
pub struct EphemeralPorts {
    from_port: u16,
}

impl EphemeralPorts {
    /// True when the counter sits inside the band, so that every
    /// allocation it makes stays inside the band.
    pub closed spec fn wf(self) -> bool {
        port_in_band(self.from_port)
    }

    /// The port the next allocation will return.
    pub closed spec fn spec_next(self) -> u16 {
        self.from_port
    }

    /// Starts the counter at the first port of the band.
    pub fn new() -> (r: EphemeralPorts)
        ensures
            r.wf(),
            r.spec_next() == EPHEMERAL_PORT_FIRST,
    {
        EphemeralPorts { from_port: EPHEMERAL_PORT_FIRST }
    }

    /// Allocates one port: returns the current counter value and steps
    /// the counter to its successor in the band.
    pub fn get_port(&mut self) -> (r: u16)
        requires
            old(self).wf(),
        ensures
            final(self).wf(),
            r == old(self).spec_next(),
            port_in_band(r),
            final(self).spec_next() == spec_port_successor(r),
    {
        let r = self.from_port;
        self.from_port = port_successor(r);
        r
    }
}

/// Consecutive ephemeral-port allocations stay inside the band and
/// differ by exactly one, modulo the width of the band.
pub proof fn lemma_ephemeral_band(p: u16)
    requires
        port_in_band(p),
    ensures
        port_in_band(spec_port_successor(p)),
        spec_port_successor(p) - EPHEMERAL_PORT_FIRST == (p - EPHEMERAL_PORT_FIRST + 1) % (
        EPHEMERAL_PORT_LAST - EPHEMERAL_PORT_FIRST + 1),
{
    let w = (EPHEMERAL_PORT_LAST - EPHEMERAL_PORT_FIRST + 1) as int;
    if p >= EPHEMERAL_PORT_LAST {
        vstd::arithmetic::div_mod::lemma_mod_self_0(w);
    } else {
        vstd::arithmetic::div_mod::lemma_small_mod((p - EPHEMERAL_PORT_FIRST + 1) as nat, w as nat);
    }
}

/// An entry preloaded into the engine's neighbor cache: a protocol
/// address, the hardware address that answers for it, and the entry's
/// timestamp in microseconds.
#[derive(Clone, Copy, Debug, PartialEq, Eq)]
pub struct Neighbor {
    pub protocol_addr: wire::IpAddress,
    pub hardware_addr: wire::EthernetAddress,
    pub timestamp_micros: i64,
}

/// Everything a network instance is built from: its hardware address, its
/// address block, its default gateways, its socket buffer sizes, and the
/// neighbor cache to preload.
pub struct NetConfig {
    pub ethernet_addr: wire::EthernetAddress,
    pub ip_addr: wire::IpCidr,
    pub gateway: Vec<wire::IpAddress>,
    pub buffer_size: socket_allocator::BufferSize,
    pub neighbor_cache: Vec<Neighbor>,
}

/// A default route the interface is built with, one per configured
/// gateway, dispatched on the gateway's address family.
#[derive(Clone, Copy, Debug, PartialEq, Eq)]
pub enum RouteCmd {
    DefaultV4(wire::IpAddress),
    DefaultV6(wire::IpAddress),
}

/// The route that one configured gateway installs.
pub open spec fn spec_route_cmd(g: wire::IpAddress) -> RouteCmd {
    match g {
        wire::IpAddress::V4(_) => RouteCmd::DefaultV4(g),
        wire::IpAddress::V6(_) => RouteCmd::DefaultV6(g),
    }
}

/// How the engine's interface is to be built: whether the builder is
/// given the hardware address and neighbor cache (Ethernet framing only),
/// and which default routes are installed, one per gateway, in
/// configuration order.
pub struct InterfacePlan {
    pub uses_hardware_addr: bool,
    pub routes: Vec<RouteCmd>,
}

/// Decides how to build the interface from the configuration and the
/// transport's framing.
pub fn interface_plan(medium: device::Medium, config: &NetConfig) -> (r: InterfacePlan)
    ensures
        r.uses_hardware_addr == (medium is Ethernet),
        r.routes@.len() == config.gateway@.len(),
        forall|i: int|
            0 <= i < config.gateway@.len() ==> r.routes@[i] == spec_route_cmd(config.gateway@[i]),
{
    let mut routes: Vec<RouteCmd> = Vec::new();
    let mut i: usize = 0;
    while i < config.gateway.len()
        invariant
            0 <= i <= config.gateway@.len(),
            routes@.len() == i,
            forall|j: int| 0 <= j < i ==> routes@[j] == spec_route_cmd(config.gateway@[j]),
        decreases config.gateway@.len() - i,
    {
        let cmd = match config.gateway[i] {
            wire::IpAddress::V4(_) => RouteCmd::DefaultV4(config.gateway[i]),
            wire::IpAddress::V6(_) => RouteCmd::DefaultV6(config.gateway[i]),
        };
        routes.push(cmd);
        i = i + 1;
    }
    InterfacePlan { uses_hardware_addr: matches!(medium, device::Medium::Ethernet), routes }
}

/// Completes a bind request: an unspecified IP is rewritten to the local
/// address, and port zero is replaced by a freshly allocated ephemeral
/// port; anything the caller did specify is kept.
pub fn set_address(
    local: wire::IpAddress,
    ports: &mut EphemeralPorts,
    addr: wire::SocketAddr,
) -> (r: wire::SocketAddr)
    requires
        old(ports).wf(),
    ensures
        final(ports).wf(),
        r.ip == if addr.ip.spec_is_unspecified() {
            local
        } else {
            addr.ip
        },
        r.port == if addr.port == 0 {
            old(ports).spec_next()
        } else {
            addr.port
        },
        addr.port == 0 ==> port_in_band(r.port) && final(ports).spec_next()
            == spec_port_successor(r.port),
        addr.port != 0 ==> *final(ports) == *old(ports),
{
    let ip = if addr.ip.is_unspecified() {
        local
    } else {
        addr.ip
    };
    let port = if addr.port == 0 {
        ports.get_port()
    } else {
        addr.port
    };
    wire::SocketAddr { ip, port }
}

} // verus!
