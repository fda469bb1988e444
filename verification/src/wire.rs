//! Plain-value models of the addresses the stack works with: IP addresses,
//! CIDR blocks, transport endpoints and socket addresses.
//!
//! The protocol engine and the standard library each have their own address
//! types; the logic here reads and rewrites addresses, so it works on these
//! models, and the unverified rim converts at the boundary.

use vstd::prelude::*;

verus! {

/// An IPv4 or IPv6 address, as its bytes or segments.
#[derive(Clone, Copy, Debug, PartialEq, Eq)]
pub enum IpAddress {
    V4([u8; 4]),
    V6([u16; 8]),
}

impl IpAddress {
    /// The all-zero address of either family.
    pub open spec fn spec_is_unspecified(self) -> bool {
        match self {
            IpAddress::V4(o) => forall|i: int| 0 <= i < 4 ==> o[i] == 0,
            IpAddress::V6(s) => forall|i: int| 0 <= i < 8 ==> s[i] == 0,
        }
    }

    /// True exactly on the all-zero address, which a bind request uses to
    /// mean "the local address".
    pub fn is_unspecified(&self) -> (r: bool)
        ensures
            r == self.spec_is_unspecified(),
    {
        match self {
            IpAddress::V4(o) => {
                let r = o[0] == 0 && o[1] == 0 && o[2] == 0 && o[3] == 0;
                proof {
                    if r {
                        assert forall|i: int| 0 <= i < 4 implies o@[i] == 0 by {
                            assert(o@[0] == 0 && o@[1] == 0 && o@[2] == 0 && o@[3] == 0);
                        }
                    }
                }
                r
            },
            IpAddress::V6(s) => {
                let r = s[0] == 0 && s[1] == 0 && s[2] == 0 && s[3] == 0 && s[4] == 0 && s[5] == 0
                    && s[6] == 0 && s[7] == 0;
                proof {
                    if r {
                        assert forall|i: int| 0 <= i < 8 implies s@[i] == 0 by {
                            assert(s@[0] == 0 && s@[1] == 0 && s@[2] == 0 && s@[3] == 0 && s@[4]
                                == 0 && s@[5] == 0 && s@[6] == 0 && s@[7] == 0);
                        }
                    }
                }
                r
            },
        }
    }
}

/// An address plus the length of its network prefix, as configured on the
/// interface.
#[derive(Clone, Copy, Debug, PartialEq, Eq)]
pub struct IpCidr {
    pub address: IpAddress,
    pub prefix_len: u8,
}

impl IpCidr {
    /// The prefix fits the address family.
    pub open spec fn wf(self) -> bool {
        match self.address {
            IpAddress::V4(_) => self.prefix_len <= 32,
            IpAddress::V6(_) => self.prefix_len <= 128,
        }
    }
}

/// A transport endpoint as the engine sees it: an IP address and a port.
#[derive(Clone, Copy, Debug, PartialEq, Eq)]
pub struct IpEndpoint {
    pub addr: IpAddress,
    pub port: u16,
}

/// A socket address as application code sees it: same data as an
/// [`IpEndpoint`], in the standard library's shape.
#[derive(Clone, Copy, Debug, PartialEq, Eq)]
pub struct SocketAddr {
    pub ip: IpAddress,
    pub port: u16,
}

/// A 48-bit medium access address, used when the transport carries
/// Ethernet frames.
#[derive(Clone, Copy, Debug, PartialEq, Eq)]
pub struct EthernetAddress(pub [u8; 6]);

} // verus!
