//! Network addresses of peers, as plain numbers.

use vstd::prelude::*;

verus! {

/// An IPv4 or IPv6 address.
///
/// `V4` holds the four octets in the order they are written, `V6` the eight
/// 16-bit groups in the order they are written.
#[derive(Clone, Copy, Debug, PartialEq, Eq, Structural)]
pub enum IpAddress {
    V4(u8, u8, u8, u8),
    V6(u16, u16, u16, u16, u16, u16, u16, u16),
}

impl IpAddress {
    /// Loopback addresses: `127.0.0.0/8` and `::1`.
    pub open spec fn loopback(self) -> bool {
        match self {
            IpAddress::V4(a, _, _, _) => a == 127,
            IpAddress::V6(a, b, c, d, e, f, g, h) => a == 0 && b == 0 && c == 0 && d == 0 && e == 0
                && f == 0 && g == 0 && h == 1,
        }
    }

    /// Multicast addresses: `224.0.0.0/4` and `ff00::/8`.
    pub open spec fn multicast(self) -> bool {
        match self {
            IpAddress::V4(a, _, _, _) => 224 <= a <= 239,
            IpAddress::V6(a, _, _, _, _, _, _, _) => a >= 0xff00,
        }
    }

    /// An address that a peer on the network may be reached at.
    pub open spec fn routable(self) -> bool {
        !self.loopback() && !self.multicast()
    }

    pub fn is_loopback(&self) -> (r: bool)
        ensures
            r == self.loopback(),
    {
        match *self {
            IpAddress::V4(a, _, _, _) => a == 127,
            IpAddress::V6(a, b, c, d, e, f, g, h) => a == 0 && b == 0 && c == 0 && d == 0 && e == 0
                && f == 0 && g == 0 && h == 1,
        }
    }

    pub fn is_multicast(&self) -> (r: bool)
        ensures
            r == self.multicast(),
    {
        match *self {
            IpAddress::V4(a, _, _, _) => 224 <= a && a <= 239,
            IpAddress::V6(a, _, _, _, _, _, _, _) => a >= 0xff00,
        }
    }
}

} // verus!
