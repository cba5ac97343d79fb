//! The network address of the client that asked for the pixel.

use vstd::prelude::*;
use vstd::slice::slice_to_vec;

verus! {

/// Number of octets in an IPv4 address.
pub const IPV4_OCTETS: usize = 4;

/// Number of octets in an IPv6 address.
pub const IPV6_OCTETS: usize = 16;

/// A client address: the raw octets of an IPv4 or an IPv6 address, most
/// significant octet first.
#[derive(Clone, Copy, Debug, PartialEq, Eq)]
pub enum ClientAddress {
    V4([u8; 4]),
    V6([u8; 16]),
}

impl ClientAddress {
    /// The octets of the address in network order.
    pub open spec fn octets(self) -> Seq<u8> {
        match self {
            ClientAddress::V4(o) => o@,
            ClientAddress::V6(o) => o@,
        }
    }

    /// The octets of the address in network order. There are four of them
    /// for IPv4 and sixteen for IPv6.
    pub fn to_octets(&self) -> (v: Vec<u8>)
        ensures
            v@ == self.octets(),
            *self is V4 ==> v@.len() == IPV4_OCTETS,
            *self is V6 ==> v@.len() == IPV6_OCTETS,
    {
        match self {
            ClientAddress::V4(o) => slice_to_vec(o.as_slice()),
            ClientAddress::V6(o) => slice_to_vec(o.as_slice()),
        }
    }
}

} // verus!
