//! Addresses of remote peers.

use vstd::prelude::*;

verus! {

/// The address of a remote peer: an IP address and a port, held as plain
/// integers. The caller converts between this and its socket library's
/// address type. Endpoints are compared by value; equality is what session
/// tracking keys on.
#[derive(Clone, Copy, PartialEq, Eq, Structural, Debug, Hash)]
#[allow(inconsistent_fields)]
pub enum Endpoint {
    /// An IPv4 address (the four octets packed big-endian into one integer)
    /// and a port.
    V4 { ip: u32, port: u16 },
    /// An IPv6 address (the sixteen octets packed big-endian into one
    /// integer) and a port.
    V6 { ip: u128, port: u16 },
}

} // verus!
