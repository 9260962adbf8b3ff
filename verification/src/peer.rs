use vstd::prelude::*;

verus! {

/// The address a datagram came from, field by field as a socket address holds it.
/// Two addresses are the same when all their fields are.
#[derive(Debug, Clone, Copy, PartialEq, Eq, Structural)]
pub enum PeerAddr {
    V4 { ip4: u32, port: u16 },
    V6 { ip6: u128, port: u16, flowinfo: u32, scope_id: u32 },
}

} // verus!
