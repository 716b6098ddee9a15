//! How the listening socket is configured.
//!
//! One IPv6 stream socket with the IPv6-only restriction cleared serves both
//! address families: IPv4 clients reach it through IPv4-mapped addresses.
use vstd::prelude::*;

verus! {

/// Pending connections that the system queues before they are accepted.
pub const BACKLOG: i32 = 128;

/// An IP address family.
#[derive(Clone, Copy, Debug, PartialEq, Eq, Structural)]
pub enum AddressFamily {
    V4,
    V6,
}

/// The configuration of the listening socket, as plain values.
#[derive(Clone, Copy, Debug, PartialEq, Eq, Structural)]
pub struct ListenerPlan {
    /// The socket's own domain.
    pub domain: AddressFamily,
    /// Whether an IPv6 socket refuses IPv4-mapped peers.
    pub only_v6: bool,
    /// The address bound to, as a 128-bit IPv6 address; zero is `::`.
    pub address: u128,
    /// The port bound to; zero lets the system pick one.
    pub port: u16,
    /// The listen backlog.
    pub backlog: i32,
}

/// The dual-stack configuration: IPv6 domain, IPv6-only cleared, bound to
/// `[::]:0`, with a backlog of 128.
pub open spec fn dual_stack() -> ListenerPlan {
    ListenerPlan { domain: AddressFamily::V6, only_v6: false, address: 0, port: 0, backlog: 128 }
}

/// Peers of this family can connect to a socket so configured.
pub open spec fn accepts_family(p: ListenerPlan, f: AddressFamily) -> bool {
    match f {
        AddressFamily::V6 => p.domain is V6,
        AddressFamily::V4 => p.domain is V4 || !p.only_v6,
    }
}

/// The socket is bound to the wildcard address, so every local address of an
/// accepted family, loopback included, reaches it.
pub open spec fn binds_wildcard(p: ListenerPlan) -> bool {
    p.address == 0
}

/// The system picks the port when the socket is bound.
pub open spec fn port_is_ephemeral(p: ListenerPlan) -> bool {
    p.port == 0
}

/// The configuration with which the server listens.
pub fn dual_stack_plan() -> (r: ListenerPlan)
    ensures
        r == dual_stack(),
{
    ListenerPlan { domain: AddressFamily::V6, only_v6: false, address: 0, port: 0, backlog: BACKLOG }
}

/// Whether a socket so configured takes peers of this family.
pub fn plan_accepts(p: &ListenerPlan, f: AddressFamily) -> (r: bool)
    ensures
        r == accepts_family(*p, f),
{
    match f {
        AddressFamily::V6 => p.domain == AddressFamily::V6,
        AddressFamily::V4 => p.domain == AddressFamily::V4 || !p.only_v6,
    }
}

/// The dual-stack listener takes IPv4 and IPv6 peers alike, on its one port
/// and at every local address, loopback included.
pub proof fn lemma_dual_stack_serves_both_families()
    ensures
        accepts_family(dual_stack(), AddressFamily::V4),
        accepts_family(dual_stack(), AddressFamily::V6),
        binds_wildcard(dual_stack()),
        port_is_ephemeral(dual_stack()),
{
}

} // verus!
