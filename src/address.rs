use vstd::prelude::*;

verus! {

/// An IP address, held as the integer that its bits spell
/// (an IPv4 address as 32 bits, an IPv6 address as 128 bits).
#[derive(PartialEq, Eq, Structural, Clone, Copy, Debug)]
pub enum IpAddress {
    V4(u32),
    V6(u128),
}

/// One snapshot of the host's public addresses: what the IPv4 lookup found
/// and what the IPv6 lookup found. Two snapshots are equal when both fields are.
#[derive(PartialEq, Eq, Structural, Clone, Copy, Debug)]
pub struct WanIps {
    pub ip: Option<IpAddress>,
    pub ipv6: Option<IpAddress>,
}

/// Neither address family could be resolved.
#[derive(PartialEq, Eq, Structural, Clone, Copy, Debug)]
pub enum ResolveError {
    NoWanAddress,
}

impl WanIps {
    /// A snapshot is valid when at least one family was resolved.
    pub open spec fn is_valid(&self) -> bool {
        self.ip.is_some() || self.ipv6.is_some()
    }
}

/// Combines the outcomes of the two lookups into one snapshot. A failed
/// lookup leaves its field empty; only when both failed is the result an error.
pub fn combine_lookups(ip: Option<IpAddress>, ipv6: Option<IpAddress>) -> (r: Result<WanIps, ResolveError>)
    ensures
        (ip.is_none() && ipv6.is_none()) <==> r == Err::<WanIps, ResolveError>(ResolveError::NoWanAddress),
        r is Ok ==> r->Ok_0 == (WanIps { ip, ipv6 }) && r->Ok_0.is_valid(),
{
    if ip.is_none() && ipv6.is_none() {
        return Err(ResolveError::NoWanAddress);
    }
    Ok(WanIps { ip, ipv6 })
}

} // verus!
