use vstd::prelude::*;

verus! {

/// The address family of a socket: IPv4 or IPv6.
#[derive(Clone, Copy, Debug, PartialEq, Eq, Structural)]
pub enum Family {
    Inet,
    Inet6,
}

/// A host IP address held as plain values: four octets for IPv4,
/// eight 16-bit segments for IPv6.
#[derive(Clone, Copy, Debug, PartialEq, Eq)]
pub enum HostIp {
    V4([u8; 4]),
    V6([u16; 8]),
}

/// A bind address: host IP plus TCP port.
#[derive(Clone, Copy, Debug, PartialEq, Eq)]
pub struct BindAddr {
    pub ip: HostIp,
    pub port: u16,
}

impl HostIp {
    /// The family that an address of this shape selects.
    pub open spec fn family_spec(self) -> Family {
        match self {
            HostIp::V4(_) => Family::Inet,
            HostIp::V6(_) => Family::Inet6,
        }
    }

    pub fn family(&self) -> (f: Family)
        ensures
            f == self.family_spec(),
    {
        match self {
            HostIp::V4(_) => Family::Inet,
            HostIp::V6(_) => Family::Inet6,
        }
    }
}

impl BindAddr {
    pub open spec fn family_spec(self) -> Family {
        self.ip.family_spec()
    }

    /// Address-family selection: an IPv4 address selects INET, an IPv6
    /// address selects INET6.
    pub fn family(&self) -> (f: Family)
        ensures
            f == self.family_spec(),
    {
        self.ip.family()
    }
}

/// An IPv4 address always selects the IPv4 family and an IPv6 address the
/// IPv6 family; the builder never crosses the two.
pub proof fn lemma_family_matches_address(a: BindAddr)
    ensures
        (a.family_spec() == Family::Inet) <==> (a.ip is V4),
        (a.family_spec() == Family::Inet6) <==> (a.ip is V6),
{
}

} // verus!
