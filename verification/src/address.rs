//! Network addresses as plain values.

use vstd::prelude::*;

verus! {

/// The two versions of the Internet Protocol.
#[derive(Debug, Clone, Copy, PartialEq, Eq, Structural)]
pub enum IpVersion {
    V4,
    V6,
}

/// An IP address: the 32 bits of an IPv4 address or the 128 bits of an IPv6
/// address, most significant octet first.
#[derive(Debug, Clone, Copy, PartialEq, Eq, Structural)]
pub enum Address {
    V4(u32),
    V6(u128),
}

impl Address {
    /// The version of the protocol that the address belongs to.
    pub open spec fn spec_version(&self) -> IpVersion {
        match self {
            Address::V4(_) => IpVersion::V4,
            Address::V6(_) => IpVersion::V6,
        }
    }

    /// The version of the protocol that the address belongs to.
    #[verifier::when_used_as_spec(spec_version)]
    pub fn version(&self) -> (version: IpVersion)
        ensures
            version == self.spec_version(),
    {
        match self {
            Address::V4(_) => IpVersion::V4,
            Address::V6(_) => IpVersion::V6,
        }
    }
}

/// Length in bytes of the fixed IP header of each version.
pub open spec fn spec_ip_header_len(version: IpVersion) -> usize {
    match version {
        IpVersion::V4 => 20,
        IpVersion::V6 => 40,
    }
}

/// Length in bytes of the fixed IP header of each version.
#[verifier::when_used_as_spec(spec_ip_header_len)]
pub fn ip_header_len(version: IpVersion) -> (len: usize)
    ensures
        len == spec_ip_header_len(version),
{
    match version {
        IpVersion::V4 => 20,
        IpVersion::V6 => 40,
    }
}

} // verus!
