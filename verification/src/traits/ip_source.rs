//! What an IP source reports.

use crate::ip::IpAddress;
use vstd::prelude::*;

verus! {

/// The family of an address.
#[derive(Clone, Copy, Debug, PartialEq, Eq, Hash, Structural)]
pub enum IpVersion {
    /// IPv4.
    V4,
    /// IPv6.
    V6,
}

/// A change of the observed address.
#[derive(Clone, Copy, Debug, PartialEq, Eq, Structural)]
pub struct IpChangeEvent {
    /// The address now observed.
    pub new_ip: IpAddress,
    /// The address observed before; absent on the first observation.
    pub previous_ip: Option<IpAddress>,
    /// The family of `new_ip`.
    pub version: IpVersion,
}

/// The family of `ip`.
pub open spec fn spec_version_of(ip: IpAddress) -> IpVersion {
    match ip {
        IpAddress::V4(_) => IpVersion::V4,
        IpAddress::V6(_) => IpVersion::V6,
    }
}

/// The family of `ip`.
#[verifier::when_used_as_spec(spec_version_of)]
pub fn version_of(ip: IpAddress) -> (v: IpVersion)
    ensures
        v == spec_version_of(ip),
{
    match ip {
        IpAddress::V4(_) => IpVersion::V4,
        IpAddress::V6(_) => IpVersion::V6,
    }
}

impl IpChangeEvent {
    /// The event for a change from `previous_ip` to `new_ip`; the family is that of `new_ip`.
    pub fn new(new_ip: IpAddress, previous_ip: Option<IpAddress>) -> (e: IpChangeEvent)
        ensures
            e == (IpChangeEvent { new_ip, previous_ip, version: spec_version_of(new_ip) }),
    {
        IpChangeEvent { new_ip, previous_ip, version: version_of(new_ip) }
    }
}

} // verus!
