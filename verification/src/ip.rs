//! IP addresses as plain integers, and the classes the pipeline tells apart.

use vstd::prelude::*;

verus! {

/// An IPv4 or IPv6 address, held as its big-endian integer value.
#[derive(Clone, Copy, Debug, PartialEq, Eq, Hash, Structural)]
pub enum IpAddress {
    /// An IPv4 address: `a.b.c.d` is `a * 2^24 + b * 2^16 + c * 2^8 + d`.
    V4(u32),
    /// An IPv6 address: the eight 16-bit groups, the first one most significant.
    V6(u128),
}

/// How far an address reaches, ordered from the least to the most preferred.
#[derive(Clone, Copy, Debug, PartialEq, Eq, Hash, Structural)]
pub enum AddressScope {
    /// The unspecified address (`0.0.0.0`, `::`).
    Unspecified,
    /// Loopback (`127.0.0.0/8`, `::1`).
    Loopback,
    /// Link-local (`169.254.0.0/16`, `fe80::/10`).
    LinkLocal,
    /// Private IPv4 (`10/8`, `172.16/12`, `192.168/16`) or unique-local IPv6 (`fc00::/7`).
    Private,
    /// Everything else: globally routable unicast.
    Global,
}

/// The value of the IPv4 address `a.b.c.d`.
pub open spec fn v4_value(a: u8, b: u8, c: u8, d: u8) -> int {
    a as int * 0x100_0000 + b as int * 0x1_0000 + c as int * 0x100 + d as int
}

/// The value of the IPv6 address whose groups are `g`, the first one most significant.
pub open spec fn v6_value(g: Seq<u16>) -> int
    recommends
        g.len() == 8,
{
    g[0] as int * 0x1_0000_0000_0000_0000_0000_0000_0000
    + g[1] as int * 0x1_0000_0000_0000_0000_0000_0000
    + g[2] as int * 0x1_0000_0000_0000_0000_0000
    + g[3] as int * 0x1_0000_0000_0000_0000
    + g[4] as int * 0x1_0000_0000_0000
    + g[5] as int * 0x1_0000_0000
    + g[6] as int * 0x1_0000
    + g[7] as int
}

impl AddressScope {
    /// The preference of a scope: a larger rank is preferred.
    pub open spec fn spec_rank(self) -> int {
        match self {
            AddressScope::Unspecified => 0,
            AddressScope::Loopback => 1,
            AddressScope::LinkLocal => 2,
            AddressScope::Private => 3,
            AddressScope::Global => 4,
        }
    }

    /// The preference of a scope as a number from 0 (unspecified) to 4 (global).
    pub fn rank(self) -> (r: u8)
        ensures
            r == self.spec_rank(),
    {
        match self {
            AddressScope::Unspecified => 0,
            AddressScope::Loopback => 1,
            AddressScope::LinkLocal => 2,
            AddressScope::Private => 3,
            AddressScope::Global => 4,
        }
    }
}

impl IpAddress {
    /// Whether this is an IPv4 address.
    pub open spec fn spec_is_ipv4(&self) -> bool {
        self is V4
    }

    /// Whether this is an IPv6 address.
    pub open spec fn spec_is_ipv6(&self) -> bool {
        self is V6
    }

    /// Whether this is `0.0.0.0` or `::`.
    pub open spec fn spec_is_unspecified(&self) -> bool {
        match *self {
            IpAddress::V4(v) => v == 0,
            IpAddress::V6(v) => v == 0,
        }
    }

    /// Whether this lies in `127.0.0.0/8` or is `::1`.
    pub open spec fn spec_is_loopback(&self) -> bool {
        match *self {
            IpAddress::V4(v) => 0x7F00_0000 <= v <= 0x7FFF_FFFF,
            IpAddress::V6(v) => v == 1,
        }
    }

    /// Whether this lies in `169.254.0.0/16` or `fe80::/10`.
    pub open spec fn spec_is_link_local(&self) -> bool {
        match *self {
            IpAddress::V4(v) => 0xA9FE_0000 <= v <= 0xA9FE_FFFF,
            IpAddress::V6(v) => 0xFE80_0000_0000_0000_0000_0000_0000_0000 <= v
                <= 0xFEBF_FFFF_FFFF_FFFF_FFFF_FFFF_FFFF_FFFF,
        }
    }

    /// Whether this is a private IPv4 address or a unique-local IPv6 address.
    pub open spec fn spec_is_private(&self) -> bool {
        match *self {
            IpAddress::V4(v) => {
                ||| 0x0A00_0000 <= v <= 0x0AFF_FFFF
                ||| 0xAC10_0000 <= v <= 0xAC1F_FFFF
                ||| 0xC0A8_0000 <= v <= 0xC0A8_FFFF
            },
            IpAddress::V6(v) => 0xFC00_0000_0000_0000_0000_0000_0000_0000 <= v
                <= 0xFDFF_FFFF_FFFF_FFFF_FFFF_FFFF_FFFF_FFFF,
        }
    }

    /// The scope of an address: the first class of the list that it falls in.
    pub open spec fn spec_scope(&self) -> AddressScope {
        if self.spec_is_unspecified() {
            AddressScope::Unspecified
        } else if self.spec_is_loopback() {
            AddressScope::Loopback
        } else if self.spec_is_link_local() {
            AddressScope::LinkLocal
        } else if self.spec_is_private() {
            AddressScope::Private
        } else {
            AddressScope::Global
        }
    }

    /// The IPv4 address `a.b.c.d`.
    pub fn from_octets(a: u8, b: u8, c: u8, d: u8) -> (ip: IpAddress)
        ensures
            ip == IpAddress::V4(v4_value(a, b, c, d) as u32),
            v4_value(a, b, c, d) <= u32::MAX,
    {
        let value: u32 = (a as u32) * 0x100_0000 + (b as u32) * 0x1_0000 + (c as u32) * 0x100 + (
        d as u32);
        IpAddress::V4(value)
    }

    /// The IPv6 address with the eight groups `g`, written in the usual order.
    pub fn from_segments(g: [u16; 8]) -> (ip: IpAddress)
        ensures
            ip == IpAddress::V6(v6_value(g@) as u128),
            v6_value(g@) <= u128::MAX,
    {
        let value: u128 = (g[0] as u128) * 0x1_0000_0000_0000_0000_0000_0000_0000 + (g[1] as u128)
            * 0x1_0000_0000_0000_0000_0000_0000 + (g[2] as u128) * 0x1_0000_0000_0000_0000_0000 + (
        g[3] as u128) * 0x1_0000_0000_0000_0000 + (g[4] as u128) * 0x1_0000_0000_0000 + (
        g[5] as u128) * 0x1_0000_0000 + (g[6] as u128) * 0x1_0000 + (g[7] as u128);
        IpAddress::V6(value)
    }

    /// Whether this is an IPv4 address.
    #[verifier::when_used_as_spec(spec_is_ipv4)]
    pub fn is_ipv4(&self) -> (r: bool)
        ensures
            r == self.spec_is_ipv4(),
    {
        match self {
            IpAddress::V4(_) => true,
            IpAddress::V6(_) => false,
        }
    }

    /// Whether this is an IPv6 address.
    #[verifier::when_used_as_spec(spec_is_ipv6)]
    pub fn is_ipv6(&self) -> (r: bool)
        ensures
            r == self.spec_is_ipv6(),
    {
        match self {
            IpAddress::V4(_) => false,
            IpAddress::V6(_) => true,
        }
    }

    /// Whether this is `0.0.0.0` or `::`.
    #[verifier::when_used_as_spec(spec_is_unspecified)]
    pub fn is_unspecified(&self) -> (r: bool)
        ensures
            r == self.spec_is_unspecified(),
    {
        match self {
            IpAddress::V4(v) => *v == 0,
            IpAddress::V6(v) => *v == 0,
        }
    }

    /// Whether this lies in `127.0.0.0/8` or is `::1`.
    #[verifier::when_used_as_spec(spec_is_loopback)]
    pub fn is_loopback(&self) -> (r: bool)
        ensures
            r == self.spec_is_loopback(),
    {
        match self {
            IpAddress::V4(v) => 0x7F00_0000 <= *v && *v <= 0x7FFF_FFFF,
            IpAddress::V6(v) => *v == 1,
        }
    }

    /// Whether this lies in `169.254.0.0/16` or `fe80::/10`.
    #[verifier::when_used_as_spec(spec_is_link_local)]
    pub fn is_link_local(&self) -> (r: bool)
        ensures
            r == self.spec_is_link_local(),
    {
        match self {
            IpAddress::V4(v) => 0xA9FE_0000 <= *v && *v <= 0xA9FE_FFFF,
            IpAddress::V6(v) => 0xFE80_0000_0000_0000_0000_0000_0000_0000 <= *v && *v
                <= 0xFEBF_FFFF_FFFF_FFFF_FFFF_FFFF_FFFF_FFFF,
        }
    }

    /// Whether this is a private IPv4 address or a unique-local IPv6 address.
    #[verifier::when_used_as_spec(spec_is_private)]
    pub fn is_private(&self) -> (r: bool)
        ensures
            r == self.spec_is_private(),
    {
        match self {
            IpAddress::V4(v) => (0x0A00_0000 <= *v && *v <= 0x0AFF_FFFF) || (0xAC10_0000 <= *v
                && *v <= 0xAC1F_FFFF) || (0xC0A8_0000 <= *v && *v <= 0xC0A8_FFFF),
            IpAddress::V6(v) => 0xFC00_0000_0000_0000_0000_0000_0000_0000 <= *v && *v
                <= 0xFDFF_FFFF_FFFF_FFFF_FFFF_FFFF_FFFF_FFFF,
        }
    }

    /// The scope of an address.
    #[verifier::when_used_as_spec(spec_scope)]
    pub fn scope(&self) -> (s: AddressScope)
        ensures
            s == self.spec_scope(),
    {
        if self.is_unspecified() {
            AddressScope::Unspecified
        } else if self.is_loopback() {
            AddressScope::Loopback
        } else if self.is_link_local() {
            AddressScope::LinkLocal
        } else if self.is_private() {
            AddressScope::Private
        } else {
            AddressScope::Global
        }
    }
}

} // verus!
