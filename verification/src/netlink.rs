//! The IP source that listens to the kernel's routing events: which addresses it
//! accepts, which one it selects, and when it reports a change.
//!
//! The socket is the caller's. Whenever the kernel reports the addresses of an
//! interface, the caller hands them to [`NetlinkIpSource::observe`] with the
//! reading of a monotonic clock, and emits the event that comes back, if any.

use crate::config::{IpSourceConfig, IpVersion};
use crate::error::{Error, ErrorView};
use crate::ip::IpAddress;
use crate::registry::ProviderRegistry;
use crate::text::join;
use crate::traits::ip_source::spec_version_of;
use crate::traits::IpChangeEvent;
use vstd::prelude::*;

verus! {

/// The debounce window that a source has unless another is asked for, in milliseconds.
pub const DEFAULT_DEBOUNCE_MS: u64 = 500;

/// Whether a source that watches the families `version` accepts `ip`: loopback and
/// unspecified addresses are discarded, and so are addresses of a family that is
/// not watched.
pub open spec fn accepts(version: Option<IpVersion>, ip: IpAddress) -> bool {
    &&& !ip.spec_is_loopback()
    &&& !ip.spec_is_unspecified()
    &&& match version {
        Some(IpVersion::V4) => ip is V4,
        Some(IpVersion::V6) => ip is V6,
        Some(IpVersion::Both) => true,
        None => true,
    }
}

/// The addresses of `addresses` that the source accepts, in their order.
pub open spec fn accepted(version: Option<IpVersion>, addresses: Seq<IpAddress>) -> Seq<IpAddress>
    decreases addresses.len(),
{
    if addresses.len() == 0 {
        Seq::empty()
    } else if accepts(version, addresses.last()) {
        accepted(version, addresses.drop_last()).push(addresses.last())
    } else {
        accepted(version, addresses.drop_last())
    }
}

/// How much an address is preferred: by its scope first, global over private over
/// link-local over loopback, and within a scope IPv4 over IPv6.
pub open spec fn preference(ip: IpAddress) -> int {
    ip.spec_scope().spec_rank() * 2 + if ip is V4 {
        1int
    } else {
        0int
    }
}

/// Whether `i` is the place of the address that is selected from `addresses`: the
/// first of those that are preferred most.
pub open spec fn is_selected(addresses: Seq<IpAddress>, i: int) -> bool {
    &&& 0 <= i < addresses.len()
    &&& forall|j: int| 0 <= j < addresses.len() ==> preference(#[trigger] addresses[j]) <= preference(addresses[i])
    &&& forall|j: int| 0 <= j < i ==> preference(#[trigger] addresses[j]) < preference(addresses[i])
}

/// The address that is selected from `addresses`, if there is any.
pub open spec fn selected(addresses: Seq<IpAddress>) -> Option<IpAddress> {
    if addresses.len() == 0 {
        None
    } else {
        Some(addresses[choose|i: int| is_selected(addresses, i)])
    }
}

/// At most one place is that of the selected address.
pub proof fn lemma_selected_unique(addresses: Seq<IpAddress>, i: int, j: int)
    requires
        is_selected(addresses, i),
        is_selected(addresses, j),
    ensures
        i == j,
{
    if i < j {
        assert(preference(addresses[i]) < preference(addresses[j]));
    } else if j < i {
        assert(preference(addresses[j]) < preference(addresses[i]));
    }
}

/// How much an address is preferred.
pub fn preference_of(ip: &IpAddress) -> (p: u8)
    ensures
        p == preference(*ip),
{
    let rank = ip.scope().rank();
    if ip.is_ipv4() {
        rank * 2 + 1
    } else {
        rank * 2
    }
}

/// Selects one of several addresses: the one that is preferred most, and of
/// several such the first.
pub fn select_address(addresses: &Vec<IpAddress>) -> (r: Option<IpAddress>)
    ensures
        r == selected(addresses@),
        r is Some <==> addresses@.len() > 0,
        r is Some ==> exists|i: int| is_selected(addresses@, i) && addresses@[i] == r->0,
{
    let n = addresses.len();
    if n == 0 {
        return None;
    }
    let mut best: usize = 0;
    let mut i: usize = 1;
    while i < n
        invariant
            n == addresses@.len(),
            1 <= i <= n,
            best < i,
            forall|j: int| 0 <= j < i ==> preference(#[trigger] addresses@[j]) <= preference(addresses@[best as int]),
            forall|j: int| 0 <= j < best ==> preference(#[trigger] addresses@[j]) < preference(addresses@[best as int]),
        decreases n - i,
    {
        if preference_of(&addresses[i]) > preference_of(&addresses[best]) {
            best = i;
        }
        i += 1;
    }
    proof {
        assert(is_selected(addresses@, best as int));
        let chosen = choose|i: int| is_selected(addresses@, i);
        lemma_selected_unique(addresses@, chosen, best as int);
    }
    Some(addresses[best])
}

/// The interface index of the link named `name` among `links`, each a name with
/// its index: that of the first link of that name.
pub fn find_interface(links: &Vec<(String, u32)>, name: &str) -> (r: Result<u32, Error>)
    ensures
        r is Ok <==> exists|i: int| 0 <= i < links@.len() && (#[trigger] links@[i]).0@ == name@,
        r matches Ok(index) ==> exists|i: int|
            0 <= i < links@.len() && (#[trigger] links@[i]).0@ == name@ && links@[i].1 == index && forall|j: int|
                0 <= j < i ==> (#[trigger] links@[j]).0@ != name@,
        r matches Err(e) ==> e@ == ErrorView::NotFound("Interface '"@ + name@ + "' not found"@),
{
    let wanted = String::from_str(name);
    let n = links.len();
    let mut i: usize = 0;
    while i < n
        invariant
            n == links@.len(),
            i <= n,
            wanted@ == name@,
            forall|j: int| 0 <= j < i ==> (#[trigger] links@[j]).0@ != name@,
        decreases n - i,
    {
        if links[i].0 == wanted {
            return Ok(links[i].1);
        }
        i += 1;
    }
    Err(Error::NotFound(join("Interface '", name).concat("' not found")))
}

/// The source's settings and what it has reported so far.
#[derive(Debug)]
pub struct NetlinkIpSource {
    /// The interface to watch; every interface if absent.
    pub interface: Option<String>,
    /// The families to watch; both if absent.
    pub version: Option<IpVersion>,
    /// The address last reported.
    pub current_ip: Option<IpAddress>,
    /// When an IPv4 address was last reported, on the caller's monotonic clock, in milliseconds.
    pub last_event_v4: Option<u64>,
    /// When an IPv6 address was last reported, on the caller's monotonic clock, in milliseconds.
    pub last_event_v6: Option<u64>,
    /// How long after a report no further address of the same family is reported, in milliseconds.
    pub debounce_ms: u64,
}

impl NetlinkIpSource {
    /// A source for `interface` and `version` with the default debounce window.
    pub fn new(interface: Option<String>, version: Option<IpVersion>) -> (s: NetlinkIpSource)
        ensures
            s.interface == interface,
            s.version == version,
            s.current_ip is None,
            s.last_event_v4 is None,
            s.last_event_v6 is None,
            s.debounce_ms == DEFAULT_DEBOUNCE_MS,
    {
        NetlinkIpSource {
            interface,
            version,
            current_ip: None,
            last_event_v4: None,
            last_event_v6: None,
            debounce_ms: DEFAULT_DEBOUNCE_MS,
        }
    }

    /// A source for `interface` and `version` with a debounce window of `debounce_ms` milliseconds.
    pub fn with_debounce(interface: Option<String>, version: Option<IpVersion>, debounce_ms: u64) -> (s:
        NetlinkIpSource)
        ensures
            s.interface == interface,
            s.version == version,
            s.current_ip is None,
            s.last_event_v4 is None,
            s.last_event_v6 is None,
            s.debounce_ms == debounce_ms,
    {
        NetlinkIpSource {
            interface,
            version,
            current_ip: None,
            last_event_v4: None,
            last_event_v6: None,
            debounce_ms,
        }
    }

    /// Whether the source accepts `ip`.
    pub fn should_accept_ip(&self, ip: &IpAddress) -> (r: bool)
        ensures
            r == accepts(self.version, *ip),
    {
        if ip.is_loopback() || ip.is_unspecified() {
            return false;
        }
        match self.version {
            Some(IpVersion::V4) => ip.is_ipv4(),
            Some(IpVersion::V6) => ip.is_ipv6(),
            Some(IpVersion::Both) => true,
            None => true,
        }
    }

    /// The addresses of `addresses` that the source accepts, in their order.
    pub fn filter(&self, addresses: &Vec<IpAddress>) -> (kept: Vec<IpAddress>)
        ensures
            kept@ == accepted(self.version, addresses@),
    {
        let mut kept: Vec<IpAddress> = Vec::new();
        let n = addresses.len();
        let mut i: usize = 0;
        proof {
            assert(addresses@.take(0) =~= Seq::<IpAddress>::empty());
        }
        while i < n
            invariant
                n == addresses@.len(),
                i <= n,
                kept@ == accepted(self.version, addresses@.take(i as int)),
            decreases n - i,
        {
            proof {
                assert(addresses@.take(i + 1).drop_last() =~= addresses@.take(i as int));
            }
            if self.should_accept_ip(&addresses[i]) {
                kept.push(addresses[i]);
            }
            i += 1;
        }
        proof {
            assert(addresses@.take(n as int) =~= addresses@);
        }
        kept
    }

    /// The family that the source is limited to, if it is limited to one.
    pub fn version(&self) -> (v: Option<crate::traits::IpVersion>)
        ensures
            v == match self.version {
                Some(IpVersion::V4) => Some(crate::traits::IpVersion::V4),
                Some(IpVersion::V6) => Some(crate::traits::IpVersion::V6),
                _ => None,
            },
    {
        match self.version {
            Some(IpVersion::V4) => Some(crate::traits::IpVersion::V4),
            Some(IpVersion::V6) => Some(crate::traits::IpVersion::V6),
            Some(IpVersion::Both) => None,
            None => None,
        }
    }

    /// The current address, given the addresses that the kernel lists: the one
    /// selected from those that the source accepts. Without any there is none.
    pub fn current(&self, addresses: &Vec<IpAddress>) -> (r: Result<IpAddress, Error>)
        ensures
            r is Ok <==> accepted(self.version, addresses@).len() > 0,
            r is Ok ==> Some(r->Ok_0) == selected(accepted(self.version, addresses@)),
            r is Err ==> r->Err_0@ == ErrorView::NotFound("No suitable IP addresses found"@),
    {
        let kept = self.filter(addresses);
        match select_address(&kept) {
            Some(ip) => Ok(ip),
            None => Err(Error::not_found("No suitable IP addresses found")),
        }
    }

    /// When an address of the family of `ip` was last reported.
    pub open spec fn last_event_of(&self, ip: IpAddress) -> Option<u64> {
        if ip is V4 {
            self.last_event_v4
        } else {
            self.last_event_v6
        }
    }

    /// Whether a report of `ip` at `now_ms` falls into the debounce window: an
    /// address of the same family was reported before, and no more than the
    /// window has passed since.
    pub open spec fn debounced(&self, ip: IpAddress, now_ms: u64) -> bool {
        self.last_event_of(ip) matches Some(last) && now_ms - last <= self.debounce_ms
    }

    /// The address that the source reports when the kernel lists `addresses` at
    /// `now_ms`, if it reports one: the selected address, unless there is none,
    /// or it is the address last reported, or the report is debounced.
    pub open spec fn reports(&self, addresses: Seq<IpAddress>, now_ms: u64) -> Option<IpAddress> {
        match selected(accepted(self.version, addresses)) {
            Some(ip) => if self.current_ip == Some(ip) || self.debounced(ip, now_ms) {
                None
            } else {
                Some(ip)
            },
            None => None,
        }
    }

    /// Takes the addresses that the kernel lists at the time `now_ms` of a
    /// monotonic clock, and gives the event to emit, if there is one.
    ///
    /// An event is emitted for the selected address when it differs from the
    /// address last reported and does not fall into the debounce window of its
    /// family. The source then remembers the address and the time. Without an
    /// event the source is unchanged.
    pub fn observe(&mut self, addresses: &Vec<IpAddress>, now_ms: u64) -> (r: Option<IpChangeEvent>)
        ensures
            match old(self).reports(addresses@, now_ms) {
                Some(ip) => {
                    &&& r == Some(
                        IpChangeEvent {
                            new_ip: ip,
                            previous_ip: old(self).current_ip,
                            version: spec_version_of(ip),
                        },
                    )
                    &&& final(self).current_ip == Some(ip)
                    &&& final(self).last_event_of(ip) == Some(now_ms)
                    &&& ip is V4 ==> final(self).last_event_v6 == old(self).last_event_v6
                    &&& ip is V6 ==> final(self).last_event_v4 == old(self).last_event_v4
                },
                None => r is None && *final(self) == *old(self),
            },
            final(self).interface == old(self).interface,
            final(self).version == old(self).version,
            final(self).debounce_ms == old(self).debounce_ms,
    {
        let kept = self.filter(addresses);
        let ip = match select_address(&kept) {
            Some(ip) => ip,
            None => {
                return None;
            },
        };
        let unchanged = match self.current_ip {
            Some(current) => current == ip,
            None => false,
        };
        if unchanged {
            return None;
        }
        let last = if ip.is_ipv4() {
            self.last_event_v4
        } else {
            self.last_event_v6
        };
        let debounced = match last {
            Some(last) => now_ms < last || now_ms - last <= self.debounce_ms,
            None => false,
        };
        if debounced {
            return None;
        }
        let event = IpChangeEvent::new(ip, self.current_ip);
        self.current_ip = Some(ip);
        if ip.is_ipv4() {
            self.last_event_v4 = Some(now_ms);
        } else {
            self.last_event_v6 = Some(now_ms);
        }
        Some(event)
    }
}

/// The factory of netlink sources.
#[derive(Clone, Copy, Debug, PartialEq, Eq, Structural)]
pub struct NetlinkFactory;

impl NetlinkFactory {
    /// The source for `config`, which must be a netlink configuration.
    pub fn create(&self, config: &IpSourceConfig) -> (r: Result<NetlinkIpSource, Error>)
        ensures
            r is Ok <==> config is Netlink,
            r matches Ok(s) ==> {
                &&& config matches IpSourceConfig::Netlink { interface, version }
                &&& s.version == version
                &&& s.interface is Some <==> interface is Some
                &&& s.interface is Some ==> s.interface->0@ == interface->0@
                &&& s.current_ip is None
                &&& s.last_event_v4 is None
                &&& s.last_event_v6 is None
                &&& s.debounce_ms == DEFAULT_DEBOUNCE_MS
            },
            r matches Err(e) ==> e@ == ErrorView::Config("Invalid config for Netlink IP source"@),
    {
        match config {
            IpSourceConfig::Netlink { interface, version } => {
                let interface = match interface {
                    Some(name) => Some(name.clone()),
                    None => None,
                };
                Ok(NetlinkIpSource::new(interface, *version))
            },
            _ => Err(Error::config("Invalid config for Netlink IP source")),
        }
    }
}

/// Registers `factory` for IP sources of the type `netlink`.
pub fn register<P, I, S>(registry: &mut ProviderRegistry<P, I, S>, factory: I)
    requires
        old(registry).wf(),
    ensures
        final(registry).wf(),
        final(registry).ip_sources() == old(registry).ip_sources().insert("netlink"@, factory),
        final(registry).providers() == old(registry).providers(),
        final(registry).state_stores() == old(registry).state_stores(),
{
    registry.register_ip_source("netlink", factory);
}

} // verus!
