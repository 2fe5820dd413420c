//! IP addresses as plain numbers, and the policy that keeps requests away
//! from addresses that are not publicly routable.

use vstd::prelude::*;
use crate::errors::PreviewError;

verus! {

/// An IPv4 address by its four octets, most significant first.
#[derive(Clone, Copy, Debug, PartialEq, Eq, Structural)]
pub struct Ipv4Address {
    pub a: u8,
    pub b: u8,
    pub c: u8,
    pub d: u8,
}

/// An IPv6 address by its eight 16-bit segments, most significant first.
#[derive(Clone, Copy, Debug, PartialEq, Eq, Structural)]
pub struct Ipv6Address {
    pub s0: u16,
    pub s1: u16,
    pub s2: u16,
    pub s3: u16,
    pub s4: u16,
    pub s5: u16,
    pub s6: u16,
    pub s7: u16,
}

/// An address of either family.
#[derive(Clone, Copy, Debug, PartialEq, Eq, Structural)]
pub enum IpAddress {
    V4(Ipv4Address),
    V6(Ipv6Address),
}

/// One result of a name lookup.
#[derive(Clone, Copy, Debug, PartialEq, Eq, Structural)]
pub struct SocketAddress {
    pub ip: IpAddress,
    pub port: u16,
}

impl Ipv4Address {
    /// The address with the given octets, most significant first.
    pub fn from_octets(octets: [u8; 4]) -> (ip: Ipv4Address)
        ensures
            ip == (Ipv4Address { a: octets@[0], b: octets@[1], c: octets@[2], d: octets@[3] }),
    {
        Ipv4Address { a: octets[0], b: octets[1], c: octets[2], d: octets[3] }
    }

    /// 10.0.0.0/8, 172.16.0.0/12 or 192.168.0.0/16.
    pub open spec fn is_private(self) -> bool {
        ||| self.a == 10
        ||| (self.a == 172 && 16 <= self.b <= 31)
        ||| (self.a == 192 && self.b == 168)
    }

    /// 127.0.0.0/8.
    pub open spec fn is_loopback(self) -> bool {
        self.a == 127
    }

    /// 169.254.0.0/16.
    pub open spec fn is_link_local(self) -> bool {
        self.a == 169 && self.b == 254
    }

    /// 224.0.0.0/4.
    pub open spec fn is_multicast(self) -> bool {
        224 <= self.a <= 239
    }

    /// 255.255.255.255.
    pub open spec fn is_broadcast(self) -> bool {
        self.a == 255 && self.b == 255 && self.c == 255 && self.d == 255
    }

    /// 192.0.2.0/24, 198.51.100.0/24 or 203.0.113.0/24.
    pub open spec fn is_documentation(self) -> bool {
        ||| (self.a == 192 && self.b == 0 && self.c == 2)
        ||| (self.a == 198 && self.b == 51 && self.c == 100)
        ||| (self.a == 203 && self.b == 0 && self.c == 113)
    }

    /// 0.0.0.0.
    pub open spec fn is_unspecified(self) -> bool {
        self.a == 0 && self.b == 0 && self.c == 0 && self.d == 0
    }

    /// Whether requests to this address are refused: every range above, and
    /// every address whose first octet is zero.
    pub open spec fn is_blocked(self) -> bool {
        ||| self.is_private()
        ||| self.is_loopback()
        ||| self.is_link_local()
        ||| self.is_multicast()
        ||| self.is_broadcast()
        ||| self.is_documentation()
        ||| self.is_unspecified()
        ||| self.a == 0
    }
}

impl Ipv6Address {
    /// The address with the given segments, most significant first.
    pub fn from_segments(segments: [u16; 8]) -> (ip: Ipv6Address)
        ensures
            ip == (Ipv6Address {
                s0: segments@[0],
                s1: segments@[1],
                s2: segments@[2],
                s3: segments@[3],
                s4: segments@[4],
                s5: segments@[5],
                s6: segments@[6],
                s7: segments@[7],
            }),
    {
        Ipv6Address {
            s0: segments[0],
            s1: segments[1],
            s2: segments[2],
            s3: segments[3],
            s4: segments[4],
            s5: segments[5],
            s6: segments[6],
            s7: segments[7],
        }
    }

    /// `::1`.
    pub open spec fn is_loopback(self) -> bool {
        self.s0 == 0 && self.s1 == 0 && self.s2 == 0 && self.s3 == 0 && self.s4 == 0 && self.s5
            == 0 && self.s6 == 0 && self.s7 == 1
    }

    /// `::`.
    pub open spec fn is_unspecified(self) -> bool {
        self.s0 == 0 && self.s1 == 0 && self.s2 == 0 && self.s3 == 0 && self.s4 == 0 && self.s5
            == 0 && self.s6 == 0 && self.s7 == 0
    }

    /// `fc00::/7`.
    pub open spec fn is_unique_local(self) -> bool {
        0xfc00 <= self.s0 <= 0xfdff
    }

    /// `fe80::/10`.
    pub open spec fn is_unicast_link_local(self) -> bool {
        0xfe80 <= self.s0 <= 0xfebf
    }

    /// `ff00::/8`.
    pub open spec fn is_multicast(self) -> bool {
        self.s0 >= 0xff00
    }

    /// `2001:db8::/32`.
    pub open spec fn is_documentation(self) -> bool {
        self.s0 == 0x2001 && self.s1 == 0x0db8
    }

    /// Whether the address embeds an IPv4 address: the first five segments
    /// are zero and the sixth is zero (IPv4-compatible) or `ffff`
    /// (IPv4-mapped).
    pub open spec fn embeds_ipv4(self) -> bool {
        self.s0 == 0 && self.s1 == 0 && self.s2 == 0 && self.s3 == 0 && self.s4 == 0 && (self.s5
            == 0 || self.s5 == 0xffff)
    }

    /// The IPv4 address held in the last two segments.
    pub open spec fn embedded_ipv4(self) -> Ipv4Address {
        Ipv4Address {
            a: (self.s6 / 256) as u8,
            b: (self.s6 % 256) as u8,
            c: (self.s7 / 256) as u8,
            d: (self.s7 % 256) as u8,
        }
    }

    /// Whether requests to this address, taken as IPv6, are refused.
    pub open spec fn is_blocked(self) -> bool {
        ||| self.is_loopback()
        ||| self.is_unspecified()
        ||| self.is_unique_local()
        ||| self.is_unicast_link_local()
        ||| self.is_multicast()
        ||| self.is_documentation()
    }
}

impl IpAddress {
    /// The address the policy judges: an IPv6 address that embeds an IPv4
    /// address stands for that IPv4 address.
    pub open spec fn normalized(self) -> IpAddress {
        match self {
            IpAddress::V4(v4) => IpAddress::V4(v4),
            IpAddress::V6(v6) => if v6.embeds_ipv4() {
                IpAddress::V4(v6.embedded_ipv4())
            } else {
                IpAddress::V6(v6)
            },
        }
    }

    /// Whether requests to this address are refused.
    pub open spec fn is_blocked(self) -> bool {
        match self.normalized() {
            IpAddress::V4(v4) => v4.is_blocked(),
            IpAddress::V6(v6) => v6.is_blocked(),
        }
    }
}

/// The addresses of `ips` in order of first appearance, each once.
pub open spec fn unique_in_order(ips: Seq<IpAddress>) -> Seq<IpAddress>
    decreases ips.len(),
{
    if ips.len() == 0 {
        ips
    } else if unique_in_order(ips.drop_last()).contains(ips.last()) {
        unique_in_order(ips.drop_last())
    } else {
        unique_in_order(ips.drop_last()).push(ips.last())
    }
}

/// The addresses of the lookup results, in order.
pub open spec fn addresses_of(resolved: Seq<SocketAddress>) -> Seq<IpAddress> {
    Seq::new(resolved.len(), |i: int| resolved[i].ip)
}

/// Whether any lookup result is an address that requests may not go to.
pub open spec fn any_blocked(resolved: Seq<SocketAddress>) -> bool {
    exists|i: int| 0 <= i < resolved.len() && (#[trigger] resolved[i]).ip.is_blocked()
}

/// Whether the address lies in the IPv6 documentation range `2001:db8::/32`.
pub fn is_documentation_ipv6(ip: Ipv6Address) -> (yes: bool)
    ensures
        yes == ip.is_documentation(),
{
    ip.s0 == 0x2001 && ip.s1 == 0x0db8
}

/// Replaces an IPv6 address that embeds an IPv4 address by the latter.
pub fn normalize_ip_for_policy(ip: IpAddress) -> (normal: IpAddress)
    ensures
        normal == ip.normalized(),
{
    match ip {
        IpAddress::V4(v4) => IpAddress::V4(v4),
        IpAddress::V6(v6) => {
            if v6.s0 == 0 && v6.s1 == 0 && v6.s2 == 0 && v6.s3 == 0 && v6.s4 == 0 && (v6.s5 == 0
                || v6.s5 == 0xffff) {
                IpAddress::V4(
                    Ipv4Address {
                        a: (v6.s6 / 256) as u8,
                        b: (v6.s6 % 256) as u8,
                        c: (v6.s7 / 256) as u8,
                        d: (v6.s7 % 256) as u8,
                    },
                )
            } else {
                IpAddress::V6(v6)
            }
        },
    }
}

/// Whether requests to the address are refused: private, loopback,
/// link-local, multicast, broadcast, documentation and unspecified ranges,
/// and IPv4 addresses with a zero first octet, after normalisation.
pub fn is_disallowed_ip(ip: IpAddress) -> (blocked: bool)
    ensures
        blocked == ip.is_blocked(),
{
    match normalize_ip_for_policy(ip) {
        IpAddress::V4(v4) => {
            let private = v4.a == 10 || (v4.a == 172 && 16 <= v4.b && v4.b <= 31) || (v4.a == 192
                && v4.b == 168);
            let loopback = v4.a == 127;
            let link_local = v4.a == 169 && v4.b == 254;
            let multicast = 224 <= v4.a && v4.a <= 239;
            let broadcast = v4.a == 255 && v4.b == 255 && v4.c == 255 && v4.d == 255;
            let documentation = (v4.a == 192 && v4.b == 0 && v4.c == 2) || (v4.a == 198 && v4.b
                == 51 && v4.c == 100) || (v4.a == 203 && v4.b == 0 && v4.c == 113);
            let unspecified = v4.a == 0 && v4.b == 0 && v4.c == 0 && v4.d == 0;
            private || loopback || link_local || multicast || broadcast || documentation
                || unspecified || v4.a == 0
        },
        IpAddress::V6(v6) => {
            let upper_zero = v6.s0 == 0 && v6.s1 == 0 && v6.s2 == 0 && v6.s3 == 0 && v6.s4 == 0
                && v6.s5 == 0 && v6.s6 == 0;
            let loopback = upper_zero && v6.s7 == 1;
            let unspecified = upper_zero && v6.s7 == 0;
            let unique_local = 0xfc00 <= v6.s0 && v6.s0 <= 0xfdff;
            let link_local = 0xfe80 <= v6.s0 && v6.s0 <= 0xfebf;
            let multicast = v6.s0 >= 0xff00;
            loopback || unspecified || unique_local || link_local || multicast
                || is_documentation_ipv6(v6)
        },
    }
}

fn contains_address(list: &Vec<IpAddress>, ip: IpAddress) -> (found: bool)
    ensures
        found == list@.contains(ip),
{
    let mut i: usize = 0;
    while i < list.len()
        invariant
            i <= list.len(),
            forall|j: int| 0 <= j < i ==> list@[j] != ip,
        decreases list.len() - i,
    {
        if list[i] == ip {
            return true;
        }
        i += 1;
    }
    false
}

/// Screens the results of a name lookup. One blocked address refuses the
/// whole set; otherwise the distinct addresses come back in order of first
/// appearance, and an empty set counts as unresolvable.
pub fn collect_validated_resolved_ips(resolved_hosts: &Vec<SocketAddress>) -> (selected: Result<
    Vec<IpAddress>,
    PreviewError,
>)
    ensures
        any_blocked(resolved_hosts@) ==> selected == Err::<Vec<IpAddress>, PreviewError>(
            PreviewError::AddressBlocked,
        ),
        !any_blocked(resolved_hosts@) && resolved_hosts@.len() == 0 ==> selected == Err::<
            Vec<IpAddress>,
            PreviewError,
        >(PreviewError::UnresolvableHost),
        !any_blocked(resolved_hosts@) && resolved_hosts@.len() > 0 ==> selected is Ok
            && selected->Ok_0@ == unique_in_order(addresses_of(resolved_hosts@))
            && selected->Ok_0@.len() > 0,
{
    let mut selected_ips: Vec<IpAddress> = Vec::new();
    let mut i: usize = 0;
    while i < resolved_hosts.len()
        invariant
            i <= resolved_hosts.len(),
            forall|j: int| 0 <= j < i ==> !(#[trigger] resolved_hosts@[j]).ip.is_blocked(),
            selected_ips@ == unique_in_order(addresses_of(resolved_hosts@).take(i as int)),
            i > 0 ==> selected_ips@.len() > 0,
        decreases resolved_hosts.len() - i,
    {
        let ip = resolved_hosts[i].ip;
        if is_disallowed_ip(ip) {
            return Err(PreviewError::AddressBlocked);
        }
        proof {
            let next = addresses_of(resolved_hosts@).take(i + 1);
            assert(next.drop_last() =~= addresses_of(resolved_hosts@).take(i as int));
            assert(next.last() == ip);
        }
        if !contains_address(&selected_ips, ip) {
            selected_ips.push(ip);
        }
        i += 1;
    }
    assert(addresses_of(resolved_hosts@).take(i as int) =~= addresses_of(resolved_hosts@));
    if selected_ips.len() == 0 {
        return Err(PreviewError::UnresolvableHost);
    }
    Ok(selected_ips)
}

/// The first `limit` entries of the list: the addresses that are tried.
pub fn pinned_attempts(ips: &Vec<IpAddress>, limit: usize) -> (attempts: Vec<IpAddress>)
    ensures
        attempts@ == ips@.take(if limit <= ips@.len() { limit as int } else { ips@.len() as int }),
{
    let mut attempts: Vec<IpAddress> = Vec::new();
    let mut i: usize = 0;
    while i < ips.len() && i < limit
        invariant
            i <= ips.len(),
            i <= limit,
            attempts@ == ips@.take(i as int),
        decreases ips.len() - i,
    {
        attempts.push(ips[i]);
        i += 1;
        assert(attempts@ =~= ips@.take(i as int));
    }
    attempts
}

/// The IPv4-mapped IPv6 address `::ffff:a.b.c.d`.
pub open spec fn mapped(v4: Ipv4Address) -> Ipv6Address {
    Ipv6Address {
        s0: 0,
        s1: 0,
        s2: 0,
        s3: 0,
        s4: 0,
        s5: 0xffff,
        s6: (v4.a * 256 + v4.b) as u16,
        s7: (v4.c * 256 + v4.d) as u16,
    }
}

/// An IPv4-mapped IPv6 address is judged as the IPv4 address inside it, so
/// that no blocked IPv4 address gets through in IPv6 notation.
pub proof fn lemma_mapped_address_is_judged_as_ipv4(v4: Ipv4Address)
    ensures
        IpAddress::V6(mapped(v4)).normalized() == IpAddress::V4(v4),
        IpAddress::V6(mapped(v4)).is_blocked() == IpAddress::V4(v4).is_blocked(),
{
    let m = mapped(v4);
    assert(m.embeds_ipv4());
    assert(m.s6 / 256 == v4.a && m.s6 % 256 == v4.b);
    assert(m.s7 / 256 == v4.c && m.s7 % 256 == v4.d);
    assert(m.embedded_ipv4() == v4);
}

/// Every address in one of the ranges that are not publicly routable is
/// blocked: private, loopback, link-local, multicast, broadcast,
/// documentation and unspecified IPv4 addresses and those with a zero
/// first octet; and, among the IPv6 addresses that embed no IPv4 address,
/// unique-local, link-local, multicast and documentation addresses.
pub proof fn lemma_non_public_ranges_are_blocked(ip: IpAddress)
    ensures
        match ip {
            IpAddress::V4(v4) => (v4.is_private() || v4.is_loopback() || v4.is_link_local()
                || v4.is_multicast() || v4.is_broadcast() || v4.is_documentation()
                || v4.is_unspecified() || v4.a == 0) == ip.is_blocked(),
            IpAddress::V6(v6) => {
                &&& v6.is_loopback() || v6.is_unspecified() ==> ip.is_blocked()
                &&& !v6.embeds_ipv4() ==> (v6.is_unique_local() || v6.is_unicast_link_local()
                    || v6.is_multicast() || v6.is_documentation()) == ip.is_blocked()
                &&& v6.embeds_ipv4() ==> ip.is_blocked() == v6.embedded_ipv4().is_blocked()
            },
        },
{
}

/// Every address in the unique list occurs in the input, nothing occurs
/// twice, and every input address is kept.
pub proof fn lemma_unique_in_order(ips: Seq<IpAddress>)
    ensures
        unique_in_order(ips).no_duplicates(),
        forall|ip: IpAddress|
            #![trigger unique_in_order(ips).contains(ip)]
            #![trigger ips.contains(ip)]
            unique_in_order(ips).contains(ip) <==> ips.contains(ip),
    decreases ips.len(),
{
    let out = unique_in_order(ips);
    if ips.len() > 0 {
        let init = ips.drop_last();
        lemma_unique_in_order(init);
        let prev = unique_in_order(init);
        assert forall|ip: IpAddress| out.contains(ip) <==> ips.contains(ip) by {
            if ips.contains(ip) {
                let k = choose|k: int| 0 <= k < ips.len() && ips[k] == ip;
                if k < ips.len() - 1 {
                    assert(init[k] == ip);
                    assert(init.contains(ip));
                    assert(prev.contains(ip));
                    let m = choose|m: int| 0 <= m < prev.len() && prev[m] == ip;
                    assert(out[m] == ip);
                } else if !prev.contains(ip) {
                    assert(out[out.len() - 1] == ip);
                } else {
                    let m = choose|m: int| 0 <= m < prev.len() && prev[m] == ip;
                    assert(out[m] == ip);
                }
            }
            if out.contains(ip) {
                let m = choose|m: int| 0 <= m < out.len() && out[m] == ip;
                if m < prev.len() {
                    assert(prev.contains(ip));
                    let k = choose|k: int| 0 <= k < init.len() && init[k] == ip;
                    assert(ips[k] == ip);
                } else {
                    assert(ips[ips.len() - 1] == ip);
                }
            }
        }
    }
}

} // verus!
