//! Choosing local IPv4 interfaces: which interfaces count, how they are
//! ranked, their broadcast addresses, and the address the server uses.
//! Reading the interface table and the environment is left to the caller.

use vstd::prelude::*;
use crate::net::ip::{
    ipv4_eq, ipv4_is_link_local, ipv4_is_loopback, ipv4_is_multicast, ipv4_is_private,
    ipv4_is_unspecified, is_shared_cgnat, v4_link_local, v4_loopback, v4_multicast, v4_private,
    v4_shared_cgnat, v4_unspecified,
};
use crate::text::{
    ascii_lower_seq, char_to_ascii_lower, chars_of, is_ascii_digit, push_str, starts_with,
    starts_with_chars,
};

verus! {

/// The flags of an interface that the ranking reads.
#[derive(Debug, Clone, Copy, PartialEq, Eq, Structural)]
pub struct InterfaceFlags {
    pub up: bool,
    pub running: bool,
    pub loopback: bool,
    pub point_to_point: bool,
    pub multicast: bool,
    pub broadcast: bool,
}

/// `acc` with a flag's name added where the flag is set, after a `|` where
/// `acc` already names one.
pub open spec fn add_flag(acc: Seq<char>, on: bool, name: Seq<char>) -> Seq<char> {
    if !on {
        acc
    } else if acc.len() == 0 {
        name
    } else {
        acc + seq!['|'] + name
    }
}

/// The names of the set flags, joined by `|`.
pub open spec fn flags_text(f: InterfaceFlags) -> Seq<char> {
    let a = add_flag(Seq::empty(), f.up, "UP"@);
    let b = add_flag(a, f.running, "RUNNING"@);
    let c = add_flag(b, f.loopback, "LOOPBACK"@);
    let d = add_flag(c, f.point_to_point, "P2P"@);
    let e = add_flag(d, f.multicast, "MULTICAST"@);
    add_flag(e, f.broadcast, "BROADCAST"@)
}

fn push_flag(r: &mut String, on: bool, name: &str)
    ensures
        final(r)@ == add_flag(old(r)@, on, name@),
{
    if on {
        if chars_of(r.as_str()).len() > 0 {
            crate::text::push_char(r, '|');
        } else {
            assert(r@ =~= Seq::<char>::empty());
        }
        push_str(r, name);
    }
}

pub fn format_flags(flags: InterfaceFlags) -> (r: String)
    ensures
        r@ == flags_text(flags),
{
    let mut r = String::new();
    push_flag(&mut r, flags.up, "UP");
    push_flag(&mut r, flags.running, "RUNNING");
    push_flag(&mut r, flags.loopback, "LOOPBACK");
    push_flag(&mut r, flags.point_to_point, "P2P");
    push_flag(&mut r, flags.multicast, "MULTICAST");
    push_flag(&mut r, flags.broadcast, "BROADCAST");
    r
}

/// Interface name prefixes that are never preferred: loopback, tunnels,
/// bridges, virtual machines, containers and VPNs.
pub open spec fn excluded_prefix(n: Seq<char>) -> bool {
    starts_with(n, "lo"@) || starts_with(n, "utun"@) || starts_with(n, "awdl"@) || starts_with(n, "llw"@)
        || starts_with(n, "p2p"@) || starts_with(n, "bridge"@) || starts_with(n, "vmnet"@)
        || starts_with(n, "vboxnet"@) || starts_with(n, "docker"@) || starts_with(n, "br-"@)
        || starts_with(n, "virbr"@) || starts_with(n, "wg"@) || starts_with(n, "tailscale"@)
        || starts_with(n, "zt"@) || starts_with(n, "tun"@) || starts_with(n, "tap"@)
}

/// A preferred interface: by its name in ASCII lower case, a wired or
/// wireless LAN interface that is not excluded.
pub open spec fn preferred_name(name: Seq<char>) -> bool {
    let n = ascii_lower_seq(name);
    !excluded_prefix(n) && (starts_with(n, "en"@) || starts_with(n, "eth"@) || starts_with(n, "wlan"@)
        || starts_with(n, "wl"@))
}

fn lower_chars(name: &str) -> (r: Vec<char>)
    ensures
        r@ == ascii_lower_seq(name@),
{
    let cs = chars_of(name);
    let mut r: Vec<char> = Vec::new();
    let mut i: usize = 0;
    while i < cs.len()
        invariant
            cs@ == name@,
            i <= cs@.len(),
            r@.len() == i,
            forall|k: int| 0 <= k < i ==> r@[k] == crate::text::ascii_lower(cs@[k]),
        decreases cs@.len() - i,
    {
        r.push(char_to_ascii_lower(cs[i]));
        i = i + 1;
    }
    assert(r@ =~= ascii_lower_seq(name@));
    r
}

fn sw(n: &Vec<char>, p: &str) -> (r: bool)
    ensures
        r == starts_with(n@, p@),
{
    starts_with_chars(n.as_slice(), chars_of(p).as_slice())
}

pub fn is_preferred_interface(name: &str) -> (r: bool)
    ensures
        r == preferred_name(name@),
{
    let n = lower_chars(name);
    if sw(&n, "lo") || sw(&n, "utun") || sw(&n, "awdl") || sw(&n, "llw") || sw(&n, "p2p") || sw(&n, "bridge")
        || sw(&n, "vmnet") || sw(&n, "vboxnet") || sw(&n, "docker") || sw(&n, "br-") || sw(&n, "virbr")
        || sw(&n, "wg") || sw(&n, "tailscale") || sw(&n, "zt") || sw(&n, "tun") || sw(&n, "tap") {
        return false;
    }
    sw(&n, "en") || sw(&n, "eth") || sw(&n, "wlan") || sw(&n, "wl")
}

/// The rank of an interface: the kind of its address counts most (private
/// or shared, then link-local, then any), then its name (`en` with one digit,
/// other `en`, `eth`, wireless), then the private range of its address.
pub open spec fn score_of(name: Seq<char>, ip: Seq<u8>) -> int {
    let n = ascii_lower_seq(name);
    let kind = if v4_private(ip) || v4_shared_cgnat(ip) { 3int } else if v4_link_local(ip) { 2int } else { 1int };
    let name_bonus = if starts_with(n, "en"@) {
        if n.len() == 3 && is_ascii_digit(n[2]) { 110int } else { 100int }
    } else if starts_with(n, "eth"@) {
        95int
    } else if starts_with(n, "wlan"@) || starts_with(n, "wl"@) {
        90int
    } else {
        0int
    };
    let ip_bonus = if ip[0] == 192 && ip[1] == 168 {
        5int
    } else if ip[0] == 10 {
        4int
    } else if ip[0] == 172 && 16 <= ip[1] && ip[1] <= 31 {
        3int
    } else {
        0int
    };
    kind * 1000 + name_bonus * 10 + ip_bonus
}

pub fn score_interface(name: &str, ip: [u8; 4]) -> (r: i32)
    ensures
        r as int == score_of(name@, ip@),
{
    let n = lower_chars(name);
    let kind: i32 = if ipv4_is_private(ip) || is_shared_cgnat(ip) {
        3
    } else if ipv4_is_link_local(ip) {
        2
    } else {
        1
    };
    let name_bonus: i32 = if sw(&n, "en") {
        if n.len() == 3 && '0' <= n[2] && n[2] <= '9' { 110 } else { 100 }
    } else if sw(&n, "eth") {
        95
    } else if sw(&n, "wlan") || sw(&n, "wl") {
        90
    } else {
        0
    };
    let ip_bonus: i32 = if ip[0] == 192 && ip[1] == 168 {
        5
    } else if ip[0] == 10 {
        4
    } else if ip[0] == 172 && 16 <= ip[1] && ip[1] <= 31 {
        3
    } else {
        0
    };
    kind * 1000 + name_bonus * 10 + ip_bonus
}


/// An entry of the interface table, as the system reports it.
#[derive(Debug)]
pub struct RawInterface {
    pub name: String,
    pub flags: InterfaceFlags,
    pub ifindex: u32,
    /// Its IPv4 address, where it has one.
    pub ipv4: Option<[u8; 4]>,
    pub netmask: Option<[u8; 4]>,
    /// Its broadcast (or point-to-point destination) address.
    pub dstaddr: Option<[u8; 4]>,
}

/// A usable interface, ranked.
#[derive(Debug, Clone, Copy)]
pub struct IfaceEntry {
    pub score: i32,
    pub ip: [u8; 4],
    pub preferred: bool,
    pub broadcast: Option<[u8; 4]>,
    pub ifindex: u32,
}

/// An interface counts where it is up, can multicast, and is neither
/// loopback nor point-to-point, with an IPv4 address that is not unspecified,
/// loopback, multicast or the limited broadcast address.
pub open spec fn usable(i: RawInterface) -> bool {
    match i.ipv4 {
        None => false,
        Some(ip) => {
            let a = ip@;
            i.flags.up && i.flags.multicast && !i.flags.loopback && !i.flags.point_to_point
                && !(v4_unspecified(a) || v4_loopback(a) || v4_multicast(a)
                    || (a[0] == 255 && a[1] == 255 && a[2] == 255 && a[3] == 255))
        },
    }
}

pub fn is_usable(i: &RawInterface) -> (r: bool)
    ensures
        r == usable(*i),
{
    match i.ipv4 {
        None => false,
        Some(ip) => {
            i.flags.up && i.flags.multicast && !i.flags.loopback && !i.flags.point_to_point
                && !(ipv4_is_unspecified(ip) || ipv4_is_loopback(ip) || ipv4_is_multicast(ip)
                    || (ip[0] == 255 && ip[1] == 255 && ip[2] == 255 && ip[3] == 255))
        },
    }
}

/// The broadcast address of an interface: the one it reports (where it
/// broadcasts), else its address with the host bits set; never unspecified
/// nor multicast.
pub open spec fn broadcast_of_iface(i: RawInterface, ip: Seq<u8>) -> Option<Seq<u8>> {
    let reported = if i.flags.broadcast {
        match i.dstaddr {
            Some(b) => if !v4_unspecified(b@) && !v4_multicast(b@) { Some(b@) } else { None },
            None => None,
        }
    } else {
        None
    };
    match reported {
        Some(b) => Some(b),
        None => match i.netmask {
            Some(m) => if v4_unspecified(m@) {
                None
            } else {
                let b = seq![ip[0] | !m@[0], ip[1] | !m@[1], ip[2] | !m@[2], ip[3] | !m@[3]];
                if !v4_unspecified(b) && !v4_multicast(b) { Some(b) } else { None }
            },
            None => None,
        },
    }
}

pub open spec fn opt_octets(o: Option<[u8; 4]>) -> Option<Seq<u8>> {
    match o {
        Some(a) => Some(a@),
        None => None,
    }
}

pub fn resolve_broadcast(i: &RawInterface, ip: [u8; 4]) -> (r: Option<[u8; 4]>)
    ensures
        opt_octets(r) == broadcast_of_iface(*i, ip@),
{
    if i.flags.broadcast {
        if let Some(b) = i.dstaddr {
            if !ipv4_is_unspecified(b) && !ipv4_is_multicast(b) {
                return Some(b);
            }
        }
    }
    match i.netmask {
        Some(m) => {
            if ipv4_is_unspecified(m) {
                return None;
            }
            let b: [u8; 4] = [ip[0] | !m[0], ip[1] | !m[1], ip[2] | !m[2], ip[3] | !m[3]];
            assert(b@ =~= seq![ip@[0] | !m@[0], ip@[1] | !m@[1], ip@[2] | !m@[2], ip@[3] | !m@[3]]);
            if !ipv4_is_unspecified(b) && !ipv4_is_multicast(b) {
                Some(b)
            } else {
                None
            }
        },
        None => None,
    }
}

/// The ranked entry of a usable interface.
pub open spec fn entry_holds(i: RawInterface, e: IfaceEntry) -> bool {
    &&& i.ipv4 == Some(e.ip)
    &&& e.score as int == score_of(i.name@, e.ip@)
    &&& e.preferred == preferred_name(i.name@)
    &&& opt_octets(e.broadcast) == broadcast_of_iface(i, e.ip@)
    &&& e.ifindex == i.ifindex
}

/// The usable interfaces, ranked, in table order.
pub open spec fn entries_hold(table: Seq<RawInterface>, es: Seq<IfaceEntry>) -> bool
    decreases table.len(),
{
    if table.len() == 0 {
        es.len() == 0
    } else if usable(table.last()) {
        es.len() > 0 && entry_holds(table.last(), es.last()) && entries_hold(table.drop_last(), es.drop_last())
    } else {
        entries_hold(table.drop_last(), es)
    }
}

pub fn collect_ipv4_interfaces(table: &Vec<RawInterface>) -> (r: Vec<IfaceEntry>)
    ensures
        entries_hold(table@, r@),
{
    let mut r: Vec<IfaceEntry> = Vec::new();
    let mut i: usize = 0;
    while i < table.len()
        invariant
            i <= table@.len(),
            entries_hold(table@.take(i as int), r@),
        decreases table@.len() - i,
    {
        let ghost t = table@.take(i as int + 1);
        assert(t.drop_last() =~= table@.take(i as int));
        assert(t.last() == table@[i as int]);
        let it = &table[i];
        if is_usable(it) {
            let ip = match it.ipv4 {
                Some(a) => a,
                None => [0u8; 4],
            };
            let e = IfaceEntry {
                score: score_interface(it.name.as_str(), ip),
                ip,
                preferred: is_preferred_interface(it.name.as_str()),
                broadcast: resolve_broadcast(it, ip),
                ifindex: it.ifindex,
            };
            let ghost before = r@;
            r.push(e);
            assert(r@.drop_last() =~= before);
        }
        i = i + 1;
    }
    assert(table@.take(table@.len() as int) =~= table@);
    r
}

// ---------------------------------------------------------------------------
// Ranking order
// ---------------------------------------------------------------------------

/// Octets in lexicographic order.
pub open spec fn octets_lt(a: Seq<u8>, b: Seq<u8>) -> bool {
    a[0] < b[0] || (a[0] == b[0] && (a[1] < b[1] || (a[1] == b[1] && (a[2] < b[2] || (a[2] == b[2]
        && a[3] < b[3])))))
}

/// `a` comes before `b`: a higher score first, then the lower address.
pub open spec fn ranks_before(a: IfaceEntry, b: IfaceEntry) -> bool {
    a.score > b.score || (a.score == b.score && octets_lt(a.ip@, b.ip@))
}

/// A list put in ranking order by a stable sort: each element goes after
/// the elements that do not rank after it.
pub open spec fn insert_ranked(sorted: Seq<IfaceEntry>, e: IfaceEntry) -> Seq<IfaceEntry>
    decreases sorted.len(),
{
    if sorted.len() == 0 {
        seq![e]
    } else if ranks_before(e, sorted.last()) {
        insert_ranked(sorted.drop_last(), e).push(sorted.last())
    } else {
        sorted.push(e)
    }
}

/// The stable sort of a list into ranking order.
pub open spec fn ranked(s: Seq<IfaceEntry>) -> Seq<IfaceEntry>
    decreases s.len(),
{
    if s.len() == 0 {
        Seq::empty()
    } else {
        insert_ranked(ranked(s.drop_last()), s.last())
    }
}

fn octets_less(a: [u8; 4], b: [u8; 4]) -> (r: bool)
    ensures
        r == octets_lt(a@, b@),
{
    a[0] < b[0] || (a[0] == b[0] && (a[1] < b[1] || (a[1] == b[1] && (a[2] < b[2] || (a[2] == b[2]
        && a[3] < b[3])))))
}

fn ranks_before_exec(a: &IfaceEntry, b: &IfaceEntry) -> (r: bool)
    ensures
        r == ranks_before(*a, *b),
{
    a.score > b.score || (a.score == b.score && octets_less(a.ip, b.ip))
}

fn insert_ranked_exec(sorted: &mut Vec<IfaceEntry>, e: IfaceEntry)
    ensures
        final(sorted)@ == insert_ranked(old(sorted)@, e),
    decreases old(sorted)@.len(),
{
    let n = sorted.len();
    if n == 0 {
        sorted.push(e);
        assert(sorted@ =~= seq![e]);
        return;
    }
    let last = sorted[n - 1];
    if ranks_before_exec(&e, &last) {
        let ghost s0 = sorted@;
        let popped = sorted.pop();
        assert(sorted@ =~= s0.drop_last());
        insert_ranked_exec(sorted, e);
        sorted.push(last);
    } else {
        sorted.push(e);
    }
}

/// Sort entries into ranking order (stable).
pub fn rank_entries(entries: &Vec<IfaceEntry>) -> (r: Vec<IfaceEntry>)
    ensures
        r@ == ranked(entries@),
{
    let mut r: Vec<IfaceEntry> = Vec::new();
    let mut i: usize = 0;
    while i < entries.len()
        invariant
            i <= entries@.len(),
            r@ == ranked(entries@.take(i as int)),
        decreases entries@.len() - i,
    {
        let ghost t = entries@.take(i as int + 1);
        assert(t.drop_last() =~= entries@.take(i as int));
        insert_ranked_exec(&mut r, entries[i]);
        i = i + 1;
    }
    assert(entries@.take(entries@.len() as int) =~= entries@);
    r
}


/// Ranking order holds between neighbours: no entry ranks before the one in
/// front of it.
pub open spec fn in_rank_order(s: Seq<IfaceEntry>) -> bool {
    forall|i: int| 0 < i < s.len() ==> !ranks_before(#[trigger] s[i], s[i - 1])
}

proof fn lemma_insert_ranked(sorted: Seq<IfaceEntry>, e: IfaceEntry)
    requires
        in_rank_order(sorted),
    ensures
        in_rank_order(insert_ranked(sorted, e)),
        insert_ranked(sorted, e).len() == sorted.len() + 1,
        insert_ranked(sorted, e).last() == e || insert_ranked(sorted, e).last() == sorted.last(),
        sorted.len() > 0 && ranks_before(e, sorted.last()) ==> insert_ranked(sorted, e).last() == sorted.last(),
        sorted.len() > 0 && !ranks_before(e, sorted.last()) ==> insert_ranked(sorted, e).last() == e,
    decreases sorted.len(),
{
    if sorted.len() > 0 && ranks_before(e, sorted.last()) {
        let d = sorted.drop_last();
        assert(in_rank_order(d)) by {
            assert forall|i: int| 0 < i < d.len() implies !ranks_before(#[trigger] d[i], d[i - 1]) by {
                assert(d[i] == sorted[i] && d[i - 1] == sorted[i - 1]);
            }
        }
        lemma_insert_ranked(d, e);
        let m = insert_ranked(d, e);
        let r = m.push(sorted.last());
        assert forall|i: int| 0 < i < r.len() implies !ranks_before(#[trigger] r[i], r[i - 1]) by {
            if i == r.len() - 1 {
                // the element before the old last is e or the old second-to-last
                if d.len() > 0 {
                    if m.last() == e {
                        assert(!ranks_before(sorted.last(), e)) by {
                            assert(ranks_before(e, sorted.last()));
                        }
                    } else {
                        assert(m.last() == d.last());
                        assert(d.last() == sorted[sorted.len() - 2]);
                        assert(!ranks_before(sorted[sorted.len() - 1], sorted[sorted.len() - 2]));
                    }
                }
            } else {
                assert(r[i] == m[i] && r[i - 1] == m[i - 1]);
            }
        }
    } else if sorted.len() > 0 {
        let r = sorted.push(e);
        assert forall|i: int| 0 < i < r.len() implies !ranks_before(#[trigger] r[i], r[i - 1]) by {
            if i < r.len() - 1 {
                assert(r[i] == sorted[i] && r[i - 1] == sorted[i - 1]);
            }
        }
    }
}

/// A ranked list is in ranking order, and keeps its length.
pub proof fn ranked_is_in_order(s: Seq<IfaceEntry>)
    ensures
        in_rank_order(ranked(s)),
        ranked(s).len() == s.len(),
    decreases s.len(),
{
    if s.len() > 0 {
        ranked_is_in_order(s.drop_last());
        lemma_insert_ranked(ranked(s.drop_last()), s.last());
    }
}

/// The entries that are preferred (or not), in order.
pub open spec fn with_preference(es: Seq<IfaceEntry>, preferred: bool) -> Seq<IfaceEntry>
    decreases es.len(),
{
    if es.len() == 0 {
        Seq::empty()
    } else if es.last().preferred == preferred {
        with_preference(es.drop_last(), preferred).push(es.last())
    } else {
        with_preference(es.drop_last(), preferred)
    }
}

/// The entries whose address no earlier entry has.
pub open spec fn first_per_ip(es: Seq<IfaceEntry>) -> Seq<IfaceEntry>
    decreases es.len(),
{
    if es.len() == 0 {
        Seq::empty()
    } else if exists|j: int| 0 <= j < es.len() - 1 && #[trigger] es[j].ip@ == es.last().ip@ {
        first_per_ip(es.drop_last())
    } else {
        first_per_ip(es.drop_last()).push(es.last())
    }
}

/// The entries with a broadcast address, in order.
pub open spec fn with_broadcast(es: Seq<IfaceEntry>) -> Seq<IfaceEntry>
    decreases es.len(),
{
    if es.len() == 0 {
        Seq::empty()
    } else if es.last().broadcast is Some {
        with_broadcast(es.drop_last()).push(es.last())
    } else {
        with_broadcast(es.drop_last())
    }
}

fn split_preference(es: &Vec<IfaceEntry>, preferred: bool) -> (r: Vec<IfaceEntry>)
    ensures
        r@ == with_preference(es@, preferred),
{
    let mut r: Vec<IfaceEntry> = Vec::new();
    let mut i: usize = 0;
    while i < es.len()
        invariant
            i <= es@.len(),
            r@ == with_preference(es@.take(i as int), preferred),
        decreases es@.len() - i,
    {
        let ghost t = es@.take(i as int + 1);
        assert(t.drop_last() =~= es@.take(i as int));
        if es[i].preferred == preferred {
            r.push(es[i]);
        }
        i = i + 1;
    }
    assert(es@.take(es@.len() as int) =~= es@);
    r
}

fn keep_first_per_ip(es: &Vec<IfaceEntry>) -> (r: Vec<IfaceEntry>)
    ensures
        r@ == first_per_ip(es@),
{
    let mut r: Vec<IfaceEntry> = Vec::new();
    let mut i: usize = 0;
    while i < es.len()
        invariant
            i <= es@.len(),
            r@ == first_per_ip(es@.take(i as int)),
        decreases es@.len() - i,
    {
        let ghost t = es@.take(i as int + 1);
        assert(t.drop_last() =~= es@.take(i as int));
        let mut seen = false;
        let mut j: usize = 0;
        while j < i
            invariant
                j <= i < es@.len(),
                t == es@.take(i as int + 1),
                seen == exists|k: int| 0 <= k < j && #[trigger] t[k].ip@ == t.last().ip@,
            decreases i - j,
        {
            if ipv4_eq(es[j].ip, es[i].ip) {
                assert(t[j as int].ip@ == t.last().ip@);
                seen = true;
            }
            j = j + 1;
        }
        if !seen {
            r.push(es[i]);
        }
        i = i + 1;
    }
    assert(es@.take(es@.len() as int) =~= es@);
    r
}

fn keep_with_broadcast(es: &Vec<IfaceEntry>) -> (r: Vec<IfaceEntry>)
    ensures
        r@ == with_broadcast(es@),
{
    let mut r: Vec<IfaceEntry> = Vec::new();
    let mut i: usize = 0;
    while i < es.len()
        invariant
            i <= es@.len(),
            r@ == with_broadcast(es@.take(i as int)),
        decreases es@.len() - i,
    {
        let ghost t = es@.take(i as int + 1);
        assert(t.drop_last() =~= es@.take(i as int));
        if es[i].broadcast.is_some() {
            r.push(es[i]);
        }
        i = i + 1;
    }
    assert(es@.take(es@.len() as int) =~= es@);
    r
}

/// The candidate entries: preferred interfaces in ranking order, then the
/// others, each address once.
pub open spec fn candidate_entries(es: Seq<IfaceEntry>) -> Seq<IfaceEntry> {
    first_per_ip(ranked(with_preference(es, true)) + ranked(with_preference(es, false)))
}

fn candidates_of(es: &Vec<IfaceEntry>) -> (r: Vec<IfaceEntry>)
    ensures
        r@ == candidate_entries(es@),
{
    let mut preferred = rank_entries(&split_preference(es, true));
    let mut fallback = rank_entries(&split_preference(es, false));
    preferred.append(&mut fallback);
    keep_first_per_ip(&preferred)
}

/// Local IPv4 addresses to use, best first.
pub fn local_ipv4_candidates_unix(es: &Vec<IfaceEntry>) -> (r: Vec<[u8; 4]>)
    ensures
        r@ == candidate_entries(es@).map_values(|e: IfaceEntry| e.ip),
{
    let c = candidates_of(es);
    let mut r: Vec<[u8; 4]> = Vec::new();
    let mut i: usize = 0;
    while i < c.len()
        invariant
            i <= c@.len(),
            r@.len() == i,
            forall|k: int| 0 <= k < i ==> r@[k] == c@[k].ip,
        decreases c@.len() - i,
    {
        r.push(c[i].ip);
        i = i + 1;
    }
    assert(r@ =~= c@.map_values(|e: IfaceEntry| e.ip));
    r
}

/// Local IPv4 addresses to bind to, with their interface indices, best first.
pub fn local_ipv4_bind_candidates_unix(es: &Vec<IfaceEntry>) -> (r: Vec<([u8; 4], u32)>)
    ensures
        r@ == candidate_entries(es@).map_values(|e: IfaceEntry| (e.ip, e.ifindex)),
{
    let c = candidates_of(es);
    let mut r: Vec<([u8; 4], u32)> = Vec::new();
    let mut i: usize = 0;
    while i < c.len()
        invariant
            i <= c@.len(),
            r@.len() == i,
            forall|k: int| 0 <= k < i ==> r@[k] == (c@[k].ip, c@[k].ifindex),
        decreases c@.len() - i,
    {
        r.push((c[i].ip, c[i].ifindex));
        i = i + 1;
    }
    assert(r@ =~= c@.map_values(|e: IfaceEntry| (e.ip, e.ifindex)));
    r
}

/// The broadcast entries: in ranking order, those with a broadcast address,
/// each address once.
pub open spec fn broadcast_entries(es: Seq<IfaceEntry>) -> Seq<IfaceEntry> {
    first_per_ip(with_broadcast(ranked(es)))
}

/// Local IPv4 addresses with their broadcast addresses, best first.
pub fn local_ipv4_broadcasts_unix(es: &Vec<IfaceEntry>) -> (r: Vec<([u8; 4], [u8; 4])>)
    ensures
        r@.len() == broadcast_entries(es@).len(),
        forall|k: int| 0 <= k < r@.len() ==> (#[trigger] r@[k]).0 == broadcast_entries(es@)[k].ip
            && broadcast_entries(es@)[k].broadcast == Some(r@[k].1),
{
    let c = keep_first_per_ip(&keep_with_broadcast(&rank_entries(es)));
    let mut r: Vec<([u8; 4], [u8; 4])> = Vec::new();
    let mut i: usize = 0;
    proof {
        lemma_with_broadcast(ranked(es@));
        lemma_first_per_ip_sub(with_broadcast(ranked(es@)));
    }
    while i < c.len()
        invariant
            c@ == broadcast_entries(es@),
            forall|k: int| 0 <= k < c@.len() ==> (#[trigger] c@[k]).broadcast is Some,
            i <= c@.len(),
            r@.len() == i,
            forall|k: int| 0 <= k < i ==> (#[trigger] r@[k]).0 == c@[k].ip && c@[k].broadcast == Some(r@[k].1),
        decreases c@.len() - i,
    {
        let b = match c[i].broadcast {
            Some(b) => b,
            None => [0u8; 4],
        };
        r.push((c[i].ip, b));
        i = i + 1;
    }
    r
}

proof fn lemma_with_broadcast(es: Seq<IfaceEntry>)
    ensures
        forall|k: int| 0 <= k < with_broadcast(es).len() ==> (#[trigger] with_broadcast(es)[k]).broadcast is Some,
    decreases es.len(),
{
    if es.len() > 0 {
        lemma_with_broadcast(es.drop_last());
        let p = with_broadcast(es.drop_last());
        if es.last().broadcast is Some {
            assert forall|k: int| 0 <= k < with_broadcast(es).len() implies (#[trigger] with_broadcast(es)[k]).broadcast is Some by {
                if k < p.len() {
                    assert(with_broadcast(es)[k] == p[k]);
                }
            }
        }
    }
}

proof fn lemma_first_per_ip_sub(es: Seq<IfaceEntry>)
    requires
        forall|k: int| 0 <= k < es.len() ==> (#[trigger] es[k]).broadcast is Some,
    ensures
        forall|k: int| 0 <= k < first_per_ip(es).len() ==> (#[trigger] first_per_ip(es)[k]).broadcast is Some,
    decreases es.len(),
{
    if es.len() > 0 {
        let d = es.drop_last();
        assert forall|k: int| 0 <= k < d.len() implies (#[trigger] d[k]).broadcast is Some by {
            assert(d[k] == es[k]);
        }
        lemma_first_per_ip_sub(d);
        let p = first_per_ip(d);
        assert forall|k: int| 0 <= k < first_per_ip(es).len() implies (#[trigger] first_per_ip(es)[k]).broadcast is Some by {
            if k < p.len() {
                assert(first_per_ip(es)[k] == p[k]);
            } else {
                assert(es[es.len() - 1].broadcast is Some);
            }
        }
    }
}

/// The best of a list: the last of those with the highest score.
pub open spec fn best_of(es: Seq<IfaceEntry>) -> Option<IfaceEntry>
    decreases es.len(),
{
    if es.len() == 0 {
        None
    } else {
        match best_of(es.drop_last()) {
            None => Some(es.last()),
            Some(b) => if es.last().score >= b.score { Some(es.last()) } else { Some(b) },
        }
    }
}

fn pick_best(es: &Vec<IfaceEntry>) -> (r: Option<IfaceEntry>)
    ensures
        match (r, best_of(es@)) {
            (Some(a), Some(b)) => a.ip == b.ip && a.score == b.score,
            (None, None) => true,
            _ => false,
        },
{
    let mut best: Option<IfaceEntry> = None;
    let mut i: usize = 0;
    while i < es.len()
        invariant
            i <= es@.len(),
            match (best, best_of(es@.take(i as int))) {
                (Some(a), Some(b)) => a.ip == b.ip && a.score == b.score,
                (None, None) => true,
                _ => false,
            },
        decreases es@.len() - i,
    {
        let ghost t = es@.take(i as int + 1);
        assert(t.drop_last() =~= es@.take(i as int));
        assert(t.last() == es@[i as int]);
        best = match best {
            None => Some(es[i]),
            Some(b) => if es[i].score >= b.score { Some(es[i]) } else { Some(b) },
        };
        i = i + 1;
    }
    assert(es@.take(es@.len() as int) =~= es@);
    best
}

/// The best local IPv4 address: the best preferred interface, else the best
/// of the others.
pub open spec fn best_ipv4_of(es: Seq<IfaceEntry>) -> Option<[u8; 4]> {
    match best_of(with_preference(es, true)) {
        Some(b) => Some(b.ip),
        None => match best_of(with_preference(es, false)) {
            Some(b) => Some(b.ip),
            None => None,
        },
    }
}

pub fn best_local_ipv4_unix(es: &Vec<IfaceEntry>) -> (r: Option<[u8; 4]>)
    ensures
        r == best_ipv4_of(es@),
{
    match pick_best(&split_preference(es, true)) {
        Some(b) => Some(b.ip),
        None => match pick_best(&split_preference(es, false)) {
            Some(b) => Some(b.ip),
            None => None,
        },
    }
}

/// The interface index of a local address, the first that the candidates
/// give it.
pub fn ifindex_for_ipv4(candidates: &[([u8; 4], u32)], ip: [u8; 4]) -> (r: Option<u32>)
    ensures
        match r {
            Some(x) => exists|i: int| 0 <= i < candidates@.len() && candidates@[i].0@ == ip@ && candidates@[i].1 == x
                && forall|j: int| 0 <= j < i ==> candidates@[j].0@ != ip@,
            None => forall|j: int| 0 <= j < candidates@.len() ==> candidates@[j].0@ != ip@,
        },
{
    let mut i: usize = 0;
    while i < candidates.len()
        invariant
            i <= candidates@.len(),
            forall|j: int| 0 <= j < i ==> candidates@[j].0@ != ip@,
        decreases candidates@.len() - i,
    {
        if ipv4_eq(candidates[i].0, ip) {
            return Some(candidates[i].1);
        }
        i = i + 1;
    }
    None
}

/// An address usable as this machine's LAN address: not unspecified,
/// loopback or multicast.
pub open spec fn lan_ipv4(a: Seq<u8>) -> bool {
    !v4_unspecified(a) && !v4_loopback(a) && !v4_multicast(a)
}

fn is_lan_ipv4(a: [u8; 4]) -> (r: bool)
    ensures
        r == lan_ipv4(a@),
{
    !ipv4_is_unspecified(a) && !ipv4_is_loopback(a) && !ipv4_is_multicast(a)
}

/// The address the server uses: the one `FLINGDLNA_LOCAL_IPV4` names (it
/// must parse, trimmed, and be a LAN address), else the best interface, else
/// what the system reports as its local address (which must be IPv4).
pub fn best_local_ipv4(
    env_value: Option<&str>,
    best_interface: Option<[u8; 4]>,
    system_ip: Result<crate::net::ip::IpAddress, String>,
) -> (r: Result<[u8; 4], crate::error::Error>)
    ensures
        match env_value {
            Some(v) => match crate::net::ip::ipv4_of_text(crate::text::trim(v@)) {
                None => r matches Err(crate::error::Error::Network(m)) && m@ == "Invalid FLINGDLNA_LOCAL_IPV4 '"@
                    + v@ + "': invalid IPv4 address syntax"@,
                Some(a) => if lan_ipv4(a) {
                    r matches Ok(x) && x@ == a
                } else {
                    r matches Err(crate::error::Error::Network(m)) && m@ == "Invalid FLINGDLNA_LOCAL_IPV4 '"@
                        + crate::net::ip::ipv4_text(a) + "' (must be a LAN IPv4)"@
                },
            },
            None => match best_interface {
                Some(a) => r == Ok::<[u8; 4], crate::error::Error>(a),
                None => match system_ip {
                    Ok(crate::net::ip::IpAddress::V4(a)) => r == Ok::<[u8; 4], crate::error::Error>(a),
                    Ok(crate::net::ip::IpAddress::V6(_)) => r matches Err(crate::error::Error::Network(m))
                        && m@ == "No local IPv4 address found"@,
                    Err(e) => r matches Err(crate::error::Error::Network(m)) && m@ == "Failed to get local IP: "@ + e@,
                },
            },
        },
{
    if let Some(v) = env_value {
        let t = crate::text::trim_chars(chars_of(v).as_slice());
        let ts = crate::text::string_from_chars(t.as_slice());
        match crate::net::ip::parse_ipv4(ts.as_str()) {
            None => {
                let mut m = String::new();
                push_str(&mut m, "Invalid FLINGDLNA_LOCAL_IPV4 '");
                push_str(&mut m, v);
                push_str(&mut m, "': invalid IPv4 address syntax");
                return Err(crate::error::Error::Network(m));
            },
            Some(ip) => {
                if !is_lan_ipv4(ip) {
                    let mut m = String::new();
                    push_str(&mut m, "Invalid FLINGDLNA_LOCAL_IPV4 '");
                    push_str(&mut m, crate::net::ip::ipv4_to_string(ip).as_str());
                    push_str(&mut m, "' (must be a LAN IPv4)");
                    return Err(crate::error::Error::Network(m));
                }
                return Ok(ip);
            },
        }
    }
    if let Some(ip) = best_interface {
        return Ok(ip);
    }
    match system_ip {
        Ok(crate::net::ip::IpAddress::V4(ip)) => Ok(ip),
        Ok(crate::net::ip::IpAddress::V6(_)) => Err(crate::error::Error::Network(String::from_str("No local IPv4 address found"))),
        Err(e) => {
            let mut m = String::new();
            push_str(&mut m, "Failed to get local IP: ");
            push_str(&mut m, e.as_str());
            Err(crate::error::Error::Network(m))
        },
    }
}

/// The addresses among `ips` whose address no earlier one has.
pub open spec fn first_of_each(ips: Seq<[u8; 4]>) -> Seq<[u8; 4]>
    decreases ips.len(),
{
    if ips.len() == 0 {
        Seq::empty()
    } else if exists|j: int| 0 <= j < ips.len() - 1 && #[trigger] ips[j]@ == ips.last()@ {
        first_of_each(ips.drop_last())
    } else {
        first_of_each(ips.drop_last()).push(ips.last())
    }
}

/// The local addresses to try, best first: the one `FLINGDLNA_LOCAL_IPV4`
/// names (where it parses, trimmed, to a LAN address), then the interfaces'
/// candidates, or the system's local address where there are none; each
/// address once.
pub open spec fn candidates_with(env_value: Option<Seq<char>>, interfaces: Seq<[u8; 4]>, system_ip: Option<[u8; 4]>) -> Seq<[u8; 4]> {
    let out = if interfaces.len() == 0 {
        match system_ip { Some(a) => seq![a], None => Seq::empty() }
    } else {
        interfaces
    };
    let first = match env_value {
        Some(v) => match crate::net::ip::ipv4_of_text(crate::text::trim(v)) {
            Some(a) => if lan_ipv4(a) { seq![[a[0], a[1], a[2], a[3]]] } else { Seq::empty() },
            None => Seq::empty(),
        },
        None => Seq::empty(),
    };
    first_of_each(first + out)
}

fn dedup_ips(ips: &Vec<[u8; 4]>) -> (r: Vec<[u8; 4]>)
    ensures
        r@ == first_of_each(ips@),
{
    let mut r: Vec<[u8; 4]> = Vec::new();
    let mut i: usize = 0;
    while i < ips.len()
        invariant
            i <= ips@.len(),
            r@ == first_of_each(ips@.take(i as int)),
        decreases ips@.len() - i,
    {
        let ghost t = ips@.take(i as int + 1);
        assert(t.drop_last() =~= ips@.take(i as int));
        let mut seen = false;
        let mut j: usize = 0;
        while j < i
            invariant
                j <= i < ips@.len(),
                t == ips@.take(i as int + 1),
                seen == exists|k: int| 0 <= k < j && #[trigger] t[k]@ == t.last()@,
            decreases i - j,
        {
            if ipv4_eq(ips[j], ips[i]) {
                assert(t[j as int]@ == t.last()@);
                seen = true;
            }
            j = j + 1;
        }
        if !seen {
            r.push(ips[i]);
        }
        i = i + 1;
    }
    assert(ips@.take(ips@.len() as int) =~= ips@);
    r
}

/// Local IPv4 addresses to try, best first.
pub fn local_ipv4_candidates(env_value: Option<&str>, interfaces: Vec<[u8; 4]>, system_ip: Option<[u8; 4]>) -> (r: Vec<[u8; 4]>)
    ensures
        r@ == candidates_with(match env_value { Some(v) => Some(v@), None => None }, interfaces@, system_ip),
{
    assert(interfaces@.len() == interfaces.len());
    let ghost iv = interfaces@;
    let mut out = interfaces;
    if out.len() == 0 {
        if let Some(a) = system_ip {
            out.push(a);
        }
    }
    let mut all: Vec<[u8; 4]> = Vec::new();
    if let Some(v) = env_value {
        let t = crate::text::trim_chars(chars_of(v).as_slice());
        let ts = crate::text::string_from_chars(t.as_slice());
        if let Some(ip) = crate::net::ip::parse_ipv4(ts.as_str()) {
            if is_lan_ipv4(ip) {
                all.push(ip);
                proof {
                    assert([ip@[0], ip@[1], ip@[2], ip@[3]] =~= ip);
                }
            }
        }
    }
    let ghost first = all@;
    let ghost out0 = out@;
    proof {
        let ev = match env_value { Some(v) => Some(v@), None => None::<Seq<char>> };
        let spec_first = match ev {
            Some(v) => match crate::net::ip::ipv4_of_text(crate::text::trim(v)) {
                Some(a) => if lan_ipv4(a) { seq![[a[0], a[1], a[2], a[3]]] } else { Seq::<[u8; 4]>::empty() },
                None => Seq::<[u8; 4]>::empty(),
            },
            None => Seq::<[u8; 4]>::empty(),
        };
        assert(first =~= spec_first);
        let spec_out = if interfaces@.len() == 0 {
            match system_ip { Some(a) => seq![a], None => Seq::<[u8; 4]>::empty() }
        } else {
            interfaces@
        };
        assert(out0 =~= spec_out);
    }
    all.append(&mut out);
    assert(all@ =~= first + out0);
    dedup_ips(&all)
}

/// On one interface name, the kind of address decides: a private (or shared)
/// address scores above a link-local one, and a link-local one above any
/// other.
pub proof fn private_outranks_link_local(name: Seq<char>, a: Seq<u8>, b: Seq<u8>, c: Seq<u8>)
    requires
        a.len() == 4,
        b.len() == 4,
        c.len() == 4,
        v4_private(a) || v4_shared_cgnat(a),
        v4_link_local(b),
        !v4_private(c) && !v4_shared_cgnat(c) && !v4_link_local(c),
    ensures
        score_of(name, a) > score_of(name, b),
        score_of(name, b) > score_of(name, c),
{
}

/// Among the interfaces the ranking considers (names starting `en`, `eth`,
/// `wlan` or `wl`), a private (or shared) address outranks a link-local one
/// whatever the two names are.
pub proof fn private_outranks_link_local_among_candidates(n1: Seq<char>, n2: Seq<char>, a: Seq<u8>, b: Seq<u8>)
    requires
        a.len() == 4,
        b.len() == 4,
        preferred_name(n1),
        preferred_name(n2),
        v4_private(a) || v4_shared_cgnat(a),
        v4_link_local(b),
    ensures
        score_of(n1, a) > score_of(n2, b),
{
}
} // verus!
