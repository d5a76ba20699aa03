//! Choices about SSDP sockets: which address a sender binds, which interfaces
//! a sender or a listener uses, and which send errors are routing errors.
//! Creating and using sockets is left to the caller.

use vstd::prelude::*;
use crate::error::IoKind;
use crate::net::ip::{IpAddress, ipv4_eq, ipv4_in, ipv4_is_unspecified, v4_unspecified};
use crate::net::selection::octets_lt;

verus! {

/// Whether a send error means no route to the destination: an unreachable
/// network or host, by kind or by the system's error number (65 and 51 on
/// macOS, 113 and 101 on Linux).
pub open spec fn route_error(kind: IoKind, raw_os_error: Option<i32>) -> bool {
    kind == IoKind::NetworkUnreachable || kind == IoKind::HostUnreachable
        || raw_os_error == Some(65i32) || raw_os_error == Some(51i32) || raw_os_error == Some(113i32)
        || raw_os_error == Some(101i32)
}

pub fn is_multicast_route_error(kind: IoKind, raw_os_error: Option<i32>) -> (r: bool)
    ensures
        r == route_error(kind, raw_os_error),
{
    match kind {
        IoKind::NetworkUnreachable | IoKind::HostUnreachable => true,
        _ => match raw_os_error {
            Some(e) => e == 65 || e == 51 || e == 113 || e == 101,
            None => false,
        },
    }
}

/// The local IPv4 address of a local IP, unless it is IPv6 or unspecified.
pub open spec fn local_v4_of(ip: IpAddress) -> Option<Seq<u8>> {
    match ip {
        IpAddress::V4(a) => if v4_unspecified(a@) { None } else { Some(a@) },
        IpAddress::V6(_) => None,
    }
}

pub fn local_ip_v4(ip: IpAddress) -> (r: Option<[u8; 4]>)
    ensures
        match r {
            Some(a) => local_v4_of(ip) == Some(a@),
            None => local_v4_of(ip) is None,
        },
{
    match ip {
        IpAddress::V4(a) => if ipv4_is_unspecified(a) { None } else { Some(a) },
        IpAddress::V6(_) => None,
    }
}

/// The interface a sender socket sends on: the local IPv4 address, or any.
pub fn sender_bind_ip(local_ip: IpAddress) -> (r: [u8; 4])
    ensures
        match local_v4_of(local_ip) {
            Some(a) => r@ == a,
            None => v4_unspecified(r@),
        },
{
    match local_ip_v4(local_ip) {
        Some(a) => a,
        None => [0, 0, 0, 0],
    }
}

/// The addresses to open multicast senders on: the preferred address first
/// where the candidates lack it, then the candidates; any address where that
/// leaves none.
pub open spec fn sender_candidates_of(candidates: Seq<[u8; 4]>, prefer: Option<[u8; 4]>) -> Seq<[u8; 4]> {
    let c = match prefer {
        Some(p) => if exists|i: int| 0 <= i < candidates.len() && candidates[i]@ == p@ {
            candidates
        } else {
            seq![p] + candidates
        },
        None => candidates,
    };
    if c.len() == 0 {
        seq![[0u8, 0u8, 0u8, 0u8]]
    } else {
        c
    }
}

pub fn multicast_sender_candidates(candidates: Vec<[u8; 4]>, prefer: Option<[u8; 4]>) -> (r: Vec<[u8; 4]>)
    ensures
        r@ == sender_candidates_of(candidates@, prefer),
{
    let ghost c0 = candidates@;
    let mut c = candidates;
    if let Some(p) = prefer {
        if !ipv4_in(c.as_slice(), p) {
            c.insert(0, p);
            assert(c@ =~= seq![p] + c0);
        }
    }
    if c.len() == 0 {
        let z: [u8; 4] = [0, 0, 0, 0];
        c.push(z);
        assert(c@ =~= seq![[0u8, 0u8, 0u8, 0u8]]);
    }
    c
}

/// Strictly ascending addresses.
pub open spec fn ascending(s: Seq<[u8; 4]>) -> bool {
    forall|i: int| 0 < i < s.len() ==> octets_lt(#[trigger] s[i - 1]@, s[i]@)
}

/// `x` is among `s`.
pub open spec fn has_ip(s: Seq<[u8; 4]>, x: Seq<u8>) -> bool {
    exists|i: int| 0 <= i < s.len() && #[trigger] s[i]@ == x
}

proof fn lemma_octets_order(a: Seq<u8>, b: Seq<u8>)
    requires
        a.len() == 4,
        b.len() == 4,
    ensures
        a != b ==> octets_lt(a, b) || octets_lt(b, a),
        !(octets_lt(a, b) && octets_lt(b, a)),
        !octets_lt(a, a),
{
    if a != b && !octets_lt(a, b) && !octets_lt(b, a) {
        assert(a =~= b);
    }
}

/// Adds an address to a strictly ascending list, where it is not there yet.
fn insert_ascending(s: &mut Vec<[u8; 4]>, x: [u8; 4])
    requires
        ascending(old(s)@),
    ensures
        ascending(final(s)@),
        forall|y: Seq<u8>| has_ip(final(s)@, y) <==> (has_ip(old(s)@, y) || y == x@),
{
    let mut i: usize = 0;
    while i < s.len() && octets_lt_exec(s[i], x)
        invariant
            i <= s@.len(),
            s@ == old(s)@,
            ascending(s@),
            forall|k: int| 0 <= k < i ==> octets_lt(#[trigger] s@[k]@, x@),
        decreases s@.len() - i,
    {
        i = i + 1;
    }
    if i < s.len() && ipv4_eq(s[i], x) {
        assert(has_ip(s@, x@));
        return;
    }
    let ghost s0 = s@;
    proof {
        if i < s0.len() {
            assert(s0[i as int]@ != x@);
            assert(x@.len() == 4 && s0[i as int]@.len() == 4);
            lemma_octets_order(s0[i as int]@, x@);
            assert(octets_lt(x@, s0[i as int]@));
        }
    }
    s.insert(i, x);
    proof {
        let s1 = s@;
        assert(s1 =~= s0.subrange(0, i as int).push(x) + s0.subrange(i as int, s0.len() as int));
        assert forall|k: int| 0 < k < s1.len() implies octets_lt(#[trigger] s1[k - 1]@, s1[k]@) by {
            if k < i {
                assert(s1[k - 1] == s0[k - 1] && s1[k] == s0[k]);
                assert(octets_lt(s0[k - 1]@, s0[k]@));
            } else if k == i {
                assert(s1[k - 1] == s0[k - 1] && s1[k] == x);
            } else if k == i + 1 {
                assert(s1[k - 1] == x && s1[k] == s0[i as int]);
                assert(octets_lt(x@, s0[i as int]@));
            } else {
                assert(s1[k - 1] == s0[k - 2] && s1[k] == s0[k - 1]);
                let m = k - 1;
                assert(octets_lt(s0[m - 1]@, s0[m]@));
            }
        }
        assert forall|y: Seq<u8>| has_ip(s1, y) <==> (has_ip(s0, y) || y == x@) by {
            if has_ip(s1, y) {
                let k = choose|k: int| 0 <= k < s1.len() && s1[k]@ == y;
                if k < i {
                    assert(s0[k]@ == y);
                } else if k > i {
                    assert(s0[k - 1]@ == y);
                }
            }
            if has_ip(s0, y) {
                let k = choose|k: int| 0 <= k < s0.len() && s0[k]@ == y;
                if k < i {
                    assert(s1[k]@ == y);
                } else {
                    assert(s1[k + 1]@ == y);
                }
            }
            if y == x@ {
                assert(s1[i as int]@ == y);
            }
        }
    }
}

fn octets_lt_exec(a: [u8; 4], b: [u8; 4]) -> (r: bool)
    ensures
        r == octets_lt(a@, b@),
{
    a[0] < b[0] || (a[0] == b[0] && (a[1] < b[1] || (a[1] == b[1] && (a[2] < b[2] || (a[2] == b[2]
        && a[3] < b[3])))))
}

/// The interfaces a listener joins the multicast group on: the local IPv4
/// address (unless unspecified), the candidates and any address, each once,
/// in ascending order.
pub fn listener_join_interfaces(local_ip: IpAddress, candidates: &Vec<[u8; 4]>) -> (r: Vec<[u8; 4]>)
    ensures
        ascending(r@),
        forall|y: Seq<u8>| has_ip(r@, y) <==> (local_v4_of(local_ip) == Some(y) || has_ip(candidates@, y)
            || y == seq![0u8, 0u8, 0u8, 0u8]),
{
    let mut r: Vec<[u8; 4]> = Vec::new();
    if let Some(a) = local_ip_v4(local_ip) {
        insert_ascending(&mut r, a);
    }
    let ghost r0 = r@;
    let mut i: usize = 0;
    while i < candidates.len()
        invariant
            i <= candidates@.len(),
            ascending(r@),
            forall|y: Seq<u8>| has_ip(r@, y) <==> (has_ip(r0, y) || has_ip(candidates@.take(i as int), y)),
            forall|y: Seq<u8>| has_ip(r0, y) <==> local_v4_of(local_ip) == Some(y),
        decreases candidates@.len() - i,
    {
        let ghost rp = r@;
        assert(forall|y: Seq<u8>| has_ip(rp, y) <==> (has_ip(r0, y) || has_ip(candidates@.take(i as int), y)));
        insert_ascending(&mut r, candidates[i]);
        proof {
            let t = candidates@.take(i + 1);
            assert forall|y: Seq<u8>| has_ip(t, y) <==> (has_ip(candidates@.take(i as int), y) || y == candidates@[i as int]@) by {
                if has_ip(t, y) {
                    let k = choose|k: int| 0 <= k < t.len() && t[k]@ == y;
                    if k < i {
                        assert(candidates@.take(i as int)[k] == t[k]);
                    }
                }
                if has_ip(candidates@.take(i as int), y) {
                    let k = choose|k: int| 0 <= k < i && candidates@.take(i as int)[k]@ == y;
                    assert(t[k] == candidates@.take(i as int)[k]);
                }
                if y == candidates@[i as int]@ {
                    assert(t[i as int]@ == y);
                }
            }
            assert forall|y: Seq<u8>| has_ip(r@, y) <==> (has_ip(r0, y) || has_ip(t, y)) by {
                assert(has_ip(r@, y) <==> (has_ip(rp, y) || y == candidates@[i as int]@));
                assert(has_ip(rp, y) <==> (has_ip(r0, y) || has_ip(candidates@.take(i as int), y)));
                assert(has_ip(t, y) <==> (has_ip(candidates@.take(i as int), y) || y == candidates@[i as int]@));
            }
        }
        i = i + 1;
    }
    assert(candidates@.take(candidates@.len() as int) =~= candidates@);
    let z: [u8; 4] = [0, 0, 0, 0];
    assert(z@ =~= seq![0u8, 0u8, 0u8, 0u8]);
    let ghost rp = r@;
    insert_ascending(&mut r, z);
    proof {
        assert forall|y: Seq<u8>| has_ip(r@, y) <==> (local_v4_of(local_ip) == Some(y) || has_ip(candidates@, y)
            || y == seq![0u8, 0u8, 0u8, 0u8]) by {
            assert(has_ip(r@, y) <==> (has_ip(rp, y) || y == z@));
            assert(has_ip(rp, y) <==> (has_ip(r0, y) || has_ip(candidates@, y)));
            assert(has_ip(r0, y) <==> local_v4_of(local_ip) == Some(y));
        }
    }
    r
}

} // verus!
