//! IP addresses as plain values, with the classes that std gives them and
//! their text forms.

use vstd::prelude::*;
use crate::text::{chars_of, decimal, hex_lower, push_char, push_decimal, push_hex, push_str};

verus! {

/// An IP address: four octets, or eight 16-bit segments.
#[derive(Debug, Clone, Copy)]
pub enum IpAddress {
    V4([u8; 4]),
    V6([u16; 8]),
}

/// `Ipv4Addr::is_unspecified`: 0.0.0.0.
pub open spec fn v4_unspecified(a: Seq<u8>) -> bool {
    a[0] == 0 && a[1] == 0 && a[2] == 0 && a[3] == 0
}

/// `Ipv4Addr::is_loopback`: 127.0.0.0/8.
pub open spec fn v4_loopback(a: Seq<u8>) -> bool {
    a[0] == 127
}

/// `Ipv4Addr::is_multicast`: 224.0.0.0/4.
pub open spec fn v4_multicast(a: Seq<u8>) -> bool {
    224 <= a[0] && a[0] <= 239
}

/// `Ipv4Addr::is_private`: 10.0.0.0/8, 172.16.0.0/12, 192.168.0.0/16.
pub open spec fn v4_private(a: Seq<u8>) -> bool {
    a[0] == 10 || (a[0] == 172 && 16 <= a[1] && a[1] <= 31) || (a[0] == 192 && a[1] == 168)
}

/// `Ipv4Addr::is_link_local`: 169.254.0.0/16.
pub open spec fn v4_link_local(a: Seq<u8>) -> bool {
    a[0] == 169 && a[1] == 254
}

/// Shared address space of carrier-grade NAT (RFC 6598): 100.64.0.0/10.
pub open spec fn v4_shared_cgnat(a: Seq<u8>) -> bool {
    a[0] == 100 && 64 <= a[1] && a[1] <= 127
}

pub fn ipv4_is_unspecified(a: [u8; 4]) -> (r: bool)
    ensures
        r == v4_unspecified(a@),
{
    a[0] == 0 && a[1] == 0 && a[2] == 0 && a[3] == 0
}

pub fn ipv4_is_loopback(a: [u8; 4]) -> (r: bool)
    ensures
        r == v4_loopback(a@),
{
    a[0] == 127
}

pub fn ipv4_is_multicast(a: [u8; 4]) -> (r: bool)
    ensures
        r == v4_multicast(a@),
{
    224 <= a[0] && a[0] <= 239
}

pub fn ipv4_is_private(a: [u8; 4]) -> (r: bool)
    ensures
        r == v4_private(a@),
{
    a[0] == 10 || (a[0] == 172 && 16 <= a[1] && a[1] <= 31) || (a[0] == 192 && a[1] == 168)
}

pub fn ipv4_is_link_local(a: [u8; 4]) -> (r: bool)
    ensures
        r == v4_link_local(a@),
{
    a[0] == 169 && a[1] == 254
}

/// Whether an address lies in the shared address space (100.64.0.0/10).
pub fn is_shared_cgnat(a: [u8; 4]) -> (r: bool)
    ensures
        r == v4_shared_cgnat(a@),
{
    a[0] == 100 && 64 <= a[1] && a[1] <= 127
}

/// `Ipv6Addr::is_unspecified`: `::`.
pub open spec fn v6_unspecified(s: Seq<u16>) -> bool {
    forall|i: int| 0 <= i < 8 ==> s[i] == 0
}

/// `Ipv6Addr::is_loopback`: `::1`.
pub open spec fn v6_loopback(s: Seq<u16>) -> bool {
    (forall|i: int| 0 <= i < 7 ==> s[i] == 0) && s[7] == 1
}

/// `Ipv6Addr::is_multicast`: ff00::/8.
pub open spec fn v6_multicast(s: Seq<u16>) -> bool {
    s[0] >= 0xff00
}

/// `Ipv6Addr::is_unique_local`: fc00::/7.
pub open spec fn v6_unique_local(s: Seq<u16>) -> bool {
    0xfc00 <= s[0] && s[0] <= 0xfdff
}

/// `Ipv6Addr::is_unicast_link_local`: fe80::/10.
pub open spec fn v6_unicast_link_local(s: Seq<u16>) -> bool {
    0xfe80 <= s[0] && s[0] <= 0xfebf
}

pub fn ipv6_is_unspecified(s: [u16; 8]) -> (r: bool)
    ensures
        r == v6_unspecified(s@),
{
    let mut i: usize = 0;
    while i < 8
        invariant
            i <= 8,
            forall|k: int| 0 <= k < i ==> s@[k] == 0,
        decreases 8 - i,
    {
        if s[i] != 0 {
            return false;
        }
        i = i + 1;
    }
    true
}

pub fn ipv6_is_loopback(s: [u16; 8]) -> (r: bool)
    ensures
        r == v6_loopback(s@),
{
    let mut i: usize = 0;
    while i < 7
        invariant
            i <= 7,
            forall|k: int| 0 <= k < i ==> s@[k] == 0,
        decreases 7 - i,
    {
        if s[i] != 0 {
            return false;
        }
        i = i + 1;
    }
    s[7] == 1
}

pub fn ipv6_is_multicast(s: [u16; 8]) -> (r: bool)
    ensures
        r == v6_multicast(s@),
{
    s[0] >= 0xff00
}

pub fn ipv6_is_unique_local(s: [u16; 8]) -> (r: bool)
    ensures
        r == v6_unique_local(s@),
{
    0xfc00 <= s[0] && s[0] <= 0xfdff
}

pub fn ipv6_is_unicast_link_local(s: [u16; 8]) -> (r: bool)
    ensures
        r == v6_unicast_link_local(s@),
{
    0xfe80 <= s[0] && s[0] <= 0xfebf
}

/// The dotted decimal text of an IPv4 address.
pub open spec fn ipv4_text(a: Seq<u8>) -> Seq<char> {
    decimal(a[0] as nat) + seq!['.'] + decimal(a[1] as nat) + seq!['.'] + decimal(a[2] as nat) + seq!['.']
        + decimal(a[3] as nat)
}

/// The dotted decimal text of an IPv4 address (`Ipv4Addr`'s `Display`).
pub fn ipv4_to_string(a: [u8; 4]) -> (r: String)
    ensures
        r@ == ipv4_text(a@),
{
    let mut r = String::new();
    push_decimal(&mut r, a[0] as u64);
    push_char(&mut r, '.');
    push_decimal(&mut r, a[1] as u64);
    push_char(&mut r, '.');
    push_decimal(&mut r, a[2] as u64);
    push_char(&mut r, '.');
    push_decimal(&mut r, a[3] as u64);
    r
}

/// Segments in lower-case hexadecimal, separated by colons.
pub open spec fn hex_segments(s: Seq<u16>) -> Seq<char>
    decreases s.len(),
{
    if s.len() == 0 {
        Seq::empty()
    } else if s.len() == 1 {
        hex_lower(s[0] as nat)
    } else {
        hex_segments(s.drop_last()) + seq![':'] + hex_lower(s.last() as nat)
    }
}

/// The longest run of zero segments among the first `n` (the first such run
/// where two are equally long), and the run that ends at `n`: as
/// (longest start, longest length, current start, current length).
pub open spec fn zero_runs(s: Seq<u16>, n: nat) -> (nat, nat, nat, nat)
    decreases n,
{
    if n == 0 {
        (0, 0, 0, 0)
    } else {
        let (bs, bl, cs, cl) = zero_runs(s, (n - 1) as nat);
        let i = (n - 1) as nat;
        if s[i as int] == 0 {
            let cs2 = if cl == 0 { i } else { cs };
            let cl2 = cl + 1;
            if cl2 > bl {
                (cs2, cl2, cs2, cl2)
            } else {
                (bs, bl, cs2, cl2)
            }
        } else {
            (bs, bl, 0, 0)
        }
    }
}

/// The text `Ipv6Addr`'s `Display` writes: an IPv4-mapped address as
/// `::ffff:` and its dotted form; otherwise the segments in hexadecimal, the
/// longest run of two or more zero segments written as `::`.
pub open spec fn ipv6_text(s: Seq<u16>) -> Seq<char> {
    if s[0] == 0 && s[1] == 0 && s[2] == 0 && s[3] == 0 && s[4] == 0 && s[5] == 0xffff {
        "::ffff:"@ + ipv4_text(seq![(s[6] / 256) as u8, (s[6] % 256) as u8, (s[7] / 256) as u8, (s[7] % 256) as u8])
    } else {
        let (start, len, _, _) = zero_runs(s, 8);
        if len > 1 {
            hex_segments(s.subrange(0, start as int)) + "::"@ + hex_segments(s.subrange((start + len) as int, 8))
        } else {
            hex_segments(s)
        }
    }
}

proof fn lemma_zero_runs(s: Seq<u16>, n: nat)
    requires
        n <= s.len(),
    ensures
        zero_runs(s, n).0 + zero_runs(s, n).1 <= n,
        zero_runs(s, n).2 + zero_runs(s, n).3 == n || zero_runs(s, n).3 == 0,
        zero_runs(s, n).3 <= zero_runs(s, n).1,
    decreases n,
{
    if n > 0 {
        lemma_zero_runs(s, (n - 1) as nat);
    }
}

fn push_hex_segments(r: &mut String, s: &[u16], a: usize, b: usize)
    requires
        a <= b <= s@.len(),
    ensures
        final(r)@ == old(r)@ + hex_segments(s@.subrange(a as int, b as int)),
{
    let mut i = a;
    while i < b
        invariant
            a <= i <= b <= s@.len(),
            r@ == old(r)@ + hex_segments(s@.subrange(a as int, i as int)),
        decreases b - i,
    {
        let ghost t = s@.subrange(a as int, i + 1);
        assert(t.drop_last() =~= s@.subrange(a as int, i as int));
        if i > a {
            push_char(r, ':');
        } else {
            assert(s@.subrange(a as int, i as int) =~= Seq::<u16>::empty());
        }
        push_hex(r, s[i] as u64);
        i = i + 1;
    }
}

/// The text of an IPv6 address (`Ipv6Addr`'s `Display`).
pub fn ipv6_to_string(segments: [u16; 8]) -> (r: String)
    ensures
        r@ == ipv6_text(segments@),
{
    let s = segments;
    let mut r = String::new();
    if s[0] == 0 && s[1] == 0 && s[2] == 0 && s[3] == 0 && s[4] == 0 && s[5] == 0xffff {
        push_str(&mut r, "::ffff:");
        let v4: [u8; 4] = [(s[6] / 256) as u8, (s[6] % 256) as u8, (s[7] / 256) as u8, (s[7] % 256) as u8];
        push_str(&mut r, ipv4_to_string(v4).as_str());
        proof {
            assert(v4@ =~= seq![(s[6] / 256) as u8, (s[6] % 256) as u8, (s[7] / 256) as u8, (s[7] % 256) as u8]);
        }
        return r;
    }
    let mut bs: usize = 0;
    let mut bl: usize = 0;
    let mut cs: usize = 0;
    let mut cl: usize = 0;
    let mut i: usize = 0;
    while i < 8
        invariant
            i <= 8,
            zero_runs(s@, i as nat) == (bs as nat, bl as nat, cs as nat, cl as nat),
            bl <= i && cl <= i && cs <= i,
        decreases 8 - i,
    {
        if s[i] == 0 {
            if cl == 0 {
                cs = i;
            }
            cl = cl + 1;
            if cl > bl {
                bs = cs;
                bl = cl;
            }
        } else {
            cs = 0;
            cl = 0;
        }
        i = i + 1;
    }
    proof {
        lemma_zero_runs(s@, 8);
    }
    let sl = s.as_slice();
    if bl > 1 {
        push_hex_segments(&mut r, sl, 0, bs);
        push_str(&mut r, "::");
        push_hex_segments(&mut r, sl, bs + bl, 8);
    } else {
        push_hex_segments(&mut r, sl, 0, 8);
        assert(s@.subrange(0, 8) =~= s@);
    }
    r
}

/// The text of an address (`IpAddr`'s `Display`).
pub open spec fn ip_text(ip: IpAddress) -> Seq<char> {
    match ip {
        IpAddress::V4(a) => ipv4_text(a@),
        IpAddress::V6(s) => ipv6_text(s@),
    }
}

pub fn ip_to_string(ip: IpAddress) -> (r: String)
    ensures
        r@ == ip_text(ip),
{
    match ip {
        IpAddress::V4(a) => ipv4_to_string(a),
        IpAddress::V6(s) => ipv6_to_string(s),
    }
}

/// The host of an address as it stands in a URL: an IPv6 address in brackets.
pub open spec fn url_host_text(ip: IpAddress) -> Seq<char> {
    match ip {
        IpAddress::V4(a) => ipv4_text(a@),
        IpAddress::V6(s) => seq!['['] + ipv6_text(s@) + seq![']'],
    }
}

/// The host of an address as it stands in a URL.
pub fn format_host_for_url(ip: IpAddress) -> (r: String)
    ensures
        r@ == url_host_text(ip),
{
    match ip {
        IpAddress::V4(a) => ipv4_to_string(a),
        IpAddress::V6(s) => {
            let mut r = String::new();
            push_char(&mut r, '[');
            push_str(&mut r, ipv6_to_string(s).as_str());
            push_char(&mut r, ']');
            r
        },
    }
}

/// Whether two IPv4 addresses are the same.
pub fn ipv4_eq(a: [u8; 4], b: [u8; 4]) -> (r: bool)
    ensures
        r == (a@ == b@),
{
    let r = a[0] == b[0] && a[1] == b[1] && a[2] == b[2] && a[3] == b[3];
    proof {
        if r {
            assert(a@ =~= b@);
        }
    }
    r
}

/// Whether an IPv4 address is among `ips`.
pub fn ipv4_in(ips: &[[u8; 4]], a: [u8; 4]) -> (r: bool)
    ensures
        r == exists|i: int| 0 <= i < ips@.len() && ips@[i]@ == a@,
{
    let mut i: usize = 0;
    while i < ips.len()
        invariant
            i <= ips@.len(),
            forall|j: int| 0 <= j < i ==> ips@[j]@ != a@,
        decreases ips@.len() - i,
    {
        if ipv4_eq(ips[i], a) {
            return true;
        }
        i = i + 1;
    }
    false
}

/// A decimal octet as `Ipv4Addr`'s parser reads it: one to three digits,
/// no leading zero but in `0` itself, at most 255.
pub open spec fn octet_of(p: Seq<char>) -> Option<u8> {
    if 1 <= p.len() <= 3 && crate::text::all_digits(p) && !(p.len() > 1 && p[0] == '0')
        && crate::text::digits_value(p) <= 255 {
        Some(crate::text::digits_value(p) as u8)
    } else {
        None
    }
}

/// What `Ipv4Addr::from_str` gives: four octets separated by dots.
pub open spec fn ipv4_of_text(s: Seq<char>) -> Option<Seq<u8>> {
    let parts = crate::text::split_char(s, '.');
    if parts.len() != 4 {
        None
    } else {
        match (octet_of(parts[0]), octet_of(parts[1]), octet_of(parts[2]), octet_of(parts[3])) {
            (Some(a), Some(b), Some(c), Some(d)) => Some(seq![a, b, c, d]),
            _ => None,
        }
    }
}

fn parse_octet(p: &[char]) -> (r: Option<u8>)
    ensures
        r == octet_of(p@),
{
    let n = p.len();
    if n < 1 || n > 3 {
        return None;
    }
    let mut v: u64 = 0;
    let mut i: usize = 0;
    while i < n
        invariant
            n == p@.len(),
            1 <= n <= 3,
            i <= n,
            crate::text::all_digits(p@.take(i as int)),
            v as nat == crate::text::digits_value(p@.take(i as int)),
            i == 0 ==> v == 0,
            i == 1 ==> v < 10,
            i == 2 ==> v < 100,
            v < 1000,
        decreases n - i,
    {
        let c = p[i];
        let ghost t = p@.take(i as int + 1);
        assert(t.drop_last() =~= p@.take(i as int));
        if !('0' <= c && c <= '9') {
            assert(!crate::text::all_digits(p@)) by {
                assert(!crate::text::is_ascii_digit(p@[i as int]));
            }
            return None;
        }
        let dig = (c as u32 - 48) as u64;
        assert(dig < 10);
        v = v * 10 + dig;
        i = i + 1;
    }
    assert(p@.take(n as int) =~= p@);
    if n > 1 && p[0] == '0' {
        return None;
    }
    if v > 255 {
        return None;
    }
    Some(v as u8)
}

/// Parses an IPv4 address in dotted decimal (`Ipv4Addr::from_str`).
pub fn parse_ipv4(s: &str) -> (r: Option<[u8; 4]>)
    ensures
        opt_seq_u8(r) == ipv4_of_text(s@),
{
    let parts = crate::text::split_chars(chars_of(s).as_slice(), '.');
    let ghost pv = crate::text::views(parts@);
    assert(pv.len() == parts@.len());
    if parts.len() != 4 {
        return None;
    }
    assert(pv[0] == parts@[0]@ && pv[1] == parts@[1]@ && pv[2] == parts@[2]@ && pv[3] == parts@[3]@);
    let a = match parse_octet(parts[0].as_slice()) { Some(x) => x, None => return None };
    let b = match parse_octet(parts[1].as_slice()) { Some(x) => x, None => return None };
    let c = match parse_octet(parts[2].as_slice()) { Some(x) => x, None => return None };
    let d = match parse_octet(parts[3].as_slice()) { Some(x) => x, None => return None };
    let r: [u8; 4] = [a, b, c, d];
    assert(r@ =~= seq![a, b, c, d]);
    Some(r)
}

pub open spec fn opt_seq_u8(o: Option<[u8; 4]>) -> Option<Seq<u8>> {
    match o {
        Some(a) => Some(a@),
        None => None,
    }
}

} // verus!
