//! Renderer discovery: the M-SEARCH requests that are sent, and the decisions
//! taken on each answer and on each fetched description. Sending, receiving,
//! fetching and waiting are left to the caller, which hands each answer and
//! each fetch result to a `DiscoverySession`.

use vstd::prelude::*;
use crate::error::Error;
use crate::net::ip::{IpAddress, ipv4_eq};
use crate::process::decode_utf8_lossy;
use crate::ssdp::parse::{
    header_in, is_own_location, is_renderer_ssdp_response, location_in, own_location,
    parse_header_value, parse_location, parse_search_target, renderer_response, search_target_in,
};
use crate::text::{chars_of, contains_chars, contains_seq, decimal, lines, push_decimal, push_str};
use crate::types::{Renderer, RendererView, str_eq};

verus! {

/// How many times the search requests are sent: three times where the
/// discovery lasts six seconds or more, else twice.
pub fn msearch_attempts(timeout_ms: u64) -> (r: usize)
    ensures
        r == (if timeout_ms >= 6000 { 3usize } else { 2usize }),
{
    if timeout_ms >= 6000 {
        3
    } else {
        2
    }
}

/// The MX value of a search: the timeout in whole seconds, at least one.
pub fn msearch_mx(timeout_ms: u64) -> (r: u64)
    ensures
        r == (if timeout_ms / 1000 >= 1 { timeout_ms / 1000 } else { 1 }),
{
    let secs = timeout_ms / 1000;
    if secs >= 1 {
        secs
    } else {
        1
    }
}

/// How long descriptions may still be fetched after the search ends: the
/// discovery's timeout, at most six seconds.
pub fn fetch_grace_ms(timeout_ms: u64) -> (r: u64)
    ensures
        r == (if timeout_ms < 6000 { timeout_ms } else { 6000 }),
{
    if timeout_ms < 6000 {
        timeout_ms
    } else {
        6000
    }
}

/// The time allowed for one fetch: eight seconds, or what is left if less.
pub fn fetch_timeout_ms(remaining_ms: u64) -> (r: u64)
    ensures
        r == (if remaining_ms < 8000 { remaining_ms } else { 8000 }),
{
    if remaining_ms < 8000 {
        remaining_ms
    } else {
        8000
    }
}

/// An M-SEARCH request.
pub open spec fn msearch_request(st: Seq<char>, mx: u64) -> Seq<char> {
    "M-SEARCH * HTTP/1.1\r\nHOST: 239.255.255.250:1900\r\nMAN: \"ssdp:discover\"\r\nMX: "@ + decimal(mx as nat)
        + "\r\nST: "@ + st + "\r\n\r\n"@
}

pub fn build_msearch_request(st: &str, mx: u64) -> (r: String)
    ensures
        r@ == msearch_request(st@, mx),
{
    let mut r = String::new();
    push_str(&mut r, "M-SEARCH * HTTP/1.1\r\nHOST: 239.255.255.250:1900\r\nMAN: \"ssdp:discover\"\r\nMX: ");
    push_decimal(&mut r, mx);
    push_str(&mut r, "\r\nST: ");
    push_str(&mut r, st);
    push_str(&mut r, "\r\n\r\n");
    r
}

/// The broadcast address of the interface with address `iface_ip`, the first
/// that the list gives it.
pub open spec fn broadcast_of(broadcasts: Seq<([u8; 4], [u8; 4])>, iface_ip: Seq<u8>) -> Option<[u8; 4]>
    decreases broadcasts.len(),
{
    if broadcasts.len() == 0 {
        None
    } else if broadcasts[0].0@ == iface_ip {
        Some(broadcasts[0].1)
    } else {
        broadcast_of(broadcasts.drop_first(), iface_ip)
    }
}

pub fn broadcast_for_iface(broadcasts: &[([u8; 4], [u8; 4])], iface_ip: [u8; 4]) -> (r: Option<[u8; 4]>)
    ensures
        r == broadcast_of(broadcasts@, iface_ip@),
{
    let mut i: usize = 0;
    assert(broadcasts@.skip(0) =~= broadcasts@);
    while i < broadcasts.len()
        invariant
            i <= broadcasts@.len(),
            broadcast_of(broadcasts@, iface_ip@) == broadcast_of(broadcasts@.skip(i as int), iface_ip@),
        decreases broadcasts@.len() - i,
    {
        let ghost rest = broadcasts@.skip(i as int);
        assert(rest[0] == broadcasts@[i as int]);
        assert(rest.drop_first() =~= broadcasts@.skip(i + 1));
        if ipv4_eq(broadcasts[i].0, iface_ip) {
            return Some(broadcasts[i].1);
        }
        i = i + 1;
    }
    None
}

/// An SSDP answer that names a location, with the interface it came in on.
#[derive(Debug)]
pub struct SsdpResponse {
    pub location: String,
    pub iface_ip: [u8; 4],
    pub st: Option<String>,
    pub usn: Option<String>,
}

pub open spec fn opt_view(o: Option<String>) -> Option<Seq<char>> {
    match o {
        Some(s) => Some(s@),
        None => None,
    }
}

/// The answer a received packet carries: none without a location.
pub open spec fn response_of(text: Seq<char>) -> Option<(Seq<char>, Option<Seq<char>>, Option<Seq<char>>)> {
    match location_in(lines(text)) {
        None => None,
        Some(l) => Some((l, search_target_in(text), header_in(lines(text), "USN"@))),
    }
}

/// Reads a packet received on the interface with address `iface_ip`.
pub fn response_of_packet(packet: &[u8], iface_ip: [u8; 4]) -> (r: Option<SsdpResponse>)
    ensures
        match response_of(crate::process::utf8_lossy(packet@)) {
            None => r is None,
            Some((l, st, usn)) => r matches Some(resp) && resp.location@ == l && opt_view(resp.st) == st
                && opt_view(resp.usn) == usn && resp.iface_ip == iface_ip,
        },
{
    let text = decode_utf8_lossy(packet);
    match parse_location(text.as_str()) {
        None => None,
        Some(location) => {
            let st = parse_search_target(text.as_str());
            let usn = parse_header_value(text.as_str(), "USN");
            Some(SsdpResponse { location, iface_ip, st, usn })
        },
    }
}

/// The reason a fetch failed, as counted.
pub open spec fn failure_kind_of(e: Error) -> Seq<char> {
    match e {
        Error::Timeout => "timeout"@,
        Error::InvalidResponse(_) => "invalid_response"@,
        Error::Xml(_) => "xml"@,
        Error::Http(_) => "http"@,
        Error::Network(_) => "network"@,
        Error::Ssdp(_) => "ssdp"@,
        Error::Upnp(_) => "upnp"@,
        Error::DeviceNotFound(_) => "device_not_found"@,
        Error::ServiceNotFound(_) => "service_not_found"@,
        Error::Io(..) => "io"@,
        Error::FileNotFound(_) => "file_not_found"@,
        Error::InvalidRange(_) => "invalid_range"@,
        Error::Config(_) => "config"@,
        Error::Unsupported(_) => "unsupported"@,
    }
}

pub fn failure_kind(e: &Error) -> (r: &'static str)
    ensures
        r@ == failure_kind_of(*e),
{
    match e {
        Error::Timeout => "timeout",
        Error::InvalidResponse(_) => "invalid_response",
        Error::Xml(_) => "xml",
        Error::Http(_) => "http",
        Error::Network(_) => "network",
        Error::Ssdp(_) => "ssdp",
        Error::Upnp(_) => "upnp",
        Error::DeviceNotFound(_) => "device_not_found",
        Error::ServiceNotFound(_) => "service_not_found",
        Error::Io(..) => "io",
        Error::FileNotFound(_) => "file_not_found",
        Error::InvalidRange(_) => "invalid_range",
        Error::Config(_) => "config",
        Error::Unsupported(_) => "unsupported",
    }
}

/// The renderer stored for a location: the last one stored under it.
pub open spec fn found_at(found: Seq<(Seq<char>, RendererView)>, location: Seq<char>) -> Option<RendererView>
    decreases found.len(),
{
    if found.len() == 0 {
        None
    } else if found.last().0 == location {
        Some(found.last().1)
    } else {
        found_at(found.drop_last(), location)
    }
}

/// The count stored for a failure kind.
pub open spec fn count_at(counts: Seq<(Seq<char>, nat)>, kind: Seq<char>) -> nat
    decreases counts.len(),
{
    if counts.len() == 0 {
        0
    } else if counts.last().0 == kind {
        counts.last().1
    } else {
        count_at(counts.drop_last(), kind)
    }
}

/// What a discovery has seen and found so far.
pub struct DiscoverySession {
    local_ips: Vec<[u8; 4]>,
    http_port: u16,
    self_udn: Option<String>,
    seen: Vec<String>,
    found: Vec<(String, Renderer)>,
    failures: Vec<(&'static str, usize)>,
    failures_logged: usize,
}

/// What a fetch failure calls for in the log.
#[derive(Debug, Clone, Copy, PartialEq, Eq, Structural)]
pub enum FailureReport {
    /// Past the first ten failures: only traced.
    Quiet,
    /// A warning.
    Warn,
    /// A warning, with the advice given for routing problems.
    WarnWithRoutingHint,
}

impl DiscoverySession {
    /// The local IPv4 addresses that mark a location as this server's.
    pub closed spec fn local_ips(&self) -> Seq<[u8; 4]> {
        self.local_ips@
    }

    pub closed spec fn http_port(&self) -> u16 {
        self.http_port
    }

    pub closed spec fn self_udn(&self) -> Option<Seq<char>> {
        opt_view(self.self_udn)
    }

    /// The locations seen, in order.
    pub closed spec fn seen(&self) -> Seq<Seq<char>> {
        self.seen@.map_values(|s: String| s@)
    }

    /// The renderers found, by location, in the order they were stored.
    pub closed spec fn found(&self) -> Seq<(Seq<char>, RendererView)> {
        self.found@.map_values(|e: (String, Renderer)| (e.0@, e.1@))
    }

    /// The failures counted, by kind.
    pub closed spec fn failures(&self) -> Seq<(Seq<char>, nat)> {
        self.failures@.map_values(|e: (&'static str, usize)| (e.0@, e.1 as nat))
    }

    pub closed spec fn failures_logged(&self) -> nat {
        self.failures_logged as nat
    }

    /// No location is seen twice; each location and failure kind is stored once.
    pub closed spec fn wf(&self) -> bool {
        &&& forall|i: int, j: int| 0 <= i < j < self.seen().len() ==> self.seen()[i] != self.seen()[j]
        &&& forall|i: int, j: int| 0 <= i < j < self.found().len() ==> self.found()[i].0 != self.found()[j].0
        &&& forall|i: int, j: int| 0 <= i < j < self.failures().len() ==> self.failures()[i].0 != self.failures()[j].0
        &&& self.failures_logged <= 10
    }

    /// A discovery from a server on `http_port` with the local addresses
    /// given (the server's own address among them where it is IPv4); the
    /// server's own UDN, where it announces itself, marks its answers.
    pub fn new(candidates: Vec<[u8; 4]>, local_ip: IpAddress, http_port: u16, self_udn: Option<String>) -> (r: Self)
        ensures
            r.wf(),
            r.local_ips() == (match local_ip {
                IpAddress::V4(a) => candidates@.push(a),
                IpAddress::V6(_) => candidates@,
            }),
            r.http_port() == http_port,
            r.self_udn() == opt_view(self_udn),
            r.seen().len() == 0 && r.found().len() == 0 && r.failures().len() == 0,
            r.failures_logged() == 0,
    {
        let mut local_ips = candidates;
        if let IpAddress::V4(a) = local_ip {
            local_ips.push(a);
        }
        let r = DiscoverySession {
            local_ips,
            http_port,
            self_udn,
            seen: Vec::new(),
            found: Vec::new(),
            failures: Vec::new(),
            failures_logged: 0,
        };
        assert(r.seen() =~= Seq::<Seq<char>>::empty());
        assert(r.found() =~= Seq::<(Seq<char>, RendererView)>::empty());
        assert(r.failures() =~= Seq::<(Seq<char>, nat)>::empty());
        r
    }

    /// An answer is worth fetching where it comes from a renderer, is not
    /// this server's own (by UDN or by location), and names a location not
    /// seen before.
    pub open spec fn accepts(&self, resp: SsdpResponse) -> bool {
        &&& renderer_response(opt_view(resp.st), opt_view(resp.usn))
        &&& !(match (opt_view(resp.usn), self.self_udn()) {
            (Some(u), Some(me)) => contains_seq(u, me),
            _ => false,
        })
        &&& !own_location(resp.location@, self.local_ips(), self.http_port())
        &&& !self.seen().contains(resp.location@)
    }

    fn seen_before(&self, location: &str) -> (r: bool)
        ensures
            r == self.seen().contains(location@),
    {
        let mut i: usize = 0;
        while i < self.seen.len()
            invariant
                i <= self.seen@.len(),
                forall|j: int| 0 <= j < i ==> self.seen()[j] != location@,
            decreases self.seen@.len() - i,
        {
            if str_eq(self.seen[i].as_str(), location) {
                assert(self.seen()[i as int] == location@);
                return true;
            }
            i = i + 1;
        }
        false
    }

    /// Takes an answer: the location and interface to fetch the description
    /// from, where the answer is worth fetching (its location is then seen).
    pub fn on_response(&mut self, resp: SsdpResponse) -> (r: Option<(String, [u8; 4])>)
        requires
            old(self).wf(),
        ensures
            final(self).wf(),
            old(self).accepts(resp) ==> (r matches Some((l, ip)) && l@ == resp.location@ && ip == resp.iface_ip
                && final(self).seen() == old(self).seen().push(resp.location@)),
            !old(self).accepts(resp) ==> r is None && final(self).seen() == old(self).seen(),
            final(self).found() == old(self).found(),
            final(self).failures() == old(self).failures(),
            final(self).failures_logged() == old(self).failures_logged(),
            final(self).local_ips() == old(self).local_ips(),
            final(self).http_port() == old(self).http_port(),
            final(self).self_udn() == old(self).self_udn(),
    {
        let st = match &resp.st {
            Some(s) => Some(s.as_str()),
            None => None,
        };
        let usn = match &resp.usn {
            Some(s) => Some(s.as_str()),
            None => None,
        };
        if !is_renderer_ssdp_response(st, usn) {
            return None;
        }
        match (&resp.usn, &self.self_udn) {
            (Some(u), Some(me)) => {
                if contains_chars(chars_of(u.as_str()).as_slice(), chars_of(me.as_str()).as_slice()) {
                    return None;
                }
            },
            _ => {},
        }
        if is_own_location(resp.location.as_str(), self.local_ips.as_slice(), self.http_port) {
            return None;
        }
        if self.seen_before(resp.location.as_str()) {
            return None;
        }
        let ghost before = self.seen();
        self.seen.push(resp.location.clone());
        proof {
            let s1 = self.seen();
            assert(s1 =~= before.push(resp.location@));
            assert forall|a: int, b: int| 0 <= a < b < s1.len() implies s1[a] != s1[b] by {
                if b == s1.len() - 1 {
                    assert(before[a] == s1[a]);
                    assert(before.contains(before[a]));
                }
            }
            assert(self.found() == old(self).found());
            assert(self.failures() == old(self).failures());
        }
        Some((resp.location, resp.iface_ip))
    }

    fn store(&mut self, location: String, renderer: Renderer)
        requires
            old(self).wf(),
        ensures
            final(self).wf(),
            forall|l: Seq<char>| #[trigger] found_at(final(self).found(), l) == if l == location@ {
                Some(renderer@)
            } else {
                found_at(old(self).found(), l)
            },
            final(self).seen() == old(self).seen(),
            final(self).failures() == old(self).failures(),
            final(self).failures_logged() == old(self).failures_logged(),
            final(self).local_ips() == old(self).local_ips(),
            final(self).http_port() == old(self).http_port(),
            final(self).self_udn() == old(self).self_udn(),
    {
        let ghost f0 = self.found();
        let mut i: usize = 0;
        while i < self.found.len()
            invariant
                self.wf(),
                self.found() == f0,
                f0 == old(self).found(),
                self.seen() == old(self).seen(),
                self.failures() == old(self).failures(),
                self.failures_logged == old(self).failures_logged,
                self.local_ips() == old(self).local_ips(),
                self.http_port == old(self).http_port,
                self.self_udn() == old(self).self_udn(),
                i <= self.found@.len(),
                forall|j: int| 0 <= j < i ==> f0[j].0 != location@,
            decreases self.found@.len() - i,
        {
            if str_eq(self.found[i].0.as_str(), location.as_str()) {
                let ghost fi = i as int;
                self.found.set(i, (location, renderer));
                proof {
                    let f1 = self.found();
                    assert(f1 =~= f0.update(fi, (location@, renderer@)));
                    assert forall|a: int, b: int| 0 <= a < b < f1.len() implies f1[a].0 != f1[b].0 by {
                        assert(f0[a].0 != f0[b].0);
                    }
                    assert forall|l: Seq<char>| #[trigger] found_at(f1, l) == if l == location@ {
                        Some(renderer@)
                    } else {
                        found_at(f0, l)
                    } by {
                        lemma_found_at_update(f0, fi, location@, renderer@, l);
                    }
                }
                return;
            }
            i = i + 1;
        }
        let ghost ren = renderer@;
        self.found.push((location, renderer));
        proof {
            let f1 = self.found();
            assert(f1 =~= f0.push((location@, ren)));
            assert forall|a: int, b: int| 0 <= a < b < f1.len() implies f1[a].0 != f1[b].0 by {
                if b < f0.len() {
                    assert(f0[a].0 != f0[b].0);
                }
            }
            assert forall|l: Seq<char>| #[trigger] found_at(f1, l) == if l == location@ {
                Some(ren)
            } else {
                found_at(f0, l)
            } by {
                assert(f1.drop_last() =~= f0);
            }
        }
    }

    fn count_failure(&mut self, kind: &'static str)
        requires
            old(self).wf(),
            count_at(old(self).failures(), kind@) < usize::MAX,
        ensures
            final(self).wf(),
            forall|k: Seq<char>| #[trigger] count_at(final(self).failures(), k) == if k == kind@ {
                count_at(old(self).failures(), k) + 1
            } else {
                count_at(old(self).failures(), k)
            },
            final(self).seen() == old(self).seen(),
            final(self).found() == old(self).found(),
            final(self).failures_logged() == old(self).failures_logged(),
            final(self).local_ips() == old(self).local_ips(),
            final(self).http_port() == old(self).http_port(),
            final(self).self_udn() == old(self).self_udn(),
    {
        let ghost c0 = self.failures();
        let mut i: usize = 0;
        while i < self.failures.len()
            invariant
                self.wf(),
                self.failures() == c0,
                c0 == old(self).failures(),
                self.seen() == old(self).seen(),
                self.found() == old(self).found(),
                self.failures_logged == old(self).failures_logged,
                self.local_ips() == old(self).local_ips(),
                self.http_port == old(self).http_port,
                self.self_udn() == old(self).self_udn(),
                count_at(c0, kind@) < usize::MAX,
                i <= self.failures@.len(),
                forall|j: int| 0 <= j < i ==> c0[j].0 != kind@,
            decreases self.failures@.len() - i,
        {
            if str_eq(self.failures[i].0, kind) {
                let ghost fi = i as int;
                let n = self.failures[i].1;
                proof {
                    lemma_count_at_unique(c0, fi);
                }
                self.failures.set(i, (kind, n + 1));
                proof {
                    let c1 = self.failures();
                    assert(c1 =~= c0.update(fi, (kind@, (n + 1) as nat)));
                    assert forall|a: int, b: int| 0 <= a < b < c1.len() implies c1[a].0 != c1[b].0 by {
                        assert(c0[a].0 != c0[b].0);
                    }
                    assert forall|k: Seq<char>| #[trigger] count_at(c1, k) == if k == kind@ {
                        count_at(c0, k) + 1
                    } else {
                        count_at(c0, k)
                    } by {
                        lemma_count_at_update(c0, fi, kind@, (n + 1) as nat, k);
                    }
                }
                return;
            }
            i = i + 1;
        }
        self.failures.push((kind, 1));
        proof {
            let c1 = self.failures();
            assert(c1 =~= c0.push((kind@, 1nat)));
            assert forall|a: int, b: int| 0 <= a < b < c1.len() implies c1[a].0 != c1[b].0 by {
                if b < c0.len() {
                    assert(c0[a].0 != c0[b].0);
                }
            }
            lemma_count_at_absent(c0, kind@);
            assert forall|k: Seq<char>| #[trigger] count_at(c1, k) == if k == kind@ {
                count_at(c0, k) + 1
            } else {
                count_at(c0, k)
            } by {
                assert(c1.drop_last() =~= c0);
            }
        }
    }

    /// How many failures of the kind of `e` were counted so far.
    pub fn failures_of(&self, e: &Error) -> (r: usize)
        ensures
            r as nat == count_at(self.failures(), failure_kind_of(*e)),
    {
        let kind = failure_kind(e);
        let ghost f = self.failures();
        let mut i: usize = self.failures.len();
        assert(f.take(i as int) =~= f);
        while i > 0
            invariant
                i <= self.failures@.len(),
                f == self.failures(),
                kind@ == failure_kind_of(*e),
                count_at(f, kind@) == count_at(f.take(i as int), kind@),
            decreases i,
        {
            let ghost t = f.take(i as int);
            assert(t.last() == f[i - 1]);
            assert(t.drop_last() =~= f.take(i - 1));
            assert(f[i - 1] == (self.failures@[i - 1].0@, self.failures@[i - 1].1 as nat));
            if str_eq(self.failures[i - 1].0, kind) {
                assert(t.len() > 0 && t.last().0 == kind@);
                assert(count_at(t, kind@) == t.last().1);
                return self.failures[i - 1].1;
            }
            i = i - 1;
        }
        0
    }

    /// Takes the result of fetching the description at `location`: a
    /// renderer is stored under its location (replacing one stored before);
    /// a failure is counted by its kind, and the first ten failures are
    /// reported as warnings (with routing advice for network and I/O errors
    /// that say the host is unreachable).
    pub fn on_fetched(&mut self, location: String, result: Result<Renderer, Error>) -> (r: FailureReport)
        requires
            old(self).wf(),
            result is Err ==> count_at(old(self).failures(), failure_kind_of(result->Err_0)) < usize::MAX,
        ensures
            final(self).wf(),
            final(self).seen() == old(self).seen(),
            match result {
                Ok(rd) => {
                    &&& forall|l: Seq<char>| #[trigger] found_at(final(self).found(), l) == if l == location@ {
                        Some(rd@)
                    } else {
                        found_at(old(self).found(), l)
                    }
                    &&& final(self).failures() == old(self).failures()
                    &&& final(self).failures_logged() == old(self).failures_logged()
                    &&& r == FailureReport::Quiet
                },
                Err(e) => {
                    &&& final(self).found() == old(self).found()
                    &&& forall|k: Seq<char>| #[trigger] count_at(final(self).failures(), k) == if k == failure_kind_of(e) {
                        count_at(old(self).failures(), k) + 1
                    } else {
                        count_at(old(self).failures(), k)
                    }
                    &&& if old(self).failures_logged() < 10 {
                        final(self).failures_logged() == old(self).failures_logged() + 1
                            && r == (if routing_problem(e) { FailureReport::WarnWithRoutingHint } else { FailureReport::Warn })
                    } else {
                        final(self).failures_logged() == old(self).failures_logged() && r == FailureReport::Quiet
                    }
                },
            },
    {
        match result {
            Ok(rd) => {
                self.store(location, rd);
                FailureReport::Quiet
            },
            Err(e) => {
                let kind = failure_kind(&e);
                self.count_failure(kind);
                let ghost c1 = self.failures();
                let ghost f1 = self.found();
                let ghost s1 = self.seen();
                if self.failures_logged < 10 {
                    self.failures_logged = self.failures_logged + 1;
                    assert(self.failures() == c1 && self.found() == f1 && self.seen() == s1);
                    if is_routing_problem(&e) {
                        FailureReport::WarnWithRoutingHint
                    } else {
                        FailureReport::Warn
                    }
                } else {
                    FailureReport::Quiet
                }
            },
        }
    }

    /// The renderers found, one per location.
    pub fn finish(self) -> (r: Vec<Renderer>)
        ensures
            r@.len() == self.found().len(),
            forall|i: int| 0 <= i < r@.len() ==> #[trigger] r@[i]@ == self.found()[i].1,
    {
        assert(self.found().len() == self.found@.len());
        assert(forall|i: int| 0 <= i < self.found@.len() ==> self.found()[i].1 == #[trigger] self.found@[i].1@);
        let mut r: Vec<Renderer> = Vec::new();
        let found = &self.found;
        let ghost f0 = found@;
        let mut i: usize = 0;
        while i < found.len()
            invariant
                found@ == f0,
                i <= f0.len(),
                r@.len() == i,
                forall|j: int| 0 <= j < i ==> #[trigger] r@[j]@ == f0[j].1@,
            decreases f0.len() - i,
        {
            r.push(found[i].1.clone());
            i = i + 1;
        }
        r
    }
}

/// A failure that points at routing: a network or I/O error whose message
/// says the host is unreachable.
pub open spec fn routing_problem(e: Error) -> bool {
    match e {
        Error::Network(_) | Error::Io(..) => {
            let m = crate::error::message_of(e);
            contains_seq(m, "No route to host"@) || contains_seq(m, "os error 65"@)
        },
        _ => false,
    }
}

fn is_routing_problem(e: &Error) -> (r: bool)
    ensures
        r == routing_problem(*e),
{
    match e {
        Error::Network(_) | Error::Io(..) => {
            let m = chars_of(e.message().as_str());
            contains_chars(m.as_slice(), chars_of("No route to host").as_slice())
                || contains_chars(m.as_slice(), chars_of("os error 65").as_slice())
        },
        _ => false,
    }
}

proof fn lemma_found_at_update(f: Seq<(Seq<char>, RendererView)>, i: int, loc: Seq<char>, rd: RendererView, l: Seq<char>)
    requires
        0 <= i < f.len(),
        f[i].0 == loc,
        forall|a: int, b: int| 0 <= a < b < f.len() ==> f[a].0 != f[b].0,
    ensures
        found_at(f.update(i, (loc, rd)), l) == if l == loc { Some(rd) } else { found_at(f, l) },
    decreases f.len(),
{
    let g = f.update(i, (loc, rd));
    if i == f.len() - 1 {
        assert(g.drop_last() =~= f.drop_last());
        if l != loc {
            assert(found_at(g, l) == found_at(g.drop_last(), l));
        }
    } else {
        assert(g.drop_last() =~= f.drop_last().update(i, (loc, rd)));
        assert(f.last().0 != loc);
        lemma_found_at_update(f.drop_last(), i, loc, rd, l);
    }
}

proof fn lemma_count_at_unique(c: Seq<(Seq<char>, nat)>, i: int)
    requires
        0 <= i < c.len(),
        forall|a: int, b: int| 0 <= a < b < c.len() ==> c[a].0 != c[b].0,
    ensures
        count_at(c, c[i].0) == c[i].1,
    decreases c.len(),
{
    if i < c.len() - 1 {
        assert(c.last().0 != c[i].0);
        assert(c.drop_last()[i] == c[i]);
        lemma_count_at_unique(c.drop_last(), i);
    }
}

proof fn lemma_count_at_update(c: Seq<(Seq<char>, nat)>, i: int, kind: Seq<char>, n: nat, k: Seq<char>)
    requires
        0 <= i < c.len(),
        c[i].0 == kind,
        n == c[i].1 + 1,
        forall|a: int, b: int| 0 <= a < b < c.len() ==> c[a].0 != c[b].0,
    ensures
        count_at(c.update(i, (kind, n)), k) == if k == kind { count_at(c, k) + 1 } else { count_at(c, k) },
    decreases c.len(),
{
    lemma_count_at_unique(c, i);
    let g = c.update(i, (kind, n));
    if i == c.len() - 1 {
        assert(g.drop_last() =~= c.drop_last());
    } else {
        assert(g.drop_last() =~= c.drop_last().update(i, (kind, n)));
        assert(c.last().0 != kind);
        assert(c.drop_last()[i] == c[i]);
        lemma_count_at_update(c.drop_last(), i, kind, n, k);
        lemma_count_at_unique(c.drop_last(), i);
    }
}

proof fn lemma_count_at_absent(c: Seq<(Seq<char>, nat)>, kind: Seq<char>)
    requires
        forall|j: int| 0 <= j < c.len() ==> c[j].0 != kind,
    ensures
        count_at(c, kind) == 0,
    decreases c.len(),
{
    if c.len() > 0 {
        lemma_count_at_absent(c.drop_last(), kind);
    }
}

/// A location is fetched at most once in a discovery: once seen, no later
/// answer naming it is accepted (and `on_response` marks each accepted
/// location as seen).
pub proof fn seen_location_is_not_fetched_again(s: DiscoverySession, resp: SsdpResponse)
    requires
        s.seen().contains(resp.location@),
    ensures
        !s.accepts(resp),
{
}

} // verus!
