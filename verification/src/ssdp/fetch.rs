//! Fetching a device description: which locations may be fetched, the HTTP
//! request that fetches one, and what is read from the answer. Resolving
//! names, connecting, sending and receiving are left to the caller.

use vstd::prelude::*;
use crate::error::Error;
use crate::net::ip::{
    IpAddress, ip_text, ip_to_string, ipv4_is_link_local, ipv4_is_loopback, ipv4_is_multicast,
    ipv4_is_private, ipv4_is_unspecified, ipv4_text, ipv4_to_string, ipv6_is_loopback,
    ipv6_is_multicast, ipv6_is_unicast_link_local, ipv6_is_unique_local, ipv6_is_unspecified,
    ipv6_text, ipv6_to_string, is_shared_cgnat, v4_link_local, v4_loopback, v4_multicast,
    v4_private, v4_shared_cgnat, v4_unspecified, v6_loopback, v6_multicast,
    v6_unicast_link_local, v6_unique_local, v6_unspecified,
};
use crate::process::{decode_utf8_lossy, utf8_lossy};
use crate::ssdp::xml::{description_events, description_result, parse_device_description};
use crate::text::{push_char, push_str};
use crate::types::{Renderer, str_eq};
use crate::urls::{HostView, UrlHost, UrlParts, UrlView, host_of, parse_url, parsed_url, url_host};

verus! {

/// The largest answer read, in bytes (device descriptions are small).
pub const MAX_RESPONSE_BYTES: usize = 262144;
/// Time allowed to connect, in seconds.
pub const CONNECT_TIMEOUT_SECS: u64 = 3;
/// Time allowed for each read, in seconds.
pub const READ_TIMEOUT_SECS: u64 = 5;
/// Time allowed to resolve a location's host name, in seconds.
pub const LOOKUP_TIMEOUT_SECS: u64 = 2;

/// Whether a switch in the environment is on: `1`, `true`, `TRUE`, `yes` or
/// `YES`.
pub open spec fn flag_on(value: Option<Seq<char>>) -> bool {
    match value {
        Some(v) => v == "1"@ || v == "true"@ || v == "TRUE"@ || v == "yes"@ || v == "YES"@,
        None => false,
    }
}

/// Whether an environment switch (given its value, where it is set) is on.
pub fn is_flag_on(value: Option<&str>) -> (r: bool)
    ensures
        r == flag_on(match value {
            Some(v) => Some(v@),
            None => None,
        }),
{
    match value {
        Some(v) => str_eq(v, "1") || str_eq(v, "true") || str_eq(v, "TRUE") || str_eq(v, "yes") || str_eq(v, "YES"),
        None => false,
    }
}

/// Which hosts a LOCATION may name: no unspecified, loopback or multicast
/// address, nor the cloud metadata address; then any address where public
/// locations are allowed, else private, link-local and shared IPv4 addresses
/// and unique-local and link-local IPv6 ones.
pub open spec fn allowed_ip(ip: IpAddress, allow_public: bool) -> bool {
    match ip {
        IpAddress::V4(a) => allowed_v4(a@, allow_public),
        IpAddress::V6(s) => allowed_v6(s@, allow_public),
    }
}

pub open spec fn allowed_v4(o: Seq<u8>, allow_public: bool) -> bool {
    if v4_unspecified(o) || v4_loopback(o) || v4_multicast(o) {
        false
    } else if o[0] == 169 && o[1] == 254 && o[2] == 169 && o[3] == 254 {
        false
    } else if allow_public {
        true
    } else {
        v4_private(o) || v4_link_local(o) || v4_shared_cgnat(o)
    }
}

pub open spec fn allowed_v6(g: Seq<u16>, allow_public: bool) -> bool {
    if v6_unspecified(g) || v6_loopback(g) || v6_multicast(g) {
        false
    } else if allow_public {
        true
    } else {
        v6_unique_local(g) || v6_unicast_link_local(g)
    }
}

pub fn is_allowed_location_ip(ip: IpAddress, allow_public: bool) -> (r: bool)
    ensures
        r == allowed_ip(ip, allow_public),
{
    match ip {
        IpAddress::V4(a) => {
            if ipv4_is_unspecified(a) || ipv4_is_loopback(a) || ipv4_is_multicast(a) {
                return false;
            }
            if a[0] == 169 && a[1] == 254 && a[2] == 169 && a[3] == 254 {
                return false;
            }
            if allow_public {
                return true;
            }
            ipv4_is_private(a) || ipv4_is_link_local(a) || is_shared_cgnat(a)
        },
        IpAddress::V6(s) => {
            if ipv6_is_unspecified(s) || ipv6_is_loopback(s) || ipv6_is_multicast(s) {
                return false;
            }
            if allow_public {
                return true;
            }
            ipv6_is_unique_local(s) || ipv6_is_unicast_link_local(s)
        },
    }
}

/// What is left to check of a location after what its text shows.
#[derive(Debug)]
pub enum LocationCheck {
    /// The location may be fetched.
    Allowed,
    /// Its host name must be resolved (at this port) and each address checked.
    Resolve(String, u16),
}

/// The message rejecting a host address.
pub open spec fn rejected_ip_message(ip: IpAddress) -> Seq<char> {
    "Rejected LOCATION host "@ + ip_text(ip) + " (not a local address)"@
}

fn rejected_ip(ip: IpAddress) -> (r: Error)
    ensures
        r matches Error::Network(m) && m@ == rejected_ip_message(ip),
{
    let mut m = String::new();
    push_str(&mut m, "Rejected LOCATION host ");
    push_str(&mut m, ip_to_string(ip).as_str());
    push_str(&mut m, " (not a local address)");
    Error::Network(m)
}

/// The checks a location's URL must pass before it is fetched: the `http`
/// scheme, no user information, a port other than 0 (80 where none is
/// written), and a host that is an allowed address, or a name to be resolved
/// (accepted at once where public locations are allowed).
pub open spec fn location_check(u: UrlView, host: HostView, allow_public: bool) -> Result<Option<(Seq<char>, u16)>, Seq<char>> {
    if u.scheme != "http"@ {
        Err("Unsupported URL scheme '"@ + u.scheme + "' (expected http)"@)
    } else if u.username.len() != 0 || u.has_password {
        Err("Userinfo in URL is not supported"@)
    } else {
        let port: u16 = match u.port { Some(p) => p, None => 80 };
        if port == 0 {
            Err("Invalid port 0 in URL"@)
        } else {
            match host {
                HostView::Ipv4(a) => if allowed_v4(a, allow_public) {
                    Ok(None)
                } else {
                    Err("Rejected LOCATION host "@ + ipv4_text(a) + " (not a local address)"@)
                },
                HostView::Ipv6(g) => if allowed_v6(g, allow_public) {
                    Ok(None)
                } else {
                    Err("Rejected LOCATION host "@ + ipv6_text(g) + " (not a local address)"@)
                },
                HostView::Domain(d) => if allow_public { Ok(None) } else { Ok(Some((d, port))) },
                HostView::Absent => Err("No host in URL"@),
            }
        }
    }
}

/// Checks a location's URL (its parts and host) before it is fetched.
pub fn validate_location_url(url: &UrlParts, host: &UrlHost, allow_public: bool) -> (r: Result<LocationCheck, Error>)
    ensures
        match location_check(url@, host@, allow_public) {
            Ok(None) => r matches Ok(LocationCheck::Allowed),
            Ok(Some((d, p))) => r matches Ok(LocationCheck::Resolve(h, port)) && h@ == d && port == p,
            Err(m) => r matches Err(Error::Network(x)) && x@ == m,
        },
{
    if !str_eq(url.scheme.as_str(), "http") {
        let mut m = String::new();
        push_str(&mut m, "Unsupported URL scheme '");
        push_str(&mut m, url.scheme.as_str());
        push_str(&mut m, "' (expected http)");
        return Err(Error::Network(m));
    }
    if crate::text::chars_of(url.username.as_str()).len() != 0 || url.has_password {
        return Err(Error::Network(String::from_str("Userinfo in URL is not supported")));
    }
    let port: u16 = match url.port {
        Some(p) => p,
        None => 80,
    };
    if port == 0 {
        return Err(Error::Network(String::from_str("Invalid port 0 in URL")));
    }
    match host {
        UrlHost::Ipv4(a) => {
            if is_allowed_location_ip(IpAddress::V4(*a), allow_public) {
                Ok(LocationCheck::Allowed)
            } else {
                Err(rejected_ip(IpAddress::V4(*a)))
            }
        },
        UrlHost::Ipv6(g) => {
            if is_allowed_location_ip(IpAddress::V6(*g), allow_public) {
                Ok(LocationCheck::Allowed)
            } else {
                Err(rejected_ip(IpAddress::V6(*g)))
            }
        },
        UrlHost::Domain(d) => {
            if allow_public {
                Ok(LocationCheck::Allowed)
            } else {
                Ok(LocationCheck::Resolve(d.clone(), port))
            }
        },
        UrlHost::Absent => Err(Error::Network(String::from_str("No host in URL"))),
    }
}

/// What the addresses a location's host name resolved to allow: each must
/// be allowed, and there must be one.
pub open spec fn resolved_check(host: Seq<char>, addrs: Seq<IpAddress>, allow_public: bool) -> Result<(), Seq<char>>
    decreases addrs.len(),
{
    if addrs.len() == 0 {
        Err("Rejected LOCATION host "@ + host + " (no resolved addresses)"@)
    } else {
        resolved_rest(host, addrs, allow_public)
    }
}

/// The first address that is not allowed, if any.
pub open spec fn resolved_rest(host: Seq<char>, addrs: Seq<IpAddress>, allow_public: bool) -> Result<(), Seq<char>>
    decreases addrs.len(),
{
    if addrs.len() == 0 {
        Ok(())
    } else if !allowed_ip(addrs[0], allow_public) {
        Err("Rejected LOCATION host "@ + host + " (resolved to non-local address "@ + ip_text(addrs[0]) + ")"@)
    } else {
        resolved_rest(host, addrs.drop_first(), allow_public)
    }
}

/// Checks the addresses a location's host name resolved to.
pub fn check_resolved(host: &str, addrs: &[IpAddress], allow_public: bool) -> (r: Result<(), Error>)
    ensures
        match resolved_check(host@, addrs@, allow_public) {
            Ok(()) => r is Ok,
            Err(m) => r matches Err(Error::Network(x)) && x@ == m,
        },
{
    if addrs.len() == 0 {
        let mut m = String::new();
        push_str(&mut m, "Rejected LOCATION host ");
        push_str(&mut m, host);
        push_str(&mut m, " (no resolved addresses)");
        return Err(Error::Network(m));
    }
    let mut i: usize = 0;
    assert(addrs@.skip(0) =~= addrs@);
    while i < addrs.len()
        invariant
            i <= addrs@.len(),
            addrs@.len() > 0,
            resolved_check(host@, addrs@, allow_public) == resolved_rest(host@, addrs@.skip(i as int), allow_public),
        decreases addrs@.len() - i,
    {
        let ghost rest = addrs@.skip(i as int);
        assert(rest[0] == addrs@[i as int]);
        assert(rest.drop_first() =~= addrs@.skip(i + 1));
        if !is_allowed_location_ip(addrs[i], allow_public) {
            let mut m = String::new();
            push_str(&mut m, "Rejected LOCATION host ");
            push_str(&mut m, host);
            push_str(&mut m, " (resolved to non-local address ");
            push_str(&mut m, ip_to_string(addrs[i]).as_str());
            push_str(&mut m, ")");
            return Err(Error::Network(m));
        }
        i = i + 1;
    }
    assert(addrs@.skip(i as int).len() == 0);
    Ok(())
}

/// Where an HTTP request goes: to a host name still to be resolved, or to an
/// address.
#[derive(Debug)]
pub enum RemoteHost {
    Name(String),
    Address(IpAddress),
}

/// A planned HTTP GET: where it goes and the request to send.
#[derive(Debug)]
pub struct GetPlan {
    pub remote: RemoteHost,
    pub port: u16,
    pub request: String,
}

/// The Host header of a URL: a name as it is, an IPv4 address as text, an
/// IPv6 address in brackets.
pub open spec fn host_header_of(host: HostView) -> Option<Seq<char>> {
    match host {
        HostView::Domain(d) => Some(d),
        HostView::Ipv4(a) => Some(ipv4_text(a)),
        HostView::Ipv6(g) => Some(seq!['['] + ipv6_text(g) + seq![']']),
        HostView::Absent => None,
    }
}

/// The request line's target: the path, and the query after a `?`.
pub open spec fn request_target(u: UrlView) -> Seq<char> {
    match u.query {
        Some(q) => u.path + seq!['?'] + q,
        None => u.path,
    }
}

/// The GET request for a target and Host header.
pub open spec fn get_request(target: Seq<char>, host: Seq<char>) -> Seq<char> {
    "GET "@ + target + " HTTP/1.1\r\nHost: "@ + host + "\r\nConnection: close\r\n\r\n"@
}

/// The GET of a URL: its text must parse, with the `http` scheme and no user
/// information; the port is the one written, or 80; the request names the
/// path and query and the host.
pub open spec fn get_plan_of(url: Seq<char>) -> Result<(u16, Seq<char>), Seq<char>> {
    match parsed_url(url) {
        Err(e) => Err("URL parse error: "@ + e),
        Ok(u) => if u.scheme != "http"@ {
            Err("Unsupported URL scheme '"@ + u.scheme + "' (expected http)"@)
        } else if u.username.len() != 0 || u.has_password {
            Err("Userinfo in URL is not supported"@)
        } else {
            match host_header_of(host_of(url)) {
                None => Err("No host in URL"@),
                Some(h) => Ok((match u.port { Some(p) => p, None => 80u16 }, get_request(request_target(u), h))),
            }
        },
    }
}

/// Simple HTTP GET request: what to send, and where.
pub fn plan_http_get(url: &str) -> (r: Result<GetPlan, Error>)
    ensures
        match get_plan_of(url@) {
            Ok((port, req)) => r matches Ok(p) && p.port == port && p.request@ == req && match host_of(url@) {
                HostView::Domain(d) => p.remote matches RemoteHost::Name(n) && n@ == d,
                HostView::Ipv4(a) => p.remote matches RemoteHost::Address(IpAddress::V4(x)) && x@ == a,
                HostView::Ipv6(g) => p.remote matches RemoteHost::Address(IpAddress::V6(x)) && x@ == g,
                HostView::Absent => false,
            },
            Err(m) => r matches Err(Error::Network(x)) && x@ == m,
        },
{
    let u = match parse_url(url) {
        Ok(u) => u,
        Err(e) => {
            let mut m = String::new();
            push_str(&mut m, "URL parse error: ");
            push_str(&mut m, e.as_str());
            return Err(Error::Network(m));
        },
    };
    if !str_eq(u.scheme.as_str(), "http") {
        let mut m = String::new();
        push_str(&mut m, "Unsupported URL scheme '");
        push_str(&mut m, u.scheme.as_str());
        push_str(&mut m, "' (expected http)");
        return Err(Error::Network(m));
    }
    if crate::text::chars_of(u.username.as_str()).len() != 0 || u.has_password {
        return Err(Error::Network(String::from_str("Userinfo in URL is not supported")));
    }
    let port: u16 = match u.port {
        Some(p) => p,
        None => 80,
    };
    let mut target = String::new();
    push_str(&mut target, u.path.as_str());
    match &u.query {
        Some(q) => {
            push_char(&mut target, '?');
            push_str(&mut target, q.as_str());
        },
        None => {},
    }
    let (host_header, remote) = match url_host(url) {
        UrlHost::Domain(d) => (d.clone(), RemoteHost::Name(d)),
        UrlHost::Ipv4(a) => (ipv4_to_string(a), RemoteHost::Address(IpAddress::V4(a))),
        UrlHost::Ipv6(g) => {
            let mut h = String::new();
            push_char(&mut h, '[');
            push_str(&mut h, ipv6_to_string(g).as_str());
            push_char(&mut h, ']');
            (h, RemoteHost::Address(IpAddress::V6(g)))
        },
        UrlHost::Absent => return Err(Error::Network(String::from_str("No host in URL"))),
    };
    let mut request = String::new();
    push_str(&mut request, "GET ");
    push_str(&mut request, target.as_str());
    push_str(&mut request, " HTTP/1.1\r\nHost: ");
    push_str(&mut request, host_header.as_str());
    push_str(&mut request, "\r\nConnection: close\r\n\r\n");
    Ok(GetPlan { remote, port, request })
}

/// The error for a host name that resolved to no address.
pub fn no_resolved_addresses(host: &str) -> (r: Error)
    ensures
        r matches Error::Network(m) && m@ == "No resolved addresses for "@ + host@,
{
    let mut m = String::new();
    push_str(&mut m, "No resolved addresses for ");
    push_str(&mut m, host);
    Error::Network(m)
}

/// Whether reading `n` more bytes after `len` passes the limit on answers
/// (the sum saturates).
pub fn response_too_large(len: usize, n: usize) -> (r: bool)
    ensures
        r == (len + n > MAX_RESPONSE_BYTES),
{
    n > MAX_RESPONSE_BYTES || len > MAX_RESPONSE_BYTES - n
}

/// The error for an answer past the limit.
pub fn response_too_large_error() -> (r: Error)
    ensures
        r matches Error::InvalidResponse(m) && m@ == "HTTP response exceeded 262144 bytes"@,
{
    Error::InvalidResponse(String::from_str("HTTP response exceeded 262144 bytes"))
}

/// The first index where the bytes `\r\n\r\n` start.
pub open spec fn header_end(b: Seq<u8>, i: int) -> Option<int>
    decreases b.len() - i,
{
    if i < 0 || i + 4 > b.len() {
        None
    } else if b[i] == 13 && b[i + 1] == 10 && b[i + 2] == 13 && b[i + 3] == 10 {
        Some(i)
    } else {
        header_end(b, i + 1)
    }
}

/// The body of an HTTP answer: what follows the first blank line, or the
/// whole answer where it has none.
pub open spec fn body_of(b: Seq<u8>) -> Seq<u8> {
    match header_end(b, 0) {
        Some(i) => b.skip(i + 4),
        None => b,
    }
}

fn find_header_end(response: &[u8]) -> (r: Option<usize>)
    ensures
        match r {
            Some(i) => header_end(response@, 0) == Some(i as int) && i + 4 <= response@.len(),
            None => header_end(response@, 0) is None,
        },
{
    let n = response.len();
    let mut i: usize = 0;
    while i < n && n - i >= 4
        invariant
            n == response@.len(),
            i <= n,
            header_end(response@, 0) == header_end(response@, i as int),
        decreases n - i,
    {
        if response[i] == 13 && response[i + 1] == 10 && response[i + 2] == 13 && response[i + 3] == 10 {
            return Some(i);
        }
        i = i + 1;
    }
    None
}

/// The body of an HTTP answer (its headers skipped).
pub fn response_body(response: &[u8]) -> (r: Vec<u8>)
    ensures
        r@ == body_of(response@),
{
    let n = response.len();
    let start: usize = match find_header_end(response) {
        Some(i) => i + 4,
        None => 0,
    };
    let mut r: Vec<u8> = Vec::new();
    let mut k = start;
    while k < n
        invariant
            start <= k <= n,
            n == response@.len(),
            r@ == response@.subrange(start as int, k as int),
        decreases n - k,
    {
        r.push(response[k]);
        k = k + 1;
    }
    assert(response@.subrange(0, n as int) =~= response@);
    r
}

/// The renderer an answer to the description's GET describes: the body, read
/// as text, is the description of the device at `location` (the text of its
/// parsed URL).
pub fn renderer_from_response(response: &[u8], location: &str) -> (r: Result<Renderer, Error>)
    ensures
        exists|id: Seq<char>| crate::types::uuid_v4_text(id)
            && description_result(description_events(utf8_lossy(body_of(response@))), location@, "uuid:"@ + id, r),
{
    let body = response_body(response);
    let text = decode_utf8_lossy(body.as_slice());
    parse_device_description(text.as_str(), location)
}

/// Fetch renderer information from a device description URL: the parsed
/// location (its text), and what remains to check before the GET.
pub fn prepare_fetch(location: &str, allow_public: bool) -> (r: Result<(String, LocationCheck), Error>)
    ensures
        match parsed_url(location@) {
            Err(e) => r matches Err(Error::Network(m)) && m@ == "URL parse error: "@ + e,
            Ok(u) => match location_check(u, host_of(location@), allow_public) {
                Ok(None) => r matches Ok((t, LocationCheck::Allowed)) && t@ == u.text,
                Ok(Some((d, p))) => r matches Ok((t, LocationCheck::Resolve(h, port))) && t@ == u.text
                    && h@ == d && port == p,
                Err(m) => r matches Err(Error::Network(x)) && x@ == m,
            },
        },
{
    let u = match parse_url(location) {
        Ok(u) => u,
        Err(e) => {
            let mut m = String::new();
            push_str(&mut m, "URL parse error: ");
            push_str(&mut m, e.as_str());
            return Err(Error::Network(m));
        },
    };
    let host = url_host(location);
    match validate_location_url(&u, &host, allow_public) {
        Ok(check) => Ok((u.text, check)),
        Err(e) => Err(e),
    }
}

} // verus!
