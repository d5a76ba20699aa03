//! Reading SSDP messages: headers, locations, and which answers come from
//! media renderers.

use vstd::prelude::*;
use crate::net::ip::{IpAddress, format_host_for_url, ipv4_in, url_host_text};
use crate::text::{
    ascii_lower_seq, char_to_ascii_lower, chars_of, contains_chars, contains_seq, decimal,
    find_char_from, find_char_in, lemma_find_char_from, lines, lines_of, push_decimal, push_str,
    slice_range, starts_with, starts_with_chars, string_from_chars, trim, trim_chars, views,
};
use crate::types::{str_to_uppercase, uppercase};
use crate::urls::{HostView, UrlHost, host_of, parse_url, parsed_url, url_host};

verus! {

/// `http://<host>:<port>/description.xml`
pub open spec fn location_url(ip: IpAddress, port: u16) -> Seq<char> {
    "http://"@ + url_host_text(ip) + ":"@ + decimal(port as nat) + "/description.xml"@
}

pub fn build_location_url(local_ip: IpAddress, http_port: u16) -> (r: String)
    ensures
        r@ == location_url(local_ip, http_port),
{
    let mut r = String::new();
    push_str(&mut r, "http://");
    push_str(&mut r, format_host_for_url(local_ip).as_str());
    push_str(&mut r, ":");
    push_decimal(&mut r, http_port as u64);
    push_str(&mut r, "/description.xml");
    r
}

/// The value of the first line whose upper-cased form starts with
/// `LOCATION:`: what follows the nine characters of that name, trimmed.
pub open spec fn location_in(ls: Seq<Seq<char>>) -> Option<Seq<char>>
    decreases ls.len(),
{
    if ls.len() == 0 {
        None
    } else if starts_with(uppercase(ls[0]), "LOCATION:"@) {
        Some(trim(if ls[0].len() >= 9 { ls[0].skip(9) } else { Seq::empty() }))
    } else {
        location_in(ls.drop_first())
    }
}

/// Parse LOCATION header from SSDP response
pub fn parse_location(response: &str) -> (r: Option<String>)
    ensures
        match r {
            Some(l) => location_in(lines(response@)) == Some(l@),
            None => location_in(lines(response@)) is None,
        },
{
    let ls = lines_of(chars_of(response).as_slice());
    let ghost lv = views(ls@);
    let prefix = chars_of("LOCATION:");
    proof {
        reveal_strlit("LOCATION:");
    }
    let mut i: usize = 0;
    assert(lv.skip(0) =~= lv);
    while i < ls.len()
        invariant
            lv == views(ls@),
            lv == lines(response@),
            prefix@ == "LOCATION:"@,
            i <= ls@.len(),
            location_in(lv) == location_in(lv.skip(i as int)),
        decreases ls@.len() - i,
    {
        let ghost rest = lv.skip(i as int);
        assert(rest[0] == ls@[i as int]@);
        assert(rest.drop_first() =~= lv.skip(i + 1));
        let line = string_from_chars(ls[i].as_slice());
        let upper = str_to_uppercase(line.as_str());
        if starts_with_chars(chars_of(upper.as_str()).as_slice(), prefix.as_slice()) {
            let l = &ls[i];
            let n = l.len();
            // a line shorter than the name has an empty value
            let tail = if n >= 9 { slice_range(l.as_slice(), 9, n) } else { Vec::new() };
            assert(tail@ =~= (if l@.len() >= 9 { l@.skip(9) } else { Seq::<char>::empty() }));
            let v = trim_chars(tail.as_slice());
            return Some(string_from_chars(v.as_slice()));
        }
        i = i + 1;
    }
    None
}


/// The value a line gives a header: the line is `name:value` (split at its
/// first colon) and the trimmed name equals the header but for ASCII case.
pub open spec fn header_in_line(line: Seq<char>, header: Seq<char>) -> Option<Seq<char>> {
    match find_char_from(line, ':', 0) {
        None => None,
        Some(k) => if ascii_lower_seq(trim(line.take(k))) == ascii_lower_seq(header) {
            Some(trim(line.skip(k + 1)))
        } else {
            None
        },
    }
}

/// The value of the first line that gives the header one.
pub open spec fn header_in(ls: Seq<Seq<char>>, header: Seq<char>) -> Option<Seq<char>>
    decreases ls.len(),
{
    if ls.len() == 0 {
        None
    } else {
        match header_in_line(ls[0], header) {
            Some(v) => Some(v),
            None => header_in(ls.drop_first(), header),
        }
    }
}

fn eq_ignore_ascii_case(a: &[char], b: &[char]) -> (r: bool)
    ensures
        r == (ascii_lower_seq(a@) == ascii_lower_seq(b@)),
{
    if a.len() != b.len() {
        proof {
            assert(ascii_lower_seq(a@).len() != ascii_lower_seq(b@).len());
        }
        return false;
    }
    let mut i: usize = 0;
    while i < a.len()
        invariant
            a@.len() == b@.len(),
            i <= a@.len(),
            forall|j: int| 0 <= j < i ==> ascii_lower_seq(a@)[j] == ascii_lower_seq(b@)[j],
        decreases a@.len() - i,
    {
        if char_to_ascii_lower(a[i]) != char_to_ascii_lower(b[i]) {
            assert(ascii_lower_seq(a@)[i as int] != ascii_lower_seq(b@)[i as int]);
            return false;
        }
        i = i + 1;
    }
    assert(ascii_lower_seq(a@) =~= ascii_lower_seq(b@));
    true
}

fn header_of_line(line: &[char], header: &[char]) -> (r: Option<String>)
    ensures
        match r {
            Some(v) => header_in_line(line@, header@) == Some(v@),
            None => header_in_line(line@, header@) is None,
        },
{
    match find_char_in(line, ':', 0) {
        None => None,
        Some(k) => {
            proof {
                lemma_find_char_from(line@, ':', 0);
            }
            assert(line@.len() == line.len());
            let name = slice_range(line, 0, k);
            let name_t = trim_chars(name.as_slice());
            assert(name@ =~= line@.take(k as int));
            if eq_ignore_ascii_case(name_t.as_slice(), header) {
                let value = slice_range(line, k + 1, line.len());
                assert(value@ =~= line@.skip(k + 1));
                let v = trim_chars(value.as_slice());
                Some(string_from_chars(v.as_slice()))
            } else {
                None
            }
        },
    }
}

/// The value of a header in an SSDP message (name compared without ASCII case)
pub fn parse_header_value(response: &str, header: &str) -> (r: Option<String>)
    ensures
        match r {
            Some(v) => header_in(lines(response@), header@) == Some(v@),
            None => header_in(lines(response@), header@) is None,
        },
{
    let ls = lines_of(chars_of(response).as_slice());
    let hc = chars_of(header);
    let ghost lv = views(ls@);
    let mut i: usize = 0;
    assert(lv.skip(0) =~= lv);
    while i < ls.len()
        invariant
            lv == views(ls@),
            lv == lines(response@),
            hc@ == header@,
            i <= ls@.len(),
            header_in(lv, header@) == header_in(lv.skip(i as int), header@),
        decreases ls@.len() - i,
    {
        let ghost rest = lv.skip(i as int);
        assert(rest[0] == ls@[i as int]@);
        assert(rest.drop_first() =~= lv.skip(i + 1));
        match header_of_line(ls[i].as_slice(), hc.as_slice()) {
            Some(v) => return Some(v),
            None => {},
        }
        i = i + 1;
    }
    None
}

/// The search target of a message: its ST header, else its NT header.
pub open spec fn search_target_in(response: Seq<char>) -> Option<Seq<char>> {
    match header_in(lines(response), "ST"@) {
        Some(v) => Some(v),
        None => header_in(lines(response), "NT"@),
    }
}

pub fn parse_search_target(response: &str) -> (r: Option<String>)
    ensures
        match r {
            Some(v) => search_target_in(response@) == Some(v@),
            None => search_target_in(response@) is None,
        },
{
    match parse_header_value(response, "ST") {
        Some(v) => Some(v),
        None => parse_header_value(response, "NT"),
    }
}

/// A search target or USN names a renderer where, in ASCII lower case, it
/// names no media server but a media renderer, an AVTransport or a
/// RenderingControl service.
pub open spec fn renderer_target(value: Seq<char>) -> bool {
    let v = ascii_lower_seq(value);
    !contains_seq(v, "mediaserver"@) && (contains_seq(v, "mediarenderer"@) || contains_seq(v, "avtransport"@)
        || contains_seq(v, "renderingcontrol"@))
}

fn ascii_lowercase(s: &str) -> (r: Vec<char>)
    ensures
        r@ == ascii_lower_seq(s@),
{
    let cs = chars_of(s);
    let mut r: Vec<char> = Vec::new();
    let mut i: usize = 0;
    while i < cs.len()
        invariant
            cs@ == s@,
            i <= cs@.len(),
            r@ == ascii_lower_seq(cs@.take(i as int)),
        decreases cs@.len() - i,
    {
        r.push(char_to_ascii_lower(cs[i]));
        assert(ascii_lower_seq(cs@.take(i + 1)) =~= ascii_lower_seq(cs@.take(i as int)).push(crate::text::ascii_lower(cs@[i as int])));
        i = i + 1;
    }
    assert(cs@.take(cs@.len() as int) =~= cs@);
    r
}

pub fn is_renderer_ssdp_target(value: &str) -> (r: bool)
    ensures
        r == renderer_target(value@),
{
    let v = ascii_lowercase(value);
    if contains_chars(v.as_slice(), chars_of("mediaserver").as_slice()) {
        return false;
    }
    contains_chars(v.as_slice(), chars_of("mediarenderer").as_slice())
        || contains_chars(v.as_slice(), chars_of("avtransport").as_slice())
        || contains_chars(v.as_slice(), chars_of("renderingcontrol").as_slice())
}

pub open spec fn opt_target_ok(o: Option<Seq<char>>) -> bool {
    match o {
        Some(v) => renderer_target(v),
        None => false,
    }
}

/// The text an optional string slice holds.
pub open spec fn str_opt(o: Option<&str>) -> Option<Seq<char>> {
    match o {
        Some(v) => Some(v@),
        None => None,
    }
}

/// Whether an SSDP answer comes from a renderer: by its search target or USN
/// where it has a search target, by its USN where it has only that, and
/// always where it has neither.
pub open spec fn renderer_response(st: Option<Seq<char>>, usn: Option<Seq<char>>) -> bool {
    if st is Some {
        opt_target_ok(st) || opt_target_ok(usn)
    } else if usn is Some {
        opt_target_ok(usn)
    } else {
        true
    }
}

pub fn is_renderer_ssdp_response(st: Option<&str>, usn: Option<&str>) -> (r: bool)
    ensures
        r == renderer_response(str_opt(st), str_opt(usn)),
{
    let st_ok = match st {
        Some(v) => is_renderer_ssdp_target(v),
        None => false,
    };
    let usn_ok = match usn {
        Some(v) => is_renderer_ssdp_target(v),
        None => false,
    };
    if st.is_some() {
        st_ok || usn_ok
    } else if usn.is_some() {
        usn_ok
    } else {
        true
    }
}

/// Whether a LOCATION points at this server: a URL on the server's own
/// (non-zero) port, port 80 where none is written, whose host is one of the
/// local IPv4 addresses.
pub open spec fn own_location(location: Seq<char>, local_ips: Seq<[u8; 4]>, http_port: u16) -> bool {
    match parsed_url(location) {
        Err(_) => false,
        Ok(u) => {
            let port = match u.port {
                Some(p) => p,
                None => 80u16,
            };
            if port != http_port || http_port == 0 {
                false
            } else {
                match host_of(location) {
                    HostView::Ipv4(a) => exists|i: int| 0 <= i < local_ips.len() && local_ips[i]@ == a,
                    _ => false,
                }
            }
        },
    }
}

pub fn is_own_location(location: &str, local_ips: &[[u8; 4]], http_port: u16) -> (r: bool)
    ensures
        r == own_location(location@, local_ips@, http_port),
{
    let url = match parse_url(location) {
        Ok(u) => u,
        Err(_) => return false,
    };
    let port = match url.port {
        Some(p) => p,
        None => 80,
    };
    if port != http_port || http_port == 0 {
        return false;
    }
    match url_host(location) {
        UrlHost::Ipv4(a) => ipv4_in(local_ips, a),
        _ => false,
    }
}


/// The LOCATION header is found whatever the case it is written in: answers
/// whose lines agree once upper-cased have their location on the same line,
/// so one has a location exactly when the other has.
pub proof fn location_ignores_header_case(ls1: Seq<Seq<char>>, ls2: Seq<Seq<char>>)
    requires
        ls1.len() == ls2.len(),
        forall|i: int| 0 <= i < ls1.len() ==> uppercase(#[trigger] ls1[i]) == uppercase(ls2[i]),
    ensures
        location_in(ls1) is Some <==> location_in(ls2) is Some,
    decreases ls1.len(),
{
    if ls1.len() > 0 {
        assert(uppercase(ls1[0]) == uppercase(ls2[0]));
        let t1 = ls1.drop_first();
        let t2 = ls2.drop_first();
        assert forall|i: int| 0 <= i < t1.len() implies uppercase(#[trigger] t1[i]) == uppercase(t2[i]) by {
            assert(t1[i] == ls1[i + 1] && t2[i] == ls2[i + 1]);
        }
        location_ignores_header_case(t1, t2);
    }
}

/// An answer has a location exactly when one of its lines, upper-cased,
/// starts with `LOCATION:`; the location is what follows the header's name
/// on the first such line, trimmed.
pub proof fn location_is_first_location_line(ls: Seq<Seq<char>>)
    ensures
        location_in(ls) is Some <==> exists|i: int| 0 <= i < ls.len() && starts_with(uppercase(#[trigger] ls[i]), "LOCATION:"@),
        location_in(ls) matches Some(v) ==> exists|i: int| 0 <= i < ls.len()
            && starts_with(uppercase(#[trigger] ls[i]), "LOCATION:"@)
            && (forall|j: int| 0 <= j < i ==> !starts_with(uppercase(#[trigger] ls[j]), "LOCATION:"@))
            && v == trim(if ls[i].len() >= 9 { ls[i].skip(9) } else { Seq::empty() }),
    decreases ls.len(),
{
    if ls.len() > 0 {
        let t = ls.drop_first();
        location_is_first_location_line(t);
        assert forall|i: int| 0 <= i < t.len() implies t[i] == ls[i + 1] by {}
        if !starts_with(uppercase(ls[0]), "LOCATION:"@) {
            if exists|i: int| 0 <= i < ls.len() && starts_with(uppercase(#[trigger] ls[i]), "LOCATION:"@) {
                let i = choose|i: int| 0 <= i < ls.len() && starts_with(uppercase(#[trigger] ls[i]), "LOCATION:"@);
                assert(i > 0 && t[i - 1] == ls[i]);
            }
            if let Some(v) = location_in(t) {
                let i = choose|i: int| 0 <= i < t.len()
                    && starts_with(uppercase(#[trigger] t[i]), "LOCATION:"@)
                    && (forall|j: int| 0 <= j < i ==> !starts_with(uppercase(#[trigger] t[j]), "LOCATION:"@))
                    && v == trim(if t[i].len() >= 9 { t[i].skip(9) } else { Seq::empty() });
                assert(ls[i + 1] == t[i]);
                assert forall|j: int| 0 <= j < i + 1 implies !starts_with(uppercase(#[trigger] ls[j]), "LOCATION:"@) by {
                    if j > 0 {
                        assert(ls[j] == t[j - 1]);
                    }
                }
            }
        } else {
            assert(starts_with(uppercase(ls[0]), "LOCATION:"@));
        }
    }
}
} // verus!
