//! Announcing this server: the NOTIFY messages, the answers to M-SEARCH
//! requests, and the random delay before each answer. Sending and waiting are
//! left to the caller.

use vstd::prelude::*;
use crate::error::Error;
use crate::ssdp::{server_device_type_list, server_device_types};
use crate::text::{
    chars_of, contains_chars, contains_seq, lines, lines_of, push_str, slice_range, starts_with,
    starts_with_chars, string_from_chars, trim, trim_chars, views,
};
use crate::types::{ServerInfo, str_eq, str_to_uppercase, uppercase};

verus! {

/// The USN under which a device type is announced.
pub open spec fn usn_of(udn: Seq<char>, device_type: Seq<char>) -> Seq<char> {
    if device_type == "upnp:rootdevice"@ {
        udn + "::upnp:rootdevice"@
    } else {
        udn + "::"@ + device_type
    }
}

/// A NOTIFY message: `ssdp:alive` with the location, or `ssdp:byebye`.
pub open spec fn notify_text(nt: Seq<char>, usn: Seq<char>, location: Seq<char>, alive: bool) -> Seq<char> {
    if alive {
        "NOTIFY * HTTP/1.1\r\nHOST: 239.255.255.250:1900\r\nCACHE-CONTROL: max-age=1800\r\nLOCATION: "@ + location
            + "\r\nNT: "@ + nt + "\r\nNTS: ssdp:alive\r\nSERVER: flingdlna/1.0 UPnP/1.0\r\nUSN: "@ + usn + "\r\n\r\n"@
    } else {
        "NOTIFY * HTTP/1.1\r\nHOST: 239.255.255.250:1900\r\nNT: "@ + nt + "\r\nNTS: ssdp:byebye\r\nUSN: "@ + usn
            + "\r\n\r\n"@
    }
}

fn notify_message(nt: &str, usn: &str, location: &str, alive: bool) -> (r: String)
    ensures
        r@ == notify_text(nt@, usn@, location@, alive),
{
    let mut r = String::new();
    if alive {
        push_str(&mut r, "NOTIFY * HTTP/1.1\r\nHOST: 239.255.255.250:1900\r\nCACHE-CONTROL: max-age=1800\r\nLOCATION: ");
        push_str(&mut r, location);
        push_str(&mut r, "\r\nNT: ");
        push_str(&mut r, nt);
        push_str(&mut r, "\r\nNTS: ssdp:alive\r\nSERVER: flingdlna/1.0 UPnP/1.0\r\nUSN: ");
        push_str(&mut r, usn);
        push_str(&mut r, "\r\n\r\n");
    } else {
        push_str(&mut r, "NOTIFY * HTTP/1.1\r\nHOST: 239.255.255.250:1900\r\nNT: ");
        push_str(&mut r, nt);
        push_str(&mut r, "\r\nNTS: ssdp:byebye\r\nUSN: ");
        push_str(&mut r, usn);
        push_str(&mut r, "\r\n\r\n");
    }
    r
}

fn usn_for(udn: &str, device_type: &str) -> (r: String)
    ensures
        r@ == usn_of(udn@, device_type@),
{
    let mut r = String::new();
    push_str(&mut r, udn);
    if str_eq(device_type, "upnp:rootdevice") {
        push_str(&mut r, "::upnp:rootdevice");
    } else {
        push_str(&mut r, "::");
        push_str(&mut r, device_type);
    }
    r
}

/// The NOTIFY messages of an announcement, in the order they are sent: one
/// for each advertised device type, then one for the UDN itself.
pub open spec fn notify_texts(udn: Seq<char>, location: Seq<char>, alive: bool) -> Seq<Seq<char>> {
    server_device_types().map_values(|dt: Seq<char>| notify_text(dt, usn_of(udn, dt), location, alive))
        .push(notify_text(udn, udn, location, alive))
}

/// Send NOTIFY announcement (alive or byebye): the messages to send.
pub fn notify_messages(server_info: &ServerInfo, location: &str, alive: bool) -> (r: Vec<String>)
    ensures
        r@.map_values(|s: String| s@) == notify_texts(server_info.udn@, location@, alive),
{
    let types = server_device_type_list();
    let ghost tv = types@.map_values(|s: &'static str| s@);
    let mut r: Vec<String> = Vec::new();
    let mut i: usize = 0;
    while i < types.len()
        invariant
            tv == types@.map_values(|s: &'static str| s@),
            tv == server_device_types(),
            i <= types@.len(),
            r@.len() == i,
            forall|k: int| 0 <= k < i ==> #[trigger] r@[k]@ == notify_text(tv[k], usn_of(server_info.udn@, tv[k]), location@, alive),
        decreases types@.len() - i,
    {
        let usn = usn_for(server_info.udn.as_str(), types[i]);
        r.push(notify_message(types[i], usn.as_str(), location, alive));
        i = i + 1;
    }
    r.push(notify_message(server_info.udn.as_str(), server_info.udn.as_str(), location, alive));
    assert(r@.map_values(|s: String| s@) =~= notify_texts(server_info.udn@, location@, alive));
    r
}

/// The search target of an M-SEARCH request: the value of its first line
/// whose upper-cased form starts with `ST:`, trimmed; `ssdp:all` without one.
pub open spec fn search_target_of(ls: Seq<Seq<char>>) -> Seq<char>
    decreases ls.len(),
{
    if ls.len() == 0 {
        "ssdp:all"@
    } else if starts_with(uppercase(ls[0]), "ST:"@) {
        trim(if ls[0].len() >= 3 { ls[0].skip(3) } else { Seq::empty() })
    } else {
        search_target_of(ls.drop_first())
    }
}

pub fn msearch_search_target(request: &str) -> (r: String)
    ensures
        r@ == search_target_of(lines(request@)),
{
    let ls = lines_of(chars_of(request).as_slice());
    let ghost lv = views(ls@);
    let prefix = chars_of("ST:");
    let mut i: usize = 0;
    assert(lv.skip(0) =~= lv);
    while i < ls.len()
        invariant
            lv == views(ls@),
            lv == lines(request@),
            prefix@ == "ST:"@,
            i <= ls@.len(),
            search_target_of(lv) == search_target_of(lv.skip(i as int)),
        decreases ls@.len() - i,
    {
        let ghost rest = lv.skip(i as int);
        assert(rest[0] == ls@[i as int]@);
        assert(rest.drop_first() =~= lv.skip(i + 1));
        let line = string_from_chars(ls[i].as_slice());
        let upper = str_to_uppercase(line.as_str());
        if starts_with_chars(chars_of(upper.as_str()).as_slice(), prefix.as_slice()) {
            let l = &ls[i];
            let n = l.len();
            // a line shorter than the name has an empty value
            let tail = if n >= 3 { slice_range(l.as_slice(), 3, n) } else { Vec::new() };
            assert(tail@ =~= (if l@.len() >= 3 { l@.skip(3) } else { Seq::<char>::empty() }));
            let v = trim_chars(tail.as_slice());
            return string_from_chars(v.as_slice());
        }
        i = i + 1;
    }
    assert(lv.skip(i as int).len() == 0);
    String::from_str("ssdp:all")
}

/// Whether the server answers a search: for all devices, for root devices,
/// for a target naming one of its device types, or for its UDN.
pub open spec fn answers_search(st: Seq<char>, udn: Seq<char>) -> bool {
    st == "ssdp:all"@ || st == "upnp:rootdevice"@
        || (exists|i: int| 0 <= i < server_device_types().len() && contains_seq(st, server_device_types()[i]))
        || contains_seq(st, udn)
}

pub fn should_respond(st: &str, udn: &str) -> (r: bool)
    ensures
        r == answers_search(st@, udn@),
{
    if str_eq(st, "ssdp:all") || str_eq(st, "upnp:rootdevice") {
        return true;
    }
    let types = server_device_type_list();
    let ghost tv = types@.map_values(|s: &'static str| s@);
    let sc = chars_of(st);
    let mut i: usize = 0;
    while i < types.len()
        invariant
            tv == types@.map_values(|s: &'static str| s@),
            tv == server_device_types(),
            sc@ == st@,
            i <= types@.len(),
            forall|k: int| 0 <= k < i ==> !contains_seq(st@, #[trigger] tv[k]),
        decreases types@.len() - i,
    {
        if contains_chars(sc.as_slice(), chars_of(types[i]).as_slice()) {
            assert(tv[i as int] == types@[i as int]@);
            return true;
        }
        i = i + 1;
    }
    contains_chars(sc.as_slice(), chars_of(udn).as_slice())
}

/// Whether a device type is answered for a search target.
pub open spec fn answered_type(st: Seq<char>, device_type: Seq<char>) -> bool {
    st == "ssdp:all"@ || st == device_type || st == "upnp:rootdevice"@
}

/// An answer to an M-SEARCH request.
pub open spec fn msearch_response_text(date: Seq<char>, location: Seq<char>, device_type: Seq<char>, usn: Seq<char>) -> Seq<char> {
    "HTTP/1.1 200 OK\r\nCACHE-CONTROL: max-age=1800\r\nDATE: "@ + date + "\r\nEXT:\r\nLOCATION: "@ + location
        + "\r\nSERVER: flingdlna/1.0 UPnP/1.0\r\nST: "@ + device_type + "\r\nUSN: "@ + usn + "\r\n\r\n"@
}

/// One answer to an M-SEARCH request, dated `date`.
pub fn msearch_response(date: &str, location: &str, device_type: &str, usn: &str) -> (r: String)
    ensures
        r@ == msearch_response_text(date@, location@, device_type@, usn@),
{
    let mut r = String::new();
    push_str(&mut r, "HTTP/1.1 200 OK\r\nCACHE-CONTROL: max-age=1800\r\nDATE: ");
    push_str(&mut r, date);
    push_str(&mut r, "\r\nEXT:\r\nLOCATION: ");
    push_str(&mut r, location);
    push_str(&mut r, "\r\nSERVER: flingdlna/1.0 UPnP/1.0\r\nST: ");
    push_str(&mut r, device_type);
    push_str(&mut r, "\r\nUSN: ");
    push_str(&mut r, usn);
    push_str(&mut r, "\r\n\r\n");
    r
}

/// The answers for the answered types among `types`, in order.
pub open spec fn answers_for(types: Seq<Seq<char>>, st: Seq<char>, udn: Seq<char>, location: Seq<char>, date: Seq<char>) -> Seq<Seq<char>>
    decreases types.len(),
{
    if types.len() == 0 {
        Seq::empty()
    } else if answered_type(st, types.last()) {
        answers_for(types.drop_last(), st, udn, location, date).push(
            msearch_response_text(date, location, types.last(), usn_of(udn, types.last())))
    } else {
        answers_for(types.drop_last(), st, udn, location, date)
    }
}

/// The answers to a search, one per answered device type in the order of the
/// advertised types; none where the server does not answer the search.
pub open spec fn msearch_answers(st: Seq<char>, udn: Seq<char>, location: Seq<char>, date: Seq<char>) -> Seq<Seq<char>> {
    if !answers_search(st, udn) {
        Seq::empty()
    } else {
        answers_for(server_device_types(), st, udn, location, date)
    }
}

/// Handle M-SEARCH request: the answers to send, given the request, this
/// server's location and the current date in HTTP form.
pub fn handle_msearch(request: &str, server_info: &ServerInfo, location: &str, date: &str) -> (r: Vec<String>)
    ensures
        r@.map_values(|s: String| s@) == msearch_answers(search_target_of(lines(request@)), server_info.udn@,
            location@, date@),
{
    let st = msearch_search_target(request);
    let mut r: Vec<String> = Vec::new();
    if !should_respond(st.as_str(), server_info.udn.as_str()) {
        assert(r@.map_values(|s: String| s@) =~= Seq::<Seq<char>>::empty());
        return r;
    }
    let types = server_device_type_list();
    let ghost tv = types@.map_values(|s: &'static str| s@);
    let mut i: usize = 0;
    assert(r@.map_values(|s: String| s@) =~= answers_for(tv.take(0), st@, server_info.udn@, location@, date@));
    while i < types.len()
        invariant
            tv == types@.map_values(|s: &'static str| s@),
            tv == server_device_types(),
            i <= types@.len(),
            r@.map_values(|s: String| s@) == answers_for(tv.take(i as int), st@, server_info.udn@, location@, date@),
        decreases types@.len() - i,
    {
        let dt = types[i];
        let ghost t = tv.take(i as int + 1);
        assert(t.drop_last() =~= tv.take(i as int));
        assert(t.last() == dt@);
        if str_eq(st.as_str(), "ssdp:all") || str_eq(st.as_str(), dt) || str_eq(st.as_str(), "upnp:rootdevice") {
            let usn = usn_for(server_info.udn.as_str(), dt);
            let ghost before = r@;
            let x = msearch_response(date, location, dt, usn.as_str());
            r.push(x);
            assert(r@.map_values(|s: String| s@) =~= before.map_values(|s: String| s@).push(x@));
        }
        i = i + 1;
    }
    assert(tv.take(types@.len() as int) =~= tv);
    r
}

/// The announcer needs the server's info.
pub fn announcer_info(info: Option<ServerInfo>) -> (r: Result<ServerInfo, Error>)
    ensures
        match info {
            Some(i) => r == Ok::<ServerInfo, Error>(i),
            None => r matches Err(Error::Config(m)) && m@ == "Server info not set"@,
        },
{
    match info {
        Some(i) => Ok(i),
        None => Err(Error::Config(String::from_str("Server info not set"))),
    }
}

/// The current date in the form HTTP headers use
/// (`chrono::Utc::now().format("%a, %d %b %Y %H:%M:%S GMT")`). It depends on
/// the clock: nothing is claimed of it.
#[verifier::external_body]
fn http_date_now() -> String {
    chrono::Utc::now().format("%a, %d %b %Y %H:%M:%S GMT").to_string()
}

/// The device types to answer for a search, each with its USN, in the order
/// of the advertised types.
pub open spec fn answer_targets(types: Seq<Seq<char>>, st: Seq<char>, udn: Seq<char>) -> Seq<(Seq<char>, Seq<char>)>
    decreases types.len(),
{
    if types.len() == 0 {
        Seq::empty()
    } else if answered_type(st, types.last()) {
        answer_targets(types.drop_last(), st, udn).push((types.last(), usn_of(udn, types.last())))
    } else {
        answer_targets(types.drop_last(), st, udn)
    }
}

/// What a search is answered with: a device type and USN per answer; none
/// where the server does not answer the search.
pub open spec fn msearch_targets(st: Seq<char>, udn: Seq<char>) -> Seq<(Seq<char>, Seq<char>)> {
    if !answers_search(st, udn) {
        Seq::empty()
    } else {
        answer_targets(server_device_types(), st, udn)
    }
}

/// The device types and USNs to answer an M-SEARCH request with; each answer
/// is written when it is sent (`msearch_answer_now`).
pub fn msearch_plan(request: &str, server_info: &ServerInfo) -> (r: Vec<(String, String)>)
    ensures
        r@.map_values(|p: (String, String)| (p.0@, p.1@)) == msearch_targets(search_target_of(lines(request@)), server_info.udn@),
{
    let st = msearch_search_target(request);
    let mut r: Vec<(String, String)> = Vec::new();
    if !should_respond(st.as_str(), server_info.udn.as_str()) {
        assert(r@.map_values(|p: (String, String)| (p.0@, p.1@)) =~= Seq::<(Seq<char>, Seq<char>)>::empty());
        return r;
    }
    let types = server_device_type_list();
    let ghost tv = types@.map_values(|s: &'static str| s@);
    let mut i: usize = 0;
    assert(r@.map_values(|p: (String, String)| (p.0@, p.1@)) =~= answer_targets(tv.take(0), st@, server_info.udn@));
    while i < types.len()
        invariant
            tv == types@.map_values(|s: &'static str| s@),
            tv == server_device_types(),
            i <= types@.len(),
            r@.map_values(|p: (String, String)| (p.0@, p.1@)) == answer_targets(tv.take(i as int), st@, server_info.udn@),
        decreases types@.len() - i,
    {
        let dt = types[i];
        let ghost t = tv.take(i as int + 1);
        assert(t.drop_last() =~= tv.take(i as int));
        assert(t.last() == dt@);
        if str_eq(st.as_str(), "ssdp:all") || str_eq(st.as_str(), dt) || str_eq(st.as_str(), "upnp:rootdevice") {
            let usn = usn_for(server_info.udn.as_str(), dt);
            let ghost before = r@;
            let pair = (String::from_str(dt), usn);
            let ghost pv = (pair.0@, pair.1@);
            r.push(pair);
            assert(r@.map_values(|p: (String, String)| (p.0@, p.1@)) =~= before.map_values(|p: (String, String)| (p.0@, p.1@)).push(pv));
        }
        i = i + 1;
    }
    assert(tv.take(types@.len() as int) =~= tv);
    r
}

/// One answer to an M-SEARCH request, dated now (the date depends on the
/// clock; the rest is the answer's).
pub fn msearch_answer_now(location: &str, device_type: &str, usn: &str) -> (r: String)
    ensures
        exists|date: Seq<char>| r@ == msearch_response_text(date, location@, device_type@, usn@),
{
    let date = http_date_now();
    msearch_response(date.as_str(), location, device_type, usn)
}

/// The answers to a search are the planned answers, each written with the
/// date: `handle_msearch` and `msearch_plan` agree.
pub proof fn answers_follow_plan(types: Seq<Seq<char>>, st: Seq<char>, udn: Seq<char>, location: Seq<char>, date: Seq<char>)
    ensures
        answers_for(types, st, udn, location, date)
            == answer_targets(types, st, udn).map_values(|p: (Seq<char>, Seq<char>)| msearch_response_text(date, location, p.0, p.1)),
    decreases types.len(),
{
    if types.len() > 0 {
        answers_follow_plan(types.drop_last(), st, udn, location, date);
        let prev = answer_targets(types.drop_last(), st, udn);
        if answered_type(st, types.last()) {
            let p = (types.last(), usn_of(udn, types.last()));
            assert(prev.push(p).map_values(|p: (Seq<char>, Seq<char>)| msearch_response_text(date, location, p.0, p.1))
                =~= prev.map_values(|p: (Seq<char>, Seq<char>)| msearch_response_text(date, location, p.0, p.1))
                    .push(msearch_response_text(date, location, p.0, p.1)));
        }
    }
}

} // verus!
