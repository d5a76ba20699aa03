//! The decisions of the HTTP front end: which reply a control request gets,
//! how a `Range` header is read, and how a media request is served.

use vstd::prelude::*;
use crate::server::content_directory::{
    browse_reply, get_current_connection_ids_response, get_protocol_info_response,
    get_search_capabilities_response, get_sort_capabilities_response,
    get_system_update_id_response, handle_browse, parse_browse_request, system_update_id_soap,
    search_capabilities_xml, sort_capabilities_xml, protocol_info_xml, connection_ids_xml,
};
use crate::server::state::ServerState;
use crate::text::{
    chars_of, contains_chars, contains_seq, decimal, parse_unsigned, parse_unsigned_chars,
    push_decimal, push_str, split_char, split_chars, starts_with, starts_with_chars, views,
};

verus! {

/// Largest accepted request body, in bytes.
pub const MAX_HTTP_BODY_BYTES: usize = 262144;
/// Largest accepted total size of request header names and values, in bytes.
pub const MAX_HTTP_HEADER_BYTES: usize = 32768;
/// Most requests served at once.
pub const MAX_HTTP_CONCURRENCY: usize = 64;
/// Time allowed for a control request, in seconds.
pub const CONTROL_TIMEOUT_SECS: u64 = 15;

/// The total size of header names and values.
pub open spec fn header_bytes(sizes: Seq<(usize, usize)>) -> nat
    decreases sizes.len(),
{
    if sizes.len() == 0 {
        0
    } else {
        header_bytes(sizes.drop_last()) + sizes.last().0 as nat + sizes.last().1 as nat
    }
}

proof fn lemma_header_bytes_prefix(sizes: Seq<(usize, usize)>, i: int)
    requires
        0 <= i <= sizes.len(),
    ensures
        header_bytes(sizes.take(i)) <= header_bytes(sizes),
    decreases sizes.len(),
{
    if i < sizes.len() {
        assert(sizes.drop_last().take(i) =~= sizes.take(i));
        lemma_header_bytes_prefix(sizes.drop_last(), i);
    } else {
        assert(sizes.take(i) =~= sizes);
    }
}

/// Whether the headers of a request (the byte length of each name and value)
/// are too large to be served.
pub fn headers_too_large(sizes: &[(usize, usize)]) -> (r: bool)
    ensures
        r == (header_bytes(sizes@) > MAX_HTTP_HEADER_BYTES),
{
    let mut total: usize = 0;
    let mut i: usize = 0;
    while i < sizes.len()
        invariant
            i <= sizes@.len(),
            total as nat == header_bytes(sizes@.take(i as int)),
            total <= MAX_HTTP_HEADER_BYTES,
        decreases sizes@.len() - i,
    {
        let (n, v) = sizes[i];
        assert(sizes@.take(i as int + 1).drop_last() =~= sizes@.take(i as int));
        if n > MAX_HTTP_HEADER_BYTES - total || v > MAX_HTTP_HEADER_BYTES - total - n {
            proof {
                lemma_header_bytes_prefix(sizes@, i + 1);
            }
            return true;
        }
        total = total + n + v;
        i = i + 1;
    }
    assert(sizes@.take(i as int) =~= sizes@);
    false
}

/// What `std::str::from_utf8` makes of a byte sequence: its text where it is
/// valid UTF-8.
pub uninterp spec fn utf8_text(bytes: Seq<u8>) -> Option<Seq<char>>;

/// Reads bytes as UTF-8 text (`std::str::from_utf8`); `None` where they are no
/// valid UTF-8.
#[verifier::external_body]
fn decode_utf8(bytes: &[u8]) -> (r: Option<String>)
    ensures
        match r {
            Some(s) => utf8_text(bytes@) == Some(s@),
            None => utf8_text(bytes@) is None,
        },
{
    match std::str::from_utf8(bytes) {
        Ok(s) => Some(s.to_string()),
        Err(_) => None,
    }
}

/// The answer to a control request.
#[derive(Debug)]
pub enum ControlReply {
    /// 413: the body is larger than the server accepts.
    TooLarge,
    /// 400: the body is no UTF-8 text.
    BadEncoding,
    /// 200: a SOAP document.
    Xml(String),
}

/// The SOAP fault of a UPnP error.
pub open spec fn soap_error_xml(code: u32, description: Seq<char>) -> Seq<char> {
    "<?xml version=\"1.0\" encoding=\"utf-8\"?>\n<s:Envelope xmlns:s=\"http://schemas.xmlsoap.org/soap/envelope/\" s:encodingStyle=\"http://schemas.xmlsoap.org/soap/encoding/\">\n  <s:Body>\n    <s:Fault>\n      <faultcode>s:Client</faultcode>\n      <faultstring>UPnPError</faultstring>\n      <detail>\n        <UPnPError xmlns=\"urn:schemas-upnp-org:control-1-0\">\n          <errorCode>"@
        + decimal(code as nat) + "</errorCode>\n          <errorDescription>"@ + description
        + "</errorDescription>\n        </UPnPError>\n      </detail>\n    </s:Fault>\n  </s:Body>\n</s:Envelope>"@
}

/// Generate SOAP error response
pub fn soap_error_response(code: u32, description: &str) -> (r: String)
    ensures
        r@ == soap_error_xml(code, description@),
{
    let mut r = String::new();
    push_str(&mut r, "<?xml version=\"1.0\" encoding=\"utf-8\"?>\n<s:Envelope xmlns:s=\"http://schemas.xmlsoap.org/soap/envelope/\" s:encodingStyle=\"http://schemas.xmlsoap.org/soap/encoding/\">\n  <s:Body>\n    <s:Fault>\n      <faultcode>s:Client</faultcode>\n      <faultstring>UPnPError</faultstring>\n      <detail>\n        <UPnPError xmlns=\"urn:schemas-upnp-org:control-1-0\">\n          <errorCode>");
    push_decimal(&mut r, code as u64);
    push_str(&mut r, "</errorCode>\n          <errorDescription>");
    push_str(&mut r, description);
    push_str(&mut r, "</errorDescription>\n        </UPnPError>\n      </detail>\n    </s:Fault>\n  </s:Body>\n</s:Envelope>");
    r
}

fn str_contains(s: &str, p: &str) -> (r: bool)
    ensures
        r == contains_seq(s@, p@),
{
    contains_chars(chars_of(s).as_slice(), chars_of(p).as_slice())
}

/// The ContentDirectory action a SOAPACTION header names, by the first of
/// these words it holds.
#[derive(Debug, Clone, Copy, PartialEq, Eq, Structural)]
pub enum DirectoryAction {
    Browse,
    GetSystemUpdateId,
    GetSearchCapabilities,
    GetSortCapabilities,
    Unknown,
}

pub open spec fn directory_action_of(soap_action: Seq<char>) -> DirectoryAction {
    if contains_seq(soap_action, "Browse"@) {
        DirectoryAction::Browse
    } else if contains_seq(soap_action, "GetSystemUpdateID"@) {
        DirectoryAction::GetSystemUpdateId
    } else if contains_seq(soap_action, "GetSearchCapabilities"@) {
        DirectoryAction::GetSearchCapabilities
    } else if contains_seq(soap_action, "GetSortCapabilities"@) {
        DirectoryAction::GetSortCapabilities
    } else {
        DirectoryAction::Unknown
    }
}

/// Which ContentDirectory action a SOAPACTION header names.
pub fn directory_action(soap_action: &str) -> (r: DirectoryAction)
    ensures
        r == directory_action_of(soap_action@),
{
    if str_contains(soap_action, "Browse") {
        DirectoryAction::Browse
    } else if str_contains(soap_action, "GetSystemUpdateID") {
        DirectoryAction::GetSystemUpdateId
    } else if str_contains(soap_action, "GetSearchCapabilities") {
        DirectoryAction::GetSearchCapabilities
    } else if str_contains(soap_action, "GetSortCapabilities") {
        DirectoryAction::GetSortCapabilities
    } else {
        DirectoryAction::Unknown
    }
}

/// ContentDirectory control: the reply to a SOAP request with the given
/// SOAPACTION header and body, from the client at `client_ip`.
pub fn content_directory_control(
    state: &ServerState,
    soap_action: &str,
    body: &[u8],
    base_url: &str,
    client_ip: &str,
) -> (r: ControlReply)
    requires
        state.wf(),
    ensures
        body@.len() > MAX_HTTP_BODY_BYTES ==> r is TooLarge,
        body@.len() <= MAX_HTTP_BODY_BYTES && utf8_text(body@) is None ==> r is BadEncoding,
        body@.len() <= MAX_HTTP_BODY_BYTES && utf8_text(body@) is Some ==> (r matches ControlReply::Xml(x)
            && x@ == directory_reply(*state, soap_action@, utf8_text(body@)->0, base_url@, client_ip@)),
{
    if body.len() > MAX_HTTP_BODY_BYTES {
        return ControlReply::TooLarge;
    }
    let text = match decode_utf8(body) {
        Some(t) => t,
        None => return ControlReply::BadEncoding,
    };
    let x = match directory_action(soap_action) {
        DirectoryAction::Browse => match parse_browse_request(text.as_str()) {
            Ok(request) => match handle_browse(state, &request, base_url, Some(client_ip)) {
                Ok(response) => response.to_soap_response(),
                Err(_) => soap_error_response(501, "Action Failed"),
            },
            Err(_) => soap_error_response(402, "Invalid Args"),
        },
        DirectoryAction::GetSystemUpdateId => get_system_update_id_response(state.content_update_id()),
        DirectoryAction::GetSearchCapabilities => String::from_str(get_search_capabilities_response()),
        DirectoryAction::GetSortCapabilities => String::from_str(get_sort_capabilities_response()),
        DirectoryAction::Unknown => soap_error_response(401, "Invalid Action"),
    };
    ControlReply::Xml(x)
}

/// The SOAP document answering a ContentDirectory action.
pub open spec fn directory_reply(
    state: ServerState,
    soap_action: Seq<char>,
    body: Seq<char>,
    base_url: Seq<char>,
    client_ip: Seq<char>,
) -> Seq<char> {
    match directory_action_of(soap_action) {
        DirectoryAction::Browse => browse_reply(state, body, base_url, Some(client_ip)),
        DirectoryAction::GetSystemUpdateId => system_update_id_soap(state.update_id()),
        DirectoryAction::GetSearchCapabilities => search_capabilities_xml(),
        DirectoryAction::GetSortCapabilities => sort_capabilities_xml(),
        DirectoryAction::Unknown => soap_error_xml(401, "Invalid Action"@),
    }
}

/// The SOAP document answering a ConnectionManager action.
pub open spec fn connection_reply(soap_action: Seq<char>) -> Seq<char> {
    if contains_seq(soap_action, "GetProtocolInfo"@) {
        protocol_info_xml()
    } else if contains_seq(soap_action, "GetCurrentConnectionIDs"@) {
        connection_ids_xml()
    } else {
        soap_error_xml(401, "Invalid Action"@)
    }
}

/// ConnectionManager control: the reply to a SOAP request with the given
/// SOAPACTION header.
pub fn connection_manager_control(soap_action: &str) -> (r: String)
    ensures
        r@ == connection_reply(soap_action@),
{
    if str_contains(soap_action, "GetProtocolInfo") {
        String::from_str(get_protocol_info_response())
    } else if str_contains(soap_action, "GetCurrentConnectionIDs") {
        String::from_str(get_current_connection_ids_response())
    } else {
        soap_error_response(401, "Invalid Action")
    }
}

/// The byte range a `Range` header asks of a file of `size` bytes, as first
/// and last byte: `bytes=a-b`, `bytes=a-` (to the end) or `bytes=-n` (the last
/// `n` bytes); a last byte past the end is cut to the end.
pub open spec fn range_of(header: Seq<char>, size: u64) -> Option<(u64, u64)> {
    if !starts_with(header, "bytes="@) || size == 0 {
        None
    } else {
        let parts = split_char(header.skip(6), '-');
        if parts.len() != 2 {
            None
        } else {
            let suffix = parts[0].len() == 0;
            let start: Option<nat> = if suffix {
                match parse_unsigned(parts[1], u64::MAX as nat) {
                    Some(n) => Some(if n <= size { (size - n) as nat } else { 0 }),
                    None => None,
                }
            } else {
                parse_unsigned(parts[0], u64::MAX as nat)
            };
            let end: Option<nat> = if suffix || parts[1].len() == 0 {
                Some((size - 1) as nat)
            } else {
                parse_unsigned(parts[1], u64::MAX as nat)
            };
            match (start, end) {
                (Some(a), Some(b)) => if a > b || a >= size {
                    None
                } else {
                    Some((a as u64, if b <= size - 1 { b as u64 } else { (size - 1) as u64 }))
                },
                _ => None,
            }
        }
    }
}

/// Parse Range header (format: bytes=start-end or bytes=start- or bytes=-suffix)
pub fn parse_range_header(header: &str, file_size: u64) -> (r: Option<(u64, u64)>)
    ensures
        r == range_of(header@, file_size),
        r matches Some((a, b)) ==> a <= b < file_size,
{
    let h = chars_of(header);
    let prefix = chars_of("bytes=");
    if !starts_with_chars(h.as_slice(), prefix.as_slice()) {
        return None;
    }
    if file_size == 0 {
        return None;
    }
    proof {
        reveal_strlit("bytes=");
    }
    let spec_part = crate::text::slice_range(h.as_slice(), 6, h.len());
    assert(spec_part@ =~= header@.skip(6));
    let parts = split_chars(spec_part.as_slice(), '-');
    let ghost pv = views(parts@);
    assert(pv.len() == parts@.len());
    if parts.len() != 2 {
        return None;
    }
    assert(pv[0] == parts@[0]@ && pv[1] == parts@[1]@);
    let is_suffix_range = parts[0].len() == 0;
    let start: u64 = if is_suffix_range {
        match parse_unsigned_chars(parts[1].as_slice(), u64::MAX) {
            Some(n) => file_size.saturating_sub(n),
            None => return None,
        }
    } else {
        match parse_unsigned_chars(parts[0].as_slice(), u64::MAX) {
            Some(n) => n,
            None => return None,
        }
    };
    let end: u64 = if is_suffix_range || parts[1].len() == 0 {
        file_size - 1
    } else {
        match parse_unsigned_chars(parts[1].as_slice(), u64::MAX) {
            Some(n) => n,
            None => return None,
        }
    };
    if start > end || start >= file_size {
        return None;
    }
    let end = if end < file_size - 1 { end } else { file_size - 1 };
    Some((start, end))
}

/// The `Content-Range` value of a partial answer.
pub open spec fn content_range_of(start: u64, end: u64, total: u64) -> Seq<char> {
    "bytes "@ + decimal(start as nat) + "-"@ + decimal(end as nat) + "/"@ + decimal(total as nat)
}

/// The `Content-Range` value of a partial answer: `bytes start-end/total`.
pub fn content_range(start: u64, end: u64, total: u64) -> (r: String)
    ensures
        r@ == content_range_of(start, end, total),
{
    let mut r = String::new();
    push_str(&mut r, "bytes ");
    push_decimal(&mut r, start);
    push_str(&mut r, "-");
    push_decimal(&mut r, end);
    push_str(&mut r, "/");
    push_decimal(&mut r, total);
    r
}

/// How a media request is answered.
#[derive(Debug)]
pub enum MediaPlan {
    /// 404: no file has that id.
    NotFound,
    /// 200: the whole file.
    Full { path: String, mime: String, size: u64 },
    /// 206: the bytes `start..=end` of the file, `length` of them.
    Partial { path: String, mime: String, start: u64, end: u64, length: u64, total: u64 },
}

/// Serve media: the file with id `id`, in whole or the range that a `Range`
/// header (where there is one, readable as text) asks for.
pub fn plan_media(state: &ServerState, id: &str, range: Option<&str>) -> (r: MediaPlan)
    requires
        state.wf(),
    ensures
        match state.file_at(id@) {
            None => r is NotFound,
            Some(f) => match (match range {
                Some(h) => range_of(h@, f.size),
                None => None,
            }) {
                Some((a, b)) => r matches MediaPlan::Partial { path, mime, start, end, length, total }
                    && path@ == f.path@ && mime@ == f.mime_type@ && start == a && end == b
                    && length == b - a + 1 && total == f.size,
                None => r matches MediaPlan::Full { path, mime, size } && path@ == f.path@
                    && mime@ == f.mime_type@ && size == f.size,
            },
        },
{
    let file = match state.get_file(id) {
        Some(f) => f,
        None => return MediaPlan::NotFound,
    };
    let range = match range {
        Some(h) => parse_range_header(h, file.size),
        None => None,
    };
    match range {
        Some((start, end)) => MediaPlan::Partial {
            path: file.path,
            mime: file.mime_type,
            start,
            end,
            length: end - start + 1,
            total: file.size,
        },
        None => MediaPlan::Full { path: file.path, mime: file.mime_type, size: file.size },
    }
}


/// A range `bytes=a-b` whose start lies in the file is answered: it starts
/// at `a` and ends at `b`, or at the file's last byte where `b` lies past it.
pub proof fn range_in_file_is_kept(header: Seq<char>, size: u64, a: nat, b: nat)
    requires
        starts_with(header, "bytes="@),
        split_char(header.skip(6), '-').len() == 2,
        split_char(header.skip(6), '-')[0].len() > 0,
        split_char(header.skip(6), '-')[1].len() > 0,
        parse_unsigned(split_char(header.skip(6), '-')[0], u64::MAX as nat) == Some(a),
        parse_unsigned(split_char(header.skip(6), '-')[1], u64::MAX as nat) == Some(b),
        a <= b,
        a < size,
    ensures
        range_of(header, size) == Some((a as u64, if b < size { b as u64 } else { (size - 1) as u64 })),
{
}

/// An open range `bytes=a-` whose start lies in the file runs to its last
/// byte; a suffix range `bytes=-n` is the file's last `n` bytes (all of it
/// where `n` exceeds its size, none at all for `bytes=-0`).
pub proof fn open_and_suffix_ranges(header: Seq<char>, size: u64, n: nat)
    requires
        starts_with(header, "bytes="@),
        split_char(header.skip(6), '-').len() == 2,
        size > 0,
    ensures
        split_char(header.skip(6), '-')[0].len() > 0 && split_char(header.skip(6), '-')[1].len() == 0
            && parse_unsigned(split_char(header.skip(6), '-')[0], u64::MAX as nat) == Some(n) && n < size
            ==> range_of(header, size) == Some((n as u64, (size - 1) as u64)),
        split_char(header.skip(6), '-')[0].len() == 0
            && parse_unsigned(split_char(header.skip(6), '-')[1], u64::MAX as nat) == Some(n)
            ==> range_of(header, size) == if n == 0 {
                None
            } else {
                Some((if n <= size { (size - n) as u64 } else { 0u64 }, (size - 1) as u64))
            },
{
}
} // verus!
