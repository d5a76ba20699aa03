//! ContentDirectory SOAP service implementation

use vstd::prelude::*;
use crate::error::Error;
use crate::server::description::{xml_escape, xml_escape_seq};
use crate::server::didl::{
    container_xml, didl_xml, generate_container, generate_didl_lite, generate_item,
    generate_root_containers, item_xml, root_containers,
};
use crate::server::state::{ServerState, of_type_for_client, opt_view};
use crate::text::{
    chars_of, decimal, find_char_from, find_char_in, find_chars, find_chars_from, find_from,
    find_seq, parse_u32, parse_unsigned, push_decimal, push_str, string_from_chars, slice_range,
    lemma_find_char_from, lemma_find_from_bounds,
};
use crate::types::{MediaFile, MediaType, media_type_name, str_eq};

verus! {

/// Browse request parameters
#[derive(Debug)]
pub struct BrowseRequest {
    pub object_id: String,
    pub browse_flag: BrowseFlag,
    pub filter: String,
    pub starting_index: u32,
    pub requested_count: u32,
    pub sort_criteria: String,
}

#[derive(Debug, Clone, Copy, PartialEq, Eq, Structural)]
pub enum BrowseFlag {
    BrowseMetadata,
    BrowseDirectChildren,
}

/// Browse response
#[derive(Debug)]
pub struct BrowseResponse {
    pub result: String,
    pub number_returned: u32,
    pub total_matches: u32,
    pub update_id: u32,
}

/// The SOAP document answering a Browse request with the given body.
pub open spec fn browse_reply(state: ServerState, body: Seq<char>, base_url: Seq<char>, client_ip: Option<Seq<char>>) -> Seq<char> {
    let r = browse_result(state, tag_or(body, "ObjectID"@, "0"@), browse_flag_of(body),
        tag_u32(body, "StartingIndex"@), tag_u32(body, "RequestedCount"@), base_url, client_ip);
    browse_soap(r.0, r.1, r.2, r.3)
}

/// The SOAP envelope answering a Browse request.
pub open spec fn browse_soap(result: Seq<char>, number_returned: u32, total_matches: u32, update_id: u32) -> Seq<char> {
    "<?xml version=\"1.0\" encoding=\"utf-8\"?>\n<s:Envelope xmlns:s=\"http://schemas.xmlsoap.org/soap/envelope/\" s:encodingStyle=\"http://schemas.xmlsoap.org/soap/encoding/\">\n  <s:Body>\n    <u:BrowseResponse xmlns:u=\"urn:schemas-upnp-org:service:ContentDirectory:1\">\n      <Result>"@
        + xml_escape_seq(result) + "</Result>\n      <NumberReturned>"@ + decimal(number_returned as nat)
        + "</NumberReturned>\n      <TotalMatches>"@ + decimal(total_matches as nat)
        + "</TotalMatches>\n      <UpdateID>"@ + decimal(update_id as nat)
        + "</UpdateID>\n    </u:BrowseResponse>\n  </s:Body>\n</s:Envelope>"@
}

impl BrowseResponse {
    /// Convert to SOAP response XML
    pub fn to_soap_response(&self) -> (r: String)
        ensures
            r@ == browse_soap(self.result@, self.number_returned, self.total_matches, self.update_id),
    {
        let mut r = String::new();
        push_str(&mut r, "<?xml version=\"1.0\" encoding=\"utf-8\"?>\n<s:Envelope xmlns:s=\"http://schemas.xmlsoap.org/soap/envelope/\" s:encodingStyle=\"http://schemas.xmlsoap.org/soap/encoding/\">\n  <s:Body>\n    <u:BrowseResponse xmlns:u=\"urn:schemas-upnp-org:service:ContentDirectory:1\">\n      <Result>");
        push_str(&mut r, xml_escape(self.result.as_str()).as_str());
        push_str(&mut r, "</Result>\n      <NumberReturned>");
        push_decimal(&mut r, self.number_returned as u64);
        push_str(&mut r, "</NumberReturned>\n      <TotalMatches>");
        push_decimal(&mut r, self.total_matches as u64);
        push_str(&mut r, "</TotalMatches>\n      <UpdateID>");
        push_decimal(&mut r, self.update_id as u64);
        push_str(&mut r, "</UpdateID>\n    </u:BrowseResponse>\n  </s:Body>\n</s:Envelope>");
        r
    }
}

/// The text between the first `<tag` (and the `>` that ends it) and the next
/// `</tag>`.
pub open spec fn extract_tag(xml: Seq<char>, tag: Seq<char>) -> Option<Seq<char>> {
    match find_seq(xml, "<"@ + tag) {
        None => None,
        Some(p) => match find_char_from(xml, '>', p) {
            None => None,
            Some(q) => match find_from(xml, "</"@ + tag + ">"@, q + 1) {
                None => None,
                Some(e) => Some(xml.subrange(q + 1, e)),
            },
        },
    }
}

/// Extract content from an XML tag (simple implementation)
pub fn extract_tag_content(xml: &str, tag: &str) -> (r: Option<String>)
    ensures
        match r {
            Some(s) => extract_tag(xml@, tag@) == Some(s@),
            None => extract_tag(xml@, tag@) is None,
        },
{
    let mut start_tag = String::new();
    push_str(&mut start_tag, "<");
    push_str(&mut start_tag, tag);
    let mut end_tag = String::new();
    push_str(&mut end_tag, "</");
    push_str(&mut end_tag, tag);
    push_str(&mut end_tag, ">");
    let x = chars_of(xml);
    let st = chars_of(start_tag.as_str());
    let et = chars_of(end_tag.as_str());
    let start_pos = match find_chars(x.as_slice(), st.as_slice()) {
        Some(p) => p,
        None => return None,
    };
    proof {
        lemma_find_from_bounds(x@, st@, 0);
    }
    let gt = match find_char_in(x.as_slice(), '>', start_pos) {
        Some(q) => q,
        None => return None,
    };
    proof {
        lemma_find_char_from(x@, '>', start_pos as int);
    }
    let content_start = gt + 1;
    let content_end = match find_chars_from(x.as_slice(), et.as_slice(), content_start) {
        Some(e) => e,
        None => return None,
    };
    proof {
        lemma_find_from_bounds(x@, et@, content_start as int);
    }
    let v = slice_range(x.as_slice(), content_start, content_end);
    Some(string_from_chars(v.as_slice()))
}

/// A tag's content, or the default where the tag is missing.
pub open spec fn tag_or(xml: Seq<char>, tag: Seq<char>, default: Seq<char>) -> Seq<char> {
    match extract_tag(xml, tag) {
        Some(s) => s,
        None => default,
    }
}

/// A tag's content read as a `u32`, or 0 where the tag is missing or no number.
pub open spec fn tag_u32(xml: Seq<char>, tag: Seq<char>) -> u32 {
    match extract_tag(xml, tag) {
        Some(s) => match parse_unsigned(s, u32::MAX as nat) {
            Some(n) => n as u32,
            None => 0,
        },
        None => 0,
    }
}

fn tag_or_default(body: &str, tag: &str, default: &str) -> (r: String)
    ensures
        r@ == tag_or(body@, tag@, default@),
{
    match extract_tag_content(body, tag) {
        Some(s) => s,
        None => String::from_str(default),
    }
}

fn tag_number(body: &str, tag: &str) -> (r: u32)
    ensures
        r == tag_u32(body@, tag@),
{
    match extract_tag_content(body, tag) {
        Some(s) => match parse_u32(s.as_str()) {
            Some(n) => n,
            None => 0,
        },
        None => 0,
    }
}

/// The browse flag a request body names: metadata only where it says so.
pub open spec fn browse_flag_of(body: Seq<char>) -> BrowseFlag {
    if tag_or(body, "BrowseFlag"@, ""@) == "BrowseMetadata"@ {
        BrowseFlag::BrowseMetadata
    } else {
        BrowseFlag::BrowseDirectChildren
    }
}

/// `req` is what a Browse request body reads as: each field from its tag, with
/// a default where the tag is missing (or, for the numbers, no number).
pub open spec fn browse_request_of(body: Seq<char>, req: BrowseRequest) -> bool {
    &&& req.object_id@ == tag_or(body, "ObjectID"@, "0"@)
    &&& req.browse_flag == browse_flag_of(body)
    &&& req.filter@ == tag_or(body, "Filter"@, "*"@)
    &&& req.starting_index == tag_u32(body, "StartingIndex"@)
    &&& req.requested_count == tag_u32(body, "RequestedCount"@)
    &&& req.sort_criteria@ == tag_or(body, "SortCriteria"@, ""@)
}

/// Parse a Browse SOAP request; it never fails.
pub fn parse_browse_request(body: &str) -> (r: Result<BrowseRequest, Error>)
    ensures
        r matches Ok(req) && browse_request_of(body@, req),
{
    let object_id = tag_or_default(body, "ObjectID", "0");
    let browse_flag_str = tag_or_default(body, "BrowseFlag", "");
    let filter = tag_or_default(body, "Filter", "*");
    let starting_index = tag_number(body, "StartingIndex");
    let requested_count = tag_number(body, "RequestedCount");
    let sort_criteria = tag_or_default(body, "SortCriteria", "");
    let browse_flag = if str_eq(browse_flag_str.as_str(), "BrowseMetadata") {
        BrowseFlag::BrowseMetadata
    } else {
        BrowseFlag::BrowseDirectChildren
    };
    Ok(BrowseRequest { object_id, browse_flag, filter, starting_index, requested_count, sort_criteria })
}

/// A Browse response as plain values: the DIDL-Lite result, the number of
/// elements returned, the total number of matches and the update id.
pub open spec fn response_view(r: BrowseResponse) -> (Seq<char>, u32, u32, u32) {
    (r.result@, r.number_returned, r.total_matches, r.update_id)
}

/// The container id of each media type.
pub open spec fn container_id_of(t: MediaType) -> Seq<char> {
    match t {
        MediaType::Video => "video"@,
        MediaType::Audio => "audio"@,
        MediaType::Image => "image"@,
    }
}

/// The first index of the requested page, and the index after its end.
pub open spec fn page_bounds(len: nat, starting_index: u32, requested_count: u32) -> (int, int) {
    let lo = if starting_index as int <= len { starting_index as int } else { len as int };
    let count = if requested_count == 0 { len as int } else { requested_count as int };
    let hi = if lo + count <= len { lo + count } else { len as int };
    (lo, hi)
}

/// The items of a file list, as DIDL-Lite elements.
pub open spec fn items_of(files: Seq<MediaFile>, base_url: Seq<char>) -> Seq<Seq<char>> {
    files.map_values(|f: MediaFile| item_xml(f, base_url))
}

/// The answer to browsing one media type's container, given the files of that
/// type that the client sees.
pub open spec fn browse_type_result(
    files: Seq<MediaFile>,
    t: MediaType,
    flag: BrowseFlag,
    starting_index: u32,
    requested_count: u32,
    base_url: Seq<char>,
    update_id: u32,
) -> (Seq<char>, u32, u32, u32) {
    if flag == BrowseFlag::BrowseMetadata {
        (didl_xml(seq![container_xml(container_id_of(t), "0"@, media_type_name(t), files.len())]), 1, 1, update_id)
    } else {
        let (lo, hi) = page_bounds(files.len(), starting_index, requested_count);
        let items = items_of(files.subrange(lo, hi), base_url);
        (didl_xml(items), items.len() as u32, files.len() as u32, update_id)
    }
}

/// The answer to a Browse request.
pub open spec fn browse_result(
    state: ServerState,
    object_id: Seq<char>,
    flag: BrowseFlag,
    starting_index: u32,
    requested_count: u32,
    base_url: Seq<char>,
    client_ip: Option<Seq<char>>,
) -> (Seq<char>, u32, u32, u32) {
    let uid = state.update_id();
    let files = |t: MediaType| of_type_for_client(state.entries(), t, state.public(), state.device(), client_ip);
    if object_id == "0"@ {
        if flag == BrowseFlag::BrowseMetadata {
            (didl_xml(seq![container_xml("0"@, "-1"@, "Root"@, 3)]), 1, 1, uid)
        } else {
            (didl_xml(root_containers(files(MediaType::Video).len(), files(MediaType::Audio).len(),
                files(MediaType::Image).len())), 3, 3, uid)
        }
    } else if object_id == "video"@ {
        browse_type_result(files(MediaType::Video), MediaType::Video, flag, starting_index, requested_count, base_url, uid)
    } else if object_id == "audio"@ {
        browse_type_result(files(MediaType::Audio), MediaType::Audio, flag, starting_index, requested_count, base_url, uid)
    } else if object_id == "image"@ {
        browse_type_result(files(MediaType::Image), MediaType::Image, flag, starting_index, requested_count, base_url, uid)
    } else {
        match state.file_at(object_id) {
            Some(f) if state.shows(f.path@, client_ip) => (didl_xml(seq![item_xml(f, base_url)]), 1, 1, uid),
            _ => (didl_xml(Seq::empty()), 0, 0, uid),
        }
    }
}

fn browse_media_type(
    state: &ServerState,
    media_type: MediaType,
    request: &BrowseRequest,
    base_url: &str,
    update_id: u32,
    client_ip: Option<&str>,
) -> (r: BrowseResponse)
    requires
        state.wf(),
    ensures
        response_view(r) == browse_type_result(
            of_type_for_client(state.entries(), media_type, state.public(), state.device(), opt_view(client_ip)),
            media_type, request.browse_flag, request.starting_index, request.requested_count, base_url@, update_id),
{
    let container_id = match media_type {
        MediaType::Video => "video",
        MediaType::Audio => "audio",
        MediaType::Image => "image",
    };
    let files = state.files_by_type_for_client(media_type, client_ip);
    if request.browse_flag == BrowseFlag::BrowseMetadata {
        let items = vec![generate_container(container_id, "0", media_type.display_name(), files.len())];
        let result = generate_didl_lite(items.as_slice());
        assert(items@.map_values(|s: String| s@) =~= seq![items@[0]@]);
        return BrowseResponse { result, number_returned: 1, total_matches: 1, update_id };
    }
    let total = #[verifier::truncate] (files.len() as u32);
    let n = files.len();
    let start: usize = if (request.starting_index as usize) <= n { request.starting_index as usize } else { n };
    let count: usize = if request.requested_count == 0 { n } else { request.requested_count as usize };
    let ghost bounds = page_bounds(files@.len(), request.starting_index, request.requested_count);
    let ghost fs = files@;
    let mut items: Vec<String> = Vec::new();
    let mut i: usize = start;
    while i < n && i - start < count
        invariant
            fs == files@,
            n == fs.len(),
            start == bounds.0,
            start <= i <= n,
            i <= bounds.1,
            bounds.1 == (if start + count <= n { start + count } else { n as int }),
            items@.map_values(|s: String| s@) == items_of(fs.subrange(start as int, i as int), base_url@),
        decreases n - i,
    {
        let item = generate_item(&files[i], base_url);
        let ghost before = items@;
        items.push(item);
        proof {
            let sub = fs.subrange(start as int, i as int);
            assert(fs.subrange(start as int, i + 1) =~= sub.push(fs[i as int]));
            assert(items_of(sub.push(fs[i as int]), base_url@) =~= items_of(sub, base_url@).push(item_xml(fs[i as int], base_url@)));
            assert(items@ =~= before.push(item));
            assert(items@.map_values(|s: String| s@) =~= before.map_values(|s: String| s@).push(item@));
        }
        i = i + 1;
    }
    assert(i == bounds.1);
    let number_returned = #[verifier::truncate] (items.len() as u32);
    let result = generate_didl_lite(items.as_slice());
    BrowseResponse { result, number_returned, total_matches: total, update_id }
}

/// Handle a Browse request
///
/// `client_ip` is used to filter content based on folder visibility settings.
pub fn handle_browse(
    state: &ServerState,
    request: &BrowseRequest,
    base_url: &str,
    client_ip: Option<&str>,
) -> (r: Result<BrowseResponse, Error>)
    requires
        state.wf(),
    ensures
        r matches Ok(resp) && response_view(resp) == browse_result(*state, request.object_id@,
            request.browse_flag, request.starting_index, request.requested_count, base_url@, opt_view(client_ip)),
{
    let update_id = state.content_update_id();
    let oid = request.object_id.as_str();
    if str_eq(oid, "0") {
        if request.browse_flag == BrowseFlag::BrowseMetadata {
            let items = vec![generate_container("0", "-1", "Root", 3)];
            let result = generate_didl_lite(items.as_slice());
            assert(items@.map_values(|s: String| s@) =~= seq![items@[0]@]);
            Ok(BrowseResponse { result, number_returned: 1, total_matches: 1, update_id })
        } else {
            let video_count = state.files_by_type_for_client(MediaType::Video, client_ip).len();
            let audio_count = state.files_by_type_for_client(MediaType::Audio, client_ip).len();
            let image_count = state.files_by_type_for_client(MediaType::Image, client_ip).len();
            let items = generate_root_containers(video_count, audio_count, image_count);
            let result = generate_didl_lite(items.as_slice());
            Ok(BrowseResponse { result, number_returned: 3, total_matches: 3, update_id })
        }
    } else if str_eq(oid, "video") {
        Ok(browse_media_type(state, MediaType::Video, request, base_url, update_id, client_ip))
    } else if str_eq(oid, "audio") {
        Ok(browse_media_type(state, MediaType::Audio, request, base_url, update_id, client_ip))
    } else if str_eq(oid, "image") {
        Ok(browse_media_type(state, MediaType::Image, request, base_url, update_id, client_ip))
    } else {
        match state.get_file_for_client(oid, client_ip) {
            Some(file) => {
                let items = vec![generate_item(&file, base_url)];
                let result = generate_didl_lite(items.as_slice());
                assert(items@.map_values(|s: String| s@) =~= seq![items@[0]@]);
                Ok(BrowseResponse { result, number_returned: 1, total_matches: 1, update_id })
            },
            None => {
                let items: Vec<String> = Vec::new();
                let result = generate_didl_lite(items.as_slice());
                assert(items@.map_values(|s: String| s@) =~= Seq::<Seq<char>>::empty());
                Ok(BrowseResponse { result, number_returned: 0, total_matches: 0, update_id })
            },
        }
    }
}

/// The GetSystemUpdateID answer.
pub open spec fn system_update_id_soap(update_id: u32) -> Seq<char> {
    "<?xml version=\"1.0\" encoding=\"utf-8\"?>\n<s:Envelope xmlns:s=\"http://schemas.xmlsoap.org/soap/envelope/\" s:encodingStyle=\"http://schemas.xmlsoap.org/soap/encoding/\">\n  <s:Body>\n    <u:GetSystemUpdateIDResponse xmlns:u=\"urn:schemas-upnp-org:service:ContentDirectory:1\">\n      <Id>"@
        + decimal(update_id as nat)
        + "</Id>\n    </u:GetSystemUpdateIDResponse>\n  </s:Body>\n</s:Envelope>"@
}

/// Generate GetSystemUpdateID response
pub fn get_system_update_id_response(update_id: u32) -> (r: String)
    ensures
        r@ == system_update_id_soap(update_id),
{
    let mut r = String::new();
    push_str(&mut r, "<?xml version=\"1.0\" encoding=\"utf-8\"?>\n<s:Envelope xmlns:s=\"http://schemas.xmlsoap.org/soap/envelope/\" s:encodingStyle=\"http://schemas.xmlsoap.org/soap/encoding/\">\n  <s:Body>\n    <u:GetSystemUpdateIDResponse xmlns:u=\"urn:schemas-upnp-org:service:ContentDirectory:1\">\n      <Id>");
    push_decimal(&mut r, update_id as u64);
    push_str(&mut r, "</Id>\n    </u:GetSystemUpdateIDResponse>\n  </s:Body>\n</s:Envelope>");
    r
}

pub open spec fn search_capabilities_xml() -> Seq<char> {
    "<?xml version=\"1.0\" encoding=\"utf-8\"?>\n<s:Envelope xmlns:s=\"http://schemas.xmlsoap.org/soap/envelope/\" s:encodingStyle=\"http://schemas.xmlsoap.org/soap/encoding/\">\n  <s:Body>\n    <u:GetSearchCapabilitiesResponse xmlns:u=\"urn:schemas-upnp-org:service:ContentDirectory:1\">\n      <SearchCaps></SearchCaps>\n    </u:GetSearchCapabilitiesResponse>\n  </s:Body>\n</s:Envelope>"@
}

/// Generate GetSearchCapabilities response
pub fn get_search_capabilities_response() -> (r: &'static str)
    ensures
        r@ == search_capabilities_xml(),
{
    "<?xml version=\"1.0\" encoding=\"utf-8\"?>\n<s:Envelope xmlns:s=\"http://schemas.xmlsoap.org/soap/envelope/\" s:encodingStyle=\"http://schemas.xmlsoap.org/soap/encoding/\">\n  <s:Body>\n    <u:GetSearchCapabilitiesResponse xmlns:u=\"urn:schemas-upnp-org:service:ContentDirectory:1\">\n      <SearchCaps></SearchCaps>\n    </u:GetSearchCapabilitiesResponse>\n  </s:Body>\n</s:Envelope>"
}

pub open spec fn sort_capabilities_xml() -> Seq<char> {
    "<?xml version=\"1.0\" encoding=\"utf-8\"?>\n<s:Envelope xmlns:s=\"http://schemas.xmlsoap.org/soap/envelope/\" s:encodingStyle=\"http://schemas.xmlsoap.org/soap/encoding/\">\n  <s:Body>\n    <u:GetSortCapabilitiesResponse xmlns:u=\"urn:schemas-upnp-org:service:ContentDirectory:1\">\n      <SortCaps></SortCaps>\n    </u:GetSortCapabilitiesResponse>\n  </s:Body>\n</s:Envelope>"@
}

/// Generate GetSortCapabilities response
pub fn get_sort_capabilities_response() -> (r: &'static str)
    ensures
        r@ == sort_capabilities_xml(),
{
    "<?xml version=\"1.0\" encoding=\"utf-8\"?>\n<s:Envelope xmlns:s=\"http://schemas.xmlsoap.org/soap/envelope/\" s:encodingStyle=\"http://schemas.xmlsoap.org/soap/encoding/\">\n  <s:Body>\n    <u:GetSortCapabilitiesResponse xmlns:u=\"urn:schemas-upnp-org:service:ContentDirectory:1\">\n      <SortCaps></SortCaps>\n    </u:GetSortCapabilitiesResponse>\n  </s:Body>\n</s:Envelope>"
}

pub open spec fn protocol_info_xml() -> Seq<char> {
    "<?xml version=\"1.0\" encoding=\"utf-8\"?>\n<s:Envelope xmlns:s=\"http://schemas.xmlsoap.org/soap/envelope/\" s:encodingStyle=\"http://schemas.xmlsoap.org/soap/encoding/\">\n  <s:Body>\n    <u:GetProtocolInfoResponse xmlns:u=\"urn:schemas-upnp-org:service:ConnectionManager:1\">\n      <Source>http-get:*:video/mp4:*,http-get:*:video/x-matroska:*,http-get:*:video/avi:*,http-get:*:audio/mpeg:*,http-get:*:audio/flac:*,http-get:*:image/jpeg:*,http-get:*:image/png:*</Source>\n      <Sink></Sink>\n    </u:GetProtocolInfoResponse>\n  </s:Body>\n</s:Envelope>"@
}

/// Generate ConnectionManager GetProtocolInfo response
pub fn get_protocol_info_response() -> (r: &'static str)
    ensures
        r@ == protocol_info_xml(),
{
    "<?xml version=\"1.0\" encoding=\"utf-8\"?>\n<s:Envelope xmlns:s=\"http://schemas.xmlsoap.org/soap/envelope/\" s:encodingStyle=\"http://schemas.xmlsoap.org/soap/encoding/\">\n  <s:Body>\n    <u:GetProtocolInfoResponse xmlns:u=\"urn:schemas-upnp-org:service:ConnectionManager:1\">\n      <Source>http-get:*:video/mp4:*,http-get:*:video/x-matroska:*,http-get:*:video/avi:*,http-get:*:audio/mpeg:*,http-get:*:audio/flac:*,http-get:*:image/jpeg:*,http-get:*:image/png:*</Source>\n      <Sink></Sink>\n    </u:GetProtocolInfoResponse>\n  </s:Body>\n</s:Envelope>"
}

pub open spec fn connection_ids_xml() -> Seq<char> {
    "<?xml version=\"1.0\" encoding=\"utf-8\"?>\n<s:Envelope xmlns:s=\"http://schemas.xmlsoap.org/soap/envelope/\" s:encodingStyle=\"http://schemas.xmlsoap.org/soap/encoding/\">\n  <s:Body>\n    <u:GetCurrentConnectionIDsResponse xmlns:u=\"urn:schemas-upnp-org:service:ConnectionManager:1\">\n      <ConnectionIDs>0</ConnectionIDs>\n    </u:GetCurrentConnectionIDsResponse>\n  </s:Body>\n</s:Envelope>"@
}

/// Generate ConnectionManager GetCurrentConnectionIDs response
pub fn get_current_connection_ids_response() -> (r: &'static str)
    ensures
        r@ == connection_ids_xml(),
{
    "<?xml version=\"1.0\" encoding=\"utf-8\"?>\n<s:Envelope xmlns:s=\"http://schemas.xmlsoap.org/soap/envelope/\" s:encodingStyle=\"http://schemas.xmlsoap.org/soap/encoding/\">\n  <s:Body>\n    <u:GetCurrentConnectionIDsResponse xmlns:u=\"urn:schemas-upnp-org:service:ConnectionManager:1\">\n      <ConnectionIDs>0</ConnectionIDs>\n    </u:GetCurrentConnectionIDsResponse>\n  </s:Body>\n</s:Envelope>"
}


/// A page of a container never holds more than was asked for (where a count
/// was asked for) nor reaches past the container's end.
pub proof fn page_within_request(len: nat, starting_index: u32, requested_count: u32)
    ensures
        0 <= page_bounds(len, starting_index, requested_count).0 <= page_bounds(len, starting_index, requested_count).1 <= len,
        requested_count > 0 ==> page_bounds(len, starting_index, requested_count).1
            - page_bounds(len, starting_index, requested_count).0 <= requested_count,
        starting_index as int >= len ==> page_bounds(len, starting_index, requested_count).0
            == page_bounds(len, starting_index, requested_count).1,
{
}

/// A page of a container starts at the starting index (or at the end, past
/// it) and holds the requested number of items, or what is left when fewer
/// remain; a requested count of 0 asks for everything from the start on.
pub proof fn page_holds_what_was_asked(len: nat, starting_index: u32, requested_count: u32)
    ensures
        page_bounds(len, starting_index, requested_count).0 == if starting_index as int <= len { starting_index as int } else { len as int },
        requested_count == 0 ==> page_bounds(len, starting_index, requested_count).1 == len,
        requested_count > 0 ==> page_bounds(len, starting_index, requested_count).1 - page_bounds(len, starting_index, requested_count).0
            == if page_bounds(len, starting_index, requested_count).0 + requested_count <= len {
                requested_count as int
            } else {
                len - page_bounds(len, starting_index, requested_count).0
            },
{
}
} // verus!
