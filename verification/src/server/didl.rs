//! DIDL-Lite XML generation for ContentDirectory responses

use vstd::prelude::*;
use crate::server::description::{xml_escape, xml_escape_seq};
use crate::text::{push_str, push_decimal, push_pad2, decimal, pad2};
use crate::types::{MediaFile, display_title_of, upnp_class_of};

verus! {

/// A DIDL-Lite container element.
pub open spec fn container_xml(id: Seq<char>, parent_id: Seq<char>, title: Seq<char>, child_count: nat) -> Seq<char> {
    "<container id=\""@ + xml_escape_seq(id) + "\" parentID=\""@ + xml_escape_seq(parent_id)
        + "\" restricted=\"1\" childCount=\""@ + decimal(child_count) + "\">\n  <dc:title>"@
        + xml_escape_seq(title) + "</dc:title>\n  <upnp:class>object.container</upnp:class>\n</container>"@
}

/// `HH:MM:SS` of a number of whole seconds; the hours take more digits where needed.
pub open spec fn hms(secs: nat) -> Seq<char> {
    pad2(secs / 3600) + ":"@ + pad2((secs % 3600) / 60) + ":"@ + pad2(secs % 60)
}

/// The URL under which the server streams a file.
pub open spec fn resource_url(f: MediaFile, base_url: Seq<char>) -> Seq<char> {
    base_url + "/media/"@ + f.id@
}

/// The protocol info of a file's resource.
pub open spec fn protocol_info_of(f: MediaFile) -> Seq<char> {
    "http-get:*:"@ + f.mime_type@ + ":DLNA.ORG_OP=01;DLNA.ORG_CI=0;DLNA.ORG_FLAGS=01700000000000000000000000000000"@
}

/// The duration attribute of a file's resource: absent without a duration.
pub open spec fn duration_attr(f: MediaFile) -> Seq<char> {
    match f.duration {
        Some(ms) => " duration=\""@ + hms(ms as nat / 1000) + "\""@,
        None => Seq::empty(),
    }
}

pub open spec fn artist_line(f: MediaFile) -> Seq<char> {
    match f.artist {
        Some(a) => "\n  <upnp:artist>"@ + xml_escape_seq(a@) + "</upnp:artist>"@,
        None => Seq::empty(),
    }
}

pub open spec fn album_line(f: MediaFile) -> Seq<char> {
    match f.album {
        Some(a) => "\n  <upnp:album>"@ + xml_escape_seq(a@) + "</upnp:album>"@,
        None => Seq::empty(),
    }
}

/// A DIDL-Lite item element for a media file.
pub open spec fn item_xml(f: MediaFile, base_url: Seq<char>) -> Seq<char> {
    "<item id=\""@ + xml_escape_seq(f.id@) + "\" parentID=\""@ + xml_escape_seq(f.parent_id@)
        + "\" restricted=\"1\">\n  <dc:title>"@ + xml_escape_seq(display_title_of(f))
        + "</dc:title>\n  <upnp:class>"@ + upnp_class_of(f.media_type) + "</upnp:class>"@
        + artist_line(f) + album_line(f)
        + "\n  <res protocolInfo=\""@ + xml_escape_seq(protocol_info_of(f)) + "\" size=\""@
        + decimal(f.size as nat) + "\""@ + duration_attr(f) + ">"@
        + xml_escape_seq(resource_url(f, base_url)) + "</res>\n</item>"@
}

/// The items joined by newlines.
pub open spec fn join_lines(items: Seq<Seq<char>>) -> Seq<char>
    decreases items.len(),
{
    if items.len() == 0 {
        Seq::empty()
    } else if items.len() == 1 {
        items[0]
    } else {
        join_lines(items.drop_last()) + "\n"@ + items.last()
    }
}

/// A complete DIDL-Lite document around the given elements.
pub open spec fn didl_xml(items: Seq<Seq<char>>) -> Seq<char> {
    "<DIDL-Lite xmlns=\"urn:schemas-upnp-org:metadata-1-0/DIDL-Lite/\" xmlns:dc=\"http://purl.org/dc/elements/1.1/\" xmlns:upnp=\"urn:schemas-upnp-org:metadata-1-0/upnp/\">\n"@
        + join_lines(items) + "\n</DIDL-Lite>"@
}

/// The three top-level containers, with their child counts.
pub open spec fn root_containers(video: nat, audio: nat, image: nat) -> Seq<Seq<char>> {
    seq![
        container_xml("video"@, "0"@, "Video"@, video),
        container_xml("audio"@, "0"@, "Music"@, audio),
        container_xml("image"@, "0"@, "Photos"@, image),
    ]
}

/// Generate a DIDL-Lite container element
pub fn generate_container(id: &str, parent_id: &str, title: &str, child_count: usize) -> (r: String)
    ensures
        r@ == container_xml(id@, parent_id@, title@, child_count as nat),
{
    let mut r = String::new();
    push_str(&mut r, "<container id=\"");
    push_str(&mut r, xml_escape(id).as_str());
    push_str(&mut r, "\" parentID=\"");
    push_str(&mut r, xml_escape(parent_id).as_str());
    push_str(&mut r, "\" restricted=\"1\" childCount=\"");
    push_decimal(&mut r, child_count as u64);
    push_str(&mut r, "\">\n  <dc:title>");
    push_str(&mut r, xml_escape(title).as_str());
    push_str(&mut r, "</dc:title>\n  <upnp:class>object.container</upnp:class>\n</container>");
    r
}

/// Format duration as HH:MM:SS (the duration is given in milliseconds; the
/// fraction of a second is dropped)
pub fn format_duration(d: u64) -> (r: String)
    ensures
        r@ == hms(d as nat / 1000),
{
    let secs = d / 1000;
    let hours = secs / 3600;
    let mins = (secs % 3600) / 60;
    let s = secs % 60;
    let mut r = String::new();
    push_pad2(&mut r, hours);
    push_str(&mut r, ":");
    push_pad2(&mut r, mins);
    push_str(&mut r, ":");
    push_pad2(&mut r, s);
    r
}

/// Generate a DIDL-Lite item element for a media file
pub fn generate_item(file: &MediaFile, base_url: &str) -> (r: String)
    ensures
        r@ == item_xml(*file, base_url@),
{
    let upnp_class = file.media_type.upnp_class();
    let mut res_url = String::new();
    push_str(&mut res_url, base_url);
    push_str(&mut res_url, "/media/");
    push_str(&mut res_url, file.id.as_str());
    let mut protocol_info = String::new();
    push_str(&mut protocol_info, "http-get:*:");
    push_str(&mut protocol_info, file.mime_type.as_str());
    push_str(&mut protocol_info, ":DLNA.ORG_OP=01;DLNA.ORG_CI=0;DLNA.ORG_FLAGS=01700000000000000000000000000000");
    let mut duration = String::new();
    if let Some(d) = file.duration {
        push_str(&mut duration, " duration=\"");
        push_str(&mut duration, format_duration(d).as_str());
        push_str(&mut duration, "\"");
    }
    let mut item = String::new();
    push_str(&mut item, "<item id=\"");
    push_str(&mut item, xml_escape(file.id.as_str()).as_str());
    push_str(&mut item, "\" parentID=\"");
    push_str(&mut item, xml_escape(file.parent_id.as_str()).as_str());
    push_str(&mut item, "\" restricted=\"1\">\n  <dc:title>");
    push_str(&mut item, xml_escape(file.display_title()).as_str());
    push_str(&mut item, "</dc:title>\n  <upnp:class>");
    push_str(&mut item, upnp_class);
    push_str(&mut item, "</upnp:class>");
    let ghost head = item@;
    if let Some(artist) = &file.artist {
        push_str(&mut item, "\n  <upnp:artist>");
        push_str(&mut item, xml_escape(artist.as_str()).as_str());
        push_str(&mut item, "</upnp:artist>");
    }
    assert(item@ == head + artist_line(*file));
    let ghost head2 = item@;
    if let Some(album) = &file.album {
        push_str(&mut item, "\n  <upnp:album>");
        push_str(&mut item, xml_escape(album.as_str()).as_str());
        push_str(&mut item, "</upnp:album>");
    }
    assert(item@ == head2 + album_line(*file));
    push_str(&mut item, "\n  <res protocolInfo=\"");
    push_str(&mut item, xml_escape(protocol_info.as_str()).as_str());
    push_str(&mut item, "\" size=\"");
    push_decimal(&mut item, file.size);
    push_str(&mut item, "\"");
    push_str(&mut item, duration.as_str());
    push_str(&mut item, ">");
    push_str(&mut item, xml_escape(res_url.as_str()).as_str());
    push_str(&mut item, "</res>\n</item>");
    assert(item@ =~= item_xml(*file, base_url@));
    item
}

/// Generate a complete DIDL-Lite document
pub fn generate_didl_lite(items: &[String]) -> (r: String)
    ensures
        r@ == didl_xml(items@.map_values(|s: String| s@)),
{
    let ghost views = items@.map_values(|s: String| s@);
    let mut r = String::new();
    push_str(&mut r, "<DIDL-Lite xmlns=\"urn:schemas-upnp-org:metadata-1-0/DIDL-Lite/\" xmlns:dc=\"http://purl.org/dc/elements/1.1/\" xmlns:upnp=\"urn:schemas-upnp-org:metadata-1-0/upnp/\">\n");
    let ghost head = r@;
    let mut i: usize = 0;
    while i < items.len()
        invariant
            i <= items@.len(),
            views == items@.map_values(|s: String| s@),
            r@ == head + join_lines(views.take(i as int)),
        decreases items@.len() - i,
    {
        let ghost t = views.take(i as int + 1);
        assert(t.drop_last() =~= views.take(i as int));
        assert(t.last() == items@[i as int]@);
        if i > 0 {
            push_str(&mut r, "\n");
        } else {
            assert(views.take(0) =~= Seq::<Seq<char>>::empty());
            assert(t =~= seq![items@[0]@]);
        }
        push_str(&mut r, items[i].as_str());
        assert(r@ =~= head + join_lines(t));
        i = i + 1;
    }
    assert(views.take(items@.len() as int) =~= views);
    push_str(&mut r, "\n</DIDL-Lite>");
    r
}

/// Generate root container items
pub fn generate_root_containers(video_count: usize, audio_count: usize, image_count: usize) -> (r: Vec<String>)
    ensures
        r@.map_values(|s: String| s@) == root_containers(video_count as nat, audio_count as nat, image_count as nat),
{
    let r = vec![
        generate_container("video", "0", "Video", video_count),
        generate_container("audio", "0", "Music", audio_count),
        generate_container("image", "0", "Photos", image_count),
    ];
    assert(r@.map_values(|s: String| s@) =~= root_containers(video_count as nat, audio_count as nat, image_count as nat));
    r
}

} // verus!
