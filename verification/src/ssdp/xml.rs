//! Reading a UPnP device description: the document is read event by event
//! with quick-xml, and the events are folded into a renderer.

use vstd::prelude::*;
use quick_xml::events::Event::{CData as QCData, End as QEnd, Eof as QEof, Start as QStart, Text as QText};
use crate::ssdp::xml::XmlEvent::{CData, End, Failure, Other, Start, Text};
use crate::error::Error;
use crate::text::{
    chars_of, contains_chars, contains_seq, parse_u32, parse_unsigned, replace_all, replace_str,
    string_from_chars, trim, trim_chars,
};
use crate::types::{DeviceIcon, IconView, Renderer, RendererView, new_uuid_string, str_eq, uuid_v4_text};
use crate::urls::{joined_url, url_join};

verus! {

/// One event of an XML document, as the description reader uses it.
#[derive(Debug)]
pub enum XmlEvent {
    /// A start tag, by its local name.
    Start(String),
    /// An end tag, by its local name.
    End(String),
    /// Text between tags, still escaped.
    Text(String),
    /// The content of a CDATA section.
    CData(String),
    /// The end of the document.
    Eof,
    /// The reader's error, by its message.
    Failure(String),
    /// Any other event (empty elements, comments, declarations, ...).
    Other,
}

/// The events quick-xml reads from a document: `Reader::from_str` with
/// `trim_text(true)`, then `read_event` up to the end of the document (not
/// included) or up to and including the first error, each event converted
/// to an `XmlEvent`.
pub uninterp spec fn description_events(xml: Seq<char>) -> Seq<XmlEvent>;

/// Reads the events of a document with quick-xml (see `description_events`):
/// names and text are taken as text (invalid UTF-8 replaced), and reading
/// stops at the end of the document or after the reader's first error.
#[verifier::external_body]
fn read_description_events(xml: &str) -> (r: Vec<XmlEvent>)
    ensures
        r@ == description_events(xml@),
{
    let (mut reader, mut events) = (quick_xml::Reader::from_str(xml), Vec::new());
    reader.config_mut().trim_text(true);
    let t = |b: &[u8]| String::from_utf8_lossy(b).into_owned();
    loop {
        let ev = match reader.read_event() {
            Ok(QStart(e)) => Start(t(e.local_name().into_inner())),
            Ok(QEnd(e)) => End(t(e.local_name().into_inner())),
            Ok(QText(e)) => Text(t(&e)),
            Ok(QCData(e)) => CData(t(&e)),
            Ok(QEof) => return events,
            Err(e) => return { events.push(Failure(e.to_string())); events },
            _ => Other,
        };
        events.push(ev);
    }
}

/// What `quick_xml::escape::unescape` makes of escaped text: the text with its
/// entity and character references resolved, or the error's message.
pub uninterp spec fn xml_unescaped(raw: Seq<char>) -> Result<Seq<char>, Seq<char>>;

/// Resolves the predefined entities and character references of escaped XML
/// text (`quick_xml::escape::unescape`); text without `&` comes back as it is.
#[verifier::external_body]
fn unescape_text(raw: &str) -> (r: Result<String, String>)
    ensures
        match r {
            Ok(t) => xml_unescaped(raw@) == Ok::<Seq<char>, Seq<char>>(t@),
            Err(m) => xml_unescaped(raw@) == Err::<Seq<char>, Seq<char>>(m@),
        },
        r is Ok || exists|i: int| 0 <= i < raw@.len() && raw@[i] == '&',
        r matches Ok(t) ==> t@ == raw@ || exists|i: int| 0 <= i < raw@.len() && raw@[i] == '&',
{
    match quick_xml::escape::unescape(raw) {
        Ok(t) => Ok(t.into_owned()),
        Err(e) => Err(e.to_string()),
    }
}

/// The element whose text is being read.
#[derive(Debug, Clone, Copy, PartialEq, Eq, Structural)]
pub enum TextTarget {
    FriendlyName,
    Udn,
    Manufacturer,
    ModelName,
    ModelNumber,
    ModelDescription,
    SerialNumber,
    PresentationUrl,
    DeviceType,
    ServiceType,
    ControlUrl,
    EventSubUrl,
    IconMimeType,
    IconWidth,
    IconHeight,
    IconDepth,
    IconUrl,
}

/// The local name of the element each target reads.
pub open spec fn tag_of(t: TextTarget) -> Seq<char> {
    match t {
        TextTarget::FriendlyName => "friendlyName"@,
        TextTarget::Udn => "UDN"@,
        TextTarget::Manufacturer => "manufacturer"@,
        TextTarget::ModelName => "modelName"@,
        TextTarget::ModelNumber => "modelNumber"@,
        TextTarget::ModelDescription => "modelDescription"@,
        TextTarget::SerialNumber => "serialNumber"@,
        TextTarget::PresentationUrl => "presentationURL"@,
        TextTarget::DeviceType => "deviceType"@,
        TextTarget::ServiceType => "serviceType"@,
        TextTarget::ControlUrl => "controlURL"@,
        TextTarget::EventSubUrl => "eventSubURL"@,
        TextTarget::IconMimeType => "mimetype"@,
        TextTarget::IconWidth => "width"@,
        TextTarget::IconHeight => "height"@,
        TextTarget::IconDepth => "depth"@,
        TextTarget::IconUrl => "url"@,
    }
}

/// The target a start tag opens: the service fields only inside a service,
/// the icon fields only inside an icon.
pub open spec fn start_target(name: Seq<char>, in_service: bool, in_icon: bool) -> Option<TextTarget> {
    if name == "friendlyName"@ {
        Some(TextTarget::FriendlyName)
    } else if name == "UDN"@ {
        Some(TextTarget::Udn)
    } else if name == "manufacturer"@ {
        Some(TextTarget::Manufacturer)
    } else if name == "modelName"@ {
        Some(TextTarget::ModelName)
    } else if name == "modelNumber"@ {
        Some(TextTarget::ModelNumber)
    } else if name == "modelDescription"@ {
        Some(TextTarget::ModelDescription)
    } else if name == "serialNumber"@ {
        Some(TextTarget::SerialNumber)
    } else if name == "presentationURL"@ {
        Some(TextTarget::PresentationUrl)
    } else if name == "deviceType"@ {
        Some(TextTarget::DeviceType)
    } else if name == "serviceType"@ && in_service {
        Some(TextTarget::ServiceType)
    } else if name == "controlURL"@ && in_service {
        Some(TextTarget::ControlUrl)
    } else if name == "eventSubURL"@ && in_service {
        Some(TextTarget::EventSubUrl)
    } else if name == "mimetype"@ && in_icon {
        Some(TextTarget::IconMimeType)
    } else if name == "width"@ && in_icon {
        Some(TextTarget::IconWidth)
    } else if name == "height"@ && in_icon {
        Some(TextTarget::IconHeight)
    } else if name == "depth"@ && in_icon {
        Some(TextTarget::IconDepth)
    } else if name == "url"@ && in_icon {
        Some(TextTarget::IconUrl)
    } else {
        None
    }
}

fn start_target_of(name: &str, in_service: bool, in_icon: bool) -> (r: Option<TextTarget>)
    ensures
        r == start_target(name@, in_service, in_icon),
{
    if str_eq(name, "friendlyName") {
        Some(TextTarget::FriendlyName)
    } else if str_eq(name, "UDN") {
        Some(TextTarget::Udn)
    } else if str_eq(name, "manufacturer") {
        Some(TextTarget::Manufacturer)
    } else if str_eq(name, "modelName") {
        Some(TextTarget::ModelName)
    } else if str_eq(name, "modelNumber") {
        Some(TextTarget::ModelNumber)
    } else if str_eq(name, "modelDescription") {
        Some(TextTarget::ModelDescription)
    } else if str_eq(name, "serialNumber") {
        Some(TextTarget::SerialNumber)
    } else if str_eq(name, "presentationURL") {
        Some(TextTarget::PresentationUrl)
    } else if str_eq(name, "deviceType") {
        Some(TextTarget::DeviceType)
    } else if str_eq(name, "serviceType") && in_service {
        Some(TextTarget::ServiceType)
    } else if str_eq(name, "controlURL") && in_service {
        Some(TextTarget::ControlUrl)
    } else if str_eq(name, "eventSubURL") && in_service {
        Some(TextTarget::EventSubUrl)
    } else if str_eq(name, "mimetype") && in_icon {
        Some(TextTarget::IconMimeType)
    } else if str_eq(name, "width") && in_icon {
        Some(TextTarget::IconWidth)
    } else if str_eq(name, "height") && in_icon {
        Some(TextTarget::IconHeight)
    } else if str_eq(name, "depth") && in_icon {
        Some(TextTarget::IconDepth)
    } else if str_eq(name, "url") && in_icon {
        Some(TextTarget::IconUrl)
    } else {
        None
    }
}

fn tag_name(t: TextTarget) -> (r: &'static str)
    ensures
        r@ == tag_of(t),
{
    match t {
        TextTarget::FriendlyName => "friendlyName",
        TextTarget::Udn => "UDN",
        TextTarget::Manufacturer => "manufacturer",
        TextTarget::ModelName => "modelName",
        TextTarget::ModelNumber => "modelNumber",
        TextTarget::ModelDescription => "modelDescription",
        TextTarget::SerialNumber => "serialNumber",
        TextTarget::PresentationUrl => "presentationURL",
        TextTarget::DeviceType => "deviceType",
        TextTarget::ServiceType => "serviceType",
        TextTarget::ControlUrl => "controlURL",
        TextTarget::EventSubUrl => "eventSubURL",
        TextTarget::IconMimeType => "mimetype",
        TextTarget::IconWidth => "width",
        TextTarget::IconHeight => "height",
        TextTarget::IconDepth => "depth",
        TextTarget::IconUrl => "url",
    }
}

/// HTML entities that some devices leave in their friendly names, decoded in
/// this order.
pub open spec fn decode_entities(s: Seq<char>) -> Seq<char> {
    let a = replace_all(s, "&quot;"@, "\""@);
    let b = replace_all(a, "&amp;"@, "&"@);
    let c = replace_all(b, "&lt;"@, "<"@);
    let d = replace_all(c, "&gt;"@, ">"@);
    let e = replace_all(d, "&apos;"@, "'"@);
    let f = replace_all(e, "&#39;"@, "'"@);
    replace_all(f, "&#34;"@, "\""@)
}

/// Decode HTML entities in a string
pub fn decode_html_entities(s: &str) -> (r: String)
    ensures
        r@ == decode_entities(s@),
{
    proof {
        reveal_strlit("&quot;");
        reveal_strlit("&amp;");
        reveal_strlit("&lt;");
        reveal_strlit("&gt;");
        reveal_strlit("&apos;");
        reveal_strlit("&#39;");
        reveal_strlit("&#34;");
    }
    let a = replace_str(s, "&quot;", "\"");
    let b = replace_str(a.as_str(), "&amp;", "&");
    let c = replace_str(b.as_str(), "&lt;", "<");
    let d = replace_str(c.as_str(), "&gt;", ">");
    let e = replace_str(d.as_str(), "&apos;", "'");
    let f = replace_str(e.as_str(), "&#39;", "'");
    replace_str(f.as_str(), "&#34;", "\"")
}

/// What has been read of a description so far.
pub struct Desc {
    pub friendly_name: Option<Seq<char>>,
    pub udn: Option<Seq<char>>,
    pub manufacturer: Option<Seq<char>>,
    pub model_name: Option<Seq<char>>,
    pub model_number: Option<Seq<char>>,
    pub model_description: Option<Seq<char>>,
    pub serial_number: Option<Seq<char>>,
    pub presentation_url: Option<Seq<char>>,
    pub is_media_renderer: bool,
    pub av_transport_url: Option<Seq<char>>,
    pub rendering_control_url: Option<Seq<char>>,
    pub av_transport_service_type: Option<Seq<char>>,
    pub rendering_control_service_type: Option<Seq<char>>,
    pub av_transport_event_url: Option<Seq<char>>,
    pub rendering_control_event_url: Option<Seq<char>>,
    pub in_service: bool,
    pub service_type: Option<Seq<char>>,
    pub control_url: Option<Seq<char>>,
    pub event_sub_url: Option<Seq<char>>,
    pub in_icon: bool,
    pub icon_mime_type: Option<Seq<char>>,
    pub icon_width: Option<u32>,
    pub icon_height: Option<u32>,
    pub icon_depth: Option<u32>,
    pub icon_url: Option<Seq<char>>,
    pub icons: Seq<IconView>,
    pub target: Option<TextTarget>,
    /// The end of the document has been read.
    pub done: bool,
}

/// Nothing read yet.
pub open spec fn desc_start() -> Desc {
    Desc {
        friendly_name: None,
        udn: None,
        manufacturer: None,
        model_name: None,
        model_number: None,
        model_description: None,
        serial_number: None,
        presentation_url: None,
        is_media_renderer: false,
        av_transport_url: None,
        rendering_control_url: None,
        av_transport_service_type: None,
        rendering_control_service_type: None,
        av_transport_event_url: None,
        rendering_control_event_url: None,
        in_service: false,
        service_type: None,
        control_url: None,
        event_sub_url: None,
        in_icon: false,
        icon_mime_type: None,
        icon_width: None,
        icon_height: None,
        icon_depth: None,
        icon_url: None,
        icons: Seq::empty(),
        target: None,
        done: false,
    }
}

/// A start tag: a service or an icon begins afresh; a field element becomes
/// the target of the text that follows.
pub open spec fn on_start(d: Desc, name: Seq<char>) -> Desc {
    if name == "service"@ {
        Desc { in_service: true, service_type: None, control_url: None, event_sub_url: None, ..d }
    } else if name == "icon"@ {
        Desc {
            in_icon: true,
            icon_mime_type: None,
            icon_width: None,
            icon_height: None,
            icon_depth: None,
            icon_url: None,
            ..d
        }
    } else {
        match start_target(name, d.in_service, d.in_icon) {
            Some(t) => Desc { target: Some(t), ..d },
            None => d,
        }
    }
}

/// The end of an icon: it is kept where all five of its fields were read and
/// its URL joins the location.
pub open spec fn close_icon(d: Desc, location: Seq<char>) -> Desc {
    let d2 = Desc { in_icon: false, ..d };
    match (d.icon_mime_type, d.icon_width, d.icon_height, d.icon_depth, d.icon_url) {
        (Some(m), Some(w), Some(h), Some(dp), Some(u)) => match joined_url(location, u) {
            Some(url) => Desc { icons: d.icons.push((m, w, h, dp, url)), ..d2 },
            None => d2,
        },
        _ => d2,
    }
}

/// The end of a service: an AVTransport or RenderingControl service gives its
/// type (the first of each kind), its control URL and its event URL (the last
/// of each kind that joins the location).
pub open spec fn close_service(d: Desc, location: Seq<char>) -> Desc {
    let d2 = Desc { in_service: false, ..d };
    match d.service_type {
        None => d2,
        Some(st) => {
            let avt = contains_seq(st, "AVTransport"@);
            let rc = contains_seq(st, "RenderingControl"@);
            if !(avt || rc) {
                d2
            } else {
                let d3 = if avt {
                    if d2.av_transport_service_type is None {
                        Desc { av_transport_service_type: Some(st), ..d2 }
                    } else {
                        d2
                    }
                } else if d2.rendering_control_service_type is None {
                    Desc { rendering_control_service_type: Some(st), ..d2 }
                } else {
                    d2
                };
                let d4 = match d.control_url {
                    Some(p) => match joined_url(location, p) {
                        Some(u) => if avt {
                            Desc { av_transport_url: Some(u), ..d3 }
                        } else {
                            Desc { rendering_control_url: Some(u), ..d3 }
                        },
                        None => d3,
                    },
                    None => d3,
                };
                match d.event_sub_url {
                    Some(p) => match joined_url(location, p) {
                        Some(u) => if avt {
                            Desc { av_transport_event_url: Some(u), ..d4 }
                        } else {
                            Desc { rendering_control_event_url: Some(u), ..d4 }
                        },
                        None => d4,
                    },
                    None => d4,
                }
            }
        },
    }
}

/// An end tag: closes an icon, a service, or the current target.
pub open spec fn on_end(d: Desc, name: Seq<char>, location: Seq<char>) -> Desc {
    if name == "icon"@ {
        close_icon(d, location)
    } else if name == "service"@ {
        close_service(d, location)
    } else {
        match d.target {
            Some(t) => if name == tag_of(t) {
                Desc { target: None, ..d }
            } else {
                d
            },
            None => d,
        }
    }
}

/// A number read from a field: none where the text is no `u32`.
pub open spec fn u32_of(text: Seq<char>) -> Option<u32> {
    match parse_unsigned(text, u32::MAX as nat) {
        Some(n) => Some(n as u32),
        None => None,
    }
}

/// Trimmed, non-empty text of the current target: each field keeps the first
/// text it gets; the device type only marks a media renderer.
pub open spec fn on_text(d: Desc, text: Seq<char>) -> Desc {
    if text.len() == 0 {
        d
    } else {
        match d.target {
            None => d,
            Some(TextTarget::FriendlyName) => if d.friendly_name is None {
                Desc { friendly_name: Some(decode_entities(text)), ..d }
            } else {
                d
            },
            Some(TextTarget::Udn) => if d.udn is None { Desc { udn: Some(text), ..d } } else { d },
            Some(TextTarget::Manufacturer) => if d.manufacturer is None {
                Desc { manufacturer: Some(text), ..d }
            } else {
                d
            },
            Some(TextTarget::ModelName) => if d.model_name is None {
                Desc { model_name: Some(text), ..d }
            } else {
                d
            },
            Some(TextTarget::ModelNumber) => if d.model_number is None {
                Desc { model_number: Some(text), ..d }
            } else {
                d
            },
            Some(TextTarget::ModelDescription) => if d.model_description is None {
                Desc { model_description: Some(text), ..d }
            } else {
                d
            },
            Some(TextTarget::SerialNumber) => if d.serial_number is None {
                Desc { serial_number: Some(text), ..d }
            } else {
                d
            },
            Some(TextTarget::PresentationUrl) => if d.presentation_url is None {
                Desc { presentation_url: Some(text), ..d }
            } else {
                d
            },
            Some(TextTarget::DeviceType) => if contains_seq(text, "MediaRenderer"@) {
                Desc { is_media_renderer: true, ..d }
            } else {
                d
            },
            Some(TextTarget::ServiceType) => if d.service_type is None {
                Desc { service_type: Some(text), ..d }
            } else {
                d
            },
            Some(TextTarget::ControlUrl) => if d.control_url is None {
                Desc { control_url: Some(text), ..d }
            } else {
                d
            },
            Some(TextTarget::EventSubUrl) => if d.event_sub_url is None {
                Desc { event_sub_url: Some(text), ..d }
            } else {
                d
            },
            Some(TextTarget::IconMimeType) => if d.icon_mime_type is None {
                Desc { icon_mime_type: Some(text), ..d }
            } else {
                d
            },
            Some(TextTarget::IconWidth) => if d.icon_width is None {
                Desc { icon_width: u32_of(text), ..d }
            } else {
                d
            },
            Some(TextTarget::IconHeight) => if d.icon_height is None {
                Desc { icon_height: u32_of(text), ..d }
            } else {
                d
            },
            Some(TextTarget::IconDepth) => if d.icon_depth is None {
                Desc { icon_depth: u32_of(text), ..d }
            } else {
                d
            },
            Some(TextTarget::IconUrl) => if d.icon_url is None {
                Desc { icon_url: Some(text), ..d }
            } else {
                d
            },
        }
    }
}

/// One event: text is read only while some field is the target (escaped text
/// is unescaped first, which may fail); the reader's error ends the reading.
pub open spec fn on_event(d: Desc, ev: XmlEvent, location: Seq<char>) -> Result<Desc, Seq<char>> {
    match ev {
        XmlEvent::Start(n) => Ok(on_start(d, n@)),
        XmlEvent::End(n) => Ok(on_end(d, n@, location)),
        XmlEvent::Text(raw) => if d.target is None {
            Ok(d)
        } else {
            match xml_unescaped(raw@) {
                Ok(t) => Ok(on_text(d, trim(t))),
                Err(m) => Err(m),
            }
        },
        XmlEvent::CData(raw) => if d.target is None {
            Ok(d)
        } else {
            Ok(on_text(d, trim(raw@)))
        },
        XmlEvent::Eof => Ok(Desc { done: true, ..d }),
        XmlEvent::Failure(m) => Err(m@),
        XmlEvent::Other => Ok(d),
    }
}

/// The events read in order, up to the end of the document or the first error.
pub open spec fn read_events(evs: Seq<XmlEvent>, location: Seq<char>) -> Result<Desc, Seq<char>>
    decreases evs.len(),
{
    if evs.len() == 0 {
        Ok(desc_start())
    } else {
        match read_events(evs.drop_last(), location) {
            Err(m) => Err(m),
            Ok(d) => if d.done {
                Ok(d)
            } else {
                on_event(d, evs.last(), location)
            },
        }
    }
}

/// The renderer a finished description names; missing names get defaults.
pub open spec fn renderer_of(d: Desc, location: Seq<char>, fallback_udn: Seq<char>) -> RendererView {
    RendererView {
        friendly_name: match d.friendly_name {
            Some(n) => n,
            None => "Unknown Device"@,
        },
        location: location,
        udn: match d.udn {
            Some(u) => u,
            None => fallback_udn,
        },
        av_transport_url: d.av_transport_url,
        av_transport_service_type: d.av_transport_service_type,
        rendering_control_url: d.rendering_control_url,
        rendering_control_service_type: d.rendering_control_service_type,
        av_transport_event_url: d.av_transport_event_url,
        rendering_control_event_url: d.rendering_control_event_url,
        manufacturer: d.manufacturer,
        model_name: d.model_name,
        model_number: d.model_number,
        model_description: d.model_description,
        serial_number: d.serial_number,
        presentation_url: match d.presentation_url {
            Some(p) => joined_url(location, p),
            None => None,
        },
        mac_address: None,
        icons: d.icons,
        firmware_version: None,
        capabilities: None,
    }
}

/// What has been read of a description so far (see `Desc`).
pub struct DescState {
    friendly_name: Option<String>,
    udn: Option<String>,
    manufacturer: Option<String>,
    model_name: Option<String>,
    model_number: Option<String>,
    model_description: Option<String>,
    serial_number: Option<String>,
    presentation_url: Option<String>,
    is_media_renderer: bool,
    av_transport_url: Option<String>,
    rendering_control_url: Option<String>,
    av_transport_service_type: Option<String>,
    rendering_control_service_type: Option<String>,
    av_transport_event_url: Option<String>,
    rendering_control_event_url: Option<String>,
    in_service: bool,
    service_type: Option<String>,
    control_url: Option<String>,
    event_sub_url: Option<String>,
    in_icon: bool,
    icon_mime_type: Option<String>,
    icon_width: Option<u32>,
    icon_height: Option<u32>,
    icon_depth: Option<u32>,
    icon_url: Option<String>,
    icons: Vec<DeviceIcon>,
    target: Option<TextTarget>,
    done: bool,
}

pub open spec fn ov(o: Option<String>) -> Option<Seq<char>> {
    match o {
        Some(s) => Some(s@),
        None => None,
    }
}

impl View for DescState {
    type V = Desc;

    closed spec fn view(&self) -> Desc {
        Desc {
            friendly_name: ov(self.friendly_name),
            udn: ov(self.udn),
            manufacturer: ov(self.manufacturer),
            model_name: ov(self.model_name),
            model_number: ov(self.model_number),
            model_description: ov(self.model_description),
            serial_number: ov(self.serial_number),
            presentation_url: ov(self.presentation_url),
            is_media_renderer: self.is_media_renderer,
            av_transport_url: ov(self.av_transport_url),
            rendering_control_url: ov(self.rendering_control_url),
            av_transport_service_type: ov(self.av_transport_service_type),
            rendering_control_service_type: ov(self.rendering_control_service_type),
            av_transport_event_url: ov(self.av_transport_event_url),
            rendering_control_event_url: ov(self.rendering_control_event_url),
            in_service: self.in_service,
            service_type: ov(self.service_type),
            control_url: ov(self.control_url),
            event_sub_url: ov(self.event_sub_url),
            in_icon: self.in_icon,
            icon_mime_type: ov(self.icon_mime_type),
            icon_width: self.icon_width,
            icon_height: self.icon_height,
            icon_depth: self.icon_depth,
            icon_url: ov(self.icon_url),
            icons: self.icons@.map_values(|i: DeviceIcon| i@),
            target: self.target,
            done: self.done,
        }
    }
}

fn first_text(slot: &mut Option<String>, text: &str)
    ensures
        ov(*final(slot)) == (if ov(*old(slot)) is None { Some(text@) } else { ov(*old(slot)) }),
{
    if slot.is_none() {
        *slot = Some(String::from_str(text));
    }
}

impl DescState {
    pub fn new() -> (r: Self)
        ensures
            r@ == desc_start(),
    {
        let r = DescState {
            friendly_name: None,
            udn: None,
            manufacturer: None,
            model_name: None,
            model_number: None,
            model_description: None,
            serial_number: None,
            presentation_url: None,
            is_media_renderer: false,
            av_transport_url: None,
            rendering_control_url: None,
            av_transport_service_type: None,
            rendering_control_service_type: None,
            av_transport_event_url: None,
            rendering_control_event_url: None,
            in_service: false,
            service_type: None,
            control_url: None,
            event_sub_url: None,
            in_icon: false,
            icon_mime_type: None,
            icon_width: None,
            icon_height: None,
            icon_depth: None,
            icon_url: None,
            icons: Vec::new(),
            target: None,
            done: false,
        };
        assert(r.icons@.map_values(|i: DeviceIcon| i@) =~= Seq::<IconView>::empty());
        r
    }

    pub fn is_done(&self) -> (r: bool)
        ensures
            r == self@.done,
    {
        self.done
    }

    pub fn has_target(&self) -> (r: bool)
        ensures
            r == self@.target is Some,
    {
        self.target.is_some()
    }

    pub fn finish_document(&mut self)
        ensures
            final(self)@ == (Desc { done: true, ..old(self)@ }),
    {
        self.done = true;
    }

    /// A start tag.
    pub fn start(&mut self, name: &str)
        ensures
            final(self)@ == on_start(old(self)@, name@),
    {
        if str_eq(name, "service") {
            self.in_service = true;
            self.service_type = None;
            self.control_url = None;
            self.event_sub_url = None;
        } else if str_eq(name, "icon") {
            self.in_icon = true;
            self.icon_mime_type = None;
            self.icon_width = None;
            self.icon_height = None;
            self.icon_depth = None;
            self.icon_url = None;
        } else {
            match start_target_of(name, self.in_service, self.in_icon) {
                Some(t) => self.target = Some(t),
                None => {},
            }
        }
    }

    fn close_icon(&mut self, location: &str)
        ensures
            final(self)@ == close_icon(old(self)@, location@),
    {
        self.in_icon = false;
        match (&self.icon_mime_type, self.icon_width, self.icon_height, self.icon_depth, &self.icon_url) {
            (Some(m), Some(w), Some(h), Some(dp), Some(u)) => {
                match url_join(location, u.as_str()) {
                    Some(url) => {
                        let icon = DeviceIcon { mime_type: m.clone(), width: w, height: h, depth: dp, url };
                        let ghost before = self.icons@;
                        self.icons.push(icon);
                        assert(self.icons@.map_values(|i: DeviceIcon| i@)
                            =~= before.map_values(|i: DeviceIcon| i@).push(icon@));
                    },
                    None => {},
                }
            },
            _ => {},
        }
    }

    fn close_service(&mut self, location: &str)
        ensures
            final(self)@ == close_service(old(self)@, location@),
    {
        self.in_service = false;
        let st = match &self.service_type {
            None => return,
            Some(st) => st.clone(),
        };
        let avt = contains_chars(chars_of(st.as_str()).as_slice(), chars_of("AVTransport").as_slice());
        let rc = contains_chars(chars_of(st.as_str()).as_slice(), chars_of("RenderingControl").as_slice());
        if !(avt || rc) {
            return;
        }
        if avt {
            if self.av_transport_service_type.is_none() {
                self.av_transport_service_type = Some(st);
            }
        } else if self.rendering_control_service_type.is_none() {
            self.rendering_control_service_type = Some(st);
        }
        match &self.control_url {
            Some(p) => match url_join(location, p.as_str()) {
                Some(u) => {
                    if avt {
                        self.av_transport_url = Some(u);
                    } else {
                        self.rendering_control_url = Some(u);
                    }
                },
                None => {},
            },
            None => {},
        }
        match &self.event_sub_url {
            Some(p) => match url_join(location, p.as_str()) {
                Some(u) => {
                    if avt {
                        self.av_transport_event_url = Some(u);
                    } else {
                        self.rendering_control_event_url = Some(u);
                    }
                },
                None => {},
            },
            None => {},
        }
    }

    /// An end tag.
    pub fn end(&mut self, name: &str, location: &str)
        ensures
            final(self)@ == on_end(old(self)@, name@, location@),
    {
        if str_eq(name, "icon") {
            self.close_icon(location);
        } else if str_eq(name, "service") {
            self.close_service(location);
        } else {
            match self.target {
                Some(t) => {
                    if str_eq(name, tag_name(t)) {
                        self.target = None;
                    }
                },
                None => {},
            }
        }
    }

    /// Trimmed text of the current target.
    pub fn text(&mut self, text: &str)
        ensures
            final(self)@ == on_text(old(self)@, text@),
    {
        if chars_of(text).len() == 0 {
            return;
        }
        match self.target {
            None => {},
            Some(TextTarget::FriendlyName) => {
                if self.friendly_name.is_none() {
                    self.friendly_name = Some(decode_html_entities(text));
                }
            },
            Some(TextTarget::Udn) => first_text(&mut self.udn, text),
            Some(TextTarget::Manufacturer) => first_text(&mut self.manufacturer, text),
            Some(TextTarget::ModelName) => first_text(&mut self.model_name, text),
            Some(TextTarget::ModelNumber) => first_text(&mut self.model_number, text),
            Some(TextTarget::ModelDescription) => first_text(&mut self.model_description, text),
            Some(TextTarget::SerialNumber) => first_text(&mut self.serial_number, text),
            Some(TextTarget::PresentationUrl) => first_text(&mut self.presentation_url, text),
            Some(TextTarget::DeviceType) => {
                if contains_chars(chars_of(text).as_slice(), chars_of("MediaRenderer").as_slice()) {
                    self.is_media_renderer = true;
                }
            },
            Some(TextTarget::ServiceType) => first_text(&mut self.service_type, text),
            Some(TextTarget::ControlUrl) => first_text(&mut self.control_url, text),
            Some(TextTarget::EventSubUrl) => first_text(&mut self.event_sub_url, text),
            Some(TextTarget::IconMimeType) => first_text(&mut self.icon_mime_type, text),
            Some(TextTarget::IconWidth) => {
                if self.icon_width.is_none() {
                    self.icon_width = parse_u32(text);
                }
            },
            Some(TextTarget::IconHeight) => {
                if self.icon_height.is_none() {
                    self.icon_height = parse_u32(text);
                }
            },
            Some(TextTarget::IconDepth) => {
                if self.icon_depth.is_none() {
                    self.icon_depth = parse_u32(text);
                }
            },
            Some(TextTarget::IconUrl) => first_text(&mut self.icon_url, text),
        }
    }
}

impl DescState {
    /// The renderer the finished description names, where it is a media
    /// renderer with an AVTransport control URL.
    pub fn into_renderer(self, location: &str, fallback_udn: &str) -> (r: Result<Renderer, Error>)
        ensures
            !self@.is_media_renderer ==> (r matches Err(Error::InvalidResponse(m)) && m@ == "Not a MediaRenderer device"@),
            self@.is_media_renderer && self@.av_transport_url is None ==> (r matches Err(Error::InvalidResponse(m))
                && m@ == "MediaRenderer without AVTransport service"@),
            self@.is_media_renderer && self@.av_transport_url is Some ==> (r matches Ok(rd)
                && rd@ == renderer_of(self@, location@, fallback_udn@)),
    {
        if !self.is_media_renderer {
            return Err(Error::InvalidResponse(String::from_str("Not a MediaRenderer device")));
        }
        if self.av_transport_url.is_none() {
            return Err(Error::InvalidResponse(String::from_str("MediaRenderer without AVTransport service")));
        }
        let friendly_name = match self.friendly_name {
            Some(n) => n,
            None => String::from_str("Unknown Device"),
        };
        let udn = match self.udn {
            Some(u) => u,
            None => String::from_str(fallback_udn),
        };
        let presentation_url = match &self.presentation_url {
            Some(p) => url_join(location, p.as_str()),
            None => None,
        };
        let r = Renderer {
            friendly_name,
            location: String::from_str(location),
            udn,
            av_transport_url: self.av_transport_url,
            av_transport_service_type: self.av_transport_service_type,
            rendering_control_url: self.rendering_control_url,
            rendering_control_service_type: self.rendering_control_service_type,
            av_transport_event_url: self.av_transport_event_url,
            rendering_control_event_url: self.rendering_control_event_url,
            manufacturer: self.manufacturer,
            model_name: self.model_name,
            model_number: self.model_number,
            model_description: self.model_description,
            serial_number: self.serial_number,
            presentation_url,
            mac_address: None,
            icons: self.icons,
            firmware_version: None,
            capabilities: None,
        };
        Ok(r)
    }
}

proof fn lemma_read_events_stays(evs: Seq<XmlEvent>, location: Seq<char>, j: int, k: int)
    requires
        0 <= j <= k <= evs.len(),
        read_events(evs.take(j), location) is Err || (read_events(evs.take(j), location) matches Ok(d) && d.done),
    ensures
        read_events(evs.take(k), location) == read_events(evs.take(j), location),
    decreases k - j,
{
    if k > j {
        lemma_read_events_stays(evs, location, j, k - 1);
        assert(evs.take(k).drop_last() =~= evs.take(k - 1));
    }
}

fn trimmed(s: &str) -> (r: String)
    ensures
        r@ == trim(s@),
{
    let t = trim_chars(chars_of(s).as_slice());
    string_from_chars(t.as_slice())
}

/// `r` is what a device description with the events `evs`, fetched from
/// `location`, gives: the reader's error, a refusal of a device that is no
/// media renderer or has no AVTransport service, or the renderer.
pub open spec fn description_result(evs: Seq<XmlEvent>, location: Seq<char>, fallback_udn: Seq<char>, r: Result<Renderer, Error>) -> bool {
    match read_events(evs, location) {
        Err(m) => r matches Err(Error::Xml(x)) && x@ == m,
        Ok(d) => if !d.is_media_renderer {
            r matches Err(Error::InvalidResponse(x)) && x@ == "Not a MediaRenderer device"@
        } else if d.av_transport_url is None {
            r matches Err(Error::InvalidResponse(x)) && x@ == "MediaRenderer without AVTransport service"@
        } else {
            r matches Ok(rd) && rd@ == renderer_of(d, location, fallback_udn)
        },
    }
}

/// The renderer that a device description's events name (the description
/// was fetched from `location`); `fallback_udn` stands for a missing UDN.
pub fn renderer_from_events(events: &[XmlEvent], location: &str, fallback_udn: &str) -> (r: Result<Renderer, Error>)
    ensures
        description_result(events@, location@, fallback_udn@, r),
{
    let mut st = DescState::new();
    let mut i: usize = 0;
    assert(events@.take(0) =~= Seq::<XmlEvent>::empty());
    while i < events.len()
        invariant
            i <= events@.len(),
            read_events(events@.take(i as int), location@) == Ok::<Desc, Seq<char>>(st@),
        decreases events@.len() - i,
    {
        let ghost t = events@.take(i as int + 1);
        assert(t.drop_last() =~= events@.take(i as int));
        assert(t.last() == events@[i as int]);
        if st.is_done() {
            proof {
                lemma_read_events_stays(events@, location@, i as int, i + 1);
            }
        } else {
            match &events[i] {
                XmlEvent::Start(n) => st.start(n.as_str()),
                XmlEvent::End(n) => st.end(n.as_str(), location),
                XmlEvent::Text(raw) => {
                    if st.has_target() {
                        match unescape_text(raw.as_str()) {
                            Ok(t) => st.text(trimmed(t.as_str()).as_str()),
                            Err(m) => {
                                proof {
                                    lemma_read_events_stays(events@, location@, i + 1, events@.len() as int);
                                    assert(events@.take(events@.len() as int) =~= events@);
                                }
                                return Err(Error::Xml(m));
                            },
                        }
                    }
                },
                XmlEvent::CData(raw) => {
                    if st.has_target() {
                        st.text(trimmed(raw.as_str()).as_str());
                    }
                },
                XmlEvent::Eof => st.finish_document(),
                XmlEvent::Failure(m) => {
                    proof {
                        lemma_read_events_stays(events@, location@, i + 1, events@.len() as int);
                        assert(events@.take(events@.len() as int) =~= events@);
                    }
                    return Err(Error::Xml(m.clone()));
                },
                XmlEvent::Other => {},
            }
        }
        i = i + 1;
    }
    assert(events@.take(events@.len() as int) =~= events@);
    st.into_renderer(location, fallback_udn)
}

/// Parse device description XML fetched from `location` (the text of a
/// parsed URL): the renderer that the document's events describe, with a
/// fresh `uuid:` name standing for a missing UDN.
pub fn parse_device_description(xml: &str, location: &str) -> (r: Result<Renderer, Error>)
    ensures
        exists|id: Seq<char>| uuid_v4_text(id) && description_result(description_events(xml@), location@, "uuid:"@ + id, r),
{
    let events = read_description_events(xml);
    let uuid = new_uuid_string();
    let ghost uuid_v4 = uuid@;
    let mut fallback_udn = String::new();
    crate::text::push_str(&mut fallback_udn, "uuid:");
    crate::text::push_str(&mut fallback_udn, uuid.as_str());
    let ghost id = fallback_udn@.skip(5);
    proof {
        reveal_strlit("uuid:");
        assert(fallback_udn@ =~= "uuid:"@ + id);
        assert(id =~= uuid_v4);
    }
    let r = renderer_from_events(events.as_slice(), location, fallback_udn.as_str());
    assert(description_result(events@, location@, "uuid:"@ + id, r));
    r
}

} // verus!
