use flingdlna::error::Error;
use flingdlna::ssdp::xml::parse_device_description;
use flingdlna::types::{ServerInfo, TransportState};
use flingdlna::wol::parse_arp_output;

const SAMPLE: &str = "<device><deviceType>MediaRenderer</deviceType><friendlyName>TV</friendlyName><UDN>uuid:1</UDN><service><serviceType>RenderingControl</serviceType><controlURL>/rc</controlURL></service><service><serviceType>AVTransport</serviceType><controlURL>/avt</controlURL></service></device>";

#[test]
fn sample_description_gives_its_renderer() {
    let r = parse_device_description(SAMPLE, "http://10.0.0.5:1400/desc.xml").unwrap();
    assert_eq!(r.friendly_name, "TV");
    assert_eq!(r.udn, "uuid:1");
    assert_eq!(r.av_transport_url.as_deref(), Some("http://10.0.0.5:1400/avt"));
    assert_eq!(r.rendering_control_url.as_deref(), Some("http://10.0.0.5:1400/rc"));
    assert_eq!(r.av_transport_service_type.as_deref(), Some("AVTransport"));
    assert_eq!(r.location, "http://10.0.0.5:1400/desc.xml");
    assert!(r.icons.is_empty());
    assert!(r.mac_address.is_none());
}

#[test]
fn descriptions_without_renderer_or_transport_are_refused() {
    let no_renderer = SAMPLE.replace("MediaRenderer", "MediaServer");
    assert!(matches!(parse_device_description(&no_renderer, "http://h/d.xml"), Err(Error::InvalidResponse(_))));
    let no_transport = SAMPLE.replace("AVTransport", "Other");
    assert!(matches!(parse_device_description(&no_transport, "http://h/d.xml"), Err(Error::InvalidResponse(_))));
    assert!(matches!(parse_device_description("<a></b>", "http://h/d.xml"), Err(Error::Xml(_))));
}

#[test]
fn friendly_name_is_first_nonempty_unescaped_or_default() {
    let xml = SAMPLE.replace("<friendlyName>TV</friendlyName>", "<friendlyName>  </friendlyName><friendlyName> Tom &amp; Jerry </friendlyName><friendlyName>Later</friendlyName>");
    let r = parse_device_description(&xml, "http://h/d.xml").unwrap();
    assert_eq!(r.friendly_name, "Tom & Jerry");
    let unnamed = SAMPLE.replace("<friendlyName>TV</friendlyName>", "").replace("<UDN>uuid:1</UDN>", "");
    let r = parse_device_description(&unnamed, "http://h/d.xml").unwrap();
    assert_eq!(r.friendly_name, "Unknown Device");
    assert!(r.udn.starts_with("uuid:"));
    assert_eq!(r.udn.len(), 41);
}

#[test]
fn transport_state_parse_agrees_with_from_str() {
    for s in ["playing", "PAUSED", "paused_playback", "Stopped", "TRANSITIONING", "no_media_present", "weird", ""] {
        assert_eq!(s.parse::<TransportState>().unwrap(), TransportState::from_str(s));
    }
    assert_eq!("Playing".parse::<TransportState>().unwrap(), TransportState::Playing);
}

#[test]
fn fresh_udns_have_the_uuid_form() {
    let info = ServerInfo::new("S");
    let id = &info.udn[5..];
    assert_eq!(id.len(), 36);
    assert_eq!(&id[14..15], "4");
    assert!(matches!(&id[19..20], "8" | "9" | "a" | "b"));
    assert!(id.chars().enumerate().all(|(i, c)| if [8, 13, 18, 23].contains(&i) { c == '-' } else { c.is_ascii_hexdigit() && !c.is_ascii_uppercase() }));
}

#[test]
fn renderer_search_ignores_ascii_case() {
    let xml = SAMPLE.replace("<friendlyName>TV</friendlyName>", "<friendlyName>Kitchen Speaker</friendlyName>");
    let r = parse_device_description(&xml, "http://192.168.7.9:1400/d.xml").unwrap();
    assert!(r.matches(""));
    assert_eq!(r.matches("kitchen"), r.matches("KITCHEN"));
    assert!(r.matches("KiTcHeN"));
    assert!(!r.matches("BEDROOM"));
}

#[test]
fn arp_lines_must_name_the_address_exactly() {
    let linux = "192.168.1.100    ether   aa:bb:cc:dd:ee:ff   C   eth0";
    assert_eq!(parse_arp_output(linux, "192.168.1.10"), None);
    assert_eq!(parse_arp_output(linux, "192.168.1.100"), Some("AA:BB:CC:DD:EE:FF".to_string()));
    let mac = "? (10.0.0.100) at 00:11:22:33:44:55 on en0\n? (10.0.0.10) at 0a:0b:0c:0d:0e:0f on en0";
    assert_eq!(parse_arp_output(mac, "10.0.0.10"), Some("0A:0B:0C:0D:0E:0F".to_string()));
    assert_eq!(parse_arp_output(mac, "10.0.0.1"), None);
}
