use flingdlna::error::Error;
use flingdlna::net::ip::IpAddress;
use flingdlna::ssdp::announce::{handle_msearch, msearch_answer_now, msearch_plan, msearch_response, msearch_search_target, notify_messages, should_respond};
use flingdlna::ssdp::discovery::{
    build_msearch_request, msearch_attempts, msearch_mx, response_of_packet, DiscoverySession, FailureReport,
    SsdpResponse,
};
use flingdlna::ssdp::fastrand::{u64 as rand_u64, Rng};
use flingdlna::ssdp::fetch::{
    check_resolved, is_allowed_location_ip, plan_http_get, prepare_fetch, response_body, LocationCheck, RemoteHost,
};
use flingdlna::ssdp::parse::{
    build_location_url, is_own_location, is_renderer_ssdp_response, is_renderer_ssdp_target, parse_header_value,
    parse_search_target,
};
use flingdlna::ssdp::xml::{decode_html_entities, parse_device_description};
use flingdlna::ssdp::SsdpService;
use flingdlna::types::ServerInfo;

const DESCRIPTION: &str = r#"<?xml version="1.0"?>
<root xmlns="urn:schemas-upnp-org:device-1-0">
  <device>
    <deviceType>urn:schemas-upnp-org:device:MediaRenderer:1</deviceType>
    <friendlyName>Living Room &amp;quot;TV&amp;quot;</friendlyName>
    <manufacturer>Acme</manufacturer>
    <modelName>Screen 9000</modelName>
    <UDN>uuid:1234</UDN>
    <iconList>
      <icon>
        <mimetype>image/png</mimetype>
        <width>48</width>
        <height>48</height>
        <depth>24</depth>
        <url>/icon.png</url>
      </icon>
    </iconList>
    <serviceList>
      <service>
        <serviceType>urn:schemas-upnp-org:service:AVTransport:1</serviceType>
        <controlURL>/avt/control</controlURL>
        <eventSubURL>/avt/event</eventSubURL>
      </service>
      <service>
        <serviceType>urn:schemas-upnp-org:service:RenderingControl:1</serviceType>
        <controlURL>/rc/control</controlURL>
      </service>
    </serviceList>
    <presentationURL>/</presentationURL>
  </device>
</root>"#;

#[test]
fn description_of_a_renderer() {
    let r = parse_device_description(DESCRIPTION, "http://192.168.1.20:8080/desc.xml").unwrap();
    assert_eq!(r.friendly_name, "Living Room \"TV\"");
    assert_eq!(r.udn, "uuid:1234");
    assert_eq!(r.manufacturer.as_deref(), Some("Acme"));
    assert_eq!(r.model_name.as_deref(), Some("Screen 9000"));
    assert_eq!(r.av_transport_url.as_deref(), Some("http://192.168.1.20:8080/avt/control"));
    assert_eq!(r.av_transport_event_url.as_deref(), Some("http://192.168.1.20:8080/avt/event"));
    assert_eq!(
        r.av_transport_service_type.as_deref(),
        Some("urn:schemas-upnp-org:service:AVTransport:1")
    );
    assert_eq!(r.rendering_control_url.as_deref(), Some("http://192.168.1.20:8080/rc/control"));
    assert_eq!(r.presentation_url.as_deref(), Some("http://192.168.1.20:8080/"));
    assert_eq!(r.icons.len(), 1);
    assert_eq!(r.icons[0].url, "http://192.168.1.20:8080/icon.png");
    assert_eq!(r.icons[0].width, 48);
    assert_eq!(r.location, "http://192.168.1.20:8080/desc.xml");
}

#[test]
fn description_of_a_server_is_refused() {
    let xml = "<root><device><deviceType>urn:schemas-upnp-org:device:MediaServer:1</deviceType></device></root>";
    match parse_device_description(xml, "http://192.168.1.20/d.xml") {
        Err(Error::InvalidResponse(m)) => assert_eq!(m, "Not a MediaRenderer device"),
        other => panic!("unexpected {:?}", other),
    }
}

#[test]
fn renderer_without_transport_is_refused() {
    let xml = "<root><device><deviceType>urn:schemas-upnp-org:device:MediaRenderer:1</deviceType></device></root>";
    match parse_device_description(xml, "http://192.168.1.20/d.xml") {
        Err(Error::InvalidResponse(m)) => assert_eq!(m, "MediaRenderer without AVTransport service"),
        other => panic!("unexpected {:?}", other),
    }
}

#[test]
fn missing_names_get_defaults() {
    let xml = "<root><device><deviceType>MediaRenderer</deviceType><service><serviceType>AVTransport</serviceType><controlURL>c</controlURL></service></device></root>";
    let r = parse_device_description(xml, "http://10.0.0.2/a/d.xml").unwrap();
    assert_eq!(r.friendly_name, "Unknown Device");
    assert!(r.udn.starts_with("uuid:"));
    assert_eq!(r.av_transport_url.as_deref(), Some("http://10.0.0.2/a/c"));
}

#[test]
fn bad_entity_is_an_xml_error() {
    let xml = "<root><device><friendlyName>a &bogus; b</friendlyName></device></root>";
    assert!(matches!(parse_device_description(xml, "http://10.0.0.2/d.xml"), Err(Error::Xml(_))));
}

#[test]
fn entities_are_decoded() {
    assert_eq!(decode_html_entities("a &quot;b&quot; &amp;lt; &#39;c&#34;"), "a \"b\" < 'c\"");
}

#[test]
fn headers_are_read_without_case() {
    let response = "HTTP/1.1 200 OK\r\nst: urn:x\r\nUsn : uuid:1::urn:x\r\n\r\n";
    assert_eq!(parse_header_value(response, "ST"), Some("urn:x".to_string()));
    assert_eq!(parse_header_value(response, "USN"), Some("uuid:1::urn:x".to_string()));
    assert_eq!(parse_search_target("NT: a\r\n"), Some("a".to_string()));
    assert_eq!(parse_header_value(response, "LOCATION"), None);
}

#[test]
fn renderer_answers_are_told_apart() {
    assert!(is_renderer_ssdp_target("urn:schemas-upnp-org:device:MediaRenderer:1"));
    assert!(!is_renderer_ssdp_target("urn:schemas-upnp-org:device:MediaServer:1"));
    assert!(is_renderer_ssdp_response(None, None));
    assert!(is_renderer_ssdp_response(Some("upnp:rootdevice"), Some("uuid:1::urn:schemas-upnp-org:service:AVTransport:1")));
    assert!(!is_renderer_ssdp_response(Some("upnp:rootdevice"), None));
    assert!(!is_renderer_ssdp_response(None, Some("uuid:1")));
}

#[test]
fn own_location_is_recognized() {
    let ips = [[192u8, 168, 1, 5]];
    assert!(is_own_location("http://192.168.1.5:8080/description.xml", &ips, 8080));
    assert!(!is_own_location("http://192.168.1.6:8080/description.xml", &ips, 8080));
    assert!(!is_own_location("http://192.168.1.5:8081/description.xml", &ips, 8080));
    assert!(is_own_location("http://192.168.1.5/description.xml", &ips, 80));
    assert!(!is_own_location("not a url", &ips, 8080));
}

#[test]
fn location_url_and_base_url() {
    assert_eq!(
        build_location_url(IpAddress::V4([192, 168, 1, 5]), 8080),
        "http://192.168.1.5:8080/description.xml"
    );
    let svc = SsdpService::with_ip(IpAddress::V6([0xfe80, 0, 0, 0, 0, 0, 0, 1]), 9000);
    assert_eq!(svc.base_url(), "http://[fe80::1]:9000");
}

#[test]
fn msearch_requests() {
    assert_eq!(msearch_attempts(6000), 3);
    assert_eq!(msearch_attempts(5999), 2);
    assert_eq!(msearch_mx(500), 1);
    assert_eq!(msearch_mx(30000), 30);
    assert_eq!(
        build_msearch_request("ssdp:all", 3),
        "M-SEARCH * HTTP/1.1\r\nHOST: 239.255.255.250:1900\r\nMAN: \"ssdp:discover\"\r\nMX: 3\r\nST: ssdp:all\r\n\r\n"
    );
}

#[test]
fn discovery_session_fetches_each_location_once() {
    let mut s = DiscoverySession::new(vec![[192, 168, 1, 5]], IpAddress::V4([192, 168, 1, 5]), 8080, Some("uuid:me".to_string()));
    let resp = |loc: &str, usn: Option<&str>| SsdpResponse {
        location: loc.to_string(),
        iface_ip: [192, 168, 1, 5],
        st: Some("urn:schemas-upnp-org:device:MediaRenderer:1".to_string()),
        usn: usn.map(String::from),
    };
    assert!(s.on_response(resp("http://192.168.1.20/d.xml", None)).is_some());
    assert!(s.on_response(resp("http://192.168.1.20/d.xml", None)).is_none());
    assert!(s.on_response(resp("http://192.168.1.21/d.xml", Some("uuid:me::x"))).is_none());
    assert!(s.on_response(resp("http://192.168.1.5:8080/description.xml", None)).is_none());
    let r = parse_device_description(DESCRIPTION, "http://192.168.1.20/d.xml").unwrap();
    assert_eq!(s.on_fetched("http://192.168.1.20/d.xml".to_string(), Ok(r)), FailureReport::Quiet);
    assert_eq!(
        s.on_fetched("http://192.168.1.22/d.xml".to_string(), Err(Error::Network("No route to host".to_string()))),
        FailureReport::WarnWithRoutingHint
    );
    assert_eq!(s.on_fetched("http://192.168.1.23/d.xml".to_string(), Err(Error::Timeout)), FailureReport::Warn);
    let found = s.finish();
    assert_eq!(found.len(), 1);
    assert_eq!(found[0].udn, "uuid:1234");
}

#[test]
fn packets_are_read() {
    let p = b"HTTP/1.1 200 OK\r\nLOCATION: http://10.0.0.9/d.xml\r\nST: st\r\nUSN: usn\r\n\r\n";
    let r = response_of_packet(p, [10, 0, 0, 1]).unwrap();
    assert_eq!(r.location, "http://10.0.0.9/d.xml");
    assert_eq!(r.st.as_deref(), Some("st"));
    assert_eq!(r.usn.as_deref(), Some("usn"));
    assert!(response_of_packet(b"HTTP/1.1 200 OK\r\n\r\n", [10, 0, 0, 1]).is_none());
}

fn info() -> ServerInfo {
    ServerInfo {
        friendly_name: "S".to_string(),
        udn: "uuid:abc".to_string(),
        manufacturer: "m".to_string(),
        model_name: "n".to_string(),
    }
}

#[test]
fn notify_messages_cover_each_type() {
    let msgs = notify_messages(&info(), "http://h/description.xml", true);
    assert_eq!(msgs.len(), 5);
    assert!(msgs[0].contains("NT: upnp:rootdevice\r\n"));
    assert!(msgs[0].contains("USN: uuid:abc::upnp:rootdevice\r\n"));
    assert!(msgs[1].contains("USN: uuid:abc::urn:schemas-upnp-org:device:MediaServer:1\r\n"));
    assert!(msgs[4].contains("NT: uuid:abc\r\nNTS: ssdp:alive"));
    let bye = notify_messages(&info(), "http://h/description.xml", false);
    assert_eq!(
        bye[4],
        "NOTIFY * HTTP/1.1\r\nHOST: 239.255.255.250:1900\r\nNT: uuid:abc\r\nNTS: ssdp:byebye\r\nUSN: uuid:abc\r\n\r\n"
    );
}

#[test]
fn msearch_is_answered() {
    let req = "M-SEARCH * HTTP/1.1\r\nST: ssdp:all\r\n\r\n";
    assert_eq!(msearch_search_target(req), "ssdp:all");
    assert_eq!(msearch_search_target("M-SEARCH * HTTP/1.1\r\n"), "ssdp:all");
    assert_eq!(handle_msearch(req, &info(), "http://h/d.xml", "D").len(), 4);
    let one = handle_msearch("st: urn:schemas-upnp-org:device:MediaServer:1\r\n", &info(), "http://h/d.xml", "D");
    assert_eq!(one.len(), 1);
    assert_eq!(
        one[0],
        "HTTP/1.1 200 OK\r\nCACHE-CONTROL: max-age=1800\r\nDATE: D\r\nEXT:\r\nLOCATION: http://h/d.xml\r\nSERVER: flingdlna/1.0 UPnP/1.0\r\nST: urn:schemas-upnp-org:device:MediaServer:1\r\nUSN: uuid:abc::urn:schemas-upnp-org:device:MediaServer:1\r\n\r\n"
    );
    assert!(should_respond("uuid:abc", "uuid:abc"));
    assert!(!should_respond("urn:other", "uuid:abc"));
    assert!(handle_msearch("ST: urn:other\r\n", &info(), "l", "d").is_empty());
}

#[test]
fn random_numbers_stay_in_range() {
    let mut rng = Rng::new(0x1234_5678_9abc_def0);
    for _ in 0..1000 {
        let v = rand_u64(&mut rng, 0, 100);
        assert!(v < 100);
    }
}

#[test]
fn locations_are_checked() {
    assert!(is_allowed_location_ip(IpAddress::V4([192, 168, 0, 2]), false));
    assert!(is_allowed_location_ip(IpAddress::V4([100, 64, 0, 2]), false));
    assert!(!is_allowed_location_ip(IpAddress::V4([8, 8, 8, 8]), false));
    assert!(is_allowed_location_ip(IpAddress::V4([8, 8, 8, 8]), true));
    assert!(!is_allowed_location_ip(IpAddress::V4([169, 254, 169, 254]), true));
    assert!(!is_allowed_location_ip(IpAddress::V4([127, 0, 0, 1]), true));
    assert!(is_allowed_location_ip(IpAddress::V6([0xfe80, 0, 0, 0, 0, 0, 0, 1]), false));
    match prepare_fetch("http://192.168.0.2:1400/xml/device.xml", false) {
        Ok((text, LocationCheck::Allowed)) => assert_eq!(text, "http://192.168.0.2:1400/xml/device.xml"),
        other => panic!("unexpected {:?}", other),
    }
    match prepare_fetch("http://tv.local/d.xml", false) {
        Ok((_, LocationCheck::Resolve(h, p))) => {
            assert_eq!(h, "tv.local");
            assert_eq!(p, 80);
        }
        other => panic!("unexpected {:?}", other),
    }
    match prepare_fetch("https://192.168.0.2/d.xml", false) {
        Err(Error::Network(m)) => assert_eq!(m, "Unsupported URL scheme 'https' (expected http)"),
        other => panic!("unexpected {:?}", other),
    }
    match prepare_fetch("http://8.8.8.8/d.xml", false) {
        Err(Error::Network(m)) => assert_eq!(m, "Rejected LOCATION host 8.8.8.8 (not a local address)"),
        other => panic!("unexpected {:?}", other),
    }
    assert!(matches!(prepare_fetch("::", false), Err(Error::Network(_))));
    assert!(check_resolved("h", &[IpAddress::V4([10, 0, 0, 1])], false).is_ok());
    match check_resolved("h", &[], false) {
        Err(Error::Network(m)) => assert_eq!(m, "Rejected LOCATION host h (no resolved addresses)"),
        other => panic!("unexpected {:?}", other),
    }
}

#[test]
fn get_requests_are_planned() {
    let p = plan_http_get("http://192.168.0.2:1400/xml/device.xml?x=1").unwrap();
    assert_eq!(p.port, 1400);
    assert_eq!(p.request, "GET /xml/device.xml?x=1 HTTP/1.1\r\nHost: 192.168.0.2\r\nConnection: close\r\n\r\n");
    assert!(matches!(p.remote, RemoteHost::Address(IpAddress::V4([192, 168, 0, 2]))));
    let q = plan_http_get("http://tv.local/d.xml").unwrap();
    assert_eq!(q.port, 80);
    assert!(matches!(q.remote, RemoteHost::Name(ref n) if n == "tv.local"));
    assert_eq!(response_body(b"HTTP/1.1 200 OK\r\nA: b\r\n\r\n<xml/>"), b"<xml/>".to_vec());
    assert_eq!(response_body(b"no headers"), b"no headers".to_vec());
}

#[test]
fn msearch_plan_matches_answers() {
    let req = "M-SEARCH * HTTP/1.1\r\nST: ssdp:all\r\n\r\n";
    let plan = msearch_plan(req, &info());
    let answers = handle_msearch(req, &info(), "http://h/d.xml", "D");
    assert_eq!(plan.len(), answers.len());
    for (k, (device_type, usn)) in plan.iter().enumerate() {
        assert_eq!(msearch_response("D", "http://h/d.xml", device_type, usn), answers[k]);
    }
    assert_eq!(plan[0].1, "uuid:abc::upnp:rootdevice");
    let now = msearch_answer_now("http://h/d.xml", &plan[1].0, &plan[1].1);
    assert!(now.starts_with("HTTP/1.1 200 OK\r\nCACHE-CONTROL: max-age=1800\r\nDATE: "));
    assert!(now.contains(" GMT\r\nEXT:\r\nLOCATION: http://h/d.xml\r\n"));
    assert!(msearch_plan("ST: urn:other\r\n", &info()).is_empty());
    let mut rng = Rng::from_clock();
    for _ in 0..100 {
        assert!(flingdlna::ssdp::fastrand::u64(&mut rng, 0, 100) < 100);
    }
}
