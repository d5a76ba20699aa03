use flingdlna::config::AppConfigFile;
use flingdlna::ssdp::parse::parse_location;
use flingdlna::types::ServerInfo;
use flingdlna::wol::{build_magic_packet, parse_arp_output, parse_mac_address};

#[test]
fn test_default_config() {
    let config = AppConfigFile::default();

    assert!(config.server.is_none());
    assert_eq!(config.controller.discovery_timeout_secs, 30);
    assert_eq!(config.controller.streaming_port, 9000);
    assert!(config.watcher.enabled);
    assert_eq!(config.watcher.debounce_ms, 250);
}

#[test]
fn test_parse_location() {
    let response = "HTTP/1.1 200 OK\r\n\
                    LOCATION: http://192.168.1.100:8080/description.xml\r\n\
                    ST: upnp:rootdevice\r\n\
                    \r\n";
    assert_eq!(
        parse_location(response),
        Some("http://192.168.1.100:8080/description.xml".to_string())
    );
}

#[test]
fn test_server_info_new() {
    let info = ServerInfo::new("Test Server");
    assert_eq!(info.friendly_name, "Test Server");
    assert!(info.udn.starts_with("uuid:"));
}

#[test]
fn test_parse_mac_colon() {
    let mac = parse_mac_address("AA:BB:CC:DD:EE:FF").unwrap();
    assert_eq!(mac, [0xAA, 0xBB, 0xCC, 0xDD, 0xEE, 0xFF]);
}

#[test]
fn test_parse_mac_dash() {
    let mac = parse_mac_address("AA-BB-CC-DD-EE-FF").unwrap();
    assert_eq!(mac, [0xAA, 0xBB, 0xCC, 0xDD, 0xEE, 0xFF]);
}

#[test]
fn test_parse_mac_no_separator() {
    let mac = parse_mac_address("AABBCCDDEEFF").unwrap();
    assert_eq!(mac, [0xAA, 0xBB, 0xCC, 0xDD, 0xEE, 0xFF]);
}

#[test]
fn test_parse_mac_lowercase() {
    let mac = parse_mac_address("aa:bb:cc:dd:ee:ff").unwrap();
    assert_eq!(mac, [0xAA, 0xBB, 0xCC, 0xDD, 0xEE, 0xFF]);
}

#[test]
fn test_parse_mac_invalid() {
    assert!(parse_mac_address("invalid").is_err());
    assert!(parse_mac_address("AA:BB:CC").is_err());
    assert!(parse_mac_address("").is_err());
}

#[test]
fn test_build_magic_packet() {
    let mac = [0xAA, 0xBB, 0xCC, 0xDD, 0xEE, 0xFF];
    let packet = build_magic_packet(&mac);

    // Check header (6 bytes of 0xFF)
    assert_eq!(&packet[0..6], &[0xFF; 6]);

    // Check first MAC repetition
    assert_eq!(&packet[6..12], &mac);

    // Check last MAC repetition
    assert_eq!(&packet[96..102], &mac);

    // Total length
    assert_eq!(packet.len(), 102);
}

#[test]
fn test_parse_arp_output_macos() {
    let output = "? (192.168.1.100) at aa:bb:cc:dd:ee:ff on en0 ifscope [ethernet]";
    let mac = parse_arp_output(output, "192.168.1.100");
    assert_eq!(mac, Some("AA:BB:CC:DD:EE:FF".to_string()));
}

#[test]
fn test_parse_arp_output_linux() {
    let output = "192.168.1.100    ether   aa:bb:cc:dd:ee:ff   C                     eth0";
    let mac = parse_arp_output(output, "192.168.1.100");
    assert_eq!(mac, Some("AA:BB:CC:DD:EE:FF".to_string()));
}
