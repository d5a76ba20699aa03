//! SSDP: discovering renderers and announcing this server.

pub mod xml;
pub mod parse;
pub mod discovery;
pub mod announce;
pub mod fastrand;
pub mod fetch;
pub mod socket;

use vstd::prelude::*;
use crate::net::ip::{IpAddress, format_host_for_url, url_host_text};
use crate::text::{decimal, push_decimal, push_str};
use crate::types::ServerInfo;

verus! {

/// SSDP multicast address
pub open spec fn ssdp_multicast_addr() -> Seq<u8> {
    seq![239u8, 255u8, 255u8, 250u8]
}

/// SSDP multicast address
pub fn multicast_addr() -> (r: [u8; 4])
    ensures
        r@ == ssdp_multicast_addr(),
{
    let r: [u8; 4] = [239, 255, 255, 250];
    assert(r@ =~= ssdp_multicast_addr());
    r
}

/// The SSDP port.
pub const SSDP_PORT: u16 = 1900;

/// Device type we search for (Media Renderer)
pub const RENDERER_SEARCH_TARGET: &'static str = "urn:schemas-upnp-org:device:MediaRenderer:1";

/// AVTransport service type
pub const AVTRANSPORT_SERVICE: &'static str = "urn:schemas-upnp-org:service:AVTransport:1";

/// Device types we advertise as a server
pub open spec fn server_device_types() -> Seq<Seq<char>> {
    seq![
        "upnp:rootdevice"@,
        "urn:schemas-upnp-org:device:MediaServer:1"@,
        "urn:schemas-upnp-org:service:ContentDirectory:1"@,
        "urn:schemas-upnp-org:service:ConnectionManager:1"@,
    ]
}

/// Device types we advertise as a server
pub fn server_device_type_list() -> (r: Vec<&'static str>)
    ensures
        r@.map_values(|s: &'static str| s@) == server_device_types(),
{
    let r = vec![
        "upnp:rootdevice",
        "urn:schemas-upnp-org:device:MediaServer:1",
        "urn:schemas-upnp-org:service:ContentDirectory:1",
        "urn:schemas-upnp-org:service:ConnectionManager:1",
    ];
    assert(r@.map_values(|s: &'static str| s@) =~= server_device_types());
    r
}

/// The search targets of a discovery, in the order they are sent.
pub open spec fn msearch_targets() -> Seq<Seq<char>> {
    seq![
        "urn:schemas-upnp-org:device:MediaRenderer:1"@,
        "urn:schemas-upnp-org:service:AVTransport:1"@,
        "ssdp:all"@,
    ]
}

/// The search targets of a discovery, in the order they are sent.
pub fn msearch_target_list() -> (r: Vec<&'static str>)
    ensures
        r@.map_values(|s: &'static str| s@) == msearch_targets(),
{
    let r = vec![
        "urn:schemas-upnp-org:device:MediaRenderer:1",
        "urn:schemas-upnp-org:service:AVTransport:1",
        "ssdp:all",
    ];
    assert(r@.map_values(|s: &'static str| s@) =~= msearch_targets());
    r
}

/// The server's side of SSDP: the address and port it is reached at, and
/// what it announces of itself.
pub struct SsdpService {
    local_ip: IpAddress,
    http_port: u16,
    server_info: Option<ServerInfo>,
}

/// `http://<host>:<port>`
pub open spec fn base_url_of(ip: IpAddress, port: u16) -> Seq<char> {
    "http://"@ + url_host_text(ip) + ":"@ + decimal(port as nat)
}

impl SsdpService {
    pub closed spec fn ip(&self) -> IpAddress {
        self.local_ip
    }

    pub closed spec fn port(&self) -> u16 {
        self.http_port
    }

    pub closed spec fn info(&self) -> Option<ServerInfo> {
        self.server_info
    }

    /// Create with a specific local IP
    pub fn with_ip(local_ip: IpAddress, http_port: u16) -> (r: Self)
        ensures
            r.ip() == local_ip,
            r.port() == http_port,
            r.info() is None,
    {
        SsdpService { local_ip, http_port, server_info: None }
    }

    /// Create a new SSDP service on the best local IPv4 address (found by the
    /// caller, see `net::selection`).
    pub fn new(best_local_ipv4: [u8; 4], http_port: u16) -> (r: Self)
        ensures
            r.ip() == IpAddress::V4(best_local_ipv4),
            r.port() == http_port,
            r.info() is None,
    {
        Self::with_ip(IpAddress::V4(best_local_ipv4), http_port)
    }

    /// Set server info for announcements
    pub fn set_server_info(&mut self, info: ServerInfo)
        ensures
            final(self).info() == Some(info),
            final(self).ip() == old(self).ip(),
            final(self).port() == old(self).port(),
    {
        self.server_info = Some(info);
    }

    /// Get the local IP address
    pub fn local_ip(&self) -> (r: IpAddress)
        ensures
            r == self.ip(),
    {
        self.local_ip
    }

    /// Get the HTTP port
    pub fn http_port(&self) -> (r: u16)
        ensures
            r == self.port(),
    {
        self.http_port
    }

    /// Set the HTTP port (used when port 0 auto-selects)
    pub fn set_http_port(&mut self, port: u16)
        ensures
            final(self).port() == port,
            final(self).ip() == old(self).ip(),
            final(self).info() == old(self).info(),
    {
        self.http_port = port;
    }

    /// Get the base URL for this server
    pub fn base_url(&self) -> (r: String)
        ensures
            r@ == base_url_of(self.ip(), self.port()),
    {
        let mut r = String::new();
        push_str(&mut r, "http://");
        push_str(&mut r, format_host_for_url(self.local_ip).as_str());
        push_str(&mut r, ":");
        push_decimal(&mut r, self.http_port as u64);
        r
    }

    /// Get server info if set
    pub fn server_info(&self) -> (r: Option<ServerInfo>)
        ensures
            r == self.info(),
    {
        match &self.server_info {
            Some(i) => Some(i.clone()),
            None => None,
        }
    }

    /// Update the server's friendly name: the info to send `ssdp:byebye` with
    /// (the old one) is returned; the new name is stored for `ssdp:alive`.
    pub fn update_server_name(&mut self, new_name: String) -> (r: Result<ServerInfo, crate::error::Error>)
        ensures
            match old(self).info() {
                Some(old_info) => r == Ok::<ServerInfo, crate::error::Error>(old_info)
                    && final(self).info() == Some(ServerInfo { friendly_name: new_name, ..old_info }),
                None => r matches Err(crate::error::Error::Config(m)) && m@ == "Server info not set"@
                    && final(self).info() is None,
            },
            final(self).ip() == old(self).ip(),
            final(self).port() == old(self).port(),
    {
        match &self.server_info {
            None => Err(crate::error::Error::Config(String::from_str("Server info not set"))),
            Some(info) => {
                let old_info = info.clone();
                let mut new_info = info.clone();
                new_info.friendly_name = new_name;
                self.server_info = Some(new_info);
                Ok(old_info)
            },
        }
    }
}

} // verus!
