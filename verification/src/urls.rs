//! URLs as the library holds them: the text of a parsed URL, with the parts
//! that its logic reads.

use vstd::prelude::*;

verus! {

/// The host of a URL.
#[derive(Debug)]
pub enum UrlHost {
    /// No host (as in `mailto:` URLs).
    Absent,
    /// A domain name.
    Domain(String),
    /// An IPv4 address, by its octets.
    Ipv4([u8; 4]),
    /// An IPv6 address, by its eight 16-bit segments.
    Ipv6([u16; 8]),
}

/// A host as plain values.
pub enum HostView {
    Absent,
    Domain(Seq<char>),
    Ipv4(Seq<u8>),
    Ipv6(Seq<u16>),
}

impl View for UrlHost {
    type V = HostView;

    open spec fn view(&self) -> HostView {
        match self {
            UrlHost::Absent => HostView::Absent,
            UrlHost::Domain(d) => HostView::Domain(d@),
            UrlHost::Ipv4(a) => HostView::Ipv4(a@),
            UrlHost::Ipv6(a) => HostView::Ipv6(a@),
        }
    }
}

/// The parts of a parsed URL that the library reads.
#[derive(Debug)]
pub struct UrlParts {
    /// The URL's text, as `Url::as_str` gives it.
    pub text: String,
    pub scheme: String,
    pub username: String,
    pub has_password: bool,
    /// The port written in the URL, where it is not the scheme's default.
    pub port: Option<u16>,
    pub path: String,
    pub query: Option<String>,
}

/// The parts of a parsed URL as plain values.
pub struct UrlView {
    pub text: Seq<char>,
    pub scheme: Seq<char>,
    pub username: Seq<char>,
    pub has_password: bool,
    pub port: Option<u16>,
    pub path: Seq<char>,
    pub query: Option<Seq<char>>,
}

pub open spec fn opt_seq(o: Option<String>) -> Option<Seq<char>> {
    match o {
        Some(s) => Some(s@),
        None => None,
    }
}

impl View for UrlParts {
    type V = UrlView;

    open spec fn view(&self) -> UrlView {
        UrlView {
            text: self.text@,
            scheme: self.scheme@,
            username: self.username@,
            has_password: self.has_password,
            port: self.port,
            path: self.path@,
            query: opt_seq(self.query),
        }
    }
}

/// What `url::Url::parse` makes of a text: the parsed URL, or the message of
/// the parse error.
pub uninterp spec fn parsed_url(s: Seq<char>) -> Result<UrlView, Seq<char>>;

/// Parses a URL (`url::Url::parse`) and reads its parts but the host (see
/// `url_host`); the error is the parse error's message.
#[verifier::external_body]
pub(crate) fn parse_url(s: &str) -> (r: Result<UrlParts, String>)
    ensures
        match r {
            Ok(u) => parsed_url(s@) == Ok::<UrlView, Seq<char>>(u@),
            Err(m) => parsed_url(s@) == Err::<UrlView, Seq<char>>(m@),
        },
{
    let u = match url::Url::parse(s) {
        Ok(u) => u,
        Err(e) => return Err(e.to_string()),
    };
    let (text, scheme, username) = (u.as_str().into(), u.scheme().into(), u.username().into());
    let (path, query) = (u.path().into(), u.query().map(String::from));
    Ok(UrlParts { text, scheme, username, has_password: u.password().is_some(), port: u.port(), path, query })
}

/// What `url::Url::join` gives for a base URL (given by its text) and a
/// reference: the text of the joined URL, or none where it fails.
pub uninterp spec fn joined_url(base: Seq<char>, input: Seq<char>) -> Option<Seq<char>>;

/// Resolves `input` against the base URL whose text is `base`
/// (`url::Url::join`); `None` where the join fails. The base is parsed back
/// from its text first, which gives the same URL where the text came from a
/// parsed URL.
#[verifier::external_body]
pub(crate) fn url_join(base: &str, input: &str) -> (r: Option<String>)
    ensures
        match r {
            Some(u) => joined_url(base@, input@) == Some(u@),
            None => joined_url(base@, input@) is None,
        },
{
    match url::Url::parse(base) {
        Ok(b) => match b.join(input) {
            Ok(u) => Some(u.to_string()),
            Err(_) => None,
        },
        Err(_) => None,
    }
}

/// What `url::Url::host_str` gives for the URL parsed from a text: the host
/// as text, or none where the text is no URL with a host.
pub uninterp spec fn host_str_of(s: Seq<char>) -> Option<Seq<char>>;

/// The host of the URL parsed from `s`, as text (`url::Url::host_str`).
#[verifier::external_body]
pub(crate) fn url_host_str(s: &str) -> (r: Option<String>)
    ensures
        match r {
            Some(h) => host_str_of(s@) == Some(h@),
            None => host_str_of(s@) is None,
        },
{
    match url::Url::parse(s) {
        Ok(u) => u.host_str().map(String::from),
        Err(_) => None,
    }
}

/// What `url::Url::host` gives for the URL parsed from a text; absent where
/// the text is no URL.
pub uninterp spec fn host_of(s: Seq<char>) -> HostView;

/// The host of the URL parsed from `s` (`url::Url::host`).
#[verifier::external_body]
pub(crate) fn url_host(s: &str) -> (r: UrlHost)
    ensures
        r@ == host_of(s@),
{
    match url::Url::parse(s).as_ref().map(url::Url::host) {
        Ok(Some(url::Host::Domain(d))) => UrlHost::Domain(d.to_string()),
        Ok(Some(url::Host::Ipv4(a))) => UrlHost::Ipv4(a.octets()),
        Ok(Some(url::Host::Ipv6(a))) => UrlHost::Ipv6(a.segments()),
        _ => UrlHost::Absent,
    }
}

} // verus!
