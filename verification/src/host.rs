//! Host names of gateways: a domain, an IPv4 address or an IPv6 address,
//! as the `url` crate parses and prints them.
use crate::text::{decimal, u64_to_decimal};
use vstd::prelude::*;

verus! {

/// The host of a gateway: `url::Host<String>` held as plain values.
#[derive(Debug, PartialEq, Eq)]
pub enum HostName {
    /// A DNS domain name, as `.`-separated labels.
    Domain(String),
    /// An IPv4 address, by its four octets.
    Ipv4([u8; 4]),
    /// An IPv6 address, by its eight 16-bit segments.
    Ipv6([u16; 8]),
}

/// The mathematical value of a [`HostName`].
pub enum HostView {
    Domain(Seq<char>),
    Ipv4(Seq<u8>),
    Ipv6(Seq<u16>),
}

impl View for HostName {
    type V = HostView;

    open spec fn view(&self) -> HostView {
        match self {
            HostName::Domain(d) => HostView::Domain(d@),
            HostName::Ipv4(o) => HostView::Ipv4(o@),
            HostName::Ipv6(s) => HostView::Ipv6(s@),
        }
    }
}

impl Clone for HostName {
    fn clone(&self) -> (res: Self)
        ensures
            res == *self,
    {
        match self {
            HostName::Domain(d) => HostName::Domain(d.clone()),
            HostName::Ipv4(o) => HostName::Ipv4(*o),
            HostName::Ipv6(s) => HostName::Ipv6(*s),
        }
    }
}

/// What `url::Host::parse` gives for a text: the host, or the error that it
/// returns.
pub uninterp spec fn url_host_parse(text: Seq<char>) -> Result<HostView, url::ParseError>;

/// What `url::Host::Ipv6(..).to_string()` prints for an address with the
/// given segments (the RFC 5952 form between `[` and `]`).
pub uninterp spec fn ipv6_host_text(segments: Seq<u16>) -> Seq<char>;

/// Calls `url::Host::parse`. The result, or the absence of one, is the named
/// `url_host_parse` of the text: the IDNA processing and address parsing of
/// the `url` crate are not stated here.
#[verifier::external_body]
pub(crate) fn parse_host(text: &str) -> (res: Result<HostName, url::ParseError>)
    ensures
        match res {
            Ok(h) => url_host_parse(text@) == Ok::<HostView, url::ParseError>(h@),
            Err(e) => url_host_parse(text@) == Err::<HostView, url::ParseError>(e),
        },
{
    match url::Host::parse(text) {
        Ok(url::Host::Domain(d)) => Ok(HostName::Domain(d)),
        Ok(url::Host::Ipv4(a)) => Ok(HostName::Ipv4(a.octets())),
        Ok(url::Host::Ipv6(a)) => Ok(HostName::Ipv6(a.segments())),
        Err(e) => Err(e),
    }
}

/// Calls `Display` of `url::Host::Ipv6`. Its source writes `[`, the address
/// and `]`; the address text itself is the named `ipv6_host_text`.
#[verifier::external_body]
fn ipv6_to_string(segments: [u16; 8]) -> (s: String)
    ensures
        s@ == ipv6_host_text(segments@),
        s@.len() >= 2,
        s@[0] == '[',
        s@.last() == ']',
{
    url::Host::<String>::Ipv6(core::net::Ipv6Addr::from(segments)).to_string()
}

/// The parts of an absolute URL that a search response's `LOCATION` names.
#[derive(Debug)]
pub struct LocationUrl {
    pub scheme: String,
    pub host: Option<HostName>,
    pub port: Option<u16>,
    pub path: String,
}

/// The mathematical value of a [`LocationUrl`].
pub struct LocationUrlView {
    pub scheme: Seq<char>,
    pub host: Option<HostView>,
    pub port: Option<u16>,
    pub path: Seq<char>,
}

impl View for LocationUrl {
    type V = LocationUrlView;

    open spec fn view(&self) -> LocationUrlView {
        LocationUrlView {
            scheme: self.scheme@,
            host: match self.host {
                Some(h) => Some(h@),
                None => None,
            },
            port: self.port,
            path: self.path@,
        }
    }
}

/// What `url::Url::parse` gives for a text, read through `scheme()`,
/// `host()`, `port_or_known_default()` and `path()`; `None` where it returns
/// an error.
pub uninterp spec fn url_parse_parts(text: Seq<char>) -> Option<LocationUrlView>;

/// Calls `url::Url::parse` and reads the parsed URL's scheme, host, port
/// (the explicit one, else the scheme's known default) and path. What they
/// are for a given text is the named `url_parse_parts`: the WHATWG URL
/// parsing of the `url` crate is not stated here.
#[verifier::external_body]
pub(crate) fn parse_location_url(text: &str) -> (res: Option<LocationUrl>)
    ensures
        match res {
            Some(u) => url_parse_parts(text@) == Some(u@),
            None => url_parse_parts(text@) is None,
        },
{
    let url = url::Url::parse(text).ok()?;
    let host = match url.host() {
        Some(url::Host::Domain(d)) => Some(HostName::Domain(d.to_string())),
        Some(url::Host::Ipv4(a)) => Some(HostName::Ipv4(a.octets())),
        Some(url::Host::Ipv6(a)) => Some(HostName::Ipv6(a.segments())),
        None => None,
    };
    let (scheme, path) = (url.scheme().to_string(), url.path().to_string());
    Some(LocationUrl { scheme, host, port: url.port_or_known_default(), path })
}

/// The dotted-decimal form of an IPv4 address.
pub open spec fn ipv4_text(octets: Seq<u8>) -> Seq<char> {
    decimal(octets[0] as nat) + seq!['.'] + decimal(octets[1] as nat) + seq!['.'] + decimal(
        octets[2] as nat,
    ) + seq!['.'] + decimal(octets[3] as nat)
}

/// How a host prints (`Display` of `url::Host`): a domain as it is, an
/// IPv4 address in dotted decimal, an IPv6 address in brackets.
pub open spec fn host_text(h: HostView) -> Seq<char> {
    match h {
        HostView::Domain(d) => d,
        HostView::Ipv4(o) => ipv4_text(o),
        HostView::Ipv6(s) => ipv6_host_text(s),
    }
}

impl HostName {
    /// The host as `to_string` prints it.
    pub fn to_text(&self) -> (s: String)
        ensures
            s@ == host_text(self@),
    {
        match self {
            HostName::Domain(d) => d.clone(),
            HostName::Ipv4(o) => {
                let mut s = u64_to_decimal(o[0] as u64);
                s.append(".");
                s.append(u64_to_decimal(o[1] as u64).as_str());
                s.append(".");
                s.append(u64_to_decimal(o[2] as u64).as_str());
                s.append(".");
                s.append(u64_to_decimal(o[3] as u64).as_str());
                proof {
                    reveal_strlit(".");
                }
                assert(s@ =~= ipv4_text(o@));
                s
            },
            HostName::Ipv6(segs) => ipv6_to_string(*segs),
        }
    }
}

} // verus!
