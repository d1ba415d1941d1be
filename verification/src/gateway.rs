//! Gateways (Internet Gateway Devices), their builder, and the SSDP search
//! that finds one.
use crate::error::Error;
use crate::host::{
    parse_host, parse_location_url, url_host_parse, url_parse_parts, HostName, HostView,
    LocationUrl, LocationUrlView,
};
use crate::text::{str_from_utf8, trim, trim_range};
use crate::Scheme;
use core::marker::PhantomData;
use vstd::prelude::*;

pub mod overview;
pub mod services;

verus! {

pub const BROADCAST_IPV4: &'static str = "239.255.255.250:1900";

pub const BROADCAST_IPV6: &'static str = "[FF02::C]:1900";

pub const DEFAULT_HOSTNAME: &'static str = "fritz.box";

pub const DEFAULT_HOSTPORT: u16 = 49000;

pub const DEFAULT_ROOT_URL: &'static str = "/igddesc.xml";

/// A gateway to talk to.
#[derive(Clone, Debug, PartialEq)]
pub struct Gateway {
    pub host: HostName,
    pub port: u16,
    pub scheme: Scheme,
    pub root_url: String,
}

/// The mathematical value of a [`Gateway`].
pub struct GatewayView {
    pub host: HostView,
    pub port: u16,
    pub scheme: Scheme,
    pub root_url: Seq<char>,
}

impl View for Gateway {
    type V = GatewayView;

    open spec fn view(&self) -> GatewayView {
        GatewayView { host: self.host@, port: self.port, scheme: self.scheme, root_url: self.root_url@ }
    }
}

impl Default for Gateway {
    /// The defaults of a Fritz!Box: `http://fritz.box:49000/igddesc.xml`.
    /// The host is `fritz.box` as `url::Host::parse` reads it.
    fn default() -> (g: Self)
        ensures
            g.port == DEFAULT_HOSTPORT,
            g.scheme == Scheme::HTTP,
            g.root_url@ == DEFAULT_ROOT_URL@,
            match url_host_parse(DEFAULT_HOSTNAME@) {
                Ok(h) => g.host@ == h,
                Err(_) => g.host@ == HostView::Domain(DEFAULT_HOSTNAME@),
            },
    {
        let host = match parse_host(DEFAULT_HOSTNAME) {
            Ok(h) => h,
            Err(_) => HostName::Domain(DEFAULT_HOSTNAME.to_string()),
        };
        Gateway {
            host,
            port: DEFAULT_HOSTPORT,
            scheme: Scheme::HTTP,
            root_url: DEFAULT_ROOT_URL.to_string(),
        }
    }
}

impl Gateway {
    /// Create a new gateway builder.
    pub fn builder() -> (b: GatewayBuilder<NoHost, NoRootUrl, NotSealed>)
        ensures
            b.host_part() == NoHost,
            b.port_part() == DEFAULT_HOSTPORT,
            b.scheme_part() == Scheme::HTTP,
            b.root_url_part() == NoRootUrl,
    {
        GatewayBuilder::new()
    }

    /// The gateway that a search response names in its `LOCATION` line:
    /// the response is decoded as UTF-8 and searched as
    /// [`parse_search_response`] does.
    pub fn from_search_response(response: &[u8]) -> (res: Result<Gateway, Error>)
        ensures
            !vstd::utf8::valid_utf8(response@) <==> res matches Err(Error::Utf8StrError(_)),
            vstd::utf8::valid_utf8(response@) ==> {
                let message = vstd::utf8::decode_utf8(response@);
                match search_result(message) {
                    Some(p) => res matches Ok(g) && g@ == gateway_of(p),
                    None => res matches Err(Error::SearchError(m)) && m@ == message,
                }
            },
    {
        let text = match str_from_utf8(response) {
            Ok(t) => t,
            Err(e) => return Err(Error::Utf8StrError(e)),
        };
        let (scheme, host, port, root_url) = parse_search_response(text)?;
        Ok(Gateway { host, port, scheme, root_url })
    }
}

/// The gateway made of the parts that a search found.
pub open spec fn gateway_of(p: (Scheme, HostView, u16, Seq<char>)) -> GatewayView {
    GatewayView { host: p.1, port: p.2, scheme: p.0, root_url: p.3 }
}

/// Builds a [`Gateway`]; `H`, `U` and `S` record whether a host and a root
/// URL were given and whether the builder is sealed.
#[derive(Debug, Default)]
pub struct GatewayBuilder<H, U, S> {
    host: H,
    port: u16,
    scheme: Scheme,
    root_url: U,
    marker_seal: PhantomData<S>,
}

// region:    --- GatewayBuilder States
#[derive(Clone, Debug, Default)]
pub struct Sealed;

#[derive(Clone, Debug, Default)]
pub struct NotSealed;

#[derive(Clone, Debug, Default)]
pub struct NoHost;

#[derive(Debug, Default)]
pub struct WithHost(String);

#[derive(Clone, Debug, Default)]
pub struct NoRootUrl;

#[derive(Debug, Default)]
pub struct WithRootUrl(String);

// endregion: --- GatewayBuilder States

impl View for WithHost {
    type V = Seq<char>;

    closed spec fn view(&self) -> Seq<char> {
        self.0@
    }
}

impl Clone for WithHost {
    fn clone(&self) -> (c: Self)
        ensures
            c@ == self@,
    {
        WithHost(self.0.clone())
    }
}

impl Clone for WithRootUrl {
    fn clone(&self) -> (c: Self)
        ensures
            c@ == self@,
    {
        WithRootUrl(self.0.clone())
    }
}

impl View for WithRootUrl {
    type V = Seq<char>;

    closed spec fn view(&self) -> Seq<char> {
        self.0@
    }
}

impl<H: Clone, U: Clone, S> Clone for GatewayBuilder<H, U, S> {
    fn clone(&self) -> (b: Self)
        ensures
            cloned::<H>(self.host_part(), b.host_part()),
            b.port_part() == self.port_part(),
            b.scheme_part() == self.scheme_part(),
            cloned::<U>(self.root_url_part(), b.root_url_part()),
    {
        GatewayBuilder {
            host: self.host.clone(),
            port: self.port,
            scheme: self.scheme,
            root_url: self.root_url.clone(),
            marker_seal: PhantomData,
        }
    }
}

impl<H, U, S> GatewayBuilder<H, U, S> {
    /// The host given so far (a marker, or the host text).
    pub closed spec fn host_part(&self) -> H {
        self.host
    }

    pub closed spec fn port_part(&self) -> u16 {
        self.port
    }

    pub closed spec fn scheme_part(&self) -> Scheme {
        self.scheme
    }

    /// The root URL given so far (a marker, or the URL text).
    pub closed spec fn root_url_part(&self) -> U {
        self.root_url
    }
}

impl GatewayBuilder<NoHost, NoRootUrl, NotSealed> {
    /// Create a new gateway builder.
    pub fn new() -> (b: Self)
        ensures
            b.host_part() == NoHost,
            b.port_part() == DEFAULT_HOSTPORT,
            b.scheme_part() == Scheme::HTTP,
            b.root_url_part() == NoRootUrl,
    {
        Self {
            host: NoHost,
            port: DEFAULT_HOSTPORT,
            scheme: Scheme::HTTP,
            root_url: NoRootUrl,
            marker_seal: PhantomData,
        }
    }
}

impl<U, M> GatewayBuilder<U, M, NotSealed> {
    /// Seal builder and prevent further modifications.
    ///
    /// Builder can still be cloned afterwards to call the `build` method multiple times.
    pub fn seal(self) -> (b: GatewayBuilder<U, M, Sealed>)
        ensures
            b.host_part() == self.host_part(),
            b.port_part() == self.port_part(),
            b.scheme_part() == self.scheme_part(),
            b.root_url_part() == self.root_url_part(),
    {
        GatewayBuilder {
            host: self.host,
            port: self.port,
            scheme: self.scheme,
            root_url: self.root_url,
            marker_seal: PhantomData,
        }
    }
}

/// The gateway that a builder with the given host text, port, scheme and
/// root URL builds, or the error with which `url::Host::parse` refuses the
/// host.
pub open spec fn built_gateway(host: Seq<char>, port: u16, scheme: Scheme, root_url: Seq<char>) -> Result<
    GatewayView,
    url::ParseError,
> {
    match url_host_parse(host) {
        Ok(h) => Ok(GatewayView { host: h, port, scheme, root_url }),
        Err(e) => Err(e),
    }
}

/// A builder that holds a host and a root URL builds the same gateway as
/// its clone: a sealed builder can be cloned to build a gateway many times.
pub proof fn lemma_clone_builds_same<S>(
    b: GatewayBuilder<WithHost, WithRootUrl, S>,
    c: GatewayBuilder<WithHost, WithRootUrl, S>,
)
    requires
        cloned::<WithHost>(b.host_part(), c.host_part()),
        c.port_part() == b.port_part(),
        c.scheme_part() == b.scheme_part(),
        cloned::<WithRootUrl>(b.root_url_part(), c.root_url_part()),
    ensures
        built_gateway(c.host_part()@, c.port_part(), c.scheme_part(), c.root_url_part()@)
            == built_gateway(b.host_part()@, b.port_part(), b.scheme_part(), b.root_url_part()@),
{
}

impl<S> GatewayBuilder<WithHost, WithRootUrl, S> {
    /// Create a gateway with given builder options.
    pub fn build(self) -> (res: Result<Gateway, Error>)
        ensures
            match built_gateway(
                self.host_part()@,
                self.port_part(),
                self.scheme_part(),
                self.root_url_part()@,
            ) {
                Ok(g) => res matches Ok(r) && r@ == g,
                Err(e) => res matches Err(Error::UrlParseError(e2)) && e2 == e,
            },
    {
        let host = parse_host(self.host.0.as_str());
        self.build_from_host(host)
    }

    /// The gateway that the builder's options give once its host text has
    /// been read as `host`: a refused host is a `UrlParseError` with the
    /// error of the reading.
    pub fn build_from_host(self, host: Result<HostName, url::ParseError>) -> (res: Result<
        Gateway,
        Error,
    >)
        ensures
            match host {
                Ok(h) => res matches Ok(g) && g@ == (GatewayView {
                    host: h@,
                    port: self.port_part(),
                    scheme: self.scheme_part(),
                    root_url: self.root_url_part()@,
                }),
                Err(e) => res matches Err(Error::UrlParseError(e2)) && e2 == e,
            },
    {
        match host {
            Ok(host) => Ok(
                Gateway { host, port: self.port, scheme: self.scheme, root_url: self.root_url.0 },
            ),
            Err(e) => Err(Error::UrlParseError(e)),
        }
    }
}

impl<H, U> GatewayBuilder<H, U, NotSealed> {
    /// Gateway hostname (`fritz.box`), IPv4 address (`192.168.178.1`) or IPv6 address (`[1234:5678:90ab::10a]`).
    pub fn host(self, host: &str) -> (b: GatewayBuilder<WithHost, U, NotSealed>)
        ensures
            b.host_part()@ == host@,
            b.port_part() == self.port_part(),
            b.scheme_part() == self.scheme_part(),
            b.root_url_part() == self.root_url_part(),
    {
        GatewayBuilder {
            host: WithHost(host.to_string()),
            port: self.port,
            scheme: self.scheme,
            root_url: self.root_url,
            marker_seal: PhantomData,
        }
    }

    /// Gateway UPnP port.
    pub fn port(self, port: u16) -> (b: Self)
        ensures
            b.host_part() == self.host_part(),
            b.port_part() == port,
            b.scheme_part() == self.scheme_part(),
            b.root_url_part() == self.root_url_part(),
    {
        let mut b = self;
        b.port = port;
        b
    }

    /// Gateway UPnP protocol scheme.
    pub fn scheme(self, scheme: Scheme) -> (b: Self)
        ensures
            b.host_part() == self.host_part(),
            b.port_part() == self.port_part(),
            b.scheme_part() == scheme,
            b.root_url_part() == self.root_url_part(),
    {
        let mut b = self;
        b.scheme = scheme;
        b
    }

    /// Location to XML with api description.
    pub fn root_url(self, root_url: &str) -> (b: GatewayBuilder<H, WithRootUrl, NotSealed>)
        ensures
            b.host_part() == self.host_part(),
            b.port_part() == self.port_part(),
            b.scheme_part() == self.scheme_part(),
            b.root_url_part()@ == root_url@,
    {
        GatewayBuilder {
            host: self.host,
            port: self.port,
            scheme: self.scheme,
            root_url: WithRootUrl(root_url.to_string()),
            marker_seal: PhantomData,
        }
    }
}

// region:    --- SSDP search

pub const SEARCH_REQUEST_HEAD: &'static str = "M-SEARCH * HTTP/1.1\nHost: ";

pub const SEARCH_REQUEST_TAIL: &'static str =
    "\nMan: \"ssdp:discover\"\nST: urn:schemas-upnp-org:device:InternetGatewayDevice:1\nMX: 2\n\n";

/// The SSDP `M-SEARCH` request for Internet Gateway Devices sent to the
/// given broadcast address.
pub open spec fn search_request_text(broadcast_address: Seq<char>) -> Seq<char> {
    SEARCH_REQUEST_HEAD@ + broadcast_address + SEARCH_REQUEST_TAIL@
}

/// The SSDP `M-SEARCH` request for Internet Gateway Devices, addressed to
/// `broadcast_address` (as `Display` of the socket address prints it).
pub fn search_request(broadcast_address: &str) -> (s: String)
    ensures
        s@ == search_request_text(broadcast_address@),
{
    let mut s = SEARCH_REQUEST_HEAD.to_string();
    s.append(broadcast_address);
    s.append(SEARCH_REQUEST_TAIL);
    s
}

/// The index where the line that starts at `i` ends: the next `'\n'`, or
/// the end of the text.
pub open spec fn line_end(s: Seq<char>, i: int) -> int
    decreases s.len() - i,
{
    if i >= s.len() {
        s.len() as int
    } else if s[i] == '\n' {
        i
    } else {
        line_end(s, i + 1)
    }
}

pub proof fn lemma_line_end_bounds(s: Seq<char>, i: int)
    requires
        0 <= i <= s.len(),
    ensures
        i <= line_end(s, i) <= s.len(),
        line_end(s, i) < s.len() ==> s[line_end(s, i)] == '\n',
        forall|k: int| i <= k < line_end(s, i) ==> s[k] != '\n',
    decreases s.len() - i,
{
    if i < s.len() && s[i] != '\n' {
        lemma_line_end_bounds(s, i + 1);
    }
}

/// `location:`, the key of the search response line that names the gateway.
pub open spec fn location_key() -> Seq<char> {
    seq!['l', 'o', 'c', 'a', 't', 'i', 'o', 'n', ':']
}

/// The code of a character once ASCII upper case letters are lowered.
pub open spec fn ascii_lower_code(c: char) -> u32 {
    if 65 <= c as u32 <= 90 {
        (c as u32 + 32) as u32
    } else {
        c as u32
    }
}

/// The (trimmed) line starts with `location:`, in any ASCII case.
pub open spec fn is_location_line(line: Seq<char>) -> bool {
    &&& line.len() >= 9
    &&& forall|i: int| 0 <= i < 9 ==> ascii_lower_code(#[trigger] line[i]) == location_key()[i] as u32
}

/// The URL text of the first line, from `start` on, that starts with
/// `location:` (in any ASCII case) once trimmed: what follows the colon,
/// trimmed. Lines end at `'\n'`; a `'\r'` before it is whitespace and goes
/// with the trimming, as with `str::lines`.
pub open spec fn location_value(s: Seq<char>, start: int) -> Option<Seq<char>>
    decreases s.len() - start,
{
    if 0 <= start <= s.len() {
        let end = line_end(s, start);
        let line = trim(s.subrange(start, end));
        if is_location_line(line) {
            Some(trim(line.subrange(9, line.len() as int)))
        } else if end >= s.len() {
            None
        } else {
            proof {
                lemma_line_end_bounds(s, start);
            }
            location_value(s, end + 1)
        }
    } else {
        None
    }
}

/// `"http"`.
pub open spec fn http_scheme_name() -> Seq<char> {
    seq!['h', 't', 't', 'p']
}

/// The scheme, host, port and path that a parsed location URL gives a
/// gateway: `None` where the URL has no host or no port (neither explicit
/// nor known for its scheme). A scheme other than `http` counts as HTTPS.
pub open spec fn location_parts(u: LocationUrlView) -> Option<(Scheme, HostView, u16, Seq<char>)> {
    match (u.host, u.port) {
        (Some(h), Some(p)) => Some(
            (if u.scheme == http_scheme_name() {
                Scheme::HTTP
            } else {
                Scheme::HTTPS
            }, h, p, u.path),
        ),
        _ => None,
    }
}

/// What a search response yields: the parts of the gateway that its first
/// `LOCATION` line names, or `None` where it has no such line or the URL
/// there does not parse or lacks a host or port.
pub open spec fn search_result(message: Seq<char>) -> Option<(Scheme, HostView, u16, Seq<char>)> {
    match location_value(message, 0) {
        Some(text) => match url_parse_parts(text) {
            Some(u) => location_parts(u),
            None => None,
        },
        None => None,
    }
}

/// The parts of `(scheme, host, port, path)` as values.
pub open spec fn parts_view(r: (Scheme, HostName, u16, String)) -> (Scheme, HostView, u16, Seq<char>) {
    (r.0, r.1@, r.2, r.3@)
}

/// The gateway parts that the location URL of a search response gives, or
/// `SearchError` with the response where the URL did not parse or has no
/// host or port.
pub fn gateway_parts_from_location(message: &str, url: Option<LocationUrl>) -> (res: Result<
    (Scheme, HostName, u16, String),
    Error,
>)
    ensures
        match url {
            Some(u) => match location_parts(u@) {
                Some(p) => res matches Ok(r) && parts_view(r) == p,
                None => res matches Err(Error::SearchError(m)) && m@ == message@,
            },
            None => res matches Err(Error::SearchError(m)) && m@ == message@,
        },
{
    match url {
        Some(u) => {
            let http = "http".to_string();
            proof {
                reveal_strlit("http");
            }
            assert(http@ =~= http_scheme_name());
            let scheme = if u.scheme == http {
                Scheme::HTTP
            } else {
                Scheme::HTTPS
            };
            match (u.host, u.port) {
                (Some(h), Some(p)) => Ok((scheme, h, p, u.path)),
                _ => Err(Error::SearchError(message.to_string())),
            }
        },
        None => Err(Error::SearchError(message.to_string())),
    }
}

/// Whether the trimmed line `s[lo..hi]` starts with `location:` in any
/// ASCII case.
fn is_location_at(s: &str, lo: usize, hi: usize) -> (b: bool)
    requires
        lo <= hi <= s@.len(),
    ensures
        b == is_location_line(s@.subrange(lo as int, hi as int)),
{
    if hi - lo < 9 {
        return false;
    }
    let key = ['l', 'o', 'c', 'a', 't', 'i', 'o', 'n', ':'];
    assert(key@ == location_key());
    let mut i: usize = 0;
    while i < 9
        invariant
            i <= 9,
            lo + 9 <= hi <= s@.len(),
            key@ == location_key(),
            forall|k: int|
                0 <= k < i ==> ascii_lower_code(#[trigger] s@.subrange(lo as int, hi as int)[k])
                    == location_key()[k] as u32,
        decreases 9 - i,
    {
        let c = s.get_char(lo + i);
        let u = c as u32;
        let lower = if 65 <= u && u <= 90 {
            u + 32
        } else {
            u
        };
        if lower != key[i] as u32 {
            assert(s@.subrange(lo as int, hi as int)[i as int] == c);
            return false;
        }
        assert(s@.subrange(lo as int, hi as int)[i as int] == c);
        i = i + 1;
    }
    true
}

/// Read an SSDP search response: the first line that starts with
/// `location:` (in any ASCII case) names the gateway's description URL,
/// which gives the scheme, host, port and root URL of the gateway.
pub fn parse_search_response(message: &str) -> (res: Result<(Scheme, HostName, u16, String), Error>)
    ensures
        match search_result(message@) {
            Some(p) => res matches Ok(r) && parts_view(r) == p,
            None => res matches Err(Error::SearchError(m)) && m@ == message@,
        },
{
    let n = message.unicode_len();
    let mut start: usize = 0;
    loop
        invariant
            n == message@.len(),
            start <= n,
            location_value(message@, 0) == location_value(message@, start as int),
        decreases n - start,
    {
        let mut end = start;
        while end < n && message.get_char(end) != '\n'
            invariant
                n == message@.len(),
                start <= end <= n,
                line_end(message@, start as int) == line_end(message@, end as int),
            decreases n - end,
        {
            end = end + 1;
        }
        assert(line_end(message@, end as int) == end);
        let (lo, hi) = trim_range(message, start, end);
        let ghost line = trim(message@.subrange(start as int, end as int));
        if is_location_at(message, lo, hi) {
            let (a, b) = trim_range(message, lo + 9, hi);
            assert(message@.subrange(lo + 9, hi as int) =~= line.subrange(9, line.len() as int));
            let text = message.substring_char(a, b);
            let url = parse_location_url(text);
            return gateway_parts_from_location(message, url);
        }
        if end >= n {
            return Err(Error::SearchError(message.to_string()));
        }
        start = end + 1;
    }
}

// endregion: --- SSDP search

} // verus!
