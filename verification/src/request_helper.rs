//! UPnP hosts named by a host name, and the requests that talk to them.
use crate::gateway::GatewayView;
use crate::host::host_text;
use crate::request::{
    endpoint_url_text, envelope_text, header_map_entries, header_map_new, header_map_try_insert,
    header_value_valid, insert_soap_action_header, lemma_fixed_header_values_valid,
    lemma_header_names_ok, soap_action_header_value, HttpMethod, HttpRequest, HttpRequestView,
    CONTENT_TYPE_HEADER, CONTENT_TYPE_VALUE, HOST_HEADER, SOAP_ACTION_HEADER, USER_AGENT_HEADER,
    USER_AGENT_VALUE,
};
use crate::text::{decimal, u64_to_decimal};
use vstd::prelude::*;

verus! {

pub const DEFAULT_HOST: &'static str = "fritz.box:49000";

pub const DEFAULT_HOST_NAME: &'static str = "fritz.box";

pub const DEFAULT_HOST_PORT: u16 = 49000;

/// Protocol schema used to talk to a UPnP host.
#[derive(Clone, Copy, Debug, PartialEq, Eq, Structural)]
pub enum Schema {
    HTTP,
    HTTPS,
}

impl Default for Schema {
    fn default() -> (s: Self)
        ensures
            s == Schema::HTTP,
    {
        Schema::HTTP
    }
}

/// A UPnP host: name, port and schema.
#[derive(Debug, PartialEq)]
pub struct UpnpHost {
    name: String,
    port: u16,
    schema: Schema,
}

/// The mathematical value of a [`UpnpHost`].
pub struct UpnpHostView {
    pub name: Seq<char>,
    pub port: u16,
    pub schema: Schema,
}

impl View for UpnpHost {
    type V = UpnpHostView;

    closed spec fn view(&self) -> UpnpHostView {
        UpnpHostView { name: self.name@, port: self.port, schema: self.schema }
    }
}

impl Clone for UpnpHost {
    fn clone(&self) -> (h: Self)
        ensures
            h@ == self@,
    {
        UpnpHost { name: self.name.clone(), port: self.port, schema: self.schema }
    }
}

impl Default for UpnpHost {
    /// `fritz.box`, port 49000, HTTP.
    fn default() -> (h: Self)
        ensures
            h@ == (UpnpHostView { name: DEFAULT_HOST_NAME@, port: DEFAULT_HOST_PORT, schema: Schema::HTTP }),
    {
        UpnpHost { name: DEFAULT_HOST_NAME.to_string(), port: DEFAULT_HOST_PORT, schema: Schema::HTTP }
    }
}

impl UpnpHost {
    pub fn builder() -> (b: UpnpHostBuilder)
        ensures
            b@ == (UpnpHostView { name: DEFAULT_HOST_NAME@, port: DEFAULT_HOST_PORT, schema: Schema::HTTP }),
    {
        UpnpHostBuilder::new()
    }
}

/// Builds a [`UpnpHost`], starting from the default one.
#[derive(Debug)]
pub struct UpnpHostBuilder {
    host: UpnpHost,
}

impl View for UpnpHostBuilder {
    type V = UpnpHostView;

    closed spec fn view(&self) -> UpnpHostView {
        self.host@
    }
}

impl Clone for UpnpHostBuilder {
    fn clone(&self) -> (b: Self)
        ensures
            b@ == self@,
    {
        UpnpHostBuilder { host: self.host.clone() }
    }
}

impl Default for UpnpHostBuilder {
    fn default() -> (b: Self)
        ensures
            b@ == (UpnpHostView { name: DEFAULT_HOST_NAME@, port: DEFAULT_HOST_PORT, schema: Schema::HTTP }),
    {
        UpnpHostBuilder { host: UpnpHost::default() }
    }
}

impl UpnpHostBuilder {
    pub fn new() -> (b: Self)
        ensures
            b@ == (UpnpHostView { name: DEFAULT_HOST_NAME@, port: DEFAULT_HOST_PORT, schema: Schema::HTTP }),
    {
        let builder: Self = UpnpHostBuilder::default();
        builder
    }

    pub fn name(self, name: &str) -> (b: Self)
        ensures
            b@ == (UpnpHostView { name: name@, ..self@ }),
    {
        let mut b = self;
        b.host.name = name.to_string();
        b
    }

    pub fn port(self, port: u16) -> (b: Self)
        ensures
            b@ == (UpnpHostView { port, ..self@ }),
    {
        let mut b = self;
        b.host.port = port;
        b
    }

    pub fn schema(self, schema: Schema) -> (b: Self)
        ensures
            b@ == (UpnpHostView { schema, ..self@ }),
    {
        let mut b = self;
        b.host.schema = schema;
        b
    }

    pub fn build(&self) -> (h: UpnpHost)
        ensures
            h@ == self@,
    {
        self.host.clone()
    }
}

/// `host:port` of a UPnP host.
pub open spec fn upnp_address(h: UpnpHostView) -> Seq<char> {
    h.name + ":"@ + decimal(h.port as nat)
}

/// `http://` or `https://`.
pub open spec fn schema_prefix(schema: Schema) -> Seq<char> {
    match schema {
        Schema::HTTP => "http://"@,
        Schema::HTTPS => "https://"@,
    }
}

/// The URL of `endpoint` on a UPnP host.
pub open spec fn upnp_endpoint_url(h: UpnpHostView, endpoint: Seq<char>) -> Seq<char> {
    schema_prefix(h.schema) + upnp_address(h) + endpoint
}

/// The `Host` header's value: the host's address, or `fritz.box:49000`
/// where the address is no valid header value.
pub open spec fn upnp_host_header_value(h: UpnpHostView) -> Seq<char> {
    if header_value_valid(upnp_address(h)) {
        upnp_address(h)
    } else {
        DEFAULT_HOST@
    }
}

/// The headers sent with every request to a UPnP host.
pub open spec fn upnp_headers(h: UpnpHostView) -> Map<Seq<char>, Seq<char>> {
    Map::<Seq<char>, Seq<char>>::empty().insert(USER_AGENT_HEADER@, USER_AGENT_VALUE@).insert(
        CONTENT_TYPE_HEADER@,
        CONTENT_TYPE_VALUE@,
    ).insert(HOST_HEADER@, upnp_host_header_value(h))
}

fn upnp_address_string(host: &UpnpHost) -> (s: String)
    ensures
        s@ == upnp_address(host@),
{
    let mut s = host.name.clone();
    s.append(":");
    s.append(u64_to_decimal(host.port as u64).as_str());
    s
}

/// The headers sent with every request: user agent, content type, and the
/// host's address as `Host` (`fritz.box:49000` where the address is no
/// valid header value).
pub fn default_headers(host: &UpnpHost) -> (h: reqwest::header::HeaderMap)
    ensures
        header_map_entries(h) == upnp_headers(host@),
{
    proof {
        lemma_header_names_ok();
        lemma_fixed_header_values_valid();
        reveal_strlit("fritz.box:49000");
    }
    let mut h = header_map_new();
    header_map_try_insert(&mut h, USER_AGENT_HEADER, USER_AGENT_VALUE);
    header_map_try_insert(&mut h, CONTENT_TYPE_HEADER, CONTENT_TYPE_VALUE);
    let address = upnp_address_string(host);
    if !header_map_try_insert(&mut h, HOST_HEADER, address.as_str()) {
        header_map_try_insert(&mut h, HOST_HEADER, DEFAULT_HOST);
    }
    h
}

/// The URL of `endpoint` on the host.
pub fn endpoint_url(host: &UpnpHost, endpoint: &str) -> (s: String)
    ensures
        s@ == upnp_endpoint_url(host@, endpoint@),
{
    let mut s = match host.schema {
        Schema::HTTP => "http://".to_string(),
        Schema::HTTPS => "https://".to_string(),
    };
    s.append(upnp_address_string(host).as_str());
    s.append(endpoint);
    assert(s@ =~= upnp_endpoint_url(host@, endpoint@));
    s
}

/// The SOAP envelope that calls `action_name` of the service `service_type`.
pub fn build_envelope(service_type: &str, action_name: &str) -> (s: String)
    ensures
        s@ == envelope_text(service_type@, action_name@),
{
    crate::request::build_envelope(service_type, action_name)
}

/// The `GET` request for the XML document at `endpoint`.
pub fn api_xml_request(host: &UpnpHost, endpoint: &str) -> (r: HttpRequest)
    ensures
        r@ == (HttpRequestView {
            method: HttpMethod::Get,
            url: upnp_endpoint_url(host@, endpoint@),
            headers: upnp_headers(host@),
            body: None,
        }),
{
    HttpRequest {
        method: HttpMethod::Get,
        url: endpoint_url(host, endpoint),
        headers: default_headers(host),
        body: None,
    }
}

/// The `POST` request that calls `action` of the service `service_type` at
/// the control URL `endpoint`.
pub fn soap_action_request(host: &UpnpHost, endpoint: &str, service_type: &str, action: &str) -> (r:
    HttpRequest)
    ensures
        r@ == (HttpRequestView {
            method: HttpMethod::Post,
            url: upnp_endpoint_url(host@, endpoint@),
            headers: upnp_headers(host@).insert(
                SOAP_ACTION_HEADER@,
                soap_action_header_value(service_type@, action@),
            ),
            body: Some(envelope_text(service_type@, action@)),
        }),
{
    let mut headers = default_headers(host);
    insert_soap_action_header(&mut headers, service_type, action);
    HttpRequest {
        method: HttpMethod::Post,
        url: endpoint_url(host, endpoint),
        headers,
        body: Some(build_envelope(service_type, action)),
    }
}

/// Every header that a request to a UPnP host carries has a value that
/// `HeaderValue::from_str` accepts: a `Host` value that would be refused is
/// replaced by `fritz.box:49000`.
pub proof fn lemma_upnp_headers_valid(h: UpnpHostView)
    ensures
        forall|name: Seq<char>|
            #[trigger] upnp_headers(h).dom().contains(name) ==> header_value_valid(
                upnp_headers(h)[name],
            ),
{
    lemma_fixed_header_values_valid();
    reveal_strlit("fritz.box:49000");
}

/// A UPnP host and a gateway that name the same host (the gateway's host
/// as it prints), port and protocol give every endpoint the same URL.
pub proof fn lemma_endpoint_urls_agree(h: UpnpHostView, g: GatewayView, endpoint: Seq<char>)
    requires
        h.name == host_text(g.host),
        h.port == g.port,
        (h.schema == Schema::HTTP) == (g.scheme == crate::Scheme::HTTP),
    ensures
        upnp_endpoint_url(h, endpoint) == endpoint_url_text(g, endpoint),
{
}

} // verus!
