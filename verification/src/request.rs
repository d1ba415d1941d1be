//! The HTTP requests that talk to a gateway, and how their responses are
//! judged. The requests are plain values; sending them is the caller's I/O.
use crate::error::Error;
use crate::gateway::{Gateway, GatewayView, DEFAULT_HOSTNAME};
use crate::host::host_text;
use crate::text::{decimal, string_from_utf8, u64_to_decimal};
use crate::Scheme;
use vstd::prelude::*;

verus! {

pub const ENVELOPE_HEAD: &'static str = "\n            <?xml version=\"1.0\"?>\n            <soap:Envelope\n                xmlns:soap=\"http://schemas.xmlsoap.org/soap/envelope/\"\n                soap:encodingStyle=\"http://schemas.xmlsoap.org/soap/encoding/\"\n            >\n                <soap:Header></soap:Header>\n                <soap:Body>\n                    <u:";

pub const ENVELOPE_NAMESPACE: &'static str = " xmlns:u=\"";

pub const ENVELOPE_CLOSE: &'static str = "\"></u:";

pub const ENVELOPE_TAIL: &'static str = ">\n                </soap:Body>\n            </soap:Envelope>\n        ";

pub const USER_AGENT_HEADER: &'static str = "user-agent";

pub const USER_AGENT_VALUE: &'static str = "AVM UPnP/1.0 Client 1.0";

pub const CONTENT_TYPE_HEADER: &'static str = "content-type";

pub const CONTENT_TYPE_VALUE: &'static str =
    "text/xml; charset=\"utf-8\" User-Agent: AVM UPnP/1.0 Client 1.0";

pub const HOST_HEADER: &'static str = "host";

pub const SOAP_ACTION_HEADER: &'static str = "soapaction";

/// The SOAP envelope that calls `action_name` of the service `service_type`.
pub open spec fn envelope_text(service_type: Seq<char>, action_name: Seq<char>) -> Seq<char> {
    ENVELOPE_HEAD@ + action_name + ENVELOPE_NAMESPACE@ + service_type + ENVELOPE_CLOSE@
        + action_name + ENVELOPE_TAIL@
}

/// The SOAP envelope that calls `action_name` of the service `service_type`.
pub fn build_envelope(service_type: &str, action_name: &str) -> (s: String)
    ensures
        s@ == envelope_text(service_type@, action_name@),
{
    let mut s = ENVELOPE_HEAD.to_string();
    s.append(action_name);
    s.append(ENVELOPE_NAMESPACE);
    s.append(service_type);
    s.append(ENVELOPE_CLOSE);
    s.append(action_name);
    s.append(ENVELOPE_TAIL);
    s
}

/// `http://` or `https://`.
pub open spec fn scheme_prefix(scheme: Scheme) -> Seq<char> {
    match scheme {
        Scheme::HTTP => "http://"@,
        Scheme::HTTPS => "https://"@,
    }
}

/// `host:port`, the gateway's address as `format!("{}:{}", host, port)`
/// prints it.
pub open spec fn gateway_address(g: GatewayView) -> Seq<char> {
    host_text(g.host) + ":"@ + decimal(g.port as nat)
}

/// The URL of `endpoint` on the gateway.
pub open spec fn endpoint_url_text(g: GatewayView, endpoint: Seq<char>) -> Seq<char> {
    scheme_prefix(g.scheme) + gateway_address(g) + endpoint
}

/// A character that HTTP header values may hold (`HeaderValue::from_str`
/// accepts the visible characters, space and tab).
pub open spec fn header_char_ok(c: char) -> bool {
    c == '\t' || (32 <= c as u32 && c as u32 != 127)
}

/// `HeaderValue::from_str` accepts the text.
pub open spec fn header_value_valid(s: Seq<char>) -> bool {
    forall|i: int| 0 <= i < s.len() ==> header_char_ok(#[trigger] s[i])
}

/// `reqwest::header::HeaderMap` (the `http` crate's header map).
#[verifier::external_type_specification]
#[verifier::external_body]
#[verifier::reject_recursive_types(T)]
pub struct ExHeaderMap<T>(reqwest::header::HeaderMap<T>);

/// `reqwest::header::HeaderValue`, the value of a header.
#[verifier::external_type_specification]
#[verifier::external_body]
pub struct ExHeaderValue(reqwest::header::HeaderValue);

/// What a header map holds: for each header name (in lower case), the text
/// of its first value.
pub uninterp spec fn header_map_entries(m: reqwest::header::HeaderMap) -> Map<Seq<char>, Seq<char>>;

/// A name that `HeaderName::from_static` accepts: lower-case ASCII letters
/// and `-`.
pub open spec fn header_name_ok(name: Seq<char>) -> bool {
    &&& 0 < name.len() < 1024
    &&& forall|i: int|
        0 <= i < name.len() ==> ((97 <= #[trigger] name[i] as u32 <= 122) || name[i] == '-')
}

/// Calls `HeaderMap::new`, which gives a map with no entries.
#[verifier::external_body]
pub(crate) fn header_map_new() -> (map: reqwest::header::HeaderMap)
    ensures
        header_map_entries(map) =~= Map::empty(),
{
    reqwest::header::HeaderMap::new()
}

/// Calls `HeaderMap::insert` with the name read by `HeaderName::from_static`
/// and the value read by `HeaderValue::from_str`. `insert` makes the value
/// the only one under the name. `from_str` refuses a text exactly when one
/// of its UTF-8 bytes is below 32 but for tab, or is 127 (the bytes of a
/// character beyond ASCII are all at least 128): then nothing is inserted
/// and the result is `false`. `from_static` panics on a name outside its
/// token characters, and `insert` on a map beyond its capacity: `requires`
/// leaves both out.
#[verifier::external_body]
pub(crate) fn header_map_try_insert(
    m: &mut reqwest::header::HeaderMap,
    name: &'static str,
    value: &str,
) -> (ok: bool)
    requires
        header_name_ok(name@),
        header_map_entries(*old(m)).dom().finite(),
        header_map_entries(*old(m)).dom().len() < 1024,
    ensures
        ok == header_value_valid(value@),
        ok ==> header_map_entries(*final(m)) == header_map_entries(*old(m)).insert(name@, value@),
        !ok ==> header_map_entries(*final(m)) == header_map_entries(*old(m)),
{
    match reqwest::header::HeaderValue::from_str(value) {
        Ok(v) => {
            m.insert(reqwest::header::HeaderName::from_static(name), v);
            true
        },
        Err(_) => false,
    }
}

/// The header names that requests carry are ones `HeaderName::from_static`
/// accepts.
pub proof fn lemma_header_names_ok()
    ensures
        header_name_ok(USER_AGENT_HEADER@),
        header_name_ok(CONTENT_TYPE_HEADER@),
        header_name_ok(HOST_HEADER@),
        header_name_ok(SOAP_ACTION_HEADER@),
{
    reveal_strlit("user-agent");
    reveal_strlit("content-type");
    reveal_strlit("host");
    reveal_strlit("soapaction");
}

/// A header list as values.
pub open spec fn headers_view(h: Seq<(String, String)>) -> Seq<(Seq<char>, Seq<char>)> {
    h.map_values(|p: (String, String)| (p.0@, p.1@))
}

/// The `Host` header's value: the gateway's address, or the default host
/// name where the address is no valid header value.
pub open spec fn host_header_value(g: GatewayView) -> Seq<char> {
    if header_value_valid(gateway_address(g)) {
        gateway_address(g)
    } else {
        DEFAULT_HOSTNAME@
    }
}

/// The headers sent with every request to the gateway.
pub open spec fn gateway_headers(g: GatewayView) -> Map<Seq<char>, Seq<char>> {
    Map::<Seq<char>, Seq<char>>::empty().insert(USER_AGENT_HEADER@, USER_AGENT_VALUE@).insert(
        CONTENT_TYPE_HEADER@,
        CONTENT_TYPE_VALUE@,
    ).insert(HOST_HEADER@, host_header_value(g))
}

/// `service_type#action`, the `SOAPACTION` of a call.
pub open spec fn soap_action_text(service_type: Seq<char>, action: Seq<char>) -> Seq<char> {
    service_type + "#"@ + action
}

/// The `SOAPACTION` header's value: `service_type#action`, or empty where
/// that is no valid header value.
pub open spec fn soap_action_header_value(service_type: Seq<char>, action: Seq<char>) -> Seq<char> {
    if header_value_valid(soap_action_text(service_type, action)) {
        soap_action_text(service_type, action)
    } else {
        Seq::empty()
    }
}

/// The HTTP method of a request.
#[derive(Clone, Copy, Debug, PartialEq, Eq, Structural)]
pub enum HttpMethod {
    Get,
    Post,
}

/// An HTTP request to send: method, URL, headers and body.
#[derive(Debug)]
pub struct HttpRequest {
    pub method: HttpMethod,
    pub url: String,
    pub headers: reqwest::header::HeaderMap,
    pub body: Option<String>,
}

/// The mathematical value of an [`HttpRequest`].
pub struct HttpRequestView {
    pub method: HttpMethod,
    pub url: Seq<char>,
    pub headers: Map<Seq<char>, Seq<char>>,
    pub body: Option<Seq<char>>,
}

impl View for HttpRequest {
    type V = HttpRequestView;

    open spec fn view(&self) -> HttpRequestView {
        HttpRequestView {
            method: self.method,
            url: self.url@,
            headers: header_map_entries(self.headers),
            body: match self.body {
                Some(b) => Some(b@),
                None => None,
            },
        }
    }
}

/// An HTTP request as the ESP-IDF client sends it: method, URL, headers
/// in the order they are written, and body.
#[derive(Debug)]
pub struct EspHttpRequest {
    pub method: HttpMethod,
    pub url: String,
    pub headers: Vec<(String, String)>,
    pub body: Option<String>,
}

/// The mathematical value of an [`EspHttpRequest`].
pub struct EspHttpRequestView {
    pub method: HttpMethod,
    pub url: Seq<char>,
    pub headers: Seq<(Seq<char>, Seq<char>)>,
    pub body: Option<Seq<char>>,
}

impl View for EspHttpRequest {
    type V = EspHttpRequestView;

    open spec fn view(&self) -> EspHttpRequestView {
        EspHttpRequestView {
            method: self.method,
            url: self.url@,
            headers: headers_view(self.headers@),
            body: match self.body {
                Some(b) => Some(b@),
                None => None,
            },
        }
    }
}

/// A header as a pair of strings.
pub fn header(name: &str, value: &str) -> (h: (String, String))
    ensures
        h.0@ == name@,
        h.1@ == value@,
{
    (name.to_string(), value.to_string())
}

impl Gateway {
    /// `host:port` of the gateway.
    pub fn address(&self) -> (s: String)
        ensures
            s@ == gateway_address(self@),
    {
        let mut s = self.host.to_text();
        s.append(":");
        s.append(u64_to_decimal(self.port as u64).as_str());
        s
    }

    /// The URL of `endpoint` on the gateway.
    pub fn endpoint_url(&self, endpoint: &str) -> (s: String)
        ensures
            s@ == endpoint_url_text(self@, endpoint@),
    {
        let mut s = match self.scheme {
            Scheme::HTTP => "http://".to_string(),
            Scheme::HTTPS => "https://".to_string(),
        };
        s.append(self.address().as_str());
        s.append(endpoint);
        assert(s@ =~= endpoint_url_text(self@, endpoint@));
        s
    }

    /// The headers sent with every request: user agent, content type, and
    /// the gateway's address as `Host` (the default host name where the
    /// address is no valid header value).
    pub fn default_headers(&self) -> (h: reqwest::header::HeaderMap)
        ensures
            header_map_entries(h) == gateway_headers(self@),
    {
        proof {
            lemma_header_names_ok();
            lemma_fixed_header_values_valid();
        }
        let mut h = header_map_new();
        header_map_try_insert(&mut h, USER_AGENT_HEADER, USER_AGENT_VALUE);
        header_map_try_insert(&mut h, CONTENT_TYPE_HEADER, CONTENT_TYPE_VALUE);
        let address = self.address();
        if !header_map_try_insert(&mut h, HOST_HEADER, address.as_str()) {
            header_map_try_insert(&mut h, HOST_HEADER, DEFAULT_HOSTNAME);
        }
        h
    }

    /// The `GET` request for the XML document at `endpoint`.
    pub fn api_xml_request(&self, endpoint: &str) -> (r: HttpRequest)
        ensures
            r@ == (HttpRequestView {
                method: HttpMethod::Get,
                url: endpoint_url_text(self@, endpoint@),
                headers: gateway_headers(self@),
                body: None,
            }),
    {
        HttpRequest {
            method: HttpMethod::Get,
            url: self.endpoint_url(endpoint),
            headers: self.default_headers(),
            body: None,
        }
    }

    /// The `POST` request that calls `action` of the service `service_type`
    /// at the control URL `endpoint`.
    pub fn action_request(&self, endpoint: &str, service_type: &str, action: &str) -> (r:
        HttpRequest)
        ensures
            r@ == (HttpRequestView {
                method: HttpMethod::Post,
                url: endpoint_url_text(self@, endpoint@),
                headers: gateway_headers(self@).insert(
                    SOAP_ACTION_HEADER@,
                    soap_action_header_value(service_type@, action@),
                ),
                body: Some(envelope_text(service_type@, action@)),
            }),
    {
        let mut headers = self.default_headers();
        insert_soap_action_header(&mut headers, service_type, action);
        HttpRequest {
            method: HttpMethod::Post,
            url: self.endpoint_url(endpoint),
            headers,
            body: Some(build_envelope(service_type, action)),
        }
    }
}

/// Set the `SOAPACTION` header of a call: `service_type#action`, or empty
/// where that is no valid header value.
pub fn insert_soap_action_header(
    headers: &mut reqwest::header::HeaderMap,
    service_type: &str,
    action: &str,
)
    requires
        header_map_entries(*old(headers)).dom().finite(),
        header_map_entries(*old(headers)).dom().len() < 1000,
    ensures
        header_map_entries(*final(headers)) == header_map_entries(*old(headers)).insert(
            SOAP_ACTION_HEADER@,
            soap_action_header_value(service_type@, action@),
        ),
{
    proof {
        lemma_header_names_ok();
        lemma_fixed_header_values_valid();
    }
    let mut text = service_type.to_string();
    text.append("#");
    text.append(action);
    proof {
        reveal_strlit("");
        assert(""@ =~= Seq::<char>::empty());
        assert(text@ =~= soap_action_text(service_type@, action@));
    }
    if !header_map_try_insert(headers, SOAP_ACTION_HEADER, text.as_str()) {
        header_map_try_insert(headers, SOAP_ACTION_HEADER, "");
    }
}

/// Judge a response: its body where the status is a success (`200..=299`,
/// as `StatusCode::is_success`), else `StatusCodeError` with the status and
/// the body.
pub fn check_response(status_code: u16, body: String) -> (res: Result<String, Error>)
    ensures
        200 <= status_code <= 299 ==> (res matches Ok(b) && b@ == body@),
        !(200 <= status_code <= 299) ==> (res matches Err(
            Error::StatusCodeError { status_code: s, message: m },
        ) && s == status_code && m@ == body@),
{
    if 200 <= status_code && status_code <= 299 {
        Ok(body)
    } else {
        Err(Error::StatusCodeError { status_code, message: body })
    }
}

/// The headers of a request to a gateway: exactly `user-agent`,
/// `content-type` and `host`, with the AVM client's user agent, the XML
/// content type, and as `host` the gateway's `host:port` (its host as it
/// prints, then its port in decimal) or, where that is no valid header
/// value, the default host name. An action call adds `soapaction` with
/// `service_type#action`, or an empty value where that is not valid.
pub proof fn lemma_gateway_headers_values(g: GatewayView, service_type: Seq<char>, action: Seq<char>)
    ensures
        gateway_headers(g).dom() == set![USER_AGENT_HEADER@, CONTENT_TYPE_HEADER@, HOST_HEADER@],
        gateway_headers(g)[USER_AGENT_HEADER@] == USER_AGENT_VALUE@,
        gateway_headers(g)[CONTENT_TYPE_HEADER@] == CONTENT_TYPE_VALUE@,
        header_value_valid(host_text(g.host) + ":"@ + decimal(g.port as nat)) ==> gateway_headers(
            g,
        )[HOST_HEADER@] == host_text(g.host) + ":"@ + decimal(g.port as nat),
        !header_value_valid(host_text(g.host) + ":"@ + decimal(g.port as nat)) ==> gateway_headers(
            g,
        )[HOST_HEADER@] == DEFAULT_HOSTNAME@,
        header_value_valid(service_type + "#"@ + action) ==> soap_action_header_value(
            service_type,
            action,
        ) == service_type + "#"@ + action,
        !header_value_valid(service_type + "#"@ + action) ==> soap_action_header_value(
            service_type,
            action,
        ) == Seq::<char>::empty(),
{
    lemma_header_names_ok();
    reveal_strlit("user-agent");
    reveal_strlit("content-type");
    reveal_strlit("host");
    assert(gateway_headers(g).dom() =~= set![USER_AGENT_HEADER@, CONTENT_TYPE_HEADER@, HOST_HEADER@]);
}

/// The fixed header values, and the default host name, are valid header
/// values.
pub proof fn lemma_fixed_header_values_valid()
    ensures
        header_value_valid(USER_AGENT_VALUE@),
        header_value_valid(CONTENT_TYPE_VALUE@),
        header_value_valid(DEFAULT_HOSTNAME@),
        header_value_valid(Seq::<char>::empty()),
{
    reveal_strlit("AVM UPnP/1.0 Client 1.0");
    reveal_strlit("text/xml; charset=\"utf-8\" User-Agent: AVM UPnP/1.0 Client 1.0");
    reveal_strlit("fritz.box");
}

/// Every header that a request to a gateway carries has a value that
/// `HeaderValue::from_str` accepts, whatever the gateway, service type and
/// action: a value that would be refused is replaced by a fallback.
pub proof fn lemma_request_headers_valid(g: GatewayView, service_type: Seq<char>, action: Seq<char>)
    ensures
        forall|name: Seq<char>|
            #[trigger] gateway_headers(g).dom().contains(name) ==> header_value_valid(
                gateway_headers(g)[name],
            ),
        header_value_valid(soap_action_header_value(service_type, action)),
{
    lemma_fixed_header_values_valid();
}

// region:    --- requests of the ESP-IDF HTTP client

pub const ESP_USER_AGENT_HEADER: &'static str = "User-Agent";

pub const ESP_CONTENT_TYPE_HEADER: &'static str = "Content-Type";

pub const ESP_HOST_HEADER: &'static str = "Host";

pub const ESP_SOAP_ACTION_HEADER: &'static str = "SOAPACTION";

pub const ESP_ACCEPT_HEADER: &'static str = "accept";

pub const ESP_ACCEPT_VALUE: &'static str = "text/xml";

pub const ESP_CONNECTION_HEADER: &'static str = "connection";

pub const ESP_CONNECTION_VALUE: &'static str = "close";

/// The headers that the ESP-IDF client sends: user agent, content type, the
/// gateway's address as `Host`, the `SOAPACTION` of a call if any, then
/// `accept: text/xml` and `connection: close`.
pub open spec fn esp_headers(g: GatewayView, soap_action: Option<Seq<char>>) -> Seq<(Seq<char>, Seq<char>)> {
    let head = seq![
        (ESP_USER_AGENT_HEADER@, USER_AGENT_VALUE@),
        (ESP_CONTENT_TYPE_HEADER@, CONTENT_TYPE_VALUE@),
        (ESP_HOST_HEADER@, gateway_address(g)),
    ];
    let head = match soap_action {
        Some(a) => head.push((ESP_SOAP_ACTION_HEADER@, a)),
        None => head,
    };
    head + seq![(ESP_ACCEPT_HEADER@, ESP_ACCEPT_VALUE@), (ESP_CONNECTION_HEADER@, ESP_CONNECTION_VALUE@)]
}

impl Gateway {
    /// The ESP-IDF client's headers, with the `SOAPACTION` of a call if any.
    pub fn esp_headers(&self, soap_action: Option<String>) -> (h: Vec<(String, String)>)
        ensures
            headers_view(h@) == esp_headers(
                self@,
                match soap_action {
                    Some(a) => Some(a@),
                    None => None,
                },
            ),
            h@.len() == if soap_action is Some { 6int } else { 5int },
            h@[2].0@ == ESP_HOST_HEADER@,
            h@[2].1@ == host_text(self@.host) + ":"@ + decimal(self@.port as nat),
            soap_action matches Some(a) ==> h@[3].0@ == ESP_SOAP_ACTION_HEADER@ && h@[3].1@ == a@,
    {
        let ghost action = match soap_action {
            Some(ref a) => Some(a@),
            None => None,
        };
        let mut h: Vec<(String, String)> = Vec::new();
        h.push(header(ESP_USER_AGENT_HEADER, USER_AGENT_VALUE));
        h.push(header(ESP_CONTENT_TYPE_HEADER, CONTENT_TYPE_VALUE));
        h.push((ESP_HOST_HEADER.to_string(), self.address()));
        match soap_action {
            Some(a) => h.push((ESP_SOAP_ACTION_HEADER.to_string(), a)),
            None => {},
        }
        h.push(header(ESP_ACCEPT_HEADER, ESP_ACCEPT_VALUE));
        h.push(header(ESP_CONNECTION_HEADER, ESP_CONNECTION_VALUE));
        assert(headers_view(h@) =~= esp_headers(self@, action));
        proof {
            lemma_esp_headers_layout(self@, action);
            assert(headers_view(h@)[2] == (h@[2].0@, h@[2].1@));
            assert(headers_view(h@)[3] == (h@[3].0@, h@[3].1@));
        }
        h
    }

    /// The `GET` request for the XML document at `endpoint`, as the ESP-IDF
    /// client sends it.
    pub fn esp_api_xml_request(&self, endpoint: &str) -> (r: EspHttpRequest)
        ensures
            r@ == (EspHttpRequestView {
                method: HttpMethod::Get,
                url: endpoint_url_text(self@, endpoint@),
                headers: esp_headers(self@, None),
                body: None,
            }),
    {
        EspHttpRequest {
            method: HttpMethod::Get,
            url: self.endpoint_url(endpoint),
            headers: self.esp_headers(None),
            body: None,
        }
    }

    /// The `POST` request that calls `action` of the service `service_type`
    /// at the control URL `endpoint`, as the ESP-IDF client sends it.
    pub fn esp_action_request(&self, endpoint: &str, service_type: &str, action: &str) -> (r:
        EspHttpRequest)
        ensures
            r@ == (EspHttpRequestView {
                method: HttpMethod::Post,
                url: endpoint_url_text(self@, endpoint@),
                headers: esp_headers(self@, Some(soap_action_text(service_type@, action@))),
                body: Some(envelope_text(service_type@, action@)),
            }),
    {
        let mut soap_action = service_type.to_string();
        soap_action.append("#");
        soap_action.append(action);
        EspHttpRequest {
            method: HttpMethod::Post,
            url: self.endpoint_url(endpoint),
            headers: self.esp_headers(Some(soap_action)),
            body: Some(build_envelope(service_type, action)),
        }
    }
}

/// The ESP-IDF client's header list, with or without the `SOAPACTION` of a
/// call: user agent first, content type second, and third the `Host`
/// header with the gateway's host and port, `host:port`, which does not
/// depend on whether the request calls an action; the `SOAPACTION` of a
/// call comes fourth; `accept: text/xml` and `connection: close` close the
/// list.
pub proof fn lemma_esp_headers_layout(g: GatewayView, soap_action: Option<Seq<char>>)
    ensures
        esp_headers(g, soap_action).len() == if soap_action is Some { 6int } else { 5int },
        esp_headers(g, soap_action)[0] == (ESP_USER_AGENT_HEADER@, USER_AGENT_VALUE@),
        esp_headers(g, soap_action)[1] == (ESP_CONTENT_TYPE_HEADER@, CONTENT_TYPE_VALUE@),
        esp_headers(g, soap_action)[2] == (
            ESP_HOST_HEADER@,
            host_text(g.host) + ":"@ + decimal(g.port as nat),
        ),
        esp_headers(g, soap_action)[2] == esp_headers(g, None)[2],
        soap_action matches Some(a) ==> esp_headers(g, soap_action)[3] == (
            ESP_SOAP_ACTION_HEADER@,
            a,
        ),
        esp_headers(g, soap_action)[esp_headers(g, soap_action).len() - 2] == (
            ESP_ACCEPT_HEADER@,
            ESP_ACCEPT_VALUE@,
        ),
        esp_headers(g, soap_action)[esp_headers(g, soap_action).len() - 1] == (
            ESP_CONNECTION_HEADER@,
            ESP_CONNECTION_VALUE@,
        ),
{
}

/// Judge a response of the ESP-IDF client: the body is read as UTF-8 text
/// (`Utf8StringError` where it is not), then kept where the status is 200,
/// else `StatusCodeError` with the status and the text.
pub fn esp_response(status_code: u16, body: Vec<u8>) -> (res: Result<String, Error>)
    ensures
        !vstd::utf8::valid_utf8(body@) ==> (res matches Err(Error::Utf8StringError(_))),
        vstd::utf8::valid_utf8(body@) && status_code == 200 ==> (res matches Ok(t) && t@
            == vstd::utf8::decode_utf8(body@)),
        vstd::utf8::valid_utf8(body@) && status_code != 200 ==> (res matches Err(
            Error::StatusCodeError { status_code: s, message: m },
        ) && s == status_code && m@ == vstd::utf8::decode_utf8(body@)),
{
    let text = match string_from_utf8(body) {
        Ok(t) => t,
        Err(e) => return Err(Error::Utf8StringError(e)),
    };
    if status_code != 200 {
        return Err(Error::StatusCodeError { status_code, message: text });
    }
    Ok(text)
}

// endregion: --- requests of the ESP-IDF HTTP client

} // verus!
