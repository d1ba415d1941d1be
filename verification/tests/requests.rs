use fritz_tr064_upnp::gateway::services::wan_common_interface_config::GET_ADDON_INFOS;
use fritz_tr064_upnp::gateway::{Gateway, DEFAULT_HOSTNAME, DEFAULT_HOSTPORT, DEFAULT_ROOT_URL};
use fritz_tr064_upnp::request::{build_envelope, check_response, esp_response, HttpMethod};
use fritz_tr064_upnp::request_helper::{
    self, default_headers, endpoint_url, Schema, UpnpHost, UpnpHostBuilder,
};
use fritz_tr064_upnp::{Error, HostName, Scheme};

const ENVELOPE: &str = r#"
            <?xml version="1.0"?>
            <soap:Envelope
                xmlns:soap="http://schemas.xmlsoap.org/soap/envelope/"
                soap:encodingStyle="http://schemas.xmlsoap.org/soap/encoding/"
            >
                <soap:Header></soap:Header>
                <soap:Body>
                    <u:GetAddonInfos xmlns:u="urn:dslforum-org:service:X:1"></u:GetAddonInfos>
                </soap:Body>
            </soap:Envelope>
        "#;

fn gateway(host: HostName, port: u16, scheme: Scheme) -> Gateway {
    Gateway { host, port, scheme, root_url: "/igddesc.xml".to_string() }
}

fn headers(h: &[(String, String)]) -> Vec<(&str, &str)> {
    h.iter().map(|(n, v)| (n.as_str(), v.as_str())).collect()
}

fn value<'a>(m: &'a reqwest::header::HeaderMap, name: &str) -> &'a str {
    m.get(name).unwrap().to_str().unwrap()
}

#[test]
fn envelope_names_action_and_service() {
    assert_eq!(build_envelope("urn:dslforum-org:service:X:1", "GetAddonInfos"), ENVELOPE);
    assert_eq!(
        request_helper::build_envelope("urn:dslforum-org:service:X:1", "GetAddonInfos"),
        ENVELOPE
    );
}

#[test]
fn endpoint_url_of_domain_ipv4_and_ipv6_hosts() {
    let g = gateway(HostName::Domain("fritz.box".into()), 49000, Scheme::HTTP);
    assert_eq!(g.endpoint_url("/igddesc.xml"), "http://fritz.box:49000/igddesc.xml");
    let g = gateway(HostName::Ipv4([192, 168, 178, 1]), 49443, Scheme::HTTPS);
    assert_eq!(g.endpoint_url("/a"), "https://192.168.178.1:49443/a");
    let g = gateway(HostName::Ipv4([0, 0, 0, 0]), 0, Scheme::HTTP);
    assert_eq!(g.endpoint_url(""), "http://0.0.0.0:0");
    let g = gateway(HostName::Ipv6([0x1234, 0x5678, 0x90ab, 0, 0, 0, 0, 0x10a]), 80, Scheme::HTTP);
    assert_eq!(g.endpoint_url("/x"), "http://[1234:5678:90ab::10a]:80/x");
    let g = gateway(HostName::Ipv6([0, 0, 0, 0, 0, 0, 0, 1]), 1, Scheme::HTTP);
    assert_eq!(g.host.to_text(), "[::1]");
}

#[test]
fn default_headers_carry_gateway_address() {
    let g = gateway(HostName::Domain("fritz.box".into()), 49000, Scheme::HTTP);
    let h = g.default_headers();
    assert_eq!(h.len(), 3);
    assert_eq!(value(&h, "user-agent"), "AVM UPnP/1.0 Client 1.0");
    assert_eq!(
        value(&h, "content-type"),
        "text/xml; charset=\"utf-8\" User-Agent: AVM UPnP/1.0 Client 1.0"
    );
    assert_eq!(value(&h, "host"), "fritz.box:49000");
}

#[test]
fn invalid_host_header_falls_back_to_default_host_name() {
    let g = gateway(HostName::Domain("bad\nhost".into()), 1, Scheme::HTTP);
    assert_eq!(value(&g.default_headers(), "host"), DEFAULT_HOSTNAME);
    let g = gateway(HostName::Domain("tab\tis fine".into()), 1, Scheme::HTTP);
    assert_eq!(value(&g.default_headers(), "host"), "tab\tis fine:1");
    let g = gateway(HostName::Domain("del\u{7f}".into()), 1, Scheme::HTTP);
    assert_eq!(value(&g.default_headers(), "host"), DEFAULT_HOSTNAME);
    let g = gateway(HostName::Domain("größe".into()), 2, Scheme::HTTP);
    assert_eq!(g.default_headers().get("host").unwrap().as_bytes(), "größe:2".as_bytes());
}

#[test]
fn action_request_posts_envelope_with_soap_action() {
    let g = gateway(HostName::Domain("fritz.box".into()), 49000, Scheme::HTTP);
    let r = g.action_request("/ctl", "urn:dslforum-org:service:X:1", "GetAddonInfos");
    assert_eq!(r.method, HttpMethod::Post);
    assert_eq!(r.url, "http://fritz.box:49000/ctl");
    assert_eq!(r.headers.len(), 4);
    assert_eq!(value(&r.headers, "soapaction"), "urn:dslforum-org:service:X:1#GetAddonInfos");
    assert_eq!(value(&r.headers, "host"), "fritz.box:49000");
    assert_eq!(r.body.as_deref(), Some(ENVELOPE));
    let r = g.action_request("/ctl", "bad\u{1}type", "A");
    assert_eq!(value(&r.headers, "soapaction"), "");
    assert_eq!(r.headers.len(), 4);
}

#[test]
fn api_xml_request_is_a_get_without_body() {
    let g = gateway(HostName::Domain("fritz.box".into()), 49000, Scheme::HTTP);
    let r = g.api_xml_request("/any.xml");
    assert_eq!(r.method, HttpMethod::Get);
    assert_eq!(r.url, "http://fritz.box:49000/any.xml");
    assert_eq!(r.headers.len(), 3);
    assert!(r.body.is_none());
    let r = g.api_description_request();
    assert_eq!(r.url, "http://fritz.box:49000/igddesc.xml");
    let tr = Gateway { root_url: "/tr64desc.xml".to_string(), ..g.clone() };
    let r = tr.api_description_request();
    assert_eq!(r.url, "http://fritz.box:49000/tr64desc.xml");
    assert_eq!(r.method, HttpMethod::Get);
    let r = g.service_description_request("/igdicfgSCPD.xml");
    assert_eq!(r.url, "http://fritz.box:49000/igdicfgSCPD.xml");
}

#[test]
fn addon_infos_request_uses_version_default_one() {
    let g = gateway(HostName::Domain("fritz.box".into()), 49000, Scheme::HTTP);
    let r = g.addon_infos_request(None);
    assert_eq!(r.url, "http://fritz.box:49000/igdupnp/control/WANCommonIFC1");
    assert_eq!(
        value(&r.headers, "soapaction"),
        format!("urn:schemas-upnp-org:service:WANCommonInterfaceConfig:1#{}", GET_ADDON_INFOS)
    );
    let r = g.addon_infos_request(Some(12));
    assert_eq!(r.url, "http://fritz.box:49000/igdupnp/control/WANCommonIFC12");
    assert!(r.body.unwrap().contains("xmlns:u=\"urn:schemas-upnp-org:service:WANCommonInterfaceConfig:12\""));
}

#[test]
fn status_codes_outside_success_are_errors() {
    assert_eq!(check_response(200, "ok".into()).unwrap(), "ok");
    assert_eq!(check_response(299, "x".into()).unwrap(), "x");
    match check_response(404, "missing".into()) {
        Err(Error::StatusCodeError { status_code, message }) => {
            assert_eq!(status_code, 404);
            assert_eq!(message, "missing");
        }
        other => panic!("unexpected {:?}", other),
    }
    assert!(check_response(199, String::new()).is_err());
    assert!(check_response(300, String::new()).is_err());
}

#[test]
fn upnp_host_builder_and_requests() {
    let host: UpnpHost = UpnpHostBuilder::new().name("fritz.box").port(49000).schema(Schema::HTTP).build();
    assert_eq!(host, UpnpHost::default());
    assert_eq!(UpnpHost::builder().build(), UpnpHost::default());
    assert_eq!(endpoint_url(&host, "/igddesc.xml"), "http://fritz.box:49000/igddesc.xml");
    let other = UpnpHostBuilder::new().name("10.0.0.1").port(8443).schema(Schema::HTTPS).build();
    assert_eq!(endpoint_url(&other, "/a"), "https://10.0.0.1:8443/a");
    assert_eq!(value(&default_headers(&other), "host"), "10.0.0.1:8443");
    assert_eq!(default_headers(&other).len(), 3);
    let bad = UpnpHostBuilder::new().name("a\rb").build();
    assert_eq!(value(&default_headers(&bad), "host"), "fritz.box:49000");
    let r = request_helper::soap_action_request(&host, "/c", "urn:x:1", "Get");
    assert_eq!(value(&r.headers, "soapaction"), "urn:x:1#Get");
    assert_eq!(r.headers.len(), 4);
    assert_eq!(r.url, "http://fritz.box:49000/c");
    let r = request_helper::api_xml_request(&host, "/d.xml");
    assert_eq!(r.method, HttpMethod::Get);
    assert_eq!(r.url, "http://fritz.box:49000/d.xml");
}

#[test]
fn gateway_and_upnp_host_agree_on_urls() {
    let g = gateway(HostName::Domain("fritz.box".into()), 49000, Scheme::HTTP);
    let h = UpnpHost::default();
    assert_eq!(g.endpoint_url("/e"), endpoint_url(&h, "/e"));
}

#[test]
fn gateway_default_is_fritz_box() {
    let g = Gateway::default();
    assert_eq!(g.host, HostName::Domain(DEFAULT_HOSTNAME.to_string()));
    assert_eq!(g.port, DEFAULT_HOSTPORT);
    assert_eq!(g.scheme, Scheme::HTTP);
    assert_eq!(g.root_url, DEFAULT_ROOT_URL);
    assert_eq!(Scheme::default(), Scheme::HTTP);
    assert_eq!(Schema::default(), Schema::HTTP);
}

#[test]
fn esp_requests_carry_accept_and_connection() {
    let g = gateway(HostName::Domain("fritz.box".into()), 49000, Scheme::HTTP);
    let r = g.esp_api_xml_request("/igddesc.xml");
    assert_eq!(r.url, "http://fritz.box:49000/igddesc.xml");
    assert_eq!(
        headers(&r.headers),
        vec![
            ("User-Agent", "AVM UPnP/1.0 Client 1.0"),
            ("Content-Type", "text/xml; charset=\"utf-8\" User-Agent: AVM UPnP/1.0 Client 1.0"),
            ("Host", "fritz.box:49000"),
            ("accept", "text/xml"),
            ("connection", "close"),
        ]
    );
    let r = g.esp_action_request("/c", "urn:x:1", "Get");
    assert_eq!(r.method, HttpMethod::Post);
    assert_eq!(headers(&r.headers)[3], ("SOAPACTION", "urn:x:1#Get"));
    assert_eq!(r.headers.len(), 6);
}

#[test]
fn esp_response_decodes_then_checks_status() {
    assert_eq!(esp_response(200, b"<xml/>".to_vec()).unwrap(), "<xml/>");
    match esp_response(201, "é".as_bytes().to_vec()) {
        Err(Error::StatusCodeError { status_code, message }) => {
            assert_eq!(status_code, 201);
            assert_eq!(message, "é");
        }
        other => panic!("unexpected {:?}", other),
    }
    assert!(matches!(esp_response(404, vec![0xc3]), Err(Error::Utf8StringError(_))));
}
