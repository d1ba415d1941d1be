use fritz_tr064_upnp::host::LocationUrl;
use fritz_tr064_upnp::gateway::{
    gateway_parts_from_location, parse_search_response, search_request, BROADCAST_IPV4, DEFAULT_HOSTPORT,
};
use fritz_tr064_upnp::text::{trim_range, u64_to_decimal};
use fritz_tr064_upnp::{Error, Gateway, GatewayBuilder, HostName, Scheme};

const RESPONSE: &str = "HTTP/1.1 200 OK\r\nCACHE-CONTROL: max-age=1800\r\nEXT:\r\nLOCATION: http://192.168.178.1:49000/igddesc.xml\r\nSERVER: FRITZ!Box UPnP/1.0 AVM FRITZ!Box 7590 154.07.57\r\nST: urn:schemas-upnp-org:device:InternetGatewayDevice:1\r\n\r\n";

#[test]
fn builder_builds_gateway() {
    let gateway = Gateway::builder()
        .host("fritz.box")
        .port(DEFAULT_HOSTPORT)
        .scheme(Scheme::HTTP)
        .root_url("/igddesc.xml")
        .seal()
        .build()
        .unwrap();
    assert_eq!(gateway, Gateway::default());
}

#[test]
fn builder_setters_in_any_order() {
    let gateway = GatewayBuilder::new()
        .root_url("/tr64desc.xml")
        .scheme(Scheme::HTTPS)
        .port(49443)
        .host("192.168.178.1")
        .build()
        .unwrap();
    assert_eq!(gateway.host, HostName::Ipv4([192, 168, 178, 1]));
    assert_eq!(gateway.port, 49443);
    assert_eq!(gateway.scheme, Scheme::HTTPS);
    assert_eq!(gateway.root_url, "/tr64desc.xml");
}

#[test]
fn sealed_builder_builds_twice() {
    let sealed = Gateway::builder().host("[1234:5678:90ab::10a]").root_url("/a").seal();
    let first = sealed.clone().build().unwrap();
    let second = sealed.build().unwrap();
    assert_eq!(first, second);
    assert_eq!(first.host, HostName::Ipv6([0x1234, 0x5678, 0x90ab, 0, 0, 0, 0, 0x10a]));
    assert_eq!(first.port, DEFAULT_HOSTPORT);
}

#[test]
fn builder_refuses_unparsable_host() {
    let res = Gateway::builder().host("[::1").root_url("/a").build();
    assert!(matches!(res, Err(Error::UrlParseError(url::ParseError::InvalidIpv6Address))));
    let res = Gateway::builder().host("").root_url("/a").build();
    assert!(matches!(res, Err(Error::UrlParseError(_))));
}

#[test]
fn host_parse_lowercases_domain() {
    let g = Gateway::builder().host("FRITZ.Box").root_url("/").build().unwrap();
    assert_eq!(g.host, HostName::Domain("fritz.box".into()));
}

#[test]
fn search_request_text() {
    assert_eq!(
        search_request(BROADCAST_IPV4),
        "M-SEARCH * HTTP/1.1\nHost: 239.255.255.250:1900\nMan: \"ssdp:discover\"\nST: urn:schemas-upnp-org:device:InternetGatewayDevice:1\nMX: 2\n\n"
    );
}

#[test]
fn search_response_location_names_gateway() {
    let (scheme, host, port, root_url) = parse_search_response(RESPONSE).unwrap();
    assert_eq!(scheme, Scheme::HTTP);
    assert_eq!(host, HostName::Ipv4([192, 168, 178, 1]));
    assert_eq!(port, 49000);
    assert_eq!(root_url, "/igddesc.xml");
    let g = Gateway::from_search_response(RESPONSE.as_bytes()).unwrap();
    assert_eq!(g.port, 49000);
    assert_eq!(g.root_url, "/igddesc.xml");
}

#[test]
fn search_response_location_key_in_any_case() {
    let msg = "HTTP/1.1 200 OK\n   location:   https://fritz.box/tr64desc.xml?x=1   \nLOCATION: http://other:1/no\n";
    let (scheme, host, port, root_url) = parse_search_response(msg).unwrap();
    assert_eq!(scheme, Scheme::HTTPS);
    assert_eq!(host, HostName::Domain("fritz.box".into()));
    assert_eq!(port, 443);
    assert_eq!(root_url, "/tr64desc.xml");
}

#[test]
fn search_response_scheme_other_than_http_counts_as_https() {
    let (scheme, _, port, _) = parse_search_response("Location: ftp://h/x").unwrap();
    assert_eq!(scheme, Scheme::HTTPS);
    assert_eq!(port, 21);
}

#[test]
fn search_response_without_location_is_search_error() {
    let msg = "HTTP/1.1 200 OK\r\nST: x\r\n";
    match parse_search_response(msg) {
        Err(Error::SearchError(m)) => assert_eq!(m, msg),
        other => panic!("unexpected {:?}", other),
    }
    assert!(matches!(parse_search_response(""), Err(Error::SearchError(_))));
}

#[test]
fn search_response_first_location_decides() {
    let msg = "LOCATION: not a url\nLOCATION: http://fritz.box:1/a\n";
    assert!(matches!(parse_search_response(msg), Err(Error::SearchError(_))));
}

#[test]
fn search_response_url_without_port_or_host() {
    assert!(matches!(parse_search_response("LOCATION: foo://h/x"), Err(Error::SearchError(_))));
    assert!(matches!(parse_search_response("LOCATION: data:text/plain,x"), Err(Error::SearchError(_))));
}

#[test]
fn search_response_must_be_utf8() {
    let bytes = [b'L', 0xff, 0xfe];
    assert!(matches!(Gateway::from_search_response(&bytes), Err(Error::Utf8StrError(_))));
}

#[test]
fn decimal_rendering() {
    assert_eq!(u64_to_decimal(0), "0");
    assert_eq!(u64_to_decimal(7), "7");
    assert_eq!(u64_to_decimal(10), "10");
    assert_eq!(u64_to_decimal(49000), "49000");
    assert_eq!(u64_to_decimal(u64::MAX), u64::MAX.to_string());
}

#[test]
fn trimming_unicode_whitespace() {
    let s = "\u{3000} a b\t\r\n";
    let (lo, hi) = trim_range(s, 0, s.chars().count());
    let t: String = s.chars().skip(lo).take(hi - lo).collect();
    assert_eq!(t, s.trim());
    let (lo, hi) = trim_range("   ", 0, 3);
    assert_eq!(lo, hi);
}

#[test]
fn build_from_parsed_host() {
    let b = Gateway::builder().host("ignored").port(1).scheme(Scheme::HTTPS).root_url("/r");
    let g = b.clone().build_from_host(Ok(HostName::Ipv4([10, 0, 0, 1]))).unwrap();
    assert_eq!(g.host, HostName::Ipv4([10, 0, 0, 1]));
    assert_eq!(g.port, 1);
    assert_eq!(g.scheme, Scheme::HTTPS);
    assert_eq!(g.root_url, "/r");
    let res = b.build_from_host(Err(url::ParseError::EmptyHost));
    assert!(matches!(res, Err(Error::UrlParseError(url::ParseError::EmptyHost))));
}

#[test]
fn gateway_parts_from_parsed_location() {
    let url = LocationUrl {
        scheme: "http".into(),
        host: Some(HostName::Domain("fritz.box".into())),
        port: Some(49000),
        path: "/igddesc.xml".into(),
    };
    let (scheme, host, port, path) = gateway_parts_from_location("msg", Some(url)).unwrap();
    assert_eq!((scheme, host, port, path.as_str()), (Scheme::HTTP, HostName::Domain("fritz.box".into()), 49000, "/igddesc.xml"));
    let url = LocationUrl { scheme: "https".into(), host: None, port: Some(1), path: "/".into() };
    match gateway_parts_from_location("msg", Some(url)) {
        Err(Error::SearchError(m)) => assert_eq!(m, "msg"),
        other => panic!("unexpected {:?}", other),
    }
    assert!(matches!(gateway_parts_from_location("m", None), Err(Error::SearchError(_))));
}
