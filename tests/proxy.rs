use hyper_line::headers::HeaderList;
use hyper_line::proxy::{
    create_proxied_request, create_proxied_response, get_upgrade_type, prepare_request, remove_connection_headers,
    remove_hop_headers, upgrade_accepted, ProxyConfig, ProxyError, ReverseProxyHandler,
};

fn list(fields: &[(&str, &str)]) -> HeaderList {
    let mut h = HeaderList::new();
    for (n, v) in fields {
        h.append(n.as_bytes().to_vec(), v.as_bytes().to_vec());
    }
    h
}

fn value(h: &HeaderList, name: &str) -> Option<String> {
    h.get(&name.as_bytes().to_vec()).map(|v| String::from_utf8(v.clone()).unwrap())
}

fn names(h: &HeaderList) -> Vec<String> {
    h.entries.iter().map(|e| String::from_utf8(e.name.clone()).unwrap()).collect()
}

#[test]
fn forwarded_for_is_appended() {
    let h = list(&[("X-Forwarded-For", "10.0.0.1")]);
    let out = create_proxied_request("192.0.2.5", h, None).unwrap();
    assert_eq!(value(&out, "x-forwarded-for").unwrap(), "10.0.0.1, 192.0.2.5");
    assert_eq!(out.entries.len(), 1);
}

#[test]
fn forwarded_for_is_created() {
    let h = list(&[("host", "example")]);
    let out = create_proxied_request("192.0.2.5", h, None).unwrap();
    assert_eq!(value(&out, "X-Forwarded-For").unwrap(), "192.0.2.5");
    assert_eq!(value(&out, "host").unwrap(), "example");
}

#[test]
fn forwarded_for_rejects_a_bad_address() {
    let h = list(&[]);
    match create_proxied_request("bad\naddress", h, None) {
        Err(ProxyError::HeaderComposition) => {}
        _ => panic!("a control byte cannot stand in a header value"),
    }
}

#[test]
fn request_hop_headers_are_stripped() {
    let h = list(&[
        ("Connection", "keep-alive, X-Secret"),
        ("Keep-Alive", "timeout=5"),
        ("x-secret", "1"),
        ("Proxy-Authorization", "basic"),
        ("TE", "gzip"),
        ("Accept", "*/*"),
    ]);
    let out = create_proxied_request("10.1.1.1", h, None).unwrap();
    assert_eq!(names(&out), vec!["Accept", "x-forwarded-for"]);
}

#[test]
fn te_trailers_is_kept() {
    let h = list(&[("te", "gzip, Trailers")]);
    let out = create_proxied_request("10.1.1.1", h, None).unwrap();
    assert_eq!(value(&out, "te").unwrap(), "trailers");
}

#[test]
fn response_hop_headers_are_stripped() {
    let h = list(&[
        ("Connection", "close, X-Hop"),
        ("Keep-Alive", "timeout=5"),
        ("Transfer-Encoding", "chunked"),
        ("X-Hop", "1"),
        ("UPGRADE", "h2c"),
        ("trailer", "x"),
        ("Proxy-Authenticate", "basic"),
        ("proxy-connection", "close"),
        ("Content-Type", "text/plain"),
    ]);
    let out = create_proxied_response(h);
    assert_eq!(names(&out), vec!["Content-Type"]);
}

#[test]
fn connection_listed_headers_are_removed() {
    let mut h = list(&[("connection", " a ,, B"), ("A", "1"), ("b", "2"), ("c", "3")]);
    remove_connection_headers(&mut h);
    assert_eq!(names(&h), vec!["connection", "c"]);
    remove_hop_headers(&mut h);
    assert_eq!(names(&h), vec!["c"]);
}

#[test]
fn upgrade_request_is_proxied() {
    let h = list(&[("Connection", "Upgrade"), ("Upgrade", "websocket"), ("Host", "u")]);
    let up = get_upgrade_type(&h).unwrap();
    assert_eq!(up, b"websocket".to_vec());
    let out = create_proxied_request("192.0.2.5", h, Some(&up)).unwrap();
    assert_eq!(value(&out, "upgrade").unwrap(), "websocket");
    assert_eq!(value(&out, "connection").unwrap(), "UPGRADE");
    assert_eq!(value(&out, "host").unwrap(), "u");
    assert!(upgrade_accepted(101).is_ok());
    match upgrade_accepted(200) {
        Err(ProxyError::UpgradeRefused) => {}
        _ => panic!("only 101 accepts an upgrade"),
    }
}

#[test]
fn no_upgrade_without_connection_token() {
    let h = list(&[("Connection", "keep-alive"), ("Upgrade", "websocket")]);
    assert!(get_upgrade_type(&h).is_none());
    let h = list(&[("Upgrade", "websocket")]);
    assert!(get_upgrade_type(&h).is_none());
}

#[test]
fn prepared_request_has_uri_and_headers() {
    let h = list(&[("X-Forwarded-For", "10.0.0.1"), ("connection", "close")]);
    let p = prepare_request("192.0.2.5", "http://u:8080/v1/?a=1", "/x", Some("a=2&b=3"), h).unwrap();
    assert_eq!(p.uri, "http://u:8080/v1/x?a=1&b=3");
    assert!(p.upgrade.is_none());
    assert_eq!(value(&p.headers, "x-forwarded-for").unwrap(), "10.0.0.1, 192.0.2.5");
    assert!(value(&p.headers, "connection").is_none());
}

#[test]
fn handler_targets_its_destination() {
    let handler = ReverseProxyHandler::new(ProxyConfig { destination_host: "127.0.0.1".to_string(), destination_port: 8081 });
    assert_eq!(handler.destination_host(), "127.0.0.1");
    assert_eq!(handler.destination_port(), 8081);
    assert_eq!(handler.forward_base(), "http://127.0.0.1:8081");
    let zero = ReverseProxyHandler::new(ProxyConfig { destination_host: "h".to_string(), destination_port: 0 });
    assert_eq!(zero.forward_base(), "http://h:0");
    let top = ReverseProxyHandler::new(ProxyConfig { destination_host: "h".to_string(), destination_port: 65535 });
    assert_eq!(top.forward_base(), "http://h:65535");
}
