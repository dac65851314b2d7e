use hyper_line::uri::create_forward_uri;

#[test]
fn uri_fusion_drops_colliding_keys() {
    assert_eq!(create_forward_uri("http://u:8080/v1/?a=1", "/x", Some("a=2&b=3")), "http://u:8080/v1/x?a=1&b=3");
}

#[test]
fn uri_without_queries() {
    assert_eq!(create_forward_uri("http://u:8080/v1/", "/x", None), "http://u:8080/v1/x");
    assert_eq!(create_forward_uri("http://u:8080/v1", "/x", Some("")), "http://u:8080/v1/x");
}

#[test]
fn uri_with_request_query_only() {
    assert_eq!(create_forward_uri("http://u/", "/x", Some("q=1&r")), "http://u/x?q=1&r");
}

#[test]
fn uri_with_forward_query_only() {
    assert_eq!(create_forward_uri("http://u/?a=1&", "/x", None), "http://u/x?a=1");
    assert_eq!(create_forward_uri("http://u/?a=1", "/x", Some("")), "http://u/x?a=1");
}

#[test]
fn uri_pair_without_value() {
    assert_eq!(create_forward_uri("http://u?k=v", "/p", Some("flag&k=2&x=1=2")), "http://u/p?k=v&flag=&x=1");
}

#[test]
fn uri_composition_is_idempotent_without_queries() {
    let once = create_forward_uri("http://u:8080/base/", "/x/y", None);
    assert_eq!(once, "http://u:8080/base/x/y");
    assert_eq!(create_forward_uri(&once, "", None), once);
}

#[test]
fn base_query_keeps_its_question_marks() {
    assert_eq!(create_forward_uri("http://u/?a=1?x", "/p", None), "http://u/p?a=1?x");
    assert_eq!(create_forward_uri("http://u/?a=1?x", "/p", Some("b=2&a=3")), "http://u/p?a=1?x&b=2");
    assert_eq!(create_forward_uri("??", "", None), "??");
    assert_eq!(create_forward_uri("??", "", Some("b")), "??&b=");
}
