use backend::connector::request::{authorization_header, form_get_request, RequestError};
use backend::models::models::Credentials;

fn pairs(v: &[(&str, &str)]) -> Vec<(String, String)> {
    v.iter().map(|(a, b)| (a.to_string(), b.to_string())).collect()
}

#[test]
fn authorization_only_with_credentials() {
    assert_eq!(authorization_header(&None), None);
    let creds = Credentials { login: "user".into(), password: "pass".into() };
    assert_eq!(authorization_header(&Some(creds)), Some("Basic dXNlcjpwYXNz".to_string()));
    let other = Credentials { login: "admin".into(), password: "".into() };
    assert_eq!(authorization_header(&Some(other)), Some("Basic YWRtaW46".to_string()));
}

#[test]
fn request_headers_in_order() {
    let q = form_get_request("http://node:8000", "/nodes", "span-1", None, &Vec::new()).unwrap();
    assert_eq!(q.uri, "http://node:8000/nodes");
    assert_eq!(q.headers, pairs(&[("x-span-id", "span-1")]));

    let q = form_get_request(
        "http://node:8000",
        "/vdisks/3",
        "s",
        Some("Basic YWRtaW46".to_string()),
        &pairs(&[("accept", "json"), ("x-span-id", "other"), ("accept", "text")]),
    )
    .unwrap();
    assert_eq!(q.uri, "http://node:8000/vdisks/3");
    assert_eq!(
        q.headers,
        pairs(&[("x-span-id", "other"), ("authorization", "Basic YWRtaW46"), ("accept", "text")])
    );
}

#[test]
fn request_custom_header_replaces_authorization() {
    let q = form_get_request(
        "http://n:1",
        "/status",
        "s",
        Some("Basic x".to_string()),
        &pairs(&[("authorization", "Bearer t")]),
    )
    .unwrap();
    assert_eq!(q.headers, pairs(&[("x-span-id", "s"), ("authorization", "Bearer t")]));
}

#[test]
fn request_errors() {
    assert!(matches!(
        form_get_request("http://exa mple", "/nodes", "s", None, &Vec::new()),
        Err(RequestError::InvalidUri(_))
    ));
    assert!(matches!(
        form_get_request("http://node:1", "/nodes", "bad\nspan", None, &Vec::new()),
        Err(RequestError::InvalidSpanId(_))
    ));
    assert!(matches!(
        form_get_request("http://node:1", "/nodes", "del\u{7f}", None, &Vec::new()),
        Err(RequestError::InvalidSpanId(_))
    ));
    assert!(form_get_request("http://node:1", "/nodes", "tab\there", None, &Vec::new()).is_ok());
    assert!(form_get_request("http://node:1", "/nodes", "über", None, &Vec::new()).is_ok());
}
