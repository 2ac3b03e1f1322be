use backend::models::consts::MAX_CPU;
use backend::models::models::{
    BobConnectionData, Credentials, Hostname, HostnameError, RequestTimeout, Timeout,
};
use std::time::Duration;

fn host(s: &str) -> Hostname {
    Hostname::new(s.to_string()).unwrap()
}

#[test]
fn hostname_is_trimmed_and_lowercased() {
    let h = host("  LocalHost:8000 \t\n");
    assert_eq!(h.clone().into_inner(), "localhost:8000");
    assert_eq!(h.port(), 8000);
}

#[test]
fn hostname_keeps_scheme_prefix() {
    let h = host("HTTP://Example.com:65535");
    assert_eq!(h.clone().into_inner(), "http://example.com:65535");
    assert_eq!(h.port(), 65535);
}

#[test]
fn hostname_port_one() {
    assert_eq!(host("a:1").port(), 1);
}

#[test]
fn hostname_empty_is_refused() {
    assert_eq!(Hostname::new(String::new()), Err(HostnameError::Empty));
    assert_eq!(Hostname::new("  \u{3000} ".to_string()), Err(HostnameError::Empty));
}

#[test]
fn hostname_without_port_is_refused() {
    assert_eq!(Hostname::new("localhost".to_string()), Err(HostnameError::RegexMismatch));
    assert_eq!(Hostname::new("localhost:".to_string()), Err(HostnameError::RegexMismatch));
}

#[test]
fn hostname_port_out_of_range_is_refused() {
    assert_eq!(Hostname::new("h:0".to_string()), Err(HostnameError::RegexMismatch));
    assert_eq!(Hostname::new("h:65536".to_string()), Err(HostnameError::RegexMismatch));
    assert_eq!(Hostname::new("h:08".to_string()), Err(HostnameError::RegexMismatch));
    assert_eq!(Hostname::new("h:123456".to_string()), Err(HostnameError::RegexMismatch));
    assert_eq!(Hostname::new("h:8a".to_string()), Err(HostnameError::RegexMismatch));
}

#[test]
fn hostname_needs_host_before_colon() {
    assert_eq!(Hostname::new(":8000".to_string()), Err(HostnameError::RegexMismatch));
    assert_eq!(Hostname::new("a::8000".to_string()), Err(HostnameError::RegexMismatch));
}

#[test]
fn hostname_text_is_always_sanitized() {
    let h = host("\tHost:80 ");
    assert_eq!(h.into_inner(), "host:80");
    assert_eq!(Hostname::new(" ".to_string()), Err(HostnameError::Empty));
    assert_eq!(Hostname::new(" : ".to_string()), Err(HostnameError::RegexMismatch));
}

#[test]
fn hostname_lowercases_beyond_ascii() {
    let h = host("ÄRGER:42");
    assert_eq!(h.into_inner(), "ärger:42");
}

#[test]
fn hostname_clone_is_equal() {
    let h = host("node:20000");
    assert_eq!(h.clone(), h);
}

#[test]
fn request_timeout_roundtrip() {
    let t = RequestTimeout::from_millis(1500);
    assert_eq!(t.clone().into_inner(), Duration::from_millis(1500));
    assert_eq!(RequestTimeout::from_millis(0).into_inner(), Duration::ZERO);
}

#[test]
fn timeout_and_credentials() {
    let t = Timeout(7);
    assert_eq!(t.0, 7);
    let c = Credentials::default();
    assert_eq!(c.login, "");
    assert_eq!(c.password, "");
    let data = BobConnectionData {
        hostname: host("h:1"),
        credentials: Some(Credentials { login: "l".into(), password: "p".into() }),
    };
    assert_eq!(data.clone(), data);
}

#[test]
fn max_cpu_limit() {
    assert_eq!(MAX_CPU, 90);
}
