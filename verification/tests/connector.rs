use backend::connector::client::{
    http_base_path, into_base_path, route_response, ClientInitError, Endpoint, ResponseRoute,
};
use backend::connector::{
    change_port, cluster_base_paths, connect_error, probe_status, ChangePortError, ClusterNode,
    ProbeTarget,
    NodesAnswer,
};
use backend::services::APIError;
use backend::models::models::{Hostname, HostnameError};

fn host(s: &str) -> Hostname {
    Hostname::new(s.to_string()).unwrap()
}

#[test]
fn change_port_takes_source_port() {
    let src = host("bob.local:8000");
    let h = change_port("10.0.0.1:20000", true, &src).unwrap();
    assert_eq!(h.clone().into_inner(), "10.0.0.1:8000");
    assert_eq!(h.port(), 8000);
}

#[test]
fn change_port_uses_last_colon() {
    let src = host("bob.local:9");
    let h = change_port("http://Node:1:2", true, &src).unwrap();
    assert_eq!(h.into_inner(), "http://node:1:9");
}

#[test]
fn change_port_errors() {
    let src = host("bob.local:8000");
    assert_eq!(change_port("nocolon", true, &src), Err(ChangePortError::BadAddress));
    assert_eq!(
        change_port("::20", true, &src),
        Err(ChangePortError::InvalidHostname(HostnameError::RegexMismatch))
    );
    assert_eq!(
        change_port("localhost:20000", false, &src),
        Err(ChangePortError::NotSocketAddress)
    );
}

#[test]
fn base_path_drops_trailing_slashes() {
    assert_eq!(into_base_path("http://example:123/api//", None).unwrap(), "http://example:123/api");
    assert_eq!(into_base_path("http://example", None).unwrap(), "http://example");
}

#[test]
fn base_path_uses_given_protocol() {
    assert_eq!(into_base_path("https://example.com/", Some("https")).unwrap(), "https://example.com");
    assert_eq!(
        into_base_path("https://example.com:8443", Some("https")).unwrap(),
        "https://example.com:8443"
    );
    assert_eq!(into_base_path("HTTP://node:80", Some("http")).unwrap(), "http://node:80");
    assert_eq!(into_base_path("node:20000", Some("http")).unwrap(), "http://node:20000");
    assert_eq!(into_base_path("https://example.com/", None).unwrap(), "http://example.com");
}

#[test]
fn base_path_checks_scheme() {
    assert!(matches!(
        into_base_path("ftp://example.com:21", Some("http")),
        Err(ClientInitError::InvalidScheme)
    ));
    assert!(matches!(
        into_base_path("https://example.com", Some("http")),
        Err(ClientInitError::InvalidScheme)
    ));
    assert_eq!(into_base_path("ftp://example.com:21", None).unwrap(), "http://example.com:21");
}

#[test]
fn base_path_errors() {
    assert!(matches!(into_base_path("/only/path", None), Err(ClientInitError::MissingHost)));
    assert!(matches!(into_base_path("http://exa mple", None), Err(ClientInitError::InvalidUri(_))));
}

#[test]
fn cluster_base_paths_by_name() {
    let src = host("bob:8000");
    let node = |name: &str, address: &str, socket_address: bool| ClusterNode {
        name: name.to_string(),
        address: address.to_string(),
        socket_address,
    };
    let nodes = vec![
        node("a", "10.0.0.1:1", true),
        node("b", "nocolon", true),
        node("c", "10.0.0.3:3", true),
        node("d", "bad host:4", true),
        node("e", "localhost:5", false),
        node("a", "10.0.0.9:9", true),
    ];
    let paths = cluster_base_paths(&nodes, &src);
    assert_eq!(
        paths,
        vec![
            ("a".to_string(), "http://10.0.0.9:8000".to_string()),
            ("c".to_string(), "http://10.0.0.3:8000".to_string()),
        ]
    );
    assert!(cluster_base_paths(&Vec::new(), &src).is_empty());
}

#[test]
fn change_port_keeps_source_port() {
    let src = host("bob:31337");
    for address in ["  Node-1:20000", "10.0.0.7:1", "x:y:z:65535"] {
        let h = change_port(address, true, &src).unwrap();
        assert_eq!(h.port(), src.port());
    }
}

#[test]
fn http_base_path_checks_scheme() {
    assert_eq!(http_base_path("HTTP://node:80/").unwrap(), "http://node:80");
    assert!(matches!(http_base_path("ftp://node:80"), Err(ClientInitError::InvalidScheme)));
    assert!(matches!(http_base_path("https://node:80"), Err(ClientInitError::InvalidScheme)));
    assert!(matches!(http_base_path("/path"), Err(ClientInitError::InvalidScheme)));
    assert!(matches!(http_base_path("http://exa mple"), Err(ClientInitError::InvalidUri(_))));
}

#[test]
fn routes_of_answers() {
    assert_eq!(route_response(Endpoint::Nodes, 200), ResponseRoute::Success);
    assert_eq!(route_response(Endpoint::Nodes, 403), ResponseRoute::PermissionDeniedWithoutBody);
    assert_eq!(route_response(Endpoint::Nodes, 404), ResponseRoute::Unexpected);
    assert_eq!(route_response(Endpoint::AlienDir, 403), ResponseRoute::PermissionDenied);
    assert_eq!(route_response(Endpoint::AlienDir, 406), ResponseRoute::NotAcceptableBackend);
    assert_eq!(route_response(Endpoint::Partition, 404), ResponseRoute::NotFound);
    assert_eq!(route_response(Endpoint::Metrics, 403), ResponseRoute::Unexpected);
    assert_eq!(route_response(Endpoint::Configuration, 403), ResponseRoute::PermissionDeniedWithoutBody);
    assert_eq!(route_response(Endpoint::VDisk, 500), ResponseRoute::Unexpected);
    assert_eq!(route_response(Endpoint::Version, 200), ResponseRoute::Success);
}

#[test]
fn nodes_answers() {
    assert_eq!(probe_status(ProbeTarget::Cluster, 200), Some(200));
    assert_eq!(probe_status(ProbeTarget::Cluster, 403), Some(403));
    assert_eq!(probe_status(ProbeTarget::Cluster, 500), Some(500));
    assert_eq!(probe_status(ProbeTarget::Node, 200), Some(200));
    assert_eq!(probe_status(ProbeTarget::Node, 403), Some(401));
    assert_eq!(probe_status(ProbeTarget::Node, 401), None);
    assert_eq!(probe_status(ProbeTarget::Node, 500), None);
    assert_eq!(connect_error(None), Some(APIError::RequestFailed));
    assert_eq!(connect_error(Some(NodesAnswer::PermissionDenied)), Some(APIError::InvalidStatusCode(403)));
    assert_eq!(connect_error(Some(NodesAnswer::Nodes)), None);
}

#[test]
fn cluster_of_reached_node() {
    let src = host("10.0.0.1:8000");
    assert_eq!(change_port("10.0.0.2:20000", true, &src).unwrap(), host("10.0.0.2:8000"));
    let nodes = vec![
        ClusterNode { name: "a".into(), address: "10.0.0.2:20000".into(), socket_address: true },
        ClusterNode { name: "b".into(), address: "badaddr".into(), socket_address: false },
    ];
    assert_eq!(
        cluster_base_paths(&nodes, &src),
        vec![("a".to_string(), "http://10.0.0.2:8000".to_string())]
    );
    assert_eq!(host("http://localhost:8080").port(), 8080);
}
