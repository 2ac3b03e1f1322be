use backend::connector::client::{request_endpoint, request_path, ApiRequest, Endpoint};
use percent_encoding::{utf8_percent_encode, AsciiSet, CONTROLS};

fn id_set() -> &'static AsciiSet {
    Box::leak(Box::new(CONTROLS.add(b' ').add(b'"').add(b'<').add(b'>').add(b'`').add(b'|')))
}

fn encoded(text: &str) -> String {
    utf8_percent_encode(text, id_set()).to_string()
}

#[test]
fn fixed_paths() {
    assert_eq!(request_path(&ApiRequest::AlienDir), "/alien/dir");
    assert_eq!(request_path(&ApiRequest::Disks), "/disks/list");
    assert_eq!(request_path(&ApiRequest::Metrics), "/metrics");
    assert_eq!(request_path(&ApiRequest::Nodes), "/nodes");
    assert_eq!(request_path(&ApiRequest::SpaceInfo), "/status/space");
    assert_eq!(request_path(&ApiRequest::Status), "/status");
    assert_eq!(request_path(&ApiRequest::VDisks), "/vdisks");
    assert_eq!(request_path(&ApiRequest::Version), "/version");
    assert_eq!(request_path(&ApiRequest::Configuration), "/configuration");
}

#[test]
fn vdisk_paths() {
    assert_eq!(request_path(&ApiRequest::VDisk(12)), "/vdisks/12");
    assert_eq!(request_path(&ApiRequest::VDisk(-7)), "/vdisks/-7");
    assert_eq!(request_path(&ApiRequest::VDisk(i32::MIN)), "/vdisks/-2147483648");
    assert_eq!(request_path(&ApiRequest::Partitions(0)), "/vdisks/0/partitions");
    assert_eq!(request_path(&ApiRequest::Records(5)), "/vdisks/5/records/count");
    assert_eq!(request_path(&ApiRequest::ReplicasLocalDirs(i32::MAX)), "/vdisks/2147483647/replicas/local/dirs");
}

#[test]
fn partition_ids_are_percent_encoded() {
    assert_eq!(
        request_path(&ApiRequest::Partition(3, "a b|<c>\"`é\u{7f}".to_string())),
        "/vdisks/3/partitions/a%20b%7C%3Cc%3E%22%60%C3%A9%7F"
    );
}

#[test]
fn paths_agree_with_percent_encoding_crate() {
    let samples = ["", "plain", "with space", "ünïcödé", "a|b", "tab\tnew\nline", "%25", "/?#[]@!$&'()*+,;=", "😀"];
    for (i, id) in [0, 1, -1, 42, i32::MAX, i32::MIN].iter().enumerate() {
        for s in samples {
            let expected = format!(
                "/vdisks/{v_disk_id}/partitions/{partition_id}",
                v_disk_id = encoded(&id.to_string()),
                partition_id = encoded(s)
            );
            assert_eq!(request_path(&ApiRequest::Partition(*id, s.to_string())), expected, "{i} {s:?}");
        }
    }
    for b in 0u8..=0x7f {
        let s = (b as char).to_string();
        assert_eq!(
            request_path(&ApiRequest::Partition(1, s.clone())),
            format!("/vdisks/1/partitions/{}", encoded(&s))
        );
    }
}

#[test]
fn endpoints_of_requests() {
    assert_eq!(request_endpoint(&ApiRequest::Partition(1, "p".into())), Endpoint::Partition);
    assert_eq!(request_endpoint(&ApiRequest::VDisk(1)), Endpoint::VDisk);
    assert_eq!(request_endpoint(&ApiRequest::Configuration), Endpoint::Configuration);
    assert_eq!(request_endpoint(&ApiRequest::ReplicasLocalDirs(2)), Endpoint::ReplicasLocalDirs);
}
