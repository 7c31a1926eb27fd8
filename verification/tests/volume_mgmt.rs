use std::collections::HashMap;

use sandbox_net::mgmt::{
    find_query_value, route, stats_request_url, stats_volume_path, MgmtRoute,
};
use sandbox_net::volume::{
    get_sandbox_id_for_volume, join_path, mount_info_file_path, unescape_volume_path,
    ResizeRequest, VolumeMountInfo,
};

#[test]
fn join_path_flattens_the_volume_path() {
    let p = join_path(&String::from("/dev/sda"));
    assert_eq!(p, "/run/kata-containers/shared/direct-volumes/_dev_sda");
}

#[test]
fn join_path_truncates_at_the_first_padding_byte() {
    let p = join_path(&String::from("ab=cd"));
    assert_eq!(p, "/run/kata-containers/shared/direct-volumes/ab");
}

#[test]
fn mount_info_file_path_names_the_record() {
    let p = mount_info_file_path(&String::from("/dev/sda"));
    assert_eq!(
        p,
        "/run/kata-containers/shared/direct-volumes/_dev_sda/mountInfo.json"
    );
}

#[test]
fn unescape_restores_base64_and_padding() {
    assert_eq!(unescape_volume_path(&String::from("a-b")), "a+b=");
    assert_eq!(unescape_volume_path(&String::from("_dev_sda")), "/dev/sda");
    assert_eq!(unescape_volume_path(&String::from("")), "");
}

#[test]
fn sandbox_id_is_the_first_mount_info_entry() {
    let entries = vec![
        String::from("something-else"),
        String::from("mountInfo.json"),
    ];
    assert_eq!(
        get_sandbox_id_for_volume(&entries),
        Some(String::from("mountInfo.json"))
    );
    let none = vec![String::from("a"), String::from("b")];
    assert_eq!(get_sandbox_id_for_volume(&none), None);
    assert_eq!(get_sandbox_id_for_volume(&Vec::new()), None);
}

#[test]
fn routing_matches_method_and_path() {
    assert_eq!(route("GET", "/agent-url"), MgmtRoute::AgentUrl);
    assert_eq!(route("GET", "/direct-volume/stats"), MgmtRoute::DirectVolumeStats);
    assert_eq!(route("POST", "/direct-volume/resize"), MgmtRoute::DirectVolumeResize);
    assert_eq!(route("POST", "/direct-volume/stats"), MgmtRoute::NotFound);
    assert_eq!(route("GET", "/direct-volume/resize"), MgmtRoute::NotFound);
    assert_eq!(route("GET", "/nowhere"), MgmtRoute::NotFound);
}

#[test]
fn stats_volume_path_reads_and_decodes_the_path_key() {
    assert_eq!(
        stats_volume_path("path=_dev_sda&other=1"),
        Some(String::from("/dev/sda"))
    );
    assert_eq!(stats_volume_path("path=a-b"), Some(String::from("a+b=")));
    assert_eq!(stats_volume_path("path=%2Fx%2Fy"), Some(String::from("/x/y")));
    assert_eq!(stats_volume_path("other=1"), None);
    assert_eq!(stats_volume_path(""), None);
}

#[test]
fn find_query_value_takes_the_first_occurrence() {
    let pairs = vec![
        (String::from("a"), String::from("1")),
        (String::from("path"), String::from("first")),
        (String::from("path"), String::from("second")),
    ];
    assert_eq!(find_query_value(&pairs, "path"), Some(String::from("first")));
    assert_eq!(find_query_value(&pairs, "missing"), None);
}

#[test]
fn stats_request_url_percent_encodes_the_device() {
    assert_eq!(
        stats_request_url("/dev/sda"),
        "/direct-volume/stats&path=%2Fdev%2Fsda"
    );
    assert_eq!(stats_request_url("plain"), "/direct-volume/stats&path=plain");
}

#[test]
fn volume_records_hold_their_fields() {
    let mut metadata = HashMap::new();
    metadata.insert(String::from("owner"), String::from("sandbox-1"));
    let info = VolumeMountInfo {
        volume_type: String::from("block"),
        device: String::from("/dev/sda"),
        fs_type: String::from("ext4"),
        metadata,
        options: vec![String::from("ro")],
    };
    assert_eq!(info.device, "/dev/sda");
    assert_eq!(info.options.len(), 1);

    let req = ResizeRequest {
        size: 1 << 30,
        volume_path: String::from("/dev/sda"),
    };
    assert_eq!(req.size, 1073741824);
}

#[test]
fn resize_request_body_is_exact_json() {
    let req = ResizeRequest {
        size: 1024,
        volume_path: String::from("/dev/sda"),
    };
    let body = sandbox_net::volume::resize_request_body(&req);
    assert_eq!(
        String::from_utf8(body).unwrap(),
        "{\"size\":1024,\"volume_path\":\"/dev/sda\"}"
    );
}

#[test]
fn resize_request_body_escapes_the_path() {
    let req = ResizeRequest {
        size: 1,
        volume_path: String::from("a\"b\\c\nd"),
    };
    let body = sandbox_net::volume::resize_request_body(&req);
    assert_eq!(
        String::from_utf8(body.clone()).unwrap(),
        "{\"size\":1,\"volume_path\":\"a\\\"b\\\\c\\u000ad\"}"
    );
    let parsed: serde_json::Value = serde_json::from_slice(&body).unwrap();
    assert_eq!(parsed["size"].as_u64(), Some(1));
    assert_eq!(parsed["volume_path"].as_str(), Some("a\"b\\c\nd"));
}

#[test]
fn error_details_are_surfaced() {
    let e = sandbox_net::NetError::ResourceExhaustion(String::from("/dev/tap3: denied"));
    assert_eq!(e.detail(), "/dev/tap3: denied");
    let e = sandbox_net::NetError::NetlinkError(String::from("link 9 not found"));
    assert_eq!(e.detail(), "link 9 not found");
}
