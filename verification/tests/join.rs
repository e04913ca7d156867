//! Bundles that join the namespaces of another container.

use a3s_oci_runtime::json::{has_text, put_member, take_member, Json, Member};
use a3s_oci_runtime::macos_hvf_host_smoke::bundle::{
    handoff_annotation, private_ancestors, PrivateAncestors,
};
use a3s_oci_runtime::namespace_join::{build_bundles, build_host_network_bundle, namespace_path};
use serde_json::Value;

const CONFIG: &str = r#"{
  "ociVersion": "1.2.0",
  "hostname": "utility",
  "process": {
    "terminal": false,
    "args": ["/bin/sh", "-c", "exec /bin/busybox sleep 600"],
    "cwd": "/"
  },
  "root": {"path": "rootfs", "readonly": true},
  "mounts": [{"destination": "/proc", "type": "proc", "source": "proc"}],
  "linux": {
    "cgroupsPath": "a3s-oci-utility",
    "uidMappings": [{"containerID": 0, "hostID": 100000, "size": 65536}],
    "gidMappings": [{"containerID": 0, "hostID": 100000, "size": 65536}],
    "timeOffsets": {"monotonic": {"secs": 7}},
    "namespaces": [
      {"type": "pid"}, {"type": "network"}, {"type": "ipc"}, {"type": "uts"},
      {"type": "mount"}, {"type": "cgroup"}, {"type": "user"}, {"type": "time"}
    ]
  }
}"#;

fn parse(text: &str) -> Value {
    serde_json::from_str(text).expect("JSON text")
}

fn command(config: &Value) -> String {
    config["process"]["args"][2]
        .as_str()
        .expect("shell command")
        .to_string()
}

#[test]
fn derives_positive_and_negative_join_profiles_from_the_qualified_bundle() {
    let bundles = build_bundles(CONFIG, 4242).expect("namespace join bundles");

    let non_mount = parse(&bundles.non_mount);
    let namespaces = non_mount["linux"]["namespaces"]
        .as_array()
        .expect("namespace list");
    assert_eq!(namespaces.len(), 8);
    assert_eq!(
        namespaces[0]["path"],
        Value::String("/proc/4242/ns/time".into())
    );
    assert_eq!(namespaces[3], parse(r#"{"type": "mount"}"#));
    assert!(non_mount["linux"].get("uidMappings").is_none());
    assert!(non_mount["linux"].get("timeOffsets").is_none());
    assert!(command(&non_mount).contains("/bin/busybox sleep 1"));
    assert!(command(&non_mount).contains("stat -c %u:%g"));

    let mount = parse(&bundles.mount);
    assert_eq!(
        mount["linux"]["namespaces"],
        parse(r#"[{"type": "mount", "path": "/proc/4242/ns/mnt"}]"#)
    );
    assert!(mount.get("mounts").is_none());
    assert!(mount.get("hostname").is_none());
    assert!(command(&mount).contains("/bin/busybox sleep 1"));
    assert!(!command(&mount).contains("stat -c %u:%g"));

    let wrong_type = parse(&bundles.wrong_type);
    assert_eq!(
        wrong_type["linux"]["namespaces"],
        parse(r#"[{"type": "uts", "path": "/proc/4242/ns/net"}]"#)
    );
}

#[test]
fn host_network_profile_removes_network_sysctls_and_changes_cgroup_identity() {
    let mut base_config = parse(CONFIG);
    base_config["linux"]["sysctl"] = parse(r#"{"net.ipv4.ip_forward": "1"}"#);
    let base = serde_json::to_string(&base_config).expect("encoded base config");
    let bundle = build_host_network_bundle(&base, "a3s-oci-host-network-test")
        .expect("host-network bundle");
    let config = parse(&bundle);
    let namespaces = config["linux"]["namespaces"]
        .as_array()
        .expect("namespace list");

    assert!(!namespaces
        .iter()
        .any(|namespace| namespace["type"] == "network"));
    assert!(namespaces
        .iter()
        .any(|namespace| namespace["type"] == "mount"));
    assert!(config["linux"].get("sysctl").is_none());
    assert_eq!(config["linux"]["cgroupsPath"], "a3s-oci-host-network-test");
    assert!(command(&config).contains("busybox sleep 1"));
    assert!(!command(&config).contains("stat -c %u:%g"));
}

#[test]
fn numbers_come_through_a_bundle_unchanged() {
    let base = CONFIG.replace("\"secs\": 7", "\"secs\": 18446744073709551615, \"part\": 0.25");
    let bundle = build_host_network_bundle(&base, "cgroup").expect("host-network bundle");
    let config = parse(&bundle);
    assert_eq!(config["root"], parse(r#"{"path": "rootfs", "readonly": true}"#));
    assert_eq!(config["mounts"], parse(CONFIG)["mounts"]);
    assert_eq!(
        config["linux"]["timeOffsets"]["monotonic"]["secs"],
        Value::from(u64::MAX)
    );
}

#[test]
fn bundles_without_a_shell_command_are_refused() {
    assert!(build_bundles("not json", 1).is_err());
    assert!(build_bundles("[]", 1).is_err());
    let error = build_bundles(r#"{"process": {"args": ["/bin/true"]}, "linux": {}}"#, 1).unwrap_err();
    assert_eq!(
        error,
        "namespace join fixture requires process.args[2] to be a shell command"
    );
    assert!(build_host_network_bundle(r#"{"process": {"args": ["a", "b", "c"]}}"#, "c").is_err());
}

#[test]
fn namespaces_are_named_below_their_process() {
    assert_eq!(namespace_path(4242, "mnt"), "/proc/4242/ns/mnt");
    assert_eq!(namespace_path(i32::MIN, "net"), "/proc/-2147483648/ns/net");
}

#[test]
fn members_are_taken_and_put_by_name() {
    let members = vec![
        Member {
            name: "a".to_string(),
            value: Json::Bool(true),
        },
        Member {
            name: "b".to_string(),
            value: Json::Text("two".to_string()),
        },
    ];
    let (taken, rest) = take_member(members, "a");
    assert!(matches!(taken, Some(Json::Bool(true))));
    assert_eq!(rest.len(), 1);
    let put = put_member(rest, "b", Json::Text("three".to_string()));
    assert_eq!(put.len(), 1);
    let object = Json::Object(put);
    assert!(has_text(&object, "b", "three"));
    assert!(!has_text(&object, "b", "two"));
    assert!(!has_text(&Json::Null, "b", "three"));
}

#[test]
fn handoffs_are_annotated_in_the_config() {
    let bytes = handoff_annotation(CONFIG.as_bytes(), "org.example.handoff", "1").expect("config");
    assert_eq!(bytes.last(), Some(&b'\n'));
    let config: Value = serde_json::from_slice(&bytes).expect("annotated config");
    assert_eq!(config["annotations"]["org.example.handoff"], "1");
    assert_eq!(config["hostname"], "utility");
    assert!(String::from_utf8(bytes).unwrap().starts_with("{\n  \""));
    assert!(handoff_annotation(b"{", "x", "1").is_err());
    assert!(handoff_annotation(b"[]", "x", "1").is_err());
    assert!(handoff_annotation(br#"{"annotations": 1}"#, "x", "1").is_err());
}

#[test]
fn ancestors_are_private_up_to_the_runtime_root() {
    assert_eq!(private_ancestors("/r", "/r/a/b"), PrivateAncestors::Nearest(2));
    assert_eq!(private_ancestors("/r", "/other/a"), PrivateAncestors::All);
}
