use chelsea_lib::snapshot_config::{patch_snapshot_config, JsonValue};

fn s(t: &str) -> JsonValue {
    JsonValue::Str(t.to_string())
}

fn obj(members: Vec<(&str, JsonValue)>) -> JsonValue {
    JsonValue::Object(members.into_iter().map(|(k, v)| (k.to_string(), v)).collect())
}

fn get<'a>(v: &'a JsonValue, key: &str) -> Option<&'a JsonValue> {
    match v {
        JsonValue::Object(members) => members.iter().find(|(k, _)| k == key).map(|(_, v)| v),
        _ => None,
    }
}

fn as_str(v: Option<&JsonValue>) -> Option<&str> {
    match v {
        Some(JsonValue::Str(t)) => Some(t.as_str()),
        _ => None,
    }
}

#[test]
fn patch_replaces_disk_kernel_and_vsock_paths() {
    let config = obj(vec![
        ("cpus", obj(vec![("boot_vcpus", JsonValue::Number("2".to_string()))])),
        (
            "disks",
            JsonValue::Array(vec![
                obj(vec![("path", s("/old/disk0")), ("readonly", JsonValue::Bool(false))]),
                obj(vec![("path", s("/old/disk1"))]),
            ]),
        ),
        ("payload", obj(vec![("kernel", s("/old/kernel")), ("cmdline", s("console=ttyS0"))])),
        ("vsock", obj(vec![("cid", JsonValue::Number("3".to_string())), ("socket", s("/old/vsock.sock"))])),
    ]);
    let patched = patch_snapshot_config(config, "/new/disk", "/new/kernel", "/new/vsock.sock");
    match get(&patched, "disks") {
        Some(JsonValue::Array(disks)) => {
            assert_eq!(disks.len(), 2);
            for d in disks {
                assert_eq!(as_str(get(d, "path")), Some("/new/disk"));
            }
            assert!(matches!(get(&disks[0], "readonly"), Some(JsonValue::Bool(false))));
        }
        other => panic!("unexpected disks: {:?}", other),
    }
    let payload = get(&patched, "payload").unwrap();
    assert_eq!(as_str(get(payload, "kernel")), Some("/new/kernel"));
    assert_eq!(as_str(get(payload, "cmdline")), Some("console=ttyS0"));
    let vsock = get(&patched, "vsock").unwrap();
    assert_eq!(as_str(get(vsock, "socket")), Some("/new/vsock.sock"));
    assert!(matches!(get(vsock, "cid"), Some(JsonValue::Number(n)) if n == "3"));
    let cpus = get(&patched, "cpus").unwrap();
    assert!(matches!(get(cpus, "boot_vcpus"), Some(JsonValue::Number(n)) if n == "2"));
}

#[test]
fn patch_leaves_missing_members_absent() {
    let config = obj(vec![("payload", obj(vec![("cmdline", s("x"))]))]);
    let patched = patch_snapshot_config(config, "/d", "/k", "/v");
    let payload = get(&patched, "payload").unwrap();
    assert!(get(payload, "kernel").is_none());
    assert!(get(&patched, "vsock").is_none());
    assert!(get(&patched, "disks").is_none());
    let not_object = patch_snapshot_config(JsonValue::Null, "/d", "/k", "/v");
    assert!(matches!(not_object, JsonValue::Null));
}
