use servoshell::protocol::{relay_extension_id, stores_key, route_shortcut, split_keys, storage_call, ServoProtocolHandler, Shortcut, StorageCall};

#[test]
fn shortcuts_route_to_pages_and_endpoints() {
    assert!(matches!(route_shortcut("config"), Shortcut::Resource(ref p) if p == "/config.html"));
    assert!(matches!(route_shortcut("vpn-guide"), Shortcut::Resource(ref p) if p == "/vpn-guide.html"));
    assert!(matches!(route_shortcut("extensions"), Shortcut::Resource(ref p) if p == "/extensions.html"));
    assert!(matches!(route_shortcut("experimental-preferences"), Shortcut::ExperimentalPreferences));
    assert!(matches!(route_shortcut("default-user-agent"), Shortcut::DefaultUserAgent));
    assert!(matches!(route_shortcut("extensions-data"), Shortcut::ExtensionsData));
    assert!(matches!(route_shortcut("ext-api/storage/get"), Shortcut::ExtensionApi(ref e) if e == "storage/get"));
    assert!(matches!(route_shortcut("ext-api"), Shortcut::Invalid));
    assert!(matches!(route_shortcut("nope"), Shortcut::Invalid));
}

#[test]
fn storage_endpoints() {
    assert!(matches!(storage_call("storage/get"), StorageCall::GetKeys));
    assert!(matches!(storage_call("storage/set"), StorageCall::SetKey));
    assert!(matches!(storage_call("storage/remove"), StorageCall::RemoveKeys));
    assert!(matches!(storage_call("storage/clear"), StorageCall::ClearAll));
    assert!(matches!(storage_call("storage"), StorageCall::Unknown));
}

#[test]
fn keys_split_on_commas_dropping_empties() {
    assert_eq!(split_keys("a,b,,c,"), vec!["a", "b", "c"]);
    assert_eq!(split_keys(""), Vec::<String>::new());
    assert_eq!(split_keys(",,"), Vec::<String>::new());
    assert_eq!(split_keys("only"), vec!["only"]);
}

#[test]
fn handler_flags() {
    let h = ServoProtocolHandler {};
    assert_eq!(h.privileged_paths(), vec!["config", "preferences"]);
    assert!(h.is_fetchable());
}

#[test]
fn relay_defaults() {
    assert_eq!(relay_extension_id(None), "default");
    assert_eq!(relay_extension_id(Some("abc".to_string())), "abc");
    assert!(!stores_key(""));
    assert!(stores_key("k"));
}
