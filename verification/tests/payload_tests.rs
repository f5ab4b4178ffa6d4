use backend_dispatch::payload::resolve_exports_dir;
use backend_dispatch::payload::RunPayload;

#[test]
fn missing_both_keys_names_them_in_the_error() {
    let payload = RunPayload { exports_dir: None, exports_dir_camel: None };
    assert_eq!(
        resolve_exports_dir(payload).unwrap_err(),
        "Missing required parameter `exports_dir` or `exportsDir`"
    );
}

#[test]
fn snake_case_key_wins_when_both_are_present() {
    let payload = RunPayload {
        exports_dir: Some("/a".to_string()),
        exports_dir_camel: Some("/b".to_string()),
    };
    assert_eq!(resolve_exports_dir(payload).unwrap(), "/a");
}

#[test]
fn camel_case_key_is_accepted_as_fallback() {
    let payload = RunPayload { exports_dir: None, exports_dir_camel: Some("/b".to_string()) };
    assert_eq!(resolve_exports_dir(payload).unwrap(), "/b");
}
