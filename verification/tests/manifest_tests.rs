use wlexcli::errors::InstallError;
use wlexcli::json::{parse_apps_manifest, parse_plugin_manifest};
use wlexcli::manifest::{find_app, find_plugin};

const URL: &str = "https://example.test/repo.json";

#[test]
fn resolve_by_id_and_by_file_return_same_entry() {
    let m = parse_plugin_manifest(r#"{"files":[{"id":"42","file":"pkg-a"}]}"#, URL).unwrap();
    let by_id = find_plugin(&m, "42").unwrap();
    assert_eq!(by_id.id, "42");
    assert_eq!(by_id.file, "pkg-a");
    let by_file = find_plugin(&m, "pkg-a").unwrap();
    assert_eq!(by_id, by_file);
}

#[test]
fn resolve_unknown_plugin_is_not_found() {
    let m = parse_plugin_manifest(r#"{"files":[{"id":"42","file":"pkg-a"}]}"#, URL).unwrap();
    let err = find_plugin(&m, "nope").unwrap_err();
    assert_eq!(err, InstallError::NotFoundError("nope".to_string()));
}

#[test]
fn error_detail_carries_the_query() {
    let m = parse_plugin_manifest(r#"{"files":[]}"#, URL).unwrap();
    assert!(m.files.is_empty());
    let err = find_plugin(&m, "nope").unwrap_err();
    assert_eq!(err.detail(), "nope");
}

#[test]
fn resolve_plugin_is_case_sensitive() {
    let m = parse_plugin_manifest(r#"{"files":[{"id":"42","file":"pkg-a"}]}"#, URL).unwrap();
    assert!(find_plugin(&m, "PKG-A").is_err());
    assert!(find_plugin(&m, "Pkg-a").is_err());
}

#[test]
fn resolve_plugin_first_match_wins() {
    let m = parse_plugin_manifest(
        r#"{"files":[{"id":"a","file":"x"},{"id":"x","file":"y"}]}"#,
        URL,
    )
    .unwrap();
    let e = find_plugin(&m, "x").unwrap();
    assert_eq!(e.id, "a");
    assert_eq!(e.file, "x");
}

#[test]
fn parse_plugin_manifest_rejects_invalid_json() {
    let err = parse_plugin_manifest("{not json", URL).unwrap_err();
    match err {
        InstallError::ParseError(msg) => assert!(msg.contains(URL)),
        other => panic!("expected ParseError, got {:?}", other),
    }
}

#[test]
fn parse_plugin_manifest_rejects_missing_files_list() {
    let err = parse_plugin_manifest(r#"{"apps":[]}"#, URL).unwrap_err();
    match err {
        InstallError::ParseError(msg) => assert!(msg.contains("files")),
        other => panic!("expected ParseError, got {:?}", other),
    }
}

#[test]
fn parse_plugin_manifest_rejects_row_without_id() {
    let err = parse_plugin_manifest(r#"{"files":[{"file":"pkg-a"}]}"#, URL).unwrap_err();
    match err {
        InstallError::ParseError(msg) => assert!(msg.contains("id")),
        other => panic!("expected ParseError, got {:?}", other),
    }
}

#[test]
fn parse_plugin_manifest_rejects_non_string_field() {
    let err = parse_plugin_manifest(r#"{"files":[{"id":7,"file":"pkg-a"}]}"#, URL).unwrap_err();
    assert!(matches!(err, InstallError::ParseError(_)));
}

#[test]
fn parse_plugin_manifest_keeps_order() {
    let m = parse_plugin_manifest(
        r#"{"files":[{"id":"1","file":"a"},{"id":"2","file":"b"},{"id":"3","file":"c"}]}"#,
        URL,
    )
    .unwrap();
    assert_eq!(m.files.len(), 3);
    assert_eq!(m.files[0].file, "a");
    assert_eq!(m.files[1].file, "b");
    assert_eq!(m.files[2].file, "c");
}

#[test]
fn resolve_app_is_case_insensitive() {
    let m = parse_apps_manifest(
        r#"{"apps":[{"name":"Tool","url":"http://x/installer.exe"}]}"#,
        URL,
    )
    .unwrap();
    let e = find_app(&m, "tool").unwrap();
    assert_eq!(e.name, "Tool");
    assert_eq!(e.url, "http://x/installer.exe");
    let e2 = find_app(&m, "TOOL").unwrap();
    assert_eq!(e, e2);
    let e3 = find_app(&m, "Tool").unwrap();
    assert_eq!(e, e3);
}

#[test]
fn resolve_unknown_app_is_not_found() {
    let m = parse_apps_manifest(
        r#"{"apps":[{"name":"Tool","url":"http://x/installer.exe"}]}"#,
        URL,
    )
    .unwrap();
    let err = find_app(&m, "Hammer").unwrap_err();
    assert_eq!(err, InstallError::NotFoundError("Hammer".to_string()));
}

#[test]
fn resolve_app_in_empty_manifest_is_not_found() {
    let m = parse_apps_manifest(r#"{"apps":[]}"#, URL).unwrap();
    assert!(find_app(&m, "tool").is_err());
}

#[test]
fn parse_apps_manifest_rejects_row_without_url() {
    let err = parse_apps_manifest(r#"{"apps":[{"name":"Tool"}]}"#, URL).unwrap_err();
    match err {
        InstallError::ParseError(msg) => assert!(msg.contains("url")),
        other => panic!("expected ParseError, got {:?}", other),
    }
}
