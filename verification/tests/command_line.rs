use telescope::cli::doctor::{
    desktop_doctor_target_status, inspect_control_file, webview_runtime_for_os,
    ControlFileContent,
};
use telescope::cli::options::{codex_url_from_arg_or_env, open_codex_options};
use telescope::pane::{parse_pane_position, PanePosition};

#[test]
fn parses_pane_positions() {
    assert_eq!(parse_pane_position("left").unwrap(), PanePosition::Left);
    assert_eq!(parse_pane_position("right").unwrap(), PanePosition::Right);
    assert_eq!(parse_pane_position("bottom").unwrap(), PanePosition::Bottom);
    assert!(parse_pane_position("top").is_err());
}

#[test]
fn desktop_doctor_reports_target_status_without_network() {
    assert_eq!(
        desktop_doctor_target_status(true, true, false),
        "direct-url-token"
    );
    assert_eq!(
        desktop_doctor_target_status(true, false, true),
        "missing-token"
    );
    assert_eq!(
        desktop_doctor_target_status(false, true, true),
        "missing-url"
    );
    assert_eq!(
        desktop_doctor_target_status(false, false, true),
        "control-file"
    );
    assert_eq!(
        desktop_doctor_target_status(false, false, false),
        "control-file-missing"
    );
}

#[test]
fn desktop_doctor_maps_platform_webview_runtime() {
    assert_eq!(webview_runtime_for_os("linux"), "WebKitGTK");
    assert_eq!(webview_runtime_for_os("macos"), "WKWebView");
    assert_eq!(webview_runtime_for_os("windows"), "WebView2");
    assert_eq!(webview_runtime_for_os("freebsd"), "unsupported");
}

#[test]
fn open_codex_options_default_to_interactive_without_scripts() {
    let options = open_codex_options(
        "https://codex.example/login".to_string(),
        PanePosition::Right,
        600,
        false,
        false,
        false,
        false,
    );

    assert_eq!(options.url, "https://codex.example/login");
    assert_eq!(options.position, PanePosition::Right);
    assert!(options.allow_credentials);
    assert!(options.allow_interactions);
    assert!(!options.allow_scripts);
    assert_eq!(options.ttl_seconds, Some(600));
}

#[test]
fn open_codex_options_support_script_only_profile() {
    let options = open_codex_options(
        "https://codex.example/login".to_string(),
        PanePosition::Left,
        60,
        false,
        true,
        true,
        true,
    );

    assert!(!options.allow_credentials);
    assert!(!options.allow_interactions);
    assert!(options.allow_scripts);
    assert_eq!(options.ttl_seconds, Some(60));
}

#[test]
fn desktop_doctor_validates_control_file_shape_without_exposing_token() {
    let valid = inspect_control_file(ControlFileContent::Text(
        r#"{"url":"http://127.0.0.1:47639","owner_token":"owner-token"}"#.to_string(),
    ));
    assert!(valid.exists);
    assert!(valid.readable);
    assert!(valid.valid);
    assert_eq!(valid.error, None);
    assert!(!format!("{:?}", valid).contains("owner-token"));

    let invalid = inspect_control_file(ControlFileContent::Text(
        r#"{"url":"http://127.0.0.1:47639"}"#.to_string(),
    ));
    assert!(invalid.exists);
    assert!(invalid.readable);
    assert!(!invalid.valid);
    assert_eq!(
        invalid.error.as_deref(),
        Some("control file is missing url or owner_token")
    );

    let missing = inspect_control_file(ControlFileContent::Missing);
    assert!(!missing.exists);
    assert!(!missing.readable);
    assert!(!missing.valid);
}

#[test]
fn open_codex_url_can_come_from_environment() {
    assert_eq!(
        codex_url_from_arg_or_env(Some(" https://codex.example/login ".to_string()), None).unwrap(),
        "https://codex.example/login"
    );
    assert_eq!(
        codex_url_from_arg_or_env(None, Some("https://codex.example/env".to_string())).unwrap(),
        "https://codex.example/env"
    );
}
