use multi_publisher::errors::{
    classify_error, normalize_platform_error, platform_display_name, strip_error_code_prefix,
    ErrorKind, PlatformAutomationError, ACTION_HINT_CHECK_CHROME, ACTION_HINT_CLOSE_WINDOW,
};

#[test]
fn every_kind_is_recognized() {
    let cases = [
        ("TARGET_PAGE_NOT_FOUND: x", "TARGET_PAGE_NOT_FOUND"),
        ("TARGET_PAGE_NOT_READY: x", "TARGET_PAGE_NOT_READY"),
        ("LOGIN_REQUIRED: x", "LOGIN_REQUIRED"),
        ("WECHAT_CHOOSER_NOT_OPENED: x", "WECHAT_CHOOSER_NOT_OPENED"),
        ("WECHAT_UPLOAD_SIGNAL_TIMEOUT: x", "WECHAT_UPLOAD_SIGNAL_TIMEOUT"),
        ("PROFILE_BUSY: x", "PROFILE_BUSY"),
        ("CDP_NO_PAGE: x", "CDP_NO_PAGE"),
        ("CHROME_NOT_READY: x", "CHROME_NOT_READY"),
        ("AUTOMATION_FAILED: x", "AUTOMATION_FAILED"),
        ("AUTOMATION_TIMEOUT: x", "AUTOMATION_TIMEOUT"),
        ("something else", "UNKNOWN"),
    ];
    for (raw, code) in cases {
        assert_eq!(classify_error(raw).0, code, "{}", raw);
    }
    assert_eq!(classify_error("something else").1, None);
    assert_eq!(ErrorKind::Unknown.hint(), None);
}

#[test]
fn classification_ignores_case() {
    let (code, hint) = classify_error("profile_busy: another window");
    assert_eq!(code, "PROFILE_BUSY");
    assert_eq!(hint.as_deref(), Some(ACTION_HINT_CLOSE_WINDOW));
}

#[test]
fn known_phrases_map_to_kinds() {
    assert_eq!(classify_error("Chrome 调试端口 9300 可用，但没有可操作页面").0, "CDP_NO_PAGE");
    let (code, hint) = classify_error("连接 Chrome 端口 9301 失败");
    assert_eq!(code, "CHROME_NOT_READY");
    assert_eq!(hint.as_deref(), Some(ACTION_HINT_CHECK_CHROME));
}

#[test]
fn prefix_is_stripped_and_trimmed() {
    assert_eq!(strip_error_code_prefix("LOGIN_REQUIRED:   please scan  "), "please scan");
    assert_eq!(strip_error_code_prefix("login_required: lower"), "lower");
    assert_eq!(strip_error_code_prefix("no prefix here"), "no prefix here");
    assert_eq!(strip_error_code_prefix("PROFILE_BUSY:"), "");
}

#[test]
fn unknown_failures_are_tagged() {
    assert_eq!(normalize_platform_error("boom".to_string()), "AUTOMATION_FAILED: boom");
    assert_eq!(normalize_platform_error("TARGET_PAGE_NOT_READY: x".to_string()), "TARGET_PAGE_NOT_READY: x");
    assert_eq!(normalize_platform_error("automation_timeout".to_string()), "automation_timeout");
}

#[test]
fn automation_error_from_raw_with_port() {
    let e = PlatformAutomationError::from_raw("CHROME_NOT_READY: 30 秒内未就绪").with_debug_port(9333);
    assert_eq!(e.code, "CHROME_NOT_READY");
    assert_eq!(e.message, "30 秒内未就绪");
    assert_eq!(e.action_hint.as_deref(), Some(ACTION_HINT_CHECK_CHROME));
    assert_eq!(e.debug_port_used, Some(9333));
}

#[test]
fn display_names() {
    assert_eq!(platform_display_name("douyin"), "抖音");
    assert_eq!(platform_display_name("youtube"), "YouTube");
    assert_eq!(platform_display_name("unknown"), "平台");
}
