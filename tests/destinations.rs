use multi_publisher::config::{
    escape_js_single, is_fill_success, is_target_url, is_wechat_login_url, js_array, marker_status,
    path_allowed, Platform,
};
use multi_publisher::outcome::{
    manual_continue, overall_task_status, task_result_automation_failed,
    task_result_session_failed, task_result_success, task_result_timeout, upload_started,
};
use multi_publisher::errors::PlatformAutomationError;
use multi_publisher::platforms::{all_platforms, get_platform_info, wechat, xiaohongshu, youtube};
use multi_publisher::strategies::{
    describe_attempt, selector_gate, AttemptNote, SelectorGate, UploadOptions,
};

#[test]
fn platform_lookup() {
    let info = get_platform_info("wechat").unwrap();
    assert_eq!(info.name, "微信视频号");
    assert_eq!(info.upload_url, "https://channels.weixin.qq.com/platform/post/create");
    assert!(get_platform_info("tiktok").is_none());
    let ids: Vec<String> = all_platforms().into_iter().map(|p| p.id).collect();
    assert_eq!(ids, vec!["douyin", "xiaohongshu", "bilibili", "wechat", "youtube"]);
    assert_eq!(Platform::from_id("youtube"), Some(Platform::Youtube));
    assert_eq!(Platform::from_id("x"), None);
    assert_eq!(Platform::Xiaohongshu.as_str(), "xiaohongshu");
}

#[test]
fn target_url_needs_host_and_allowed_path() {
    let cfg = xiaohongshu::config();
    assert!(is_target_url("https://creator.xiaohongshu.com/publish/publish?from=menu", &cfg));
    assert!(!is_target_url("https://creator.xiaohongshu.com/home", &cfg));
    let yt = youtube::config();
    assert!(path_allowed("https://anything", &yt.allowed_paths));
    assert!(is_target_url("https://studio.youtube.com/channel/x", &yt));
}

#[test]
fn channels_login_urls() {
    assert!(is_wechat_login_url("https://channels.weixin.qq.com/login.html"));
    assert!(is_wechat_login_url("https://channels.weixin.qq.com/x?scanlogin=1"));
    assert!(!is_wechat_login_url("https://channels.weixin.qq.com/platform/post/create"));
    assert!(!is_wechat_login_url("https://example.com/login"));
}

#[test]
fn fill_markers() {
    assert!(is_fill_success("input:0"));
    assert!(is_fill_success("editable"));
    assert_eq!(marker_status("input:title"), "ok");
    assert_eq!(marker_status("skipped_empty"), "skip");
    assert_eq!(marker_status("not_found"), "miss");
}

#[test]
fn script_literals_are_escaped() {
    assert_eq!(escape_js_single("it's a \\ path"), "it\\'s a \\\\ path");
    assert_eq!(js_array(&vec!["a", "b'c"]), "'a','b\\'c'");
    assert_eq!(js_array(&Vec::new()), "");
}

#[test]
fn channels_config_policy() {
    let cfg = wechat::config();
    assert_eq!(cfg.platform, Platform::Wechat);
    assert!(!cfg.require_surface_ready);
    assert!(cfg.weak_ready_self_heal);
    assert_eq!(cfg.blocked_text_markers.len(), 4);
}

#[test]
fn task_results_follow_outcome() {
    let ok = task_result_success(1, "douyin", upload_started("抖音", "url:post_video", 9300), "launched_new");
    assert_eq!(ok.status, "automated");
    assert_eq!(ok.message.as_deref(), Some("抖音：已触发上传并尝试填写基础信息（url:post_video）。请在 Chrome 继续检查并发布。"));
    let manual = task_result_success(2, "x", manual_continue(9301), "reused_existing");
    assert_eq!(manual.status, "launched");
    assert_eq!(manual.automation_phase.as_deref(), Some("manual_continue"));
    let err = PlatformAutomationError::from_raw("LOGIN_REQUIRED: scan");
    let failed = task_result_automation_failed(3, "wechat", "微信视频号", err, 9302, "launched_new");
    assert_eq!(failed.status, "launched");
    assert_eq!(failed.error_code.as_deref(), Some("LOGIN_REQUIRED"));
    assert_eq!(failed.debug_port_used, Some(9302));
    assert_eq!(failed.message.as_deref(), Some("Chrome 已打开 微信视频号，但自动填充失败：scan。请手动操作。"));
    let timeout = task_result_timeout(4, "bilibili", "哔哩哔哩", 9303, "launched_new");
    assert_eq!(timeout.message.as_deref(), Some("Chrome 已打开 哔哩哔哩，自动化处理超时（45 秒）。请手动继续。"));
    let busy = task_result_session_failed(5, "douyin", PlatformAutomationError::from_raw("PROFILE_BUSY: busy"));
    assert_eq!(busy.status, "launched");
    assert_eq!(busy.automation_phase.as_deref(), Some("manual_continue"));
    let other = task_result_session_failed(6, "douyin", PlatformAutomationError::from_raw("boom"));
    assert_eq!(other.status, "failed");
    assert_eq!(other.error_code.as_deref(), Some("UNKNOWN"));
    assert_eq!(overall_task_status(&vec![busy, ok]), "publishing");
    assert_eq!(overall_task_status(&vec![other]), "partial");
    assert_eq!(overall_task_status(&Vec::new()), "partial");
}

#[test]
fn selector_attempts() {
    let opts = UploadOptions::generic();
    assert_eq!(opts.candidate_selectors, vec!["input[type='file']"]);
    assert_eq!(selector_gate(&opts, 8001, 3), SelectorGate::SkipGlobalTimeout);
    assert_eq!(selector_gate(&opts, 8000, 0), SelectorGate::Miss);
    assert_eq!(selector_gate(&opts, 10, 1), SelectorGate::Attempt);
    assert_eq!(describe_attempt("s", &AttemptNote::Skipped, &opts), "selector=s skipped(global_timeout=8s)");
    assert_eq!(describe_attempt("s", &AttemptNote::Miss, &opts), "selector=s miss(count=0)");
    assert_eq!(describe_attempt("s", &AttemptNote::SetFailed("e".to_string()), &opts), "selector=s set_failed:e");
    assert_eq!(describe_attempt("s", &AttemptNote::NoSignal, &opts), "selector=s no_signal(timeout=3s)");
}
