use multi_publisher::config::Platform;
use multi_publisher::platforms::{bilibili, wechat};
use multi_publisher::readiness::{
    classify_guard_state, compute_weak_ready, describe_weak_reason, format_probe_fingerprint,
    guard_step, wechat_upload_ready, GuardObservation, GuardState, GuardStep, ReadyKind,
    UploadPageProbe, WeakReason,
};

fn empty_probe() -> UploadPageProbe {
    UploadPageProbe {
        title: String::new(),
        body_text_len: 0,
        body_excerpt: String::new(),
        file_input_count: 0,
        blocked_text_hit: String::new(),
        init_text_hit: String::new(),
        login_text_hit: String::new(),
        surface_text_hit: String::new(),
        anchor_hit: false,
        surface_selector_hit_count: 0,
        surface_context_hit: String::new(),
        frame_count: 1,
        shadow_root_count: 0,
        scanned_nodes: 0,
        interactive_candidate_count: 0,
        interactive_context: String::new(),
        scan_failed: false,
    }
}

#[test]
fn blocked_marker_with_file_input_is_blocked() {
    let mut p = empty_probe();
    p.blocked_text_hit = "页面加载失败".to_string();
    p.file_input_count = 1;
    p.anchor_hit = true;
    p.interactive_candidate_count = 2;
    assert_eq!(p.guard_state(), GuardState::Blocked);
    assert_eq!(p.ready_kind(), ReadyKind::Blocked);
}

#[test]
fn guard_priority_holds_for_every_combination() {
    for mask in 0u32..32 {
        let b = mask & 1 != 0;
        let l = mask & 2 != 0;
        let i = mask & 4 != 0;
        let a = mask & 8 != 0;
        let n = if mask & 16 != 0 { 3 } else { 0 };
        let g = classify_guard_state(b, l, i, a, n);
        let expected = if b {
            GuardState::Blocked
        } else if l {
            GuardState::LoginRequired
        } else if i {
            GuardState::InitPending
        } else if a && n > 0 {
            GuardState::Ready
        } else {
            GuardState::Pending
        };
        assert_eq!(g, expected);
    }
}

#[test]
fn anchor_without_interactive_candidate_is_not_ready() {
    let mut p = empty_probe();
    p.anchor_hit = true;
    assert_eq!(p.guard_state(), GuardState::Pending);
    assert_eq!(p.ready_kind(), ReadyKind::AnchorNoInteractive);
    assert!(!wechat_upload_ready(&p));
    p.interactive_candidate_count = 1;
    assert!(wechat_upload_ready(&p));
    assert_eq!(GuardState::Ready.as_str(), "ready");
}

#[test]
fn weak_ready_reasons_on_channels_destination() {
    let cfg = wechat::config();
    let p = empty_probe();
    let (weak, reason) = compute_weak_ready(false, &p, &cfg);
    assert!(weak);
    assert_eq!(reason, WeakReason::WechatEmptyDom);
    let mut q = empty_probe();
    q.login_text_hit = "扫码登录".to_string();
    let (weak, reason) = compute_weak_ready(false, &q, &cfg);
    assert!(weak);
    assert_eq!(describe_weak_reason(reason, &q, 0), "wechat_login_required:扫码登录");
}

#[test]
fn weak_ready_body_too_short_text() {
    let mut cfg = bilibili::config();
    cfg.weak_ready_min_body_text_len = 50;
    let mut p = empty_probe();
    p.body_text_len = 7;
    let (weak, reason) = compute_weak_ready(true, &p, &cfg);
    assert!(weak);
    assert_eq!(reason, WeakReason::BodyTextTooShort);
    assert_eq!(describe_weak_reason(reason, &p, 50), "body_text_len_too_short:7<50");
}

#[test]
fn weak_ready_missing_surface_and_empty_dom() {
    let cfg = bilibili::config();
    assert_eq!(cfg.platform, Platform::Bilibili);
    let p = empty_probe();
    assert_eq!(compute_weak_ready(false, &p, &cfg), (true, WeakReason::SurfaceMissingAndEmptyDom));
    assert_eq!(compute_weak_ready(true, &p, &cfg), (false, WeakReason::NoReason));
}

#[test]
fn fingerprint_spells_out_fields() {
    let mut p = empty_probe();
    p.title = "T".to_string();
    p.body_text_len = 12;
    p.anchor_hit = true;
    let f = format_probe_fingerprint(&p);
    assert_eq!(
        f,
        "title=T;body_text_len=12;body_excerpt=;file_input_count=0;blocked_text_hit=none;init_text_hit=none;login_text_hit=none;surface_text_hit=none;anchor_hit=true;surface_selector_hit_count=0;surface_context_hit=none;frame_count=1;shadow_root_count=0;scanned_nodes=0;interactive_candidate_count=0;interactive_context=none;guard_state=pending;ready_kind=anchor_no_interactive"
    );
}

fn observation() -> GuardObservation {
    GuardObservation {
        is_wechat: false,
        host_ok: true,
        path_ok: true,
        surface_ok: false,
        blocked_hit: false,
        login_hit: false,
        init_hit: false,
        login_url_hit: false,
        weak_ready: false,
        weak_reason: WeakReason::NoReason,
        require_surface_ready: true,
        self_heal_enabled: false,
        self_heal_attempted: false,
        timed_out: false,
    }
}

#[test]
fn guard_steps_follow_policy() {
    let mut o = observation();
    assert_eq!(guard_step(&o), GuardStep::Wait);
    o.timed_out = true;
    assert_eq!(guard_step(&o), GuardStep::FailNotReady);
    o.timed_out = false;
    o.surface_ok = true;
    assert_eq!(guard_step(&o), GuardStep::Proceed);
    o.blocked_hit = true;
    assert_eq!(guard_step(&o), GuardStep::FailBlocked);
}

#[test]
fn guard_heals_weak_page_once() {
    let mut o = observation();
    o.require_surface_ready = false;
    o.weak_ready = true;
    o.self_heal_enabled = true;
    assert_eq!(guard_step(&o), GuardStep::SelfHeal);
    o.self_heal_attempted = true;
    assert_eq!(guard_step(&o), GuardStep::FailWeakReady);
    o.weak_ready = false;
    assert_eq!(guard_step(&o), GuardStep::ProceedDegraded);
}

#[test]
fn guard_on_channels_login_and_init() {
    let mut o = observation();
    o.is_wechat = true;
    o.login_url_hit = true;
    assert_eq!(guard_step(&o), GuardStep::FailLoginRequired);
    o.login_url_hit = false;
    o.init_hit = true;
    assert_eq!(guard_step(&o), GuardStep::Wait);
    o.timed_out = true;
    assert_eq!(guard_step(&o), GuardStep::FailStillInitializing);
}

fn scan(text: &str) -> multi_publisher::readiness::PageScan {
    multi_publisher::readiness::PageScan {
        title: "t".to_string(),
        body_text: text.to_string(),
        file_input_count: 0,
        surface_selector_hit_count: 0,
        surface_context_hit: String::new(),
        frame_count: 1,
        shadow_root_count: 0,
        scanned_nodes: 5,
        interactive_candidate_count: 1,
        interactive_context: "top".to_string(),
    }
}

#[test]
fn markers_are_read_in_priority_order() {
    let cfg = wechat::config();
    let h = multi_publisher::readiness::scan_markers("网络异常 请使用微信扫码登录 初始化中", &cfg);
    assert_eq!(h.blocked, "网络异常");
    assert_eq!(h.login, "");
    assert_eq!(h.init, "");
    let h = multi_publisher::readiness::scan_markers("微信扫码 初始化中", &cfg);
    assert_eq!(h.blocked, "");
    assert_eq!(h.login, "微信扫码");
    assert_eq!(h.init, "");
    let h = multi_publisher::readiness::scan_markers("页面初始化中 上传视频", &cfg);
    assert_eq!(h.init, "页面初始化中");
    assert_eq!(h.surface, "上传视频");
}

#[test]
fn probe_from_scan_sets_anchor_and_excerpt() {
    let cfg = wechat::config();
    let long: String = std::iter::repeat('字').take(130).collect();
    let p = multi_publisher::readiness::probe_from_scan(scan(&long), &cfg);
    assert_eq!(p.body_text_len, 130);
    assert_eq!(p.body_excerpt.chars().count(), 120);
    assert!(!p.anchor_hit);
    let p = multi_publisher::readiness::probe_from_scan(scan("点击或拖拽上传"), &cfg);
    assert!(p.anchor_hit);
    assert_eq!(p.guard_state(), GuardState::Ready);
    let p = multi_publisher::readiness::probe_from_scan(scan("页面加载失败 上传视频"), &cfg);
    assert_eq!(p.guard_state(), GuardState::Blocked);
}

#[test]
fn blocked_outranks_login_at_the_guard() {
    let mut o = observation();
    o.is_wechat = true;
    o.blocked_hit = true;
    o.login_hit = true;
    o.login_url_hit = true;
    assert_eq!(guard_step(&o), GuardStep::FailBlocked);
}

#[test]
fn failed_scan_is_never_ready() {
    let p = multi_publisher::readiness::failed_scan_probe();
    assert!(p.scan_failed);
    assert_eq!(p.guard_state(), GuardState::Pending);
    assert_eq!(p.ready_kind(), ReadyKind::ScanError);
    assert!(!wechat_upload_ready(&p));
    assert!(format_probe_fingerprint(&p).ends_with("guard_state=pending;ready_kind=scan_error"));
}
