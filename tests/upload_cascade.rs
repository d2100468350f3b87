use multi_publisher::cascade::{
    fill_result, FillFailure,
    strategy_order, upload_signal_source, CascadeFailure, FastVerdict, StepRecord, StepResult,
    Strategy, UploadCascade,
};
use multi_publisher::config::Platform;

fn rec(strategy: Strategy, target: &str, result: StepResult, signal: Option<&str>) -> StepRecord {
    StepRecord {
        strategy,
        target: target.to_string(),
        result,
        signal: signal.map(|s| s.to_string()),
        duration_ms: 0,
    }
}

#[test]
fn order_puts_click_before_drag_only_on_channels() {
    assert_eq!(
        strategy_order(Platform::Wechat),
        vec![Strategy::Chooser, Strategy::DirectAssign, Strategy::ClickChooser, Strategy::DragDrop]
    );
    assert_eq!(
        strategy_order(Platform::Bilibili),
        vec![Strategy::Chooser, Strategy::DirectAssign, Strategy::DragDrop, Strategy::ClickChooser]
    );
}

#[test]
fn direct_assignment_wins_after_chooser_misses() {
    let mut c = UploadCascade::new();
    c.record(rec(Strategy::Chooser, "input[type='file'][accept*='video']", StepResult::NoMatch, None));
    c.record(rec(Strategy::Chooser, "input[type='file']", StepResult::NoMatch, None));
    c.record(rec(Strategy::DirectAssign, "input[type='file']", StepResult::Acted, Some("file:selected:1")));
    assert!(c.is_started());
    let winner = c.winner().unwrap();
    assert_eq!(c.records[winner].strategy, Strategy::DirectAssign);
    assert_eq!(c.records[winner].target, "input[type='file']");
    match c.fast_verdict() {
        FastVerdict::Started(s) => assert_eq!(s, "file:selected:1"),
        _ => panic!("expected a started verdict"),
    }
    assert_eq!(c.conclude(None, Platform::Douyin), Ok("file:selected:1".to_string()));
    assert_eq!(
        c.trail(),
        "A:input[type='file'][accept*='video'] count=0 | A:input[type='file'] count=0 | B:input[type='file'] signal=file:selected:1"
    );
}

#[test]
fn nothing_matched_fails_before_waiting() {
    let mut c = UploadCascade::new();
    for s in [Strategy::Chooser, Strategy::DirectAssign, Strategy::DragDrop, Strategy::ClickChooser] {
        c.record(rec(s, "x", StepResult::NoMatch, None));
    }
    assert!(matches!(c.fast_verdict(), FastVerdict::NothingMatched));
    assert_eq!(
        c.conclude(Some("url:late".to_string()), Platform::Youtube),
        Err(CascadeFailure::NothingMatched)
    );
    assert_eq!(c.trail(), "A:x count=0 | B:x count=0 | C:x count=0 | D:x count=0");
}

#[test]
fn empty_cascade_is_a_hard_failure() {
    let c = UploadCascade::new();
    assert_eq!(c.conclude(None, Platform::Wechat), Err(CascadeFailure::NothingMatched));
    assert!(c.winner().is_none());
}

#[test]
fn action_without_signal_uses_slow_poll() {
    let mut c = UploadCascade::new();
    c.record(rec(Strategy::Chooser, "input", StepResult::Acted, None));
    assert!(matches!(c.fast_verdict(), FastVerdict::SlowPollNeeded));
    assert_eq!(c.conclude(Some("progress:12%".to_string()), Platform::Bilibili), Ok("progress:12%".to_string()));
    assert_eq!(c.conclude(None, Platform::Bilibili), Err(CascadeFailure::SignalTimeout));
    assert_eq!(c.conclude(None, Platform::Wechat), Err(CascadeFailure::WechatSignalTimeout));
}

#[test]
fn channels_file_set_counts_as_started() {
    let mut c = UploadCascade::new();
    c.record(rec(Strategy::ClickChooser, "上传", StepResult::Acted, None));
    c.note_file_set();
    assert!(!c.should_run(Strategy::DragDrop, Platform::Wechat));
    assert!(c.should_run(Strategy::DragDrop, Platform::Douyin));
    assert_eq!(c.conclude(None, Platform::Wechat), Ok("chooser:file_set".to_string()));
}

#[test]
fn failed_step_is_recorded_but_is_no_action() {
    let mut c = UploadCascade::new();
    c.record(rec(Strategy::DragDrop, "[class*='drop']", StepResult::Failed, None));
    assert!(!c.action_performed);
    assert_eq!(c.trail(), "C:[class*='drop'] failed");
}

#[test]
fn signal_sources_by_prefix() {
    assert_eq!(upload_signal_source("url:post_video"), "url");
    assert_eq!(upload_signal_source("file:selected:1"), "file_input");
    assert_eq!(upload_signal_source("progress:50%"), "progress");
    assert_eq!(upload_signal_source("text:uploading"), "text");
    assert_eq!(upload_signal_source("chooser:file_set"), "chooser_file_set");
    assert_eq!(upload_signal_source("other"), "unknown");
}

#[test]
fn fill_summary_follows_markers() {
    assert_eq!(
        fill_result("url:x", "input:0", "skipped_empty", 1, 2, true),
        Ok("url:x;fill=title:ok,desc:skip,tags:1/2".to_string())
    );
    assert_eq!(fill_result("url:x", "not_found", "error", 0, 0, true), Err(FillFailure));
    assert_eq!(
        fill_result("url:x", "not_found", "error", 0, 0, false),
        Ok("url:x;fill=title:miss,desc:miss,tags:0/0".to_string())
    );
}
