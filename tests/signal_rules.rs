use multi_publisher::config::Platform;
use multi_publisher::signal::{detect_signal, signal_rules, SignalEvidence};

fn evidence(href: &str, files: usize, progress: Option<&str>, text: &str) -> SignalEvidence {
    SignalEvidence {
        href: href.to_string(),
        files_selected: files,
        progress_text: progress.map(|p| p.to_string()),
        page_text: text.to_string(),
    }
}

#[test]
fn url_pattern_outranks_other_evidence() {
    let rules = signal_rules(Some(Platform::Douyin));
    let ev = evidence("https://creator.douyin.com/creator-micro/content/post/video?x", 1, Some("30%"), "上传中");
    assert_eq!(detect_signal(&rules, &ev).as_deref(), Some("url:/creator-micro/content/post/video"));
}

#[test]
fn evidence_priority_order() {
    let rules = signal_rules(Some(Platform::Bilibili));
    assert_eq!(detect_signal(&rules, &evidence("u", 2, Some("x"), "上传中")).as_deref(), Some("file:selected:2"));
    assert_eq!(detect_signal(&rules, &evidence("u", 0, Some("42%"), "上传中")).as_deref(), Some("progress:42%"));
    assert_eq!(detect_signal(&rules, &evidence("u", 0, Some(""), "")).as_deref(), Some("progress:visible"));
    assert_eq!(detect_signal(&rules, &evidence("u", 0, None, "正在上传中")).as_deref(), Some("text:uploading"));
    assert_eq!(detect_signal(&rules, &evidence("u", 0, None, "点击重新上传")).as_deref(), Some("text:replace-video"));
    assert_eq!(detect_signal(&rules, &evidence("u", 0, None, "nothing")), None);
}

#[test]
fn unknown_destination_reads_files_only() {
    let rules = signal_rules(None);
    assert_eq!(detect_signal(&rules, &evidence("u", 0, Some("50%"), "上传中")), None);
    assert_eq!(detect_signal(&rules, &evidence("u", 1, None, "")).as_deref(), Some("file:selected"));
}
