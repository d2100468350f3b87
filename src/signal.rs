//! Deciding that an upload has started, from evidence read off the page,
//! by per-destination rules.
use vstd::prelude::*;
use vstd::string::{StrSliceExecFns, StringExecFns};
use crate::config::Platform;
use crate::text::{contains_str, dec_text, seq_contains, u64_text};

verus! {

/// What one read of the page shows.
pub struct SignalEvidence {
    pub href: String,
    /// How many files the first file input with a non-empty list holds.
    pub files_selected: usize,
    /// Text of the first progress indicator, when one exists.
    pub progress_text: Option<String>,
    pub page_text: String,
}

/// The evidence a destination accepts, in priority order.
pub struct SignalRules {
    /// A URL fragment that appears once the upload started; empty for none.
    pub url_pattern: &'static str,
    pub check_progress: bool,
    /// Whether the file signal carries the number of selected files.
    pub count_files: bool,
    pub uploading_markers: Vec<&'static str>,
    pub replace_markers: Vec<&'static str>,
}

/// Some marker of `markers` occurs in `text`.
pub open spec fn any_marker(text: Seq<char>, markers: Seq<&'static str>) -> bool {
    exists|i: int| 0 <= i < markers.len() && seq_contains(text, markers[i]@)
}

/// The start signal the evidence shows under the rules, checked in order:
/// URL pattern, selected files, progress indicator, uploading text,
/// replace-file text.
pub open spec fn signal_of(rules: SignalRules, ev: SignalEvidence) -> Option<Seq<char>> {
    if rules.url_pattern@.len() > 0 && seq_contains(ev.href@, rules.url_pattern@) {
        Some("url:"@ + rules.url_pattern@)
    } else if ev.files_selected > 0 {
        if rules.count_files {
            Some("file:selected:"@ + dec_text(ev.files_selected as nat))
        } else {
            Some("file:selected"@)
        }
    } else if rules.check_progress && ev.progress_text.is_some() {
        let t = ev.progress_text.unwrap()@;
        if t.len() == 0 {
            Some("progress:visible"@)
        } else {
            Some("progress:"@ + t)
        }
    } else if any_marker(ev.page_text@, rules.uploading_markers@) {
        Some("text:uploading"@)
    } else if any_marker(ev.page_text@, rules.replace_markers@) {
        Some("text:replace-video"@)
    } else {
        None
    }
}

/// Does some marker occur in `text`?
pub fn has_any_marker(text: &str, markers: &Vec<&'static str>) -> (r: bool)
    ensures
        r == any_marker(text@, markers@),
{
    let mut i: usize = 0;
    while i < markers.len()
        invariant
            i <= markers@.len(),
            forall|k: int| 0 <= k < i ==> !seq_contains(text@, markers@[k]@),
        decreases markers@.len() - i,
    {
        if contains_str(text, markers[i]) {
            return true;
        }
        i = i + 1;
    }
    false
}

/// The start signal the evidence shows, if any.
pub fn detect_signal(rules: &SignalRules, ev: &SignalEvidence) -> (r: Option<String>)
    ensures
        match (r, signal_of(*rules, *ev)) {
            (Some(a), Some(b)) => a@ == b,
            (None, None) => true,
            _ => false,
        },
{
    if rules.url_pattern.unicode_len() > 0 && contains_str(ev.href.as_str(), rules.url_pattern) {
        let mut s = String::from_str("url:");
        s.append(rules.url_pattern);
        return Some(s);
    }
    if ev.files_selected > 0 {
        if !rules.count_files {
            return Some(String::from_str("file:selected"));
        }
        let mut s = String::from_str("file:selected:");
        s.append(u64_text(ev.files_selected as u64).as_str());
        return Some(s);
    }
    if rules.check_progress {
        match &ev.progress_text {
            Some(t) => {
                if t.as_str().unicode_len() == 0 {
                    return Some(String::from_str("progress:visible"));
                }
                let mut s = String::from_str("progress:");
                s.append(t.as_str());
                return Some(s);
            },
            None => {},
        }
    }
    if has_any_marker(ev.page_text.as_str(), &rules.uploading_markers) {
        return Some(String::from_str("text:uploading"));
    }
    if has_any_marker(ev.page_text.as_str(), &rules.replace_markers) {
        return Some(String::from_str("text:replace-video"));
    }
    None
}

/// The rules of each destination: every known destination checks progress
/// indicators and counts selected files; an unknown one accepts an
/// uncounted file signal only.
pub open spec fn rules_for(platform: Option<Platform>, r: SignalRules) -> bool {
    match platform {
        Some(Platform::Douyin) => r.url_pattern@ == "/creator-micro/content/post/video"@
            && r.check_progress && r.count_files && r.uploading_markers@ == seq![
            "上传中",
            "处理中",
            "转码中",
            "校验中",
        ] && r.replace_markers@ == seq!["重新上传", "更换视频"],
        Some(Platform::Xiaohongshu) => r.url_pattern@.len() == 0 && r.check_progress
            && r.count_files && r.uploading_markers@ == seq!["上传中", "处理中"]
            && r.replace_markers@ == seq!["重新上传", "替换视频"],
        Some(Platform::Bilibili) => r.url_pattern@.len() == 0 && r.check_progress
            && r.count_files && r.uploading_markers@ == seq!["上传中", "处理中"]
            && r.replace_markers@ == seq!["重新上传", "更换视频"],
        Some(Platform::Wechat) => r.url_pattern@.len() == 0 && r.check_progress && r.count_files
            && r.uploading_markers@ == seq!["上传中", "处理中"] && r.replace_markers@ == seq![
            "更换视频",
            "重新上传",
        ],
        Some(Platform::Youtube) => r.url_pattern@.len() == 0 && r.check_progress
            && r.count_files && r.uploading_markers@ == seq!["Uploading", "Processing", "上传中"]
            && r.replace_markers@.len() == 0,
        None => r.url_pattern@.len() == 0 && !r.check_progress && !r.count_files
            && r.uploading_markers@.len() == 0 && r.replace_markers@.len() == 0,
    }
}

/// The rules of a destination.
pub fn signal_rules(platform: Option<Platform>) -> (r: SignalRules)
    ensures
        rules_for(platform, r),
{
    proof {
        reveal_strlit("");
    }
    match platform {
        Some(Platform::Douyin) => SignalRules {
            url_pattern: "/creator-micro/content/post/video",
            check_progress: true,
            count_files: true,
            uploading_markers: vec!["上传中", "处理中", "转码中", "校验中"],
            replace_markers: vec!["重新上传", "更换视频"],
        },
        Some(Platform::Xiaohongshu) => SignalRules {
            url_pattern: "",
            check_progress: true,
            count_files: true,
            uploading_markers: vec!["上传中", "处理中"],
            replace_markers: vec!["重新上传", "替换视频"],
        },
        Some(Platform::Bilibili) => SignalRules {
            url_pattern: "",
            check_progress: true,
            count_files: true,
            uploading_markers: vec!["上传中", "处理中"],
            replace_markers: vec!["重新上传", "更换视频"],
        },
        Some(Platform::Wechat) => SignalRules {
            url_pattern: "",
            check_progress: true,
            count_files: true,
            uploading_markers: vec!["上传中", "处理中"],
            replace_markers: vec!["更换视频", "重新上传"],
        },
        Some(Platform::Youtube) => SignalRules {
            url_pattern: "",
            check_progress: true,
            count_files: true,
            uploading_markers: vec!["Uploading", "Processing", "上传中"],
            replace_markers: Vec::new(),
        },
        None => SignalRules {
            url_pattern: "",
            check_progress: false,
            count_files: false,
            uploading_markers: Vec::new(),
            replace_markers: Vec::new(),
        },
    }
}

/// A detected start signal is never empty, and a page without any evidence
/// shows none.
pub proof fn law_signal_non_empty(rules: SignalRules, ev: SignalEvidence)
    ensures
        signal_of(rules, ev) is Some ==> signal_of(rules, ev).unwrap().len() > 0,
        (ev.files_selected == 0 && ev.progress_text.is_none() && ev.page_text@.len() == 0
            && ev.href@.len() == 0 && (forall|i: int| 0 <= i < rules.uploading_markers@.len()
            ==> rules.uploading_markers@[i]@.len() > 0) && (forall|i: int|
            0 <= i < rules.replace_markers@.len() ==> rules.replace_markers@[i]@.len() > 0))
            ==> signal_of(rules, ev) is None,
{
    reveal_strlit("url:");
    reveal_strlit("file:selected:");
    reveal_strlit("file:selected");
    reveal_strlit("progress:visible");
    reveal_strlit("progress:");
    reveal_strlit("text:uploading");
    reveal_strlit("text:replace-video");
    if ev.files_selected == 0 && ev.progress_text.is_none() && ev.page_text@.len() == 0
        && ev.href@.len() == 0 {
        if rules.url_pattern@.len() > 0 {
            assert(!crate::text::seq_contains(ev.href@, rules.url_pattern@));
        }
    }
}

} // verus!
