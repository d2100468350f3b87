//! Per-destination configuration, timing constants, and the small URL and
//! marker rules that read it.
use vstd::prelude::*;
use vstd::string::StringExecFns;
use crate::text::{chars_of, contains_str, push_char, seq_contains, seq_starts_with, starts_with_str, same_text};

verus! {

/// Seconds of the brief wait for an upload surface.
pub const QUICK_SURFACE_WAIT_SECS: u64 = 2;

/// Seconds of the fast poll for an upload-start signal after each action.
pub const FAST_SIGNAL_TIMEOUT_SECS: u64 = 2;

/// Seconds of the final, slower poll for an upload-start signal.
pub const SLOW_FALLBACK_SIGNAL_TIMEOUT_SECS: u64 = 6;

/// Milliseconds between two polls.
pub const FAST_POLL_INTERVAL_MS: u64 = 200;

/// Milliseconds to wait after a pre-click.
pub const PRE_CLICK_WAIT_MS: u64 = 300;

/// Seconds of the poll after a self-heal reload.
pub const WEAK_READY_SELF_HEAL_TIMEOUT_SECS: u64 = 8;

/// Milliseconds between the self-heal navigation and its reload.
pub const WEAK_READY_RELOAD_WAIT_MS: u64 = 400;

/// Seconds the guard waits on the destination with a flaky chooser.
pub const WECHAT_GUARD_TIMEOUT_SECS: u64 = 20;

/// Seconds the guard waits on other destinations.
pub const DEFAULT_GUARD_TIMEOUT_SECS: u64 = 15;

/// Click rounds on the destination with a flaky chooser.
pub const WECHAT_CLICK_RETRY_ROUNDS: usize = 3;

/// Milliseconds between two click rounds.
pub const WECHAT_CLICK_RETRY_WAIT_MS: u64 = 2300;

/// Seconds of the interactive re-check before a later click round.
pub const WECHAT_INTERACTIVE_RECHECK_TIMEOUT_SECS: u64 = 3;

/// The destinations that the engine knows.
#[derive(Clone, Copy, Debug, PartialEq, Eq, Structural)]
pub enum Platform {
    Douyin,
    Xiaohongshu,
    Bilibili,
    Wechat,
    Youtube,
}

/// The identifier of each destination.
pub open spec fn platform_id(p: Platform) -> Seq<char> {
    match p {
        Platform::Douyin => "douyin"@,
        Platform::Xiaohongshu => "xiaohongshu"@,
        Platform::Bilibili => "bilibili"@,
        Platform::Wechat => "wechat"@,
        Platform::Youtube => "youtube"@,
    }
}

impl Platform {
    /// The destination's identifier.
    pub fn as_str(&self) -> (r: &'static str)
        ensures
            r@ == platform_id(*self),
    {
        match self {
            Platform::Douyin => "douyin",
            Platform::Xiaohongshu => "xiaohongshu",
            Platform::Bilibili => "bilibili",
            Platform::Wechat => "wechat",
            Platform::Youtube => "youtube",
        }
    }

    /// The destination with identifier `id`, if there is one.
    pub fn from_id(id: &str) -> (r: Option<Platform>)
        ensures
            r.is_some() ==> platform_id(r.unwrap()) == id@,
            r.is_none() ==> forall|p: Platform| platform_id(p) != id@,
    {
        proof {
            reveal_strlit("douyin");
            reveal_strlit("xiaohongshu");
            reveal_strlit("bilibili");
            reveal_strlit("wechat");
            reveal_strlit("youtube");
        }
        if same_text(id, "douyin") {
            Some(Platform::Douyin)
        } else if same_text(id, "xiaohongshu") {
            Some(Platform::Xiaohongshu)
        } else if same_text(id, "bilibili") {
            Some(Platform::Bilibili)
        } else if same_text(id, "wechat") {
            Some(Platform::Wechat)
        } else if same_text(id, "youtube") {
            Some(Platform::Youtube)
        } else {
            proof {
                assert forall|p: Platform| platform_id(p) != id@ by {
                    match p {
                        Platform::Douyin => {},
                        Platform::Xiaohongshu => {},
                        Platform::Bilibili => {},
                        Platform::Wechat => {},
                        Platform::Youtube => {},
                    }
                }
            }
            None
        }
    }
}

/// The declarative description of one destination: where to upload, which
/// selectors and text markers to look for, and the policy flags.
pub struct PlatformPublishConfig {
    pub platform: Platform,
    pub name: &'static str,
    pub upload_url: &'static str,
    pub target_host: &'static str,
    pub allowed_paths: Vec<&'static str>,
    pub surface_selectors: Vec<&'static str>,
    pub surface_text_markers: Vec<&'static str>,
    pub file_input_selectors: Vec<&'static str>,
    pub drop_zone_selectors: Vec<&'static str>,
    pub pre_click_selectors: Vec<&'static str>,
    pub click_selectors: Vec<&'static str>,
    pub click_text_markers: Vec<&'static str>,
    pub require_surface_ready: bool,
    pub fill_failure_is_error: bool,
    pub weak_ready_self_heal: bool,
    pub weak_ready_min_body_text_len: usize,
    pub blocked_text_markers: Vec<&'static str>,
    pub init_text_markers: Vec<&'static str>,
    pub login_text_markers: Vec<&'static str>,
    pub title_selectors: Vec<&'static str>,
    pub title_editable_selector: Option<&'static str>,
    pub description_selectors: Vec<&'static str>,
    pub description_editable_selector: Option<&'static str>,
    pub tag_selectors: Vec<&'static str>,
}

/// Some path of `paths` occurs in `url`, or there are no paths.
pub open spec fn path_ok(url: Seq<char>, paths: Seq<&'static str>) -> bool {
    paths.len() == 0 || exists|i: int| 0 <= i < paths.len() && seq_contains(url, paths[i]@)
}

/// Is `url` allowed by `allowed_paths`? An empty list allows every URL.
pub fn path_allowed(url: &str, allowed_paths: &Vec<&'static str>) -> (r: bool)
    ensures
        r == path_ok(url@, allowed_paths@),
{
    if allowed_paths.len() == 0 {
        return true;
    }
    let mut i: usize = 0;
    while i < allowed_paths.len()
        invariant
            i <= allowed_paths@.len(),
            forall|k: int| 0 <= k < i ==> !seq_contains(url@, allowed_paths@[k]@),
        decreases allowed_paths@.len() - i,
    {
        if contains_str(url, allowed_paths[i]) {
            return true;
        }
        i = i + 1;
    }
    false
}

/// `url` is on the destination's host and on an allowed path.
pub open spec fn target_url_ok(url: Seq<char>, cfg: PlatformPublishConfig) -> bool {
    seq_contains(url, cfg.target_host@) && path_ok(url, cfg.allowed_paths@)
}

/// Is `url` the destination's upload page?
pub fn is_target_url(url: &str, cfg: &PlatformPublishConfig) -> (r: bool)
    ensures
        r == target_url_ok(url@, *cfg),
{
    contains_str(url, cfg.target_host) && path_allowed(url, &cfg.allowed_paths)
}

/// A URL on the channels host that points at one of its login pages.
pub open spec fn wechat_login_url(url: Seq<char>) -> bool {
    seq_contains(url, "channels.weixin.qq.com"@) && (seq_contains(url, "/login"@)
        || seq_contains(url, "login.weixin.qq.com"@) || seq_contains(url, "scanlogin"@))
}

/// Is `url` a login page of the channels destination?
pub fn is_wechat_login_url(url: &str) -> (r: bool)
    ensures
        r == wechat_login_url(url@),
{
    if !contains_str(url, "channels.weixin.qq.com") {
        return false;
    }
    contains_str(url, "/login") || contains_str(url, "login.weixin.qq.com") || contains_str(
        url,
        "scanlogin",
    )
}

/// A fill marker that reports success.
pub open spec fn fill_success(marker: Seq<char>) -> bool {
    seq_starts_with(marker, "input:"@) || seq_starts_with(marker, "editable"@)
}

/// Did filling a field succeed, as its marker reports?
pub fn is_fill_success(marker: &str) -> (r: bool)
    ensures
        r == fill_success(marker@),
{
    starts_with_str(marker, "input:") || starts_with_str(marker, "editable")
}

/// The short status of a fill marker.
pub open spec fn marker_status_of(marker: Seq<char>) -> Seq<char> {
    if fill_success(marker) {
        "ok"@
    } else if marker == "skipped_empty"@ {
        "skip"@
    } else {
        "miss"@
    }
}

/// `ok`, `skip` or `miss` for a fill marker.
pub fn marker_status(marker: &str) -> (r: &'static str)
    ensures
        r@ == marker_status_of(marker@),
{
    if is_fill_success(marker) {
        "ok"
    } else if same_text(marker, "skipped_empty") {
        "skip"
    } else {
        "miss"
    }
}

/// `s` with each backslash and single quote preceded by a backslash.
pub open spec fn js_escaped(s: Seq<char>) -> Seq<char>
    decreases s.len(),
{
    if s.len() == 0 {
        Seq::empty()
    } else {
        let c = s.last();
        let head = js_escaped(s.drop_last());
        if c == '\\' || c == '\'' {
            head.push('\\').push(c)
        } else {
            head.push(c)
        }
    }
}

/// Escape `input` for a single-quoted script string literal.
pub fn escape_js_single(input: &str) -> (r: String)
    ensures
        r@ == js_escaped(input@),
{
    let v = chars_of(input);
    let mut out = String::new();
    let mut i: usize = 0;
    while i < v.len()
        invariant
            i <= v@.len(),
            v@ == input@,
            out@ == js_escaped(v@.subrange(0, i as int)),
        decreases v@.len() - i,
    {
        let c = v[i];
        if c == '\\' || c == '\'' {
            push_char(&mut out, '\\');
        }
        push_char(&mut out, c);
        proof {
            let next = v@.subrange(0, i + 1);
            assert(next.drop_last() =~= v@.subrange(0, i as int));
            assert(next.last() == c);
        }
        i = i + 1;
    }
    assert(v@.subrange(0, v@.len() as int) =~= v@);
    out
}

/// The quoted, escaped, comma-joined form of `values`.
pub open spec fn js_list(values: Seq<&'static str>) -> Seq<char>
    decreases values.len(),
{
    if values.len() == 0 {
        Seq::empty()
    } else if values.len() == 1 {
        seq!['\''] + js_escaped(values[0]@) + seq!['\'']
    } else {
        js_list(values.drop_last()) + seq![','] + seq!['\''] + js_escaped(values.last()@) + seq![
            '\'',
        ]
    }
}

/// Quote and escape each value for a script array literal, joined by commas.
pub fn js_array(values: &Vec<&'static str>) -> (r: String)
    ensures
        r@ == js_list(values@),
{
    let mut out = String::new();
    let mut i: usize = 0;
    while i < values.len()
        invariant
            i <= values@.len(),
            out@ == js_list(values@.subrange(0, i as int)),
        decreases values@.len() - i,
    {
        if i > 0 {
            push_char(&mut out, ',');
        }
        push_char(&mut out, '\'');
        let esc = escape_js_single(values[i]);
        let ghost before = out@;
        out.append(esc.as_str());
        push_char(&mut out, '\'');
        proof {
            let next = values@.subrange(0, i + 1);
            assert(next.drop_last() =~= values@.subrange(0, i as int));
            assert(next.last() == values@[i as int]);
            if i == 0 {
                assert(out@ =~= seq!['\''] + js_escaped(next[0]@) + seq!['\'']);
            } else {
                assert(out@ =~= js_list(next.drop_last()) + seq![','] + seq!['\''] + js_escaped(
                    next.last()@,
                ) + seq!['\'']);
            }
        }
        i = i + 1;
    }
    assert(values@.subrange(0, values@.len() as int) =~= values@);
    out
}

} // verus!
