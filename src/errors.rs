//! The error taxonomy: classifying raw failure text into a stable kind with
//! an actionable hint, and normalizing messages.
use vstd::prelude::*;
use vstd::string::{StrSliceExecFns, StringExecFns};
use crate::text::{
    chars_of, contains_str, same_text, seq_contains, seq_starts_with, starts_with_str, to_upper,
    trim_from, trim_ws, upper_of,
};

verus! {

/// The kinds of failure that callers key their behaviour on.
#[derive(Clone, Copy, Debug, PartialEq, Eq, Structural)]
pub enum ErrorKind {
    TargetPageNotFound,
    TargetPageNotReady,
    LoginRequired,
    WechatChooserNotOpened,
    WechatUploadSignalTimeout,
    ProfileBusy,
    CdpNoPage,
    ChromeNotReady,
    AutomationFailed,
    AutomationTimeout,
    Unknown,
}

/// The stable code of each kind.
pub open spec fn kind_code(k: ErrorKind) -> Seq<char> {
    match k {
        ErrorKind::TargetPageNotFound => "TARGET_PAGE_NOT_FOUND"@,
        ErrorKind::TargetPageNotReady => "TARGET_PAGE_NOT_READY"@,
        ErrorKind::LoginRequired => "LOGIN_REQUIRED"@,
        ErrorKind::WechatChooserNotOpened => "WECHAT_CHOOSER_NOT_OPENED"@,
        ErrorKind::WechatUploadSignalTimeout => "WECHAT_UPLOAD_SIGNAL_TIMEOUT"@,
        ErrorKind::ProfileBusy => "PROFILE_BUSY"@,
        ErrorKind::CdpNoPage => "CDP_NO_PAGE"@,
        ErrorKind::ChromeNotReady => "CHROME_NOT_READY"@,
        ErrorKind::AutomationFailed => "AUTOMATION_FAILED"@,
        ErrorKind::AutomationTimeout => "AUTOMATION_TIMEOUT"@,
        ErrorKind::Unknown => "UNKNOWN"@,
    }
}

/// Hint: close the profile's other browser window.
pub const ACTION_HINT_CLOSE_WINDOW: &'static str = "请先关闭该账号已打开的 Chrome 窗口后重试。";

/// Hint: make sure the browser is open on the destination.
pub const ACTION_HINT_CHECK_CHROME: &'static str = "请确认 Chrome 已成功打开并停留在目标平台页面后重试。";

/// Hint: the upload may have started; continue in the browser.
pub const ACTION_HINT_AUTOMATION_TIMEOUT: &'static str = "上传可能已开始，请在 Chrome 页面继续并重试提交。";

/// Hint: open the destination's upload page and retry.
pub const ACTION_HINT_TARGET_PAGE_NOT_FOUND: &'static str = "未定位到目标平台上传页，已尝试新开窗口。请在 Chrome 打开对应平台上传页后重试。";

/// Hint: wait for the page to settle.
pub const ACTION_HINT_TARGET_PAGE_NOT_READY: &'static str = "页面未完成加载，请等待页面稳定后重试。";

/// Hint: complete the login first.
pub const ACTION_HINT_LOGIN_REQUIRED: &'static str = "请先在 Chrome 完成微信扫码登录，再重试上传。";

/// Hint: the upload entry never opened a chooser.
pub const ACTION_HINT_WECHAT_CHOOSER_NOT_OPENED: &'static str = "微信上传入口暂不可交互，已多轮重试仍未触发文件选择器。请稍等页面稳定后重试。";

/// Hint: the file was set but no upload signal followed.
pub const ACTION_HINT_WECHAT_UPLOAD_SIGNAL_TIMEOUT: &'static str = "微信已完成文件注入，但未观测到上传信号。请在 Chrome 页面确认是否已开始上传。";

/// Hint: finish the upload by hand.
pub const ACTION_HINT_AUTOMATION_FAILED: &'static str = "请在 Chrome 页面手动完成上传并继续发布。";

/// The kind named by upper-cased failure text: the first code (in the order
/// below) or known phrase that the text holds.
pub open spec fn kind_of_upper(u: Seq<char>) -> ErrorKind {
    if seq_contains(u, "TARGET_PAGE_NOT_FOUND"@) {
        ErrorKind::TargetPageNotFound
    } else if seq_contains(u, "TARGET_PAGE_NOT_READY"@) {
        ErrorKind::TargetPageNotReady
    } else if seq_contains(u, "LOGIN_REQUIRED"@) {
        ErrorKind::LoginRequired
    } else if seq_contains(u, "WECHAT_CHOOSER_NOT_OPENED"@) {
        ErrorKind::WechatChooserNotOpened
    } else if seq_contains(u, "WECHAT_UPLOAD_SIGNAL_TIMEOUT"@) {
        ErrorKind::WechatUploadSignalTimeout
    } else if seq_contains(u, "PROFILE_BUSY"@) {
        ErrorKind::ProfileBusy
    } else if seq_contains(u, "CDP_NO_PAGE"@) || seq_contains(u, "没有可操作页面"@) || seq_contains(
        u,
        "没有找到页面"@,
    ) {
        ErrorKind::CdpNoPage
    } else if seq_contains(u, "CHROME_NOT_READY"@) || seq_contains(u, "连接 CHROME 端口"@)
        || seq_contains(u, "CDP CONNECTION FAILED"@) || seq_contains(u, "CHROME 调试端口"@) {
        ErrorKind::ChromeNotReady
    } else if seq_contains(u, "AUTOMATION_FAILED"@) {
        ErrorKind::AutomationFailed
    } else if seq_contains(u, "AUTOMATION_TIMEOUT"@) {
        ErrorKind::AutomationTimeout
    } else {
        ErrorKind::Unknown
    }
}

/// The hint shown for each kind.
pub open spec fn kind_hint(k: ErrorKind) -> Option<Seq<char>> {
    match k {
        ErrorKind::TargetPageNotFound => Some(ACTION_HINT_TARGET_PAGE_NOT_FOUND@),
        ErrorKind::TargetPageNotReady => Some(ACTION_HINT_TARGET_PAGE_NOT_READY@),
        ErrorKind::LoginRequired => Some(ACTION_HINT_LOGIN_REQUIRED@),
        ErrorKind::WechatChooserNotOpened => Some(ACTION_HINT_WECHAT_CHOOSER_NOT_OPENED@),
        ErrorKind::WechatUploadSignalTimeout => Some(ACTION_HINT_WECHAT_UPLOAD_SIGNAL_TIMEOUT@),
        ErrorKind::ProfileBusy => Some(ACTION_HINT_CLOSE_WINDOW@),
        ErrorKind::CdpNoPage => Some(ACTION_HINT_CLOSE_WINDOW@),
        ErrorKind::ChromeNotReady => Some(ACTION_HINT_CHECK_CHROME@),
        ErrorKind::AutomationFailed => Some(ACTION_HINT_AUTOMATION_FAILED@),
        ErrorKind::AutomationTimeout => Some(ACTION_HINT_AUTOMATION_TIMEOUT@),
        ErrorKind::Unknown => None,
    }
}

impl ErrorKind {
    /// The kind's stable code.
    pub fn code(&self) -> (r: &'static str)
        ensures
            r@ == kind_code(*self),
    {
        match self {
            ErrorKind::TargetPageNotFound => "TARGET_PAGE_NOT_FOUND",
            ErrorKind::TargetPageNotReady => "TARGET_PAGE_NOT_READY",
            ErrorKind::LoginRequired => "LOGIN_REQUIRED",
            ErrorKind::WechatChooserNotOpened => "WECHAT_CHOOSER_NOT_OPENED",
            ErrorKind::WechatUploadSignalTimeout => "WECHAT_UPLOAD_SIGNAL_TIMEOUT",
            ErrorKind::ProfileBusy => "PROFILE_BUSY",
            ErrorKind::CdpNoPage => "CDP_NO_PAGE",
            ErrorKind::ChromeNotReady => "CHROME_NOT_READY",
            ErrorKind::AutomationFailed => "AUTOMATION_FAILED",
            ErrorKind::AutomationTimeout => "AUTOMATION_TIMEOUT",
            ErrorKind::Unknown => "UNKNOWN",
        }
    }

    /// The kind's actionable hint, if it has one.
    pub fn hint(&self) -> (r: Option<&'static str>)
        ensures
            match (r, kind_hint(*self)) {
                (Some(a), Some(b)) => a@ == b,
                (None, None) => true,
                _ => false,
            },
    {
        match self {
            ErrorKind::TargetPageNotFound => Some(ACTION_HINT_TARGET_PAGE_NOT_FOUND),
            ErrorKind::TargetPageNotReady => Some(ACTION_HINT_TARGET_PAGE_NOT_READY),
            ErrorKind::LoginRequired => Some(ACTION_HINT_LOGIN_REQUIRED),
            ErrorKind::WechatChooserNotOpened => Some(ACTION_HINT_WECHAT_CHOOSER_NOT_OPENED),
            ErrorKind::WechatUploadSignalTimeout => Some(ACTION_HINT_WECHAT_UPLOAD_SIGNAL_TIMEOUT),
            ErrorKind::ProfileBusy => Some(ACTION_HINT_CLOSE_WINDOW),
            ErrorKind::CdpNoPage => Some(ACTION_HINT_CLOSE_WINDOW),
            ErrorKind::ChromeNotReady => Some(ACTION_HINT_CHECK_CHROME),
            ErrorKind::AutomationFailed => Some(ACTION_HINT_AUTOMATION_FAILED),
            ErrorKind::AutomationTimeout => Some(ACTION_HINT_AUTOMATION_TIMEOUT),
            ErrorKind::Unknown => None,
        }
    }
}

/// The kind named by failure text that is already upper-cased.
pub fn classify_upper(upper: &str) -> (r: ErrorKind)
    ensures
        r == kind_of_upper(upper@),
{
    if contains_str(upper, "TARGET_PAGE_NOT_FOUND") {
        ErrorKind::TargetPageNotFound
    } else if contains_str(upper, "TARGET_PAGE_NOT_READY") {
        ErrorKind::TargetPageNotReady
    } else if contains_str(upper, "LOGIN_REQUIRED") {
        ErrorKind::LoginRequired
    } else if contains_str(upper, "WECHAT_CHOOSER_NOT_OPENED") {
        ErrorKind::WechatChooserNotOpened
    } else if contains_str(upper, "WECHAT_UPLOAD_SIGNAL_TIMEOUT") {
        ErrorKind::WechatUploadSignalTimeout
    } else if contains_str(upper, "PROFILE_BUSY") {
        ErrorKind::ProfileBusy
    } else if contains_str(upper, "CDP_NO_PAGE") || contains_str(upper, "没有可操作页面")
        || contains_str(upper, "没有找到页面") {
        ErrorKind::CdpNoPage
    } else if contains_str(upper, "CHROME_NOT_READY") || contains_str(upper, "连接 CHROME 端口")
        || contains_str(upper, "CDP CONNECTION FAILED") || contains_str(upper, "CHROME 调试端口") {
        ErrorKind::ChromeNotReady
    } else if contains_str(upper, "AUTOMATION_FAILED") {
        ErrorKind::AutomationFailed
    } else if contains_str(upper, "AUTOMATION_TIMEOUT") {
        ErrorKind::AutomationTimeout
    } else {
        ErrorKind::Unknown
    }
}

/// Classify raw failure text: its code and hint. The text is upper-cased
/// before the codes are looked for, so their case does not matter.
pub fn classify_error(raw: &str) -> (r: (&'static str, Option<String>))
    ensures
        r.0@ == kind_code(kind_of_upper(upper_of(raw@))),
        match (r.1, kind_hint(kind_of_upper(upper_of(raw@)))) {
            (Some(a), Some(b)) => a@ == b,
            (None, None) => true,
            _ => false,
        },
{
    let upper = to_upper(raw);
    let kind = classify_upper(upper.as_str());
    let hint = match kind.hint() {
        Some(h) => Some(String::from_str(h)),
        None => None,
    };
    (kind.code(), hint)
}

/// The code prefixes that may open a failure message, in the order they are
/// tried.
pub open spec fn code_prefixes() -> Seq<Seq<char>> {
    seq![
        "TARGET_PAGE_NOT_FOUND:"@,
        "TARGET_PAGE_NOT_READY:"@,
        "LOGIN_REQUIRED:"@,
        "WECHAT_CHOOSER_NOT_OPENED:"@,
        "WECHAT_UPLOAD_SIGNAL_TIMEOUT:"@,
        "PROFILE_BUSY:"@,
        "CDP_NO_PAGE:"@,
        "CHROME_NOT_READY:"@,
        "AUTOMATION_FAILED:"@,
        "AUTOMATION_TIMEOUT:"@,
    ]
}

/// Index of the first code prefix that `upper` starts with, at or after `i`,
/// or the number of prefixes when there is none.
pub open spec fn first_prefix_from(upper: Seq<char>, i: int) -> int
    decreases 10 - i,
{
    if i < 0 || i >= 10 {
        10
    } else if seq_starts_with(upper, code_prefixes()[i]) {
        i
    } else {
        first_prefix_from(upper, i + 1)
    }
}

/// `raw` without its code prefix: when the upper-cased text starts with a
/// code prefix, the rest of `raw` after as many characters, trimmed;
/// otherwise `raw` unchanged.
pub open spec fn stripped_message(raw: Seq<char>, upper: Seq<char>) -> Seq<char> {
    let i = first_prefix_from(upper, 0);
    if i < 10 && code_prefixes()[i].len() <= raw.len() {
        trim_ws(raw.subrange(code_prefixes()[i].len() as int, raw.len() as int))
    } else {
        raw
    }
}

/// The code prefixes, as text.
fn code_prefix_list() -> (r: Vec<&'static str>)
    ensures
        r@.len() == 10,
        forall|i: int| 0 <= i < 10 ==> #[trigger] r@[i]@ == code_prefixes()[i],
{
    let r = vec![
        "TARGET_PAGE_NOT_FOUND:",
        "TARGET_PAGE_NOT_READY:",
        "LOGIN_REQUIRED:",
        "WECHAT_CHOOSER_NOT_OPENED:",
        "WECHAT_UPLOAD_SIGNAL_TIMEOUT:",
        "PROFILE_BUSY:",
        "CDP_NO_PAGE:",
        "CHROME_NOT_READY:",
        "AUTOMATION_FAILED:",
        "AUTOMATION_TIMEOUT:",
    ];
    r
}

/// `raw` without its code prefix, given its upper-cased form.
pub fn strip_code_prefix(raw: &str, upper: &str) -> (r: String)
    ensures
        r@ == stripped_message(raw@, upper@),
{
    let prefixes = code_prefix_list();
    let mut i: usize = 0;
    while i < 10
        invariant
            prefixes@.len() == 10,
            forall|k: int| 0 <= k < 10 ==> #[trigger] prefixes@[k]@ == code_prefixes()[k],
            i <= 10,
            first_prefix_from(upper@, 0) == first_prefix_from(upper@, i as int),
        decreases 10 - i,
    {
        if starts_with_str(upper, prefixes[i]) {
            let v = chars_of(raw);
            let plen = prefixes[i].unicode_len();
            if plen <= v.len() {
                return trim_from(&v, plen);
            }
            return String::from_str(raw);
        }
        i = i + 1;
    }
    String::from_str(raw)
}

/// `raw` without its code prefix.
pub fn strip_error_code_prefix(raw: &str) -> (r: String)
    ensures
        r@ == stripped_message(raw@, upper_of(raw@)),
{
    let upper = to_upper(raw);
    strip_code_prefix(raw, upper.as_str())
}

/// Upper-cased text names a known kind.
pub open spec fn names_known_kind(u: Seq<char>) -> bool {
    seq_contains(u, "TARGET_PAGE_NOT_FOUND"@) || seq_contains(u, "TARGET_PAGE_NOT_READY"@)
        || seq_contains(u, "LOGIN_REQUIRED"@) || seq_contains(u, "WECHAT_CHOOSER_NOT_OPENED"@)
        || seq_contains(u, "WECHAT_UPLOAD_SIGNAL_TIMEOUT"@) || seq_contains(u, "PROFILE_BUSY"@)
        || seq_contains(u, "CDP_NO_PAGE"@) || seq_contains(u, "CHROME_NOT_READY"@) || seq_contains(
        u,
        "AUTOMATION_TIMEOUT"@,
    )
}

/// Failure text tagged so callers can tell known from unknown failures:
/// text that names a known kind stays as it is, any other gets the
/// `AUTOMATION_FAILED: ` tag.
pub open spec fn normalized_error(raw: Seq<char>, upper: Seq<char>) -> Seq<char> {
    if names_known_kind(upper) {
        raw
    } else {
        "AUTOMATION_FAILED: "@ + raw
    }
}

/// Tag failure text that names no known kind, given its upper-cased form.
pub fn normalize_upper(raw: String, upper: &str) -> (r: String)
    ensures
        r@ == normalized_error(raw@, upper@),
{
    if contains_str(upper, "TARGET_PAGE_NOT_FOUND") || contains_str(upper, "TARGET_PAGE_NOT_READY")
        || contains_str(upper, "LOGIN_REQUIRED") || contains_str(upper, "WECHAT_CHOOSER_NOT_OPENED")
        || contains_str(upper, "WECHAT_UPLOAD_SIGNAL_TIMEOUT") || contains_str(upper, "PROFILE_BUSY")
        || contains_str(upper, "CDP_NO_PAGE") || contains_str(upper, "CHROME_NOT_READY")
        || contains_str(upper, "AUTOMATION_TIMEOUT") {
        raw
    } else {
        let mut out = String::from_str("AUTOMATION_FAILED: ");
        out.append(raw.as_str());
        out
    }
}

/// Tag failure text that names no known kind.
pub fn normalize_platform_error(raw: String) -> (r: String)
    ensures
        r@ == normalized_error(raw@, upper_of(raw@)),
{
    let upper = to_upper(raw.as_str());
    normalize_upper(raw, upper.as_str())
}

/// A classified failure of one destination's automation.
pub struct PlatformAutomationError {
    pub code: String,
    pub message: String,
    pub action_hint: Option<String>,
    pub debug_port_used: Option<u16>,
}

impl PlatformAutomationError {
    /// Classify raw failure text: its code, its message without the code
    /// prefix, and the hint; no port yet.
    pub fn from_raw(raw: &str) -> (r: PlatformAutomationError)
        ensures
            r.code@ == kind_code(kind_of_upper(upper_of(raw@))),
            r.message@ == stripped_message(raw@, upper_of(raw@)),
            match (r.action_hint, kind_hint(kind_of_upper(upper_of(raw@)))) {
                (Some(a), Some(b)) => a@ == b,
                (None, None) => true,
                _ => false,
            },
            r.debug_port_used.is_none(),
    {
        let (code, action_hint) = classify_error(raw);
        PlatformAutomationError {
            code: String::from_str(code),
            message: strip_error_code_prefix(raw),
            action_hint,
            debug_port_used: None,
        }
    }

    /// The same failure, with the debugging port it was seen on.
    pub fn with_debug_port(self, port: u16) -> (r: PlatformAutomationError)
        ensures
            r.code == self.code,
            r.message == self.message,
            r.action_hint == self.action_hint,
            r.debug_port_used == Some(port),
    {
        let mut out = self;
        out.debug_port_used = Some(port);
        out
    }
}

/// The display name of a destination id.
pub open spec fn display_name_of(platform: Seq<char>) -> Seq<char> {
    if platform == "douyin"@ {
        "抖音"@
    } else if platform == "xiaohongshu"@ {
        "小红书"@
    } else if platform == "bilibili"@ {
        "哔哩哔哩"@
    } else if platform == "wechat"@ {
        "微信视频号"@
    } else if platform == "youtube"@ {
        "YouTube"@
    } else {
        "平台"@
    }
}

/// The display name of a destination id; a generic word for unknown ids.
pub fn platform_display_name(platform: &str) -> (r: &'static str)
    ensures
        r@ == display_name_of(platform@),
{
    if same_text(platform, "douyin") {
        "抖音"
    } else if same_text(platform, "xiaohongshu") {
        "小红书"
    } else if same_text(platform, "bilibili") {
        "哔哩哔哩"
    } else if same_text(platform, "wechat") {
        "微信视频号"
    } else if same_text(platform, "youtube") {
        "YouTube"
    } else {
        "平台"
    }
}

} // verus!
