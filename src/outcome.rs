//! The records a publish run reports per account and overall, and the rules
//! that fill them from the automation's outcome.
use vstd::prelude::*;
use vstd::string::StringExecFns;
use crate::errors::{PlatformAutomationError, ACTION_HINT_AUTOMATION_TIMEOUT};
use crate::text::{dec_text, same_text, u64_text};

verus! {

/// Outer deadline of one destination's automation, in seconds.
pub const AUTOMATION_TIMEOUT_SECS: u64 = 45;

/// Seconds to wait for a session's endpoint to become ready.
pub const SESSION_READY_TIMEOUT_SECS: u64 = 30;

/// Whether a browser binary was found.
pub struct ChromeStatus {
    pub found: bool,
    pub path: Option<String>,
    pub error: Option<String>,
}

/// A request to publish one video to several accounts.
pub struct PublishRequest {
    pub video_path: String,
    pub title: String,
    pub description: Option<String>,
    pub tags: Vec<String>,
    pub is_original: bool,
    pub manual_confirm: bool,
    pub account_ids: Vec<i64>,
}

/// The outcome of one account's publish attempt.
pub struct PlatformTaskResult {
    pub account_id: i64,
    pub platform: String,
    pub status: String,
    pub message: Option<String>,
    pub error_code: Option<String>,
    pub action_hint: Option<String>,
    pub debug_port_used: Option<u16>,
    pub session_mode: Option<String>,
    pub automation_phase: Option<String>,
}

/// The outcome of a publish request.
pub struct PublishResult {
    pub task_id: i64,
    pub platform_tasks: Vec<PlatformTaskResult>,
}

/// A stored account.
pub struct Account {
    pub id: i64,
    pub platform: String,
    pub display_name: String,
    pub avatar_url: Option<String>,
    pub chrome_profile_dir: String,
    pub is_logged_in: bool,
    pub last_checked_at: Option<String>,
    pub created_at: String,
}

/// A stored publish task.
pub struct PublishTask {
    pub id: i64,
    pub video_path: String,
    pub title: String,
    pub description: Option<String>,
    pub tags: Option<String>,
    pub cover_path: Option<String>,
    pub is_original: bool,
    pub status: String,
    pub scheduled_at: Option<String>,
    pub created_at: String,
}

/// One account's part of a stored publish task.
pub struct TaskPlatform {
    pub id: i64,
    pub task_id: i64,
    pub account_id: i64,
    pub custom_title: Option<String>,
    pub custom_description: Option<String>,
    pub custom_tags: Option<String>,
    pub status: String,
    pub error_message: Option<String>,
    pub published_at: Option<String>,
}

/// What a successful automation run reports.
pub struct AutomationSuccess {
    pub message: String,
    pub debug_port_used: u16,
    pub automation_phase: &'static str,
}

/// The optional view of an optional string.
pub open spec fn opt_text(s: Option<String>) -> Option<Seq<char>> {
    match s {
        Some(v) => Some(v@),
        None => None,
    }
}

/// The message of an automation that triggered the upload.
pub open spec fn started_message(platform_name: Seq<char>, signal: Seq<char>) -> Seq<char> {
    platform_name + "：已触发上传并尝试填写基础信息（"@ + signal + "）。请在 Chrome 继续检查并发布。"@
}

/// The success of a run that triggered the upload.
pub fn upload_started(platform_name: &str, signal: &str, port: u16) -> (r: AutomationSuccess)
    ensures
        r.message@ == started_message(platform_name@, signal@),
        r.debug_port_used == port,
        r.automation_phase@ == "upload_started"@,
{
    let mut message = String::from_str(platform_name);
    message.append("：已触发上传并尝试填写基础信息（");
    message.append(signal);
    message.append("）。请在 Chrome 继续检查并发布。");
    AutomationSuccess { message, debug_port_used: port, automation_phase: "upload_started" }
}

/// The success of a run on a destination without automation: the browser
/// is open on the upload page for the user to continue.
pub fn manual_continue(port: u16) -> (r: AutomationSuccess)
    ensures
        r.message@ == "Chrome 已打开到平台上传页面。请手动完成操作。"@,
        r.debug_port_used == port,
        r.automation_phase@ == "manual_continue"@,
{
    AutomationSuccess {
        message: String::from_str("Chrome 已打开到平台上传页面。请手动完成操作。"),
        debug_port_used: port,
        automation_phase: "manual_continue",
    }
}

/// The account's result after a successful run: `launched` when the user
/// must continue by hand, else `automated`.
pub fn task_result_success(
    account_id: i64,
    platform: &str,
    success: AutomationSuccess,
    session_mode: &str,
) -> (r: PlatformTaskResult)
    ensures
        r.account_id == account_id,
        r.platform@ == platform@,
        r.status@ == (if success.automation_phase@ == "manual_continue"@ {
            "launched"@
        } else {
            "automated"@
        }),
        opt_text(r.message) == Some(success.message@),
        r.error_code.is_none(),
        r.action_hint.is_none(),
        r.debug_port_used == Some(success.debug_port_used),
        opt_text(r.session_mode) == Some(session_mode@),
        opt_text(r.automation_phase) == Some(success.automation_phase@),
{
    let status = if same_text(success.automation_phase, "manual_continue") {
        "launched"
    } else {
        "automated"
    };
    PlatformTaskResult {
        account_id,
        platform: String::from_str(platform),
        status: String::from_str(status),
        message: Some(success.message),
        error_code: None,
        action_hint: None,
        debug_port_used: Some(success.debug_port_used),
        session_mode: Some(String::from_str(session_mode)),
        automation_phase: Some(String::from_str(success.automation_phase)),
    }
}

/// The message of a run whose automation failed after the browser opened.
pub open spec fn automation_failed_message(platform_name: Seq<char>, detail: Seq<char>) -> Seq<char> {
    "Chrome 已打开 "@ + platform_name + "，但自动填充失败："@ + detail + "。请手动操作。"@
}

/// The account's result when the automation failed: `launched`, with the
/// failure's code and hint, and the session's port when the failure
/// carried none.
pub fn task_result_automation_failed(
    account_id: i64,
    platform: &str,
    platform_name: &str,
    err: PlatformAutomationError,
    session_port: u16,
    session_mode: &str,
) -> (r: PlatformTaskResult)
    ensures
        r.account_id == account_id,
        r.platform@ == platform@,
        r.status@ == "launched"@,
        opt_text(r.message) == Some(automation_failed_message(platform_name@, err.message@)),
        opt_text(r.error_code) == Some(err.code@),
        opt_text(r.action_hint) == opt_text(err.action_hint),
        r.debug_port_used == (match err.debug_port_used {
            Some(p) => Some(p),
            None => Some(session_port),
        }),
        opt_text(r.session_mode) == Some(session_mode@),
        opt_text(r.automation_phase) == Some("automation_failed"@),
{
    let mut message = String::from_str("Chrome 已打开 ");
    message.append(platform_name);
    message.append("，但自动填充失败：");
    message.append(err.message.as_str());
    message.append("。请手动操作。");
    let port = match err.debug_port_used {
        Some(p) => Some(p),
        None => Some(session_port),
    };
    PlatformTaskResult {
        account_id,
        platform: String::from_str(platform),
        status: String::from_str("launched"),
        message: Some(message),
        error_code: Some(err.code),
        action_hint: err.action_hint,
        debug_port_used: port,
        session_mode: Some(String::from_str(session_mode)),
        automation_phase: Some(String::from_str("automation_failed")),
    }
}

/// The message of a run that passed the outer deadline.
pub open spec fn timeout_message(platform_name: Seq<char>) -> Seq<char> {
    "Chrome 已打开 "@ + platform_name + "，自动化处理超时（"@ + dec_text(
        AUTOMATION_TIMEOUT_SECS as nat,
    ) + " 秒）。请手动继续。"@
}

/// The account's result when the outer deadline passed: `launched`, as the
/// upload may be in progress.
pub fn task_result_timeout(
    account_id: i64,
    platform: &str,
    platform_name: &str,
    session_port: u16,
    session_mode: &str,
) -> (r: PlatformTaskResult)
    ensures
        r.account_id == account_id,
        r.platform@ == platform@,
        r.status@ == "launched"@,
        opt_text(r.message) == Some(timeout_message(platform_name@)),
        opt_text(r.error_code) == Some("AUTOMATION_TIMEOUT"@),
        opt_text(r.action_hint) == Some(ACTION_HINT_AUTOMATION_TIMEOUT@),
        r.debug_port_used == Some(session_port),
        opt_text(r.session_mode) == Some(session_mode@),
        opt_text(r.automation_phase) == Some("timeout"@),
{
    let mut message = String::from_str("Chrome 已打开 ");
    message.append(platform_name);
    message.append("，自动化处理超时（");
    message.append(u64_text(AUTOMATION_TIMEOUT_SECS).as_str());
    message.append(" 秒）。请手动继续。");
    PlatformTaskResult {
        account_id,
        platform: String::from_str(platform),
        status: String::from_str("launched"),
        message: Some(message),
        error_code: Some(String::from_str("AUTOMATION_TIMEOUT")),
        action_hint: Some(String::from_str(ACTION_HINT_AUTOMATION_TIMEOUT)),
        debug_port_used: Some(session_port),
        session_mode: Some(String::from_str(session_mode)),
        automation_phase: Some(String::from_str("timeout")),
    }
}

/// The account's result when no session could be prepared: a busy profile
/// leaves the user to continue by hand (`launched`), anything else fails.
pub fn task_result_session_failed(account_id: i64, platform: &str, err: PlatformAutomationError) -> (r:
    PlatformTaskResult)
    ensures
        r.account_id == account_id,
        r.platform@ == platform@,
        r.status@ == (if err.code@ == "PROFILE_BUSY"@ {
            "launched"@
        } else {
            "failed"@
        }),
        opt_text(r.message) == Some(err.message@),
        opt_text(r.error_code) == Some(err.code@),
        opt_text(r.action_hint) == opt_text(err.action_hint),
        r.debug_port_used == err.debug_port_used,
        opt_text(r.session_mode) == Some("manual_only"@),
        opt_text(r.automation_phase) == Some(
            if err.code@ == "PROFILE_BUSY"@ {
                "manual_continue"@
            } else {
                "automation_failed"@
            },
        ),
{
    let busy = same_text(err.code.as_str(), "PROFILE_BUSY");
    let status = if busy {
        "launched"
    } else {
        "failed"
    };
    let phase = if busy {
        "manual_continue"
    } else {
        "automation_failed"
    };
    PlatformTaskResult {
        account_id,
        platform: String::from_str(platform),
        status: String::from_str(status),
        message: Some(err.message),
        error_code: Some(err.code),
        action_hint: err.action_hint,
        debug_port_used: err.debug_port_used,
        session_mode: Some(String::from_str("manual_only")),
        automation_phase: Some(String::from_str(phase)),
    }
}

/// The status of a publish task once every account ran: `publishing` when
/// some account was automated, else `partial`.
pub fn overall_task_status(results: &Vec<PlatformTaskResult>) -> (r: &'static str)
    ensures
        r@ == (if exists|i: int| 0 <= i < results@.len() && results@[i].status@ == "automated"@ {
            "publishing"@
        } else {
            "partial"@
        }),
{
    let mut i: usize = 0;
    while i < results.len()
        invariant
            i <= results@.len(),
            forall|k: int| 0 <= k < i ==> results@[k].status@ != "automated"@,
        decreases results@.len() - i,
    {
        if same_text(results[i].status.as_str(), "automated") {
            proof {
                reveal_strlit("automated");
            }
            return "publishing";
        }
        i = i + 1;
    }
    "partial"
}

} // verus!
