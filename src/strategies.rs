//! Selector-ordered file assignment with a start-signal check per selector,
//! and the records an upload attempt returns.
use vstd::prelude::*;
use vstd::string::StringExecFns;
use crate::text::{dec_text, u64_text};

verus! {

/// How an ordered selector upload is run.
pub struct UploadOptions {
    pub platform: &'static str,
    pub candidate_selectors: Vec<&'static str>,
    pub success_timeout_secs: u64,
    pub attempt_timeout_secs: u64,
}

impl UploadOptions {
    /// The options of a plain upload: any file input, 8 s overall, 3 s per
    /// selector.
    pub fn generic() -> (r: UploadOptions)
        ensures
            r.platform@ == "generic"@,
            r.candidate_selectors@.len() == 1,
            r.candidate_selectors@[0]@ == "input[type='file']"@,
            r.success_timeout_secs == 8,
            r.attempt_timeout_secs == 3,
    {
        UploadOptions {
            platform: "generic",
            candidate_selectors: vec!["input[type='file']"],
            success_timeout_secs: 8,
            attempt_timeout_secs: 3,
        }
    }
}

/// What an ordered selector upload reports when the upload started.
pub struct UploadAttemptReport {
    pub selected_selector: String,
    pub attempted_selectors: Vec<String>,
    pub start_url: String,
    pub end_url: String,
    pub detected_signal: String,
    pub elapsed_ms: u128,
}

impl UploadAttemptReport {
    /// The report of an upload that started through `selector`, after the
    /// trail `attempted` of the selectors before it.
    pub fn started(
        selector: &str,
        attempted: Vec<String>,
        start_url: String,
        end_url: String,
        signal: String,
        elapsed_ms: u128,
    ) -> (r: UploadAttemptReport)
        requires
            signal@.len() > 0,
        ensures
            r.selected_selector@ == selector@,
            r.attempted_selectors@ == attempted@,
            r.start_url@ == start_url@,
            r.end_url@ == end_url@,
            r.detected_signal@ == signal@,
            r.detected_signal@.len() > 0,
            r.elapsed_ms == elapsed_ms,
    {
        UploadAttemptReport {
            selected_selector: String::from_str(selector),
            attempted_selectors: attempted,
            start_url,
            end_url,
            detected_signal: signal,
            elapsed_ms,
        }
    }
}

/// What a click-to-open-chooser upload reports.
pub struct ClickChooserUploadResult {
    pub marker: String,
    pub chooser_opened: bool,
    pub chooser_event_state: String,
    pub click_method: String,
    pub click_round: u8,
    pub clicked_context: String,
    pub signal_source: String,
    pub file_set: bool,
}

/// What to do with the next selector.
#[derive(Clone, Copy, Debug, PartialEq, Eq, Structural)]
pub enum SelectorGate {
    /// The overall timeout passed: note the skip and stop.
    SkipGlobalTimeout,
    /// The selector matches nothing: note the miss and go on.
    Miss,
    /// Set the file on the selector's input.
    Attempt,
}

/// What happens to a selector, from the elapsed time and its match count.
pub open spec fn selector_gate_of(opts: UploadOptions, elapsed_ms: u64, count: i64) -> SelectorGate {
    if elapsed_ms as int > opts.success_timeout_secs as int * 1000 {
        SelectorGate::SkipGlobalTimeout
    } else if count <= 0 {
        SelectorGate::Miss
    } else {
        SelectorGate::Attempt
    }
}

/// Decide what to do with the next selector.
pub fn selector_gate(opts: &UploadOptions, elapsed_ms: u64, count: i64) -> (r: SelectorGate)
    ensures
        r == selector_gate_of(*opts, elapsed_ms, count),
{
    if elapsed_ms as u128 > opts.success_timeout_secs as u128 * 1000 {
        SelectorGate::SkipGlobalTimeout
    } else if count <= 0 {
        SelectorGate::Miss
    } else {
        SelectorGate::Attempt
    }
}

/// How one selector's attempt ended, short of a signal.
pub enum AttemptNote {
    Skipped,
    Miss,
    SetFailed(String),
    NoSignal,
}

/// The trail entry of one selector.
pub open spec fn attempt_note_text(selector: Seq<char>, note: AttemptNote, opts: UploadOptions) -> Seq<char> {
    "selector="@ + selector + match note {
        AttemptNote::Skipped => " skipped(global_timeout="@ + dec_text(
            opts.success_timeout_secs as nat,
        ) + "s)"@,
        AttemptNote::Miss => " miss(count=0)"@,
        AttemptNote::SetFailed(e) => " set_failed:"@ + e@,
        AttemptNote::NoSignal => " no_signal(timeout="@ + dec_text(
            opts.attempt_timeout_secs as nat,
        ) + "s)"@,
    }
}

/// The trail entry of one selector.
pub fn describe_attempt(selector: &str, note: &AttemptNote, opts: &UploadOptions) -> (r: String)
    ensures
        r@ == attempt_note_text(selector@, *note, *opts),
{
    let mut out = String::from_str("selector=");
    out.append(selector);
    match note {
        AttemptNote::Skipped => {
            out.append(" skipped(global_timeout=");
            out.append(u64_text(opts.success_timeout_secs).as_str());
            out.append("s)");
        },
        AttemptNote::Miss => out.append(" miss(count=0)"),
        AttemptNote::SetFailed(e) => {
            out.append(" set_failed:");
            out.append(e.as_str());
        },
        AttemptNote::NoSignal => {
            out.append(" no_signal(timeout=");
            out.append(u64_text(opts.attempt_timeout_secs).as_str());
            out.append("s)");
        },
    }
    out
}

} // verus!
