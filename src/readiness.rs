//! Readiness classification of an upload page and the guard that decides
//! whether automation may proceed.
use vstd::prelude::*;
use vstd::string::{StrSliceExecFns, StringExecFns};
use crate::config::{Platform, PlatformPublishConfig};
use crate::text::{bool_text, contains_str, dec_text, push_bool, seq_contains, u64_text};

verus! {

/// The readiness class of a page, in strict priority order.
#[derive(Clone, Copy, Debug, PartialEq, Eq, Structural)]
pub enum GuardState {
    Blocked,
    LoginRequired,
    InitPending,
    Ready,
    Pending,
}

/// The guard state for the given signals: a blocked marker outranks a login
/// marker, which outranks an init marker; a page is ready only when an
/// anchor was hit and at least one interactive candidate exists.
pub open spec fn guard_state_of(
    blocked_hit: bool,
    login_hit: bool,
    init_hit: bool,
    anchor_hit: bool,
    interactive_count: nat,
) -> GuardState {
    if blocked_hit {
        GuardState::Blocked
    } else if login_hit {
        GuardState::LoginRequired
    } else if init_hit {
        GuardState::InitPending
    } else if anchor_hit && interactive_count > 0 {
        GuardState::Ready
    } else {
        GuardState::Pending
    }
}

/// The rank of a guard state: higher outranks lower.
pub open spec fn guard_rank(g: GuardState) -> int {
    match g {
        GuardState::Blocked => 4,
        GuardState::LoginRequired => 3,
        GuardState::InitPending => 2,
        GuardState::Ready => 1,
        GuardState::Pending => 0,
    }
}

impl GuardState {
    /// The state's name in the probe vocabulary.
    pub fn as_str(&self) -> (r: &'static str)
        ensures
            r@ == guard_state_text(*self),
    {
        match self {
            GuardState::Blocked => "blocked",
            GuardState::LoginRequired => "login_required",
            GuardState::InitPending => "init_pending",
            GuardState::Ready => "ready",
            GuardState::Pending => "pending",
        }
    }
}

/// The name of each guard state.
pub open spec fn guard_state_text(g: GuardState) -> Seq<char> {
    match g {
        GuardState::Blocked => "blocked"@,
        GuardState::LoginRequired => "login_required"@,
        GuardState::InitPending => "init_pending"@,
        GuardState::Ready => "ready"@,
        GuardState::Pending => "pending"@,
    }
}

/// Classify a page from its signals (see `guard_state_of`).
pub fn classify_guard_state(
    blocked_hit: bool,
    login_hit: bool,
    init_hit: bool,
    anchor_hit: bool,
    interactive_count: usize,
) -> (r: GuardState)
    ensures
        r == guard_state_of(blocked_hit, login_hit, init_hit, anchor_hit, interactive_count as nat),
{
    if blocked_hit {
        GuardState::Blocked
    } else if login_hit {
        GuardState::LoginRequired
    } else if init_hit {
        GuardState::InitPending
    } else if anchor_hit && interactive_count > 0 {
        GuardState::Ready
    } else {
        GuardState::Pending
    }
}

/// The priority of guard states is total and kept whatever else is present:
/// whenever a signal of a higher class is present, the state is that class
/// or a higher one, never a lower one; in particular a blocked marker always
/// yields `Blocked`, and `Ready` comes only without blocked, login and init
/// markers.
pub proof fn law_guard_priority(
    blocked_hit: bool,
    login_hit: bool,
    init_hit: bool,
    anchor_hit: bool,
    interactive_count: nat,
)
    ensures
        ({
            let g = guard_state_of(blocked_hit, login_hit, init_hit, anchor_hit, interactive_count);
            &&& blocked_hit ==> g == GuardState::Blocked
            &&& login_hit ==> guard_rank(g) >= guard_rank(GuardState::LoginRequired)
            &&& init_hit ==> guard_rank(g) >= guard_rank(GuardState::InitPending)
            &&& (anchor_hit && interactive_count > 0) ==> guard_rank(g) >= guard_rank(
                GuardState::Ready,
            )
            &&& g == GuardState::Ready ==> !blocked_hit && !login_hit && !init_hit && anchor_hit
                && interactive_count > 0
        }),
        forall|a: GuardState, b: GuardState| guard_rank(a) == guard_rank(b) ==> a == b,
{
}

/// One readiness scan of an upload page, across frames and shadow roots.
/// Text hits are empty when no marker was found.
pub struct UploadPageProbe {
    pub title: String,
    pub body_text_len: usize,
    pub body_excerpt: String,
    pub file_input_count: usize,
    pub blocked_text_hit: String,
    pub init_text_hit: String,
    pub login_text_hit: String,
    pub surface_text_hit: String,
    pub anchor_hit: bool,
    pub surface_selector_hit_count: usize,
    pub surface_context_hit: String,
    pub frame_count: usize,
    pub shadow_root_count: usize,
    pub scanned_nodes: usize,
    pub interactive_candidate_count: usize,
    pub interactive_context: String,
    /// The scan script failed or answered malformed data.
    pub scan_failed: bool,
}

/// The guard state of a probe: a failed scan is never ready.
pub open spec fn probe_guard(p: UploadPageProbe) -> GuardState {
    if p.scan_failed {
        GuardState::Pending
    } else {
        guard_state_of(
            p.blocked_text_hit@.len() > 0,
            p.login_text_hit@.len() > 0,
            p.init_text_hit@.len() > 0,
            p.anchor_hit,
            p.interactive_candidate_count as nat,
        )
    }
}

impl UploadPageProbe {
    /// The guard state of this probe.
    pub fn guard_state(&self) -> (r: GuardState)
        ensures
            r == probe_guard(*self),
    {
        if self.scan_failed {
            return GuardState::Pending;
        }
        classify_guard_state(
            self.blocked_text_hit.as_str().unicode_len() > 0,
            self.login_text_hit.as_str().unicode_len() > 0,
            self.init_text_hit.as_str().unicode_len() > 0,
            self.anchor_hit,
            self.interactive_candidate_count,
        )
    }

    /// The finer readiness kind of this probe.
    pub fn ready_kind(&self) -> (r: ReadyKind)
        ensures
            r == probe_ready_kind(*self),
    {
        match self.guard_state() {
            GuardState::Blocked => ReadyKind::Blocked,
            GuardState::LoginRequired => ReadyKind::LoginRequired,
            GuardState::InitPending => ReadyKind::InitPending,
            GuardState::Ready => ReadyKind::InteractiveReady,
            GuardState::Pending => {
                if self.scan_failed {
                    ReadyKind::ScanError
                } else if self.anchor_hit {
                    ReadyKind::AnchorNoInteractive
                } else if self.scanned_nodes == 0 && self.body_text_len == 0 {
                    ReadyKind::EmptyDom
                } else {
                    ReadyKind::DomWithoutAnchor
                }
            },
        }
    }
}

/// A finer readiness classification, for diagnostics.
#[derive(Clone, Copy, Debug, PartialEq, Eq, Structural)]
pub enum ReadyKind {
    Blocked,
    LoginRequired,
    InitPending,
    InteractiveReady,
    AnchorNoInteractive,
    EmptyDom,
    DomWithoutAnchor,
    /// The scan failed: an error marker, never ready.
    ScanError,
}

/// The readiness kind of a probe: its guard state, with a pending page told
/// apart by whether an anchor was hit and whether the page is empty.
pub open spec fn probe_ready_kind(p: UploadPageProbe) -> ReadyKind {
    match probe_guard(p) {
        GuardState::Blocked => ReadyKind::Blocked,
        GuardState::LoginRequired => ReadyKind::LoginRequired,
        GuardState::InitPending => ReadyKind::InitPending,
        GuardState::Ready => ReadyKind::InteractiveReady,
        GuardState::Pending => if p.scan_failed {
            ReadyKind::ScanError
        } else if p.anchor_hit {
            ReadyKind::AnchorNoInteractive
        } else if p.scanned_nodes == 0 && p.body_text_len == 0 {
            ReadyKind::EmptyDom
        } else {
            ReadyKind::DomWithoutAnchor
        },
    }
}

/// The name of each readiness kind.
pub open spec fn ready_kind_text(k: ReadyKind) -> Seq<char> {
    match k {
        ReadyKind::Blocked => "blocked"@,
        ReadyKind::LoginRequired => "login_required"@,
        ReadyKind::InitPending => "init_pending"@,
        ReadyKind::InteractiveReady => "interactive_ready"@,
        ReadyKind::AnchorNoInteractive => "anchor_no_interactive"@,
        ReadyKind::EmptyDom => "empty_dom"@,
        ReadyKind::DomWithoutAnchor => "no_anchor_but_dom_present"@,
        ReadyKind::ScanError => "scan_error"@,
    }
}

impl ReadyKind {
    /// The kind's name.
    pub fn as_str(&self) -> (r: &'static str)
        ensures
            r@ == ready_kind_text(*self),
    {
        match self {
            ReadyKind::Blocked => "blocked",
            ReadyKind::LoginRequired => "login_required",
            ReadyKind::InitPending => "init_pending",
            ReadyKind::InteractiveReady => "interactive_ready",
            ReadyKind::AnchorNoInteractive => "anchor_no_interactive",
            ReadyKind::EmptyDom => "empty_dom",
            ReadyKind::DomWithoutAnchor => "no_anchor_but_dom_present",
            ReadyKind::ScanError => "scan_error",
        }
    }
}

/// The upload surface of the channels destination is ready: the guard says
/// ready, with at least one interactive candidate.
pub open spec fn wechat_ready(p: UploadPageProbe) -> bool {
    probe_guard(p) == GuardState::Ready && p.interactive_candidate_count > 0
}

/// Is the channels destination ready for an upload click?
pub fn wechat_upload_ready(probe: &UploadPageProbe) -> (r: bool)
    ensures
        r == wechat_ready(*probe),
{
    probe.guard_state() == GuardState::Ready && probe.interactive_candidate_count > 0
}

/// Why a page counts, or does not count, as weakly ready.
#[derive(Clone, Copy, Debug, PartialEq, Eq, Structural)]
pub enum WeakReason {
    BlockedTextHit,
    WechatLoginRequired,
    WechatInitPending,
    WechatInteractiveReady,
    WechatAnchorNoInteractive,
    WechatEmptyDom,
    WechatNoAnchorButDomPresent,
    BodyTextTooShort,
    SurfaceMissingAndEmptyDom,
    NoReason,
}

/// Weak readiness of a probe: `(weak, reason)`. A blocked marker always
/// counts as weak. On the channels destination login and init markers count
/// as weak, an interactive page does not, an anchor without interactive
/// candidates and an empty page do. Elsewhere a body shorter than the
/// configured minimum, or a page with no surface, no file input and no
/// body text, counts as weak.
pub open spec fn weak_ready_of(
    surface_ok: bool,
    p: UploadPageProbe,
    platform: Platform,
    min_body_text_len: nat,
) -> (bool, WeakReason) {
    if p.blocked_text_hit@.len() > 0 {
        (true, WeakReason::BlockedTextHit)
    } else if platform == Platform::Wechat {
        if p.login_text_hit@.len() > 0 {
            (true, WeakReason::WechatLoginRequired)
        } else if p.init_text_hit@.len() > 0 {
            (true, WeakReason::WechatInitPending)
        } else if wechat_ready(p) {
            (false, WeakReason::WechatInteractiveReady)
        } else if p.anchor_hit {
            (true, WeakReason::WechatAnchorNoInteractive)
        } else if p.scanned_nodes == 0 && p.body_text_len == 0 {
            (true, WeakReason::WechatEmptyDom)
        } else {
            (false, WeakReason::WechatNoAnchorButDomPresent)
        }
    } else if min_body_text_len > 0 && (p.body_text_len as nat) < min_body_text_len {
        (true, WeakReason::BodyTextTooShort)
    } else if !surface_ok && p.file_input_count == 0 && p.body_text_len == 0 {
        (true, WeakReason::SurfaceMissingAndEmptyDom)
    } else {
        (false, WeakReason::NoReason)
    }
}

/// Decide whether the page is weakly ready, and why.
pub fn compute_weak_ready(
    surface_ok: bool,
    probe: &UploadPageProbe,
    cfg: &PlatformPublishConfig,
) -> (r: (bool, WeakReason))
    ensures
        r == weak_ready_of(
            surface_ok,
            *probe,
            cfg.platform,
            cfg.weak_ready_min_body_text_len as nat,
        ),
{
    if probe.blocked_text_hit.as_str().unicode_len() > 0 {
        return (true, WeakReason::BlockedTextHit);
    }
    if cfg.platform == Platform::Wechat {
        if probe.login_text_hit.as_str().unicode_len() > 0 {
            return (true, WeakReason::WechatLoginRequired);
        }
        if probe.init_text_hit.as_str().unicode_len() > 0 {
            return (true, WeakReason::WechatInitPending);
        }
        if wechat_upload_ready(probe) {
            return (false, WeakReason::WechatInteractiveReady);
        }
        if probe.anchor_hit {
            return (true, WeakReason::WechatAnchorNoInteractive);
        }
        if probe.scanned_nodes == 0 && probe.body_text_len == 0 {
            return (true, WeakReason::WechatEmptyDom);
        }
        return (false, WeakReason::WechatNoAnchorButDomPresent);
    }
    let min_len = cfg.weak_ready_min_body_text_len;
    if min_len > 0 && probe.body_text_len < min_len {
        return (true, WeakReason::BodyTextTooShort);
    }
    if !surface_ok && probe.file_input_count == 0 && probe.body_text_len == 0 {
        return (true, WeakReason::SurfaceMissingAndEmptyDom);
    }
    (false, WeakReason::NoReason)
}

/// The text of a weak-readiness reason for a probe and a minimum length.
pub open spec fn weak_reason_text(r: WeakReason, p: UploadPageProbe, min_len: nat) -> Seq<char> {
    match r {
        WeakReason::BlockedTextHit => "blocked_text_hit:"@ + p.blocked_text_hit@,
        WeakReason::WechatLoginRequired => "wechat_login_required:"@ + p.login_text_hit@,
        WeakReason::WechatInitPending => "wechat_init_pending:"@ + p.init_text_hit@,
        WeakReason::WechatInteractiveReady => "wechat_interactive_ready"@,
        WeakReason::WechatAnchorNoInteractive => "wechat_anchor_no_interactive"@,
        WeakReason::WechatEmptyDom => "wechat_empty_dom"@,
        WeakReason::WechatNoAnchorButDomPresent => "wechat_no_anchor_but_dom_present"@,
        WeakReason::BodyTextTooShort => "body_text_len_too_short:"@ + dec_text(
            p.body_text_len as nat,
        ) + "<"@ + dec_text(min_len),
        WeakReason::SurfaceMissingAndEmptyDom => "surface_missing_and_empty_dom"@,
        WeakReason::NoReason => "none"@,
    }
}

/// The text of a weak-readiness reason.
pub fn describe_weak_reason(r: WeakReason, probe: &UploadPageProbe, min_len: usize) -> (s: String)
    ensures
        s@ == weak_reason_text(r, *probe, min_len as nat),
{
    let mut out = String::new();
    match r {
        WeakReason::BlockedTextHit => {
            out.append("blocked_text_hit:");
            out.append(probe.blocked_text_hit.as_str());
        },
        WeakReason::WechatLoginRequired => {
            out.append("wechat_login_required:");
            out.append(probe.login_text_hit.as_str());
        },
        WeakReason::WechatInitPending => {
            out.append("wechat_init_pending:");
            out.append(probe.init_text_hit.as_str());
        },
        WeakReason::WechatInteractiveReady => out.append("wechat_interactive_ready"),
        WeakReason::WechatAnchorNoInteractive => out.append("wechat_anchor_no_interactive"),
        WeakReason::WechatEmptyDom => out.append("wechat_empty_dom"),
        WeakReason::WechatNoAnchorButDomPresent => out.append("wechat_no_anchor_but_dom_present"),
        WeakReason::BodyTextTooShort => {
            out.append("body_text_len_too_short:");
            out.append(u64_text(probe.body_text_len as u64).as_str());
            out.append("<");
            out.append(u64_text(min_len as u64).as_str());
        },
        WeakReason::SurfaceMissingAndEmptyDom => out.append("surface_missing_and_empty_dom"),
        WeakReason::NoReason => out.append("none"),
    }
    out
}

/// `s`, or `none` when `s` is empty.
pub open spec fn or_none(s: Seq<char>) -> Seq<char> {
    if s.len() == 0 {
        "none"@
    } else {
        s
    }
}

/// Appends `s`, or `none` when `s` is empty.
fn push_or_none(out: &mut String, s: &String)
    ensures
        final(out)@ == old(out)@ + or_none(s@),
{
    if s.as_str().unicode_len() == 0 {
        out.append("none");
    } else {
        out.append(s.as_str());
    }
}

/// The one-line fingerprint of a probe, for diagnostics.
pub open spec fn fingerprint_text(p: UploadPageProbe) -> Seq<char> {
    "title="@ + p.title@ + ";body_text_len="@ + dec_text(p.body_text_len as nat)
        + ";body_excerpt="@ + p.body_excerpt@ + ";file_input_count="@ + dec_text(
        p.file_input_count as nat,
    ) + ";blocked_text_hit="@ + or_none(p.blocked_text_hit@) + ";init_text_hit="@ + or_none(
        p.init_text_hit@,
    ) + ";login_text_hit="@ + or_none(p.login_text_hit@) + ";surface_text_hit="@ + or_none(
        p.surface_text_hit@,
    ) + ";anchor_hit="@ + bool_text(p.anchor_hit) + ";surface_selector_hit_count="@ + dec_text(
        p.surface_selector_hit_count as nat,
    ) + ";surface_context_hit="@ + or_none(p.surface_context_hit@) + ";frame_count="@
        + dec_text(p.frame_count as nat) + ";shadow_root_count="@ + dec_text(
        p.shadow_root_count as nat,
    ) + ";scanned_nodes="@ + dec_text(p.scanned_nodes as nat) + ";interactive_candidate_count="@
        + dec_text(p.interactive_candidate_count as nat) + ";interactive_context="@ + or_none(
        p.interactive_context@,
    ) + ";guard_state="@ + guard_state_text(probe_guard(p)) + ";ready_kind="@ + ready_kind_text(
        probe_ready_kind(p),
    )
}

/// The one-line fingerprint of a probe.
pub fn format_probe_fingerprint(probe: &UploadPageProbe) -> (r: String)
    ensures
        r@ == fingerprint_text(*probe),
{
    let mut out = String::new();
    out.append("title=");
    out.append(probe.title.as_str());
    out.append(";body_text_len=");
    out.append(u64_text(probe.body_text_len as u64).as_str());
    out.append(";body_excerpt=");
    out.append(probe.body_excerpt.as_str());
    out.append(";file_input_count=");
    out.append(u64_text(probe.file_input_count as u64).as_str());
    out.append(";blocked_text_hit=");
    push_or_none(&mut out, &probe.blocked_text_hit);
    out.append(";init_text_hit=");
    push_or_none(&mut out, &probe.init_text_hit);
    out.append(";login_text_hit=");
    push_or_none(&mut out, &probe.login_text_hit);
    out.append(";surface_text_hit=");
    push_or_none(&mut out, &probe.surface_text_hit);
    out.append(";anchor_hit=");
    push_bool(&mut out, probe.anchor_hit);
    out.append(";surface_selector_hit_count=");
    out.append(u64_text(probe.surface_selector_hit_count as u64).as_str());
    out.append(";surface_context_hit=");
    push_or_none(&mut out, &probe.surface_context_hit);
    out.append(";frame_count=");
    out.append(u64_text(probe.frame_count as u64).as_str());
    out.append(";shadow_root_count=");
    out.append(u64_text(probe.shadow_root_count as u64).as_str());
    out.append(";scanned_nodes=");
    out.append(u64_text(probe.scanned_nodes as u64).as_str());
    out.append(";interactive_candidate_count=");
    out.append(u64_text(probe.interactive_candidate_count as u64).as_str());
    out.append(";interactive_context=");
    push_or_none(&mut out, &probe.interactive_context);
    out.append(";guard_state=");
    out.append(probe.guard_state().as_str());
    out.append(";ready_kind=");
    out.append(probe.ready_kind().as_str());
    out
}

/// What the page guard observed on one polling tick.
#[derive(Clone, Copy, Debug, PartialEq, Eq, Structural)]
pub struct GuardObservation {
    pub is_wechat: bool,
    pub host_ok: bool,
    pub path_ok: bool,
    pub surface_ok: bool,
    pub blocked_hit: bool,
    pub login_hit: bool,
    pub init_hit: bool,
    pub login_url_hit: bool,
    pub weak_ready: bool,
    pub weak_reason: WeakReason,
    pub require_surface_ready: bool,
    pub self_heal_enabled: bool,
    pub self_heal_attempted: bool,
    pub timed_out: bool,
}

/// What the page guard does after one polling tick.
#[derive(Clone, Copy, Debug, PartialEq, Eq, Structural)]
pub enum GuardStep {
    /// The page is ready: go on with the upload.
    Proceed,
    /// No upload surface was seen, but the destination does not require one.
    ProceedDegraded,
    /// Replace the page with the upload URL and reload it, once.
    SelfHeal,
    /// Poll again after one interval.
    Wait,
    /// The destination asks for a login.
    FailLoginRequired,
    /// The destination shows a blocking message.
    FailBlocked,
    /// The destination kept initializing until the deadline.
    FailStillInitializing,
    /// The destination stayed weakly ready.
    FailWeakReady,
    /// The deadline passed without a ready page.
    FailNotReady,
}

/// The guard's decision for one observation.
pub open spec fn guard_step_of(o: GuardObservation) -> GuardStep {
    let on_target = o.host_ok && o.path_ok;
    if on_target && o.blocked_hit {
        GuardStep::FailBlocked
    } else if o.is_wechat && (o.login_url_hit || o.login_hit) {
        GuardStep::FailLoginRequired
    } else if on_target && o.surface_ok {
        GuardStep::Proceed
    } else if o.is_wechat && on_target {
        if o.init_hit {
            if o.timed_out {
                GuardStep::FailStillInitializing
            } else {
                GuardStep::Wait
            }
        } else if o.weak_reason == WeakReason::WechatEmptyDom && o.self_heal_enabled
            && !o.self_heal_attempted {
            GuardStep::SelfHeal
        } else if o.timed_out {
            GuardStep::FailNotReady
        } else {
            GuardStep::Wait
        }
    } else if on_target && !o.require_surface_ready {
        if o.weak_ready {
            if o.self_heal_enabled && !o.self_heal_attempted {
                GuardStep::SelfHeal
            } else {
                GuardStep::FailWeakReady
            }
        } else {
            GuardStep::ProceedDegraded
        }
    } else if o.timed_out {
        GuardStep::FailNotReady
    } else {
        GuardStep::Wait
    }
}

/// Decide what the guard does after one observation.
pub fn guard_step(o: &GuardObservation) -> (r: GuardStep)
    ensures
        r == guard_step_of(*o),
{
    let on_target = o.host_ok && o.path_ok;
    if on_target && o.blocked_hit {
        GuardStep::FailBlocked
    } else if o.is_wechat && (o.login_url_hit || o.login_hit) {
        GuardStep::FailLoginRequired
    } else if on_target && o.surface_ok {
        GuardStep::Proceed
    } else if o.is_wechat && on_target {
        if o.init_hit {
            if o.timed_out {
                GuardStep::FailStillInitializing
            } else {
                GuardStep::Wait
            }
        } else if o.weak_reason == WeakReason::WechatEmptyDom && o.self_heal_enabled
            && !o.self_heal_attempted {
            GuardStep::SelfHeal
        } else if o.timed_out {
            GuardStep::FailNotReady
        } else {
            GuardStep::Wait
        }
    } else if on_target && !o.require_surface_ready {
        if o.weak_ready {
            if o.self_heal_enabled && !o.self_heal_attempted {
                GuardStep::SelfHeal
            } else {
                GuardStep::FailWeakReady
            }
        } else {
            GuardStep::ProceedDegraded
        }
    } else if o.timed_out {
        GuardStep::FailNotReady
    } else {
        GuardStep::Wait
    }
}

/// The guard is bounded: past its deadline it never waits again, and it
/// heals a page only while no self-heal was attempted, so at most once.
pub proof fn law_guard_bounded(o: GuardObservation)
    ensures
        o.timed_out ==> guard_step_of(o) != GuardStep::Wait,
        guard_step_of(o) == GuardStep::SelfHeal ==> !o.self_heal_attempted && o.self_heal_enabled,
{
}

/// On the upload page, a blocking message stops the guard with
/// `FailBlocked`, whatever else the page shows, a login included.
pub proof fn law_guard_blocked_never_proceeds(o: GuardObservation)
    requires
        o.host_ok && o.path_ok && o.blocked_hit,
    ensures
        guard_step_of(o) == GuardStep::FailBlocked,
{
}

/// Position of the first marker of `markers` (in list order) that occurs in
/// `text`, if any.
pub open spec fn first_marker_from(text: Seq<char>, markers: Seq<&'static str>, i: int) -> Option<int>
    decreases markers.len() - i,
{
    if i < 0 || i >= markers.len() {
        None
    } else if seq_contains(text, markers[i]@) {
        Some(i)
    } else {
        first_marker_from(text, markers, i + 1)
    }
}

/// The first marker of `markers` that occurs in `text`, or empty.
pub open spec fn marker_hit(text: Seq<char>, markers: Seq<&'static str>) -> Seq<char> {
    match first_marker_from(text, markers, 0) {
        Some(i) => markers[i]@,
        None => Seq::empty(),
    }
}

/// The first marker of `markers` that occurs in `text`, or empty.
pub fn first_marker_hit(text: &str, markers: &Vec<&'static str>) -> (r: String)
    ensures
        r@ == marker_hit(text@, markers@),
{
    let mut i: usize = 0;
    while i < markers.len()
        invariant
            i <= markers@.len(),
            first_marker_from(text@, markers@, 0) == first_marker_from(text@, markers@, i as int),
        decreases markers@.len() - i,
    {
        if contains_str(text, markers[i]) {
            return String::from_str(markers[i]);
        }
        i = i + 1;
    }
    String::new()
}

/// The text hits of one readiness scan; empty where no marker was found.
pub struct MarkerHits {
    pub blocked: String,
    pub login: String,
    pub init: String,
    pub surface: String,
}

/// The hits of a scan: markers are looked for in priority order, and a
/// blocked hit suppresses the login and init checks, a login hit the init
/// check.
pub open spec fn hits_ok(h: MarkerHits, text: Seq<char>, cfg: PlatformPublishConfig) -> bool {
    &&& h.blocked@ == marker_hit(text, cfg.blocked_text_markers@)
    &&& h.login@ == (if h.blocked@.len() > 0 {
        Seq::empty()
    } else {
        marker_hit(text, cfg.login_text_markers@)
    })
    &&& h.init@ == (if h.blocked@.len() > 0 || h.login@.len() > 0 {
        Seq::empty()
    } else {
        marker_hit(text, cfg.init_text_markers@)
    })
    &&& h.surface@ == marker_hit(text, cfg.surface_text_markers@)
}

/// Look for the destination's markers in the visible text of a page.
pub fn scan_markers(text: &str, cfg: &PlatformPublishConfig) -> (r: MarkerHits)
    ensures
        hits_ok(r, text@, *cfg),
{
    let blocked = first_marker_hit(text, &cfg.blocked_text_markers);
    let login = if blocked.as_str().unicode_len() > 0 {
        String::new()
    } else {
        first_marker_hit(text, &cfg.login_text_markers)
    };
    let init = if blocked.as_str().unicode_len() > 0 || login.as_str().unicode_len() > 0 {
        String::new()
    } else {
        first_marker_hit(text, &cfg.init_text_markers)
    };
    let surface = first_marker_hit(text, &cfg.surface_text_markers);
    MarkerHits { blocked, login, init, surface }
}

/// What one readiness scan of the page counted, before markers are read.
pub struct PageScan {
    pub title: String,
    /// Visible text of every reachable root, whitespace-collapsed.
    pub body_text: String,
    pub file_input_count: usize,
    pub surface_selector_hit_count: usize,
    pub surface_context_hit: String,
    pub frame_count: usize,
    pub shadow_root_count: usize,
    pub scanned_nodes: usize,
    pub interactive_candidate_count: usize,
    pub interactive_context: String,
}

/// Characters of page text kept as an excerpt.
pub const BODY_EXCERPT_CHARS: usize = 120;

/// The probe a scan yields: its counts, the marker hits in its text, an
/// anchor when a file input, a surface selector or a surface marker was
/// found, and the first characters of the text as excerpt.
pub open spec fn probe_of_scan(p: UploadPageProbe, scan: PageScan, cfg: PlatformPublishConfig) -> bool {
    let hits = MarkerHits {
        blocked: p.blocked_text_hit,
        login: p.login_text_hit,
        init: p.init_text_hit,
        surface: p.surface_text_hit,
    };
    &&& hits_ok(hits, scan.body_text@, cfg)
    &&& p.title@ == scan.title@
    &&& p.body_text_len == scan.body_text@.len()
    &&& p.body_excerpt@ == scan.body_text@.take(
        if scan.body_text@.len() < BODY_EXCERPT_CHARS {
            scan.body_text@.len() as int
        } else {
            BODY_EXCERPT_CHARS as int
        },
    )
    &&& p.file_input_count == scan.file_input_count
    &&& p.anchor_hit == (scan.file_input_count > 0 || scan.surface_selector_hit_count > 0
        || p.surface_text_hit@.len() > 0)
    &&& p.surface_selector_hit_count == scan.surface_selector_hit_count
    &&& p.surface_context_hit@ == scan.surface_context_hit@
    &&& p.frame_count == scan.frame_count
    &&& p.shadow_root_count == scan.shadow_root_count
    &&& p.scanned_nodes == scan.scanned_nodes
    &&& p.interactive_candidate_count == scan.interactive_candidate_count
    &&& p.interactive_context@ == scan.interactive_context@
    &&& !p.scan_failed
}

/// Read the destination's markers in a scan and build its probe.
pub fn probe_from_scan(scan: PageScan, cfg: &PlatformPublishConfig) -> (r: UploadPageProbe)
    ensures
        probe_of_scan(r, scan, *cfg),
{
    let hits = scan_markers(scan.body_text.as_str(), cfg);
    let n = scan.body_text.as_str().unicode_len();
    let keep = if n < BODY_EXCERPT_CHARS {
        n
    } else {
        BODY_EXCERPT_CHARS
    };
    let excerpt = String::from_str(scan.body_text.as_str().substring_char(0, keep));
    let anchor_hit = scan.file_input_count > 0 || scan.surface_selector_hit_count > 0
        || hits.surface.as_str().unicode_len() > 0;
    assert(scan.body_text@.subrange(0, keep as int) =~= scan.body_text@.take(keep as int));
    UploadPageProbe {
        title: scan.title,
        body_text_len: n,
        body_excerpt: excerpt,
        file_input_count: scan.file_input_count,
        blocked_text_hit: hits.blocked,
        init_text_hit: hits.init,
        login_text_hit: hits.login,
        surface_text_hit: hits.surface,
        anchor_hit,
        surface_selector_hit_count: scan.surface_selector_hit_count,
        surface_context_hit: scan.surface_context_hit,
        frame_count: scan.frame_count,
        shadow_root_count: scan.shadow_root_count,
        scanned_nodes: scan.scanned_nodes,
        interactive_candidate_count: scan.interactive_candidate_count,
        interactive_context: scan.interactive_context,
        scan_failed: false,
    }
}

/// The probe of a scan that failed or answered malformed data: no hits, no
/// counts, one frame, and the error readiness kind, so it is never ready.
pub fn failed_scan_probe() -> (r: UploadPageProbe)
    ensures
        r.scan_failed,
        r.title@.len() == 0 && r.body_text_len == 0 && r.body_excerpt@.len() == 0,
        r.file_input_count == 0 && r.surface_selector_hit_count == 0 && r.scanned_nodes == 0,
        r.blocked_text_hit@.len() == 0 && r.init_text_hit@.len() == 0,
        r.login_text_hit@.len() == 0 && r.surface_text_hit@.len() == 0,
        r.surface_context_hit@.len() == 0 && r.interactive_context@.len() == 0,
        !r.anchor_hit && r.interactive_candidate_count == 0,
        r.frame_count == 1 && r.shadow_root_count == 0,
        probe_guard(r) == GuardState::Pending,
        probe_ready_kind(r) == ReadyKind::ScanError,
        !wechat_ready(r),
{
    UploadPageProbe {
        title: String::new(),
        body_text_len: 0,
        body_excerpt: String::new(),
        file_input_count: 0,
        blocked_text_hit: String::new(),
        init_text_hit: String::new(),
        login_text_hit: String::new(),
        surface_text_hit: String::new(),
        anchor_hit: false,
        surface_selector_hit_count: 0,
        surface_context_hit: String::new(),
        frame_count: 1,
        shadow_root_count: 0,
        scanned_nodes: 0,
        interactive_candidate_count: 0,
        interactive_context: String::new(),
        scan_failed: true,
    }
}

proof fn lemma_first_marker_found(text: Seq<char>, markers: Seq<&'static str>, i: int, w: int)
    requires
        0 <= i <= w < markers.len(),
        seq_contains(text, markers[w]@),
    ensures
        first_marker_from(text, markers, i) is Some,
        0 <= first_marker_from(text, markers, i).unwrap() < markers.len(),
    decreases w - i,
{
    if !seq_contains(text, markers[i]@) {
        lemma_first_marker_found(text, markers, i + 1, w);
    }
}

/// A page whose text shows a blocked marker is classified `Blocked`, never
/// ready, whatever file inputs or surfaces it also shows (given markers that
/// are not empty).
pub proof fn law_blocked_scan_not_ready(p: UploadPageProbe, scan: PageScan, cfg: PlatformPublishConfig, w: int)
    requires
        probe_of_scan(p, scan, cfg),
        0 <= w < cfg.blocked_text_markers@.len(),
        seq_contains(scan.body_text@, cfg.blocked_text_markers@[w]@),
        forall|k: int|
            0 <= k < cfg.blocked_text_markers@.len() ==> (#[trigger] cfg.blocked_text_markers@[k])@.len()
                > 0,
    ensures
        p.blocked_text_hit@.len() > 0,
        probe_guard(p) == GuardState::Blocked,
        !wechat_ready(p),
{
    lemma_first_marker_found(scan.body_text@, cfg.blocked_text_markers@, 0, w);
}

} // verus!
