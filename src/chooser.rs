//! Click-to-open-chooser retries: the candidate points to click and the
//! bounded rounds of alternating click techniques.
use vstd::prelude::*;
use vstd::string::StringExecFns;
use crate::geometry::GeometryCandidate;

verus! {

/// Most click rounds, one per candidate point.
pub const CHOOSER_RETRY_MAX_ROUNDS: usize = 3;

/// Longest wait for the chooser event after one click, in milliseconds.
pub const CHOOSER_EVENT_WAIT_MS: u64 = 1700;

/// Shared time budget of all rounds, in milliseconds.
pub const CHOOSER_RETRY_BUDGET_MS: u64 = 10000;

/// A click point: rounded page coordinates.
pub open spec fn point_of(c: GeometryCandidate) -> (i64, i64) {
    (c.x, c.y)
}

/// The points to retry: the selected point first when there is one, then
/// each geometry candidate whose point no earlier entry already has.
pub open spec fn retry_points(selected: Option<(i64, i64)>, pts: Seq<(i64, i64)>) -> Seq<(i64, i64)>
    decreases pts.len(),
{
    if pts.len() == 0 {
        match selected {
            Some(p) => seq![p],
            None => Seq::empty(),
        }
    } else {
        let rest = retry_points(selected, pts.drop_last());
        if rest.contains(pts.last()) {
            rest
        } else {
            rest.push(pts.last())
        }
    }
}

/// The points of a list of candidates.
pub open spec fn points_of(cs: Seq<GeometryCandidate>) -> Seq<(i64, i64)> {
    cs.map_values(|c: GeometryCandidate| point_of(c))
}

/// Does any candidate of `cs` stand at point `(x, y)`?
fn has_point(cs: &Vec<GeometryCandidate>, x: i64, y: i64) -> (r: bool)
    ensures
        r == points_of(cs@).contains((x, y)),
{
    let mut i: usize = 0;
    while i < cs.len()
        invariant
            i <= cs@.len(),
            forall|k: int| 0 <= k < i ==> point_of(#[trigger] cs@[k]) != (x, y),
        decreases cs@.len() - i,
    {
        if cs[i].x == x && cs[i].y == y {
            assert(points_of(cs@)[i as int] == (x, y));
            return true;
        }
        i = i + 1;
    }
    proof {
        if points_of(cs@).contains((x, y)) {
            let k = choose|k: int| 0 <= k < points_of(cs@).len() && points_of(cs@)[k] == (x, y);
            assert(points_of(cs@)[k] == point_of(cs@[k]));
        }
    }
    false
}

/// The candidates for the click rounds: the point that was clicked first
/// (when both coordinates are known), then the geometry candidates, without
/// repeating a point.
pub fn build_wechat_retry_candidates(
    click_x: Option<i64>,
    click_y: Option<i64>,
    clicked_context: &str,
    frame_path: &str,
    geometry_candidates: &Vec<GeometryCandidate>,
) -> (r: Vec<GeometryCandidate>)
    ensures
        points_of(r@) == retry_points(
            if click_x.is_some() && click_y.is_some() {
                Some((click_x.unwrap(), click_y.unwrap()))
            } else {
                None
            },
            points_of(geometry_candidates@),
        ),
        click_x.is_some() && click_y.is_some() ==> r@[0].context@ == clicked_context@
            && r@[0].frame_path@ == frame_path@ && r@[0].score == 0,
{
    let ghost selected = if click_x.is_some() && click_y.is_some() {
        Some((click_x.unwrap(), click_y.unwrap()))
    } else {
        None
    };
    let mut out: Vec<GeometryCandidate> = Vec::new();
    match (click_x, click_y) {
        (Some(x), Some(y)) => {
            out.push(
                GeometryCandidate {
                    x,
                    y,
                    score: 0,
                    context: String::from_str(clicked_context),
                    frame_path: String::from_str(frame_path),
                    reason: String::from_str("selected_point"),
                },
            );
        },
        _ => {},
    }
    let ghost pts = points_of(geometry_candidates@);
    assert(points_of(out@) =~= retry_points(selected, pts.subrange(0, 0)));
    let mut i: usize = 0;
    while i < geometry_candidates.len()
        invariant
            i <= geometry_candidates@.len(),
            pts == points_of(geometry_candidates@),
            points_of(out@) == retry_points(selected, pts.subrange(0, i as int)),
            click_x.is_some() && click_y.is_some() ==> out@.len() > 0 && out@[0].context@
                == clicked_context@ && out@[0].frame_path@ == frame_path@ && out@[0].score == 0,
            selected == (if click_x.is_some() && click_y.is_some() {
                Some((click_x.unwrap(), click_y.unwrap()))
            } else {
                None
            }),
        decreases geometry_candidates@.len() - i,
    {
        let c = &geometry_candidates[i];
        proof {
            let next = pts.subrange(0, i + 1);
            assert(next.drop_last() =~= pts.subrange(0, i as int));
            assert(next.last() == point_of(geometry_candidates@[i as int]));
        }
        if !has_point(&out, c.x, c.y) {
            let ghost before = out@;
            out.push(
                GeometryCandidate {
                    x: c.x,
                    y: c.y,
                    score: c.score,
                    context: c.context.clone(),
                    frame_path: c.frame_path.clone(),
                    reason: c.reason.clone(),
                },
            );
            assert(points_of(out@) =~= points_of(before).push((c.x, c.y)));
        }
        i = i + 1;
    }
    assert(pts.subrange(0, pts.len() as int) =~= pts);
    out
}

/// The two click techniques, used in turn on each point.
#[derive(Clone, Copy, Debug, PartialEq, Eq, Structural)]
pub enum ClickMethod {
    /// A protocol-level mouse click.
    CdpMouse,
    /// A chain of synthetic pointer events from a page script.
    JsChain,
}

/// What happened after one click.
#[derive(Clone, Copy, Debug, PartialEq, Eq, Structural)]
pub enum ClickOutcome {
    /// The click itself could not be dispatched.
    ClickFailed,
    /// The chooser-opened event arrived.
    Opened,
    /// The event stream ended.
    StreamClosed,
    /// No event within the wait.
    TimedOut,
}

/// How the rounds ended.
#[derive(Clone, Copy, Debug, PartialEq, Eq, Structural)]
pub enum RetryEnd {
    /// The chooser opened in this round (1-based), after this technique.
    Opened(usize, ClickMethod),
    /// The event stream ended after this technique.
    StreamClosed(ClickMethod),
    /// The shared time budget ran out.
    BudgetSpent,
    /// Every round ran without an event.
    Exhausted,
    /// There was no point to click.
    NoCandidates,
}

/// The next action of the rounds.
#[derive(Clone, Copy, Debug, PartialEq, Eq, Structural)]
pub enum RetryAction {
    /// Click candidate `candidate` with `method`, then wait up to `wait_ms`.
    Click { candidate: usize, method: ClickMethod, wait_ms: u64 },
    /// Stop.
    Stop(RetryEnd),
}

/// Where the rounds stand: the candidate in turn and the technique in turn.
#[derive(Clone, Copy, Debug, PartialEq, Eq, Structural)]
pub struct ChooserRetry {
    pub rounds: usize,
    pub round: usize,
    pub method: ClickMethod,
}

/// The next action: stop when there are no points, when every round ran,
/// or when the budget is spent; else click the point in turn and wait at
/// most the per-click wait or what is left of the budget.
pub open spec fn retry_action_of(st: ChooserRetry, remaining_ms: u64) -> RetryAction {
    if st.rounds == 0 {
        RetryAction::Stop(RetryEnd::NoCandidates)
    } else if st.round >= st.rounds {
        RetryAction::Stop(RetryEnd::Exhausted)
    } else if remaining_ms == 0 {
        RetryAction::Stop(RetryEnd::BudgetSpent)
    } else {
        RetryAction::Click {
            candidate: st.round,
            method: st.method,
            wait_ms: if remaining_ms < 1700 {
                remaining_ms
            } else {
                1700
            },
        }
    }
}

/// The state after a click's outcome, or how the rounds ended: an event
/// ends them; otherwise the protocol click is followed by the script click
/// on the same point, and the script click by the next point.
pub open spec fn retry_after_of(st: ChooserRetry, outcome: ClickOutcome) -> Result<ChooserRetry, RetryEnd> {
    match outcome {
        ClickOutcome::Opened => Err(RetryEnd::Opened((st.round + 1) as usize, st.method)),
        ClickOutcome::StreamClosed => Err(RetryEnd::StreamClosed(st.method)),
        _ => if st.method == ClickMethod::CdpMouse {
            Ok(ChooserRetry { method: ClickMethod::JsChain, ..st })
        } else {
            Ok(ChooserRetry { round: (st.round + 1) as usize, method: ClickMethod::CdpMouse, ..st })
        },
    }
}

/// Clicks left before the rounds are exhausted.
pub open spec fn clicks_left(st: ChooserRetry) -> int {
    if st.round >= st.rounds {
        0
    } else {
        2 * (st.rounds - st.round) - (if st.method == ClickMethod::JsChain { 1int } else { 0 })
    }
}

impl ChooserRetry {
    /// Rounds over `candidates` points, at most three.
    pub fn new(candidates: usize) -> (r: ChooserRetry)
        ensures
            r.rounds == (if candidates < 3 { candidates } else { 3 }),
            r.round == 0,
            r.method == ClickMethod::CdpMouse,
    {
        let rounds = if candidates < CHOOSER_RETRY_MAX_ROUNDS {
            candidates
        } else {
            CHOOSER_RETRY_MAX_ROUNDS
        };
        ChooserRetry { rounds, round: 0, method: ClickMethod::CdpMouse }
    }

    /// The next action, given what is left of the budget.
    pub fn next_action(&self, remaining_ms: u64) -> (r: RetryAction)
        ensures
            r == retry_action_of(*self, remaining_ms),
    {
        if self.rounds == 0 {
            RetryAction::Stop(RetryEnd::NoCandidates)
        } else if self.round >= self.rounds {
            RetryAction::Stop(RetryEnd::Exhausted)
        } else if remaining_ms == 0 {
            RetryAction::Stop(RetryEnd::BudgetSpent)
        } else {
            let wait_ms = if remaining_ms < CHOOSER_EVENT_WAIT_MS {
                remaining_ms
            } else {
                CHOOSER_EVENT_WAIT_MS
            };
            RetryAction::Click { candidate: self.round, method: self.method, wait_ms }
        }
    }

    /// Take in the outcome of the click just made.
    pub fn after(&self, outcome: ClickOutcome) -> (r: Result<ChooserRetry, RetryEnd>)
        requires
            self.round < self.rounds,
        ensures
            r == retry_after_of(*self, outcome),
    {
        match outcome {
            ClickOutcome::Opened => Err(RetryEnd::Opened(self.round + 1, self.method)),
            ClickOutcome::StreamClosed => Err(RetryEnd::StreamClosed(self.method)),
            _ => {
                if self.method == ClickMethod::CdpMouse {
                    Ok(ChooserRetry { method: ClickMethod::JsChain, ..*self })
                } else {
                    Ok(ChooserRetry { round: self.round + 1, method: ClickMethod::CdpMouse, ..*self })
                }
            },
        }
    }
}

/// The rounds are bounded: each click that does not end them leaves one
/// click fewer, so at most two clicks per point (six in all) are made, and
/// no wait exceeds the per-click wait or the remaining budget.
pub proof fn law_retry_bounded(st: ChooserRetry, remaining_ms: u64, outcome: ClickOutcome)
    requires
        st.rounds <= 3,
        st.round <= st.rounds,
    ensures
        clicks_left(st) <= 6,
        retry_action_of(st, remaining_ms) matches RetryAction::Click { candidate, method, wait_ms }
            ==> ({
            &&& candidate < st.rounds
            &&& wait_ms <= 1700
            &&& wait_ms <= remaining_ms
            &&& (retry_after_of(st, outcome) matches Ok(next) ==> clicks_left(next) < clicks_left(
                st,
            ) && next.round <= next.rounds)
        }),
{
}

} // verus!
