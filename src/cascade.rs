//! The upload strategy cascade: the order of the techniques, the record of
//! what each attempt did, and the final verdict.
use vstd::prelude::*;
use vstd::string::StringExecFns;
use crate::config::{is_fill_success, fill_success, marker_status, marker_status_of, Platform};
use crate::text::{dec_text, seq_starts_with, starts_with_str, u64_text};

verus! {

/// The upload techniques, from least to most invasive.
#[derive(Clone, Copy, Debug, PartialEq, Eq, Structural)]
pub enum Strategy {
    /// Click a file input under file-chooser interception.
    Chooser,
    /// Assign the file list of a file input directly.
    DirectAssign,
    /// Simulate dragging the file onto a drop zone.
    DragDrop,
    /// Click an upload entry to open a chooser, then fill it.
    ClickChooser,
}

/// The one-letter tag of each technique in the diagnostic trail.
pub open spec fn strategy_tag(s: Strategy) -> Seq<char> {
    match s {
        Strategy::Chooser => "A"@,
        Strategy::DirectAssign => "B"@,
        Strategy::DragDrop => "C"@,
        Strategy::ClickChooser => "D"@,
    }
}

impl Strategy {
    /// The technique's tag.
    pub fn tag(&self) -> (r: &'static str)
        ensures
            r@ == strategy_tag(*self),
    {
        match self {
            Strategy::Chooser => "A",
            Strategy::DirectAssign => "B",
            Strategy::DragDrop => "C",
            Strategy::ClickChooser => "D",
        }
    }
}

/// The order in which a destination tries the techniques: the channels
/// destination clicks before it drags, every other one drags first.
pub open spec fn strategy_order_of(p: Platform) -> Seq<Strategy> {
    if p == Platform::Wechat {
        seq![Strategy::Chooser, Strategy::DirectAssign, Strategy::ClickChooser, Strategy::DragDrop]
    } else {
        seq![Strategy::Chooser, Strategy::DirectAssign, Strategy::DragDrop, Strategy::ClickChooser]
    }
}

/// The order of the techniques for a destination.
pub fn strategy_order(p: Platform) -> (r: Vec<Strategy>)
    ensures
        r@ == strategy_order_of(p),
{
    let r = if p == Platform::Wechat {
        vec![Strategy::Chooser, Strategy::DirectAssign, Strategy::ClickChooser, Strategy::DragDrop]
    } else {
        vec![Strategy::Chooser, Strategy::DirectAssign, Strategy::DragDrop, Strategy::ClickChooser]
    };
    assert(r@ =~= strategy_order_of(p));
    r
}

/// What one attempt came to.
#[derive(Clone, Copy, Debug, PartialEq, Eq, Structural)]
pub enum StepResult {
    /// Nothing matched: no action was taken.
    NoMatch,
    /// Something matched but the action failed.
    Failed,
    /// The action was performed.
    Acted,
}

/// One entry of the diagnostic trail.
pub struct StepRecord {
    pub strategy: Strategy,
    /// The selector or marker the attempt used.
    pub target: String,
    pub result: StepResult,
    /// The upload-start signal seen after the action, if any.
    pub signal: Option<String>,
    pub duration_ms: u64,
}

/// Some record of the trail performed an action.
pub open spec fn any_acted(records: Seq<StepRecord>) -> bool {
    exists|i: int| 0 <= i < records.len() && records[i].result == StepResult::Acted
}

/// The signal of the first record that saw one, if any.
pub open spec fn first_signal(records: Seq<StepRecord>) -> Option<Seq<char>>
    decreases records.len(),
{
    if records.len() == 0 {
        None
    } else {
        match first_signal(records.drop_last()) {
            Some(s) => Some(s),
            None => match records.last().signal {
                Some(s) => Some(s@),
                None => None,
            },
        }
    }
}

/// A record is consistent when it reports a signal only after an action,
/// and a signal is never empty.
pub open spec fn record_ok(r: StepRecord) -> bool {
    r.signal.is_some() ==> r.result == StepResult::Acted && r.signal.unwrap()@.len() > 0
}

/// The accumulated trail of one upload attempt.
pub struct UploadCascade {
    pub records: Vec<StepRecord>,
    pub action_performed: bool,
    pub signal: Option<String>,
    /// A click round already set the file through a chooser.
    pub file_set: bool,
}

/// The verdict once every fast attempt has run.
#[derive(Clone, Debug)]
pub enum FastVerdict {
    /// A signal was seen: the upload started.
    Started(String),
    /// No attempt matched anything: fail at once, without waiting.
    NothingMatched,
    /// Something was done but no signal seen yet: poll once more, slowly.
    SlowPollNeeded,
}

/// Why the cascade failed.
#[derive(Clone, Copy, Debug, PartialEq, Eq, Structural)]
pub enum CascadeFailure {
    /// No selector or marker matched anything: no action was performed.
    NothingMatched,
    /// An action was performed but no start signal was ever seen.
    SignalTimeout,
    /// As `SignalTimeout`, on the channels destination.
    WechatSignalTimeout,
}

/// The result of a cascade, given its trail, the slow poll's signal, and
/// the destination.
pub open spec fn cascade_result(
    c: UploadCascade,
    slow_signal: Option<Seq<char>>,
    p: Platform,
) -> Result<Seq<char>, CascadeFailure> {
    if first_signal(c.records@).is_some() {
        Ok(first_signal(c.records@).unwrap())
    } else if !any_acted(c.records@) {
        Err(CascadeFailure::NothingMatched)
    } else if slow_signal.is_some() {
        Ok(slow_signal.unwrap())
    } else if p == Platform::Wechat && c.file_set {
        Ok("chooser:file_set"@)
    } else if p == Platform::Wechat {
        Err(CascadeFailure::WechatSignalTimeout)
    } else {
        Err(CascadeFailure::SignalTimeout)
    }
}

impl UploadCascade {
    /// The cascade's fields agree with its trail.
    pub open spec fn wf(&self) -> bool {
        &&& self.action_performed == any_acted(self.records@)
        &&& match self.signal {
            Some(s) => first_signal(self.records@) == Some(s@),
            None => first_signal(self.records@).is_none(),
        }
        &&& self.file_set ==> self.action_performed
        &&& forall|i: int| 0 <= i < self.records@.len() ==> record_ok(#[trigger] self.records@[i])
    }

    /// An empty trail.
    pub fn new() -> (r: UploadCascade)
        ensures
            r.wf(),
            r.records@.len() == 0,
            !r.file_set,
    {
        UploadCascade { records: Vec::new(), action_performed: false, signal: None, file_set: false }
    }

    /// Append one attempt to the trail.
    pub fn record(&mut self, rec: StepRecord)
        requires
            old(self).wf(),
            record_ok(rec),
        ensures
            final(self).wf(),
            final(self).records@ == old(self).records@.push(rec),
            final(self).file_set == old(self).file_set,
    {
        let acted = rec.result == StepResult::Acted;
        let new_signal = match &rec.signal {
            Some(s) => Some(s.clone()),
            None => None,
        };
        let ghost old_records = self.records@;
        self.records.push(rec);
        proof {
            let recs = self.records@;
            assert(recs.drop_last() =~= old_records);
            if acted {
                assert(recs[recs.len() - 1].result == StepResult::Acted);
            }
            if any_acted(old_records) {
                let i = choose|i: int| 0 <= i < old_records.len() && old_records[i].result == StepResult::Acted;
                assert(recs[i] == old_records[i]);
            }
            if any_acted(recs) && !acted {
                let i = choose|i: int| 0 <= i < recs.len() && recs[i].result == StepResult::Acted;
                assert(i < old_records.len());
                assert(old_records[i] == recs[i]);
            }
        }
        self.action_performed = self.action_performed || acted;
        if self.signal.is_none() {
            self.signal = new_signal;
        }
    }

    /// Note that a click round set the file through a chooser.
    pub fn note_file_set(&mut self)
        requires
            old(self).wf(),
            old(self).action_performed,
        ensures
            final(self).wf(),
            final(self).file_set,
            final(self).records@ == old(self).records@,
            final(self).signal == old(self).signal,
    {
        self.file_set = true;
    }

    /// Has a signal been seen, so that no further technique is needed?
    pub fn is_started(&self) -> (r: bool)
        requires
            self.wf(),
        ensures
            r == first_signal(self.records@).is_some(),
    {
        self.signal.is_some()
    }

    /// Should a technique still run? The channels destination skips dragging
    /// once a click round set the file.
    pub fn should_run(&self, s: Strategy, p: Platform) -> (r: bool)
        requires
            self.wf(),
        ensures
            r == (first_signal(self.records@).is_none() && !(p == Platform::Wechat
                && s == Strategy::DragDrop && self.file_set)),
    {
        self.signal.is_none() && !(p == Platform::Wechat && s == Strategy::DragDrop
            && self.file_set)
    }

    /// The verdict after the fast attempts.
    pub fn fast_verdict(&self) -> (r: FastVerdict)
        requires
            self.wf(),
        ensures
            first_signal(self.records@).is_some() ==> (r matches FastVerdict::Started(s) && s@
                == first_signal(self.records@).unwrap()),
            first_signal(self.records@).is_none() && !any_acted(self.records@) ==> (r
                matches FastVerdict::NothingMatched),
            first_signal(self.records@).is_none() && any_acted(self.records@) ==> (r
                matches FastVerdict::SlowPollNeeded),
    {
        match &self.signal {
            Some(s) => FastVerdict::Started(s.clone()),
            None => {
                if self.action_performed {
                    FastVerdict::SlowPollNeeded
                } else {
                    FastVerdict::NothingMatched
                }
            },
        }
    }

    /// The final result, given the slow poll's signal (`None` when the slow
    /// poll was not run or saw nothing).
    pub fn conclude(&self, slow_signal: Option<String>, p: Platform) -> (r: Result<
        String,
        CascadeFailure,
    >)
        requires
            self.wf(),
            slow_signal.is_some() ==> slow_signal.unwrap()@.len() > 0,
        ensures
            r.is_ok() ==> r.unwrap()@.len() > 0,
            match (r, cascade_result(*self, opt_view(slow_signal), p)) {
                (Ok(a), Ok(b)) => a@ == b,
                (Err(a), Err(b)) => a == b,
                _ => false,
            },
    {
        proof {
            lemma_signal_needs_action(self.records@);
        }
        match &self.signal {
            Some(s) => Ok(s.clone()),
            None => {
                if !self.action_performed {
                    Err(CascadeFailure::NothingMatched)
                } else {
                    match slow_signal {
                        Some(s) => Ok(s),
                        None => {
                            if p == Platform::Wechat && self.file_set {
                                proof {
                                    reveal_strlit("chooser:file_set");
                                }
                                let r = String::from_str("chooser:file_set");
                                Ok(r)
                            } else if p == Platform::Wechat {
                                Err(CascadeFailure::WechatSignalTimeout)
                            } else {
                                Err(CascadeFailure::SignalTimeout)
                            }
                        },
                    }
                }
            },
        }
    }
}

/// The view of an optional string.
pub open spec fn opt_view(s: Option<String>) -> Option<Seq<char>> {
    match s {
        Some(v) => Some(v@),
        None => None,
    }
}

/// The cascade never reports success without a performed action, its start
/// signal is never empty, and a cascade where nothing matched always fails
/// with `NothingMatched`, whatever a later poll would have reported.
pub proof fn law_success_needs_action(c: UploadCascade, slow_signal: Option<Seq<char>>, p: Platform)
    requires
        c.wf(),
        slow_signal.is_some() ==> slow_signal.unwrap().len() > 0,
    ensures
        cascade_result(c, slow_signal, p) is Ok ==> any_acted(c.records@),
        cascade_result(c, slow_signal, p) is Ok ==> cascade_result(c, slow_signal, p).unwrap().len()
            > 0,
        !any_acted(c.records@) ==> cascade_result(c, slow_signal, p) == Err::<
            Seq<char>,
            CascadeFailure,
        >(CascadeFailure::NothingMatched),
{
    lemma_signal_needs_action(c.records@);
    reveal_strlit("chooser:file_set");
}

proof fn lemma_signal_needs_action(records: Seq<StepRecord>)
    requires
        forall|i: int| 0 <= i < records.len() ==> record_ok(#[trigger] records[i]),
    ensures
        first_signal(records).is_some() ==> any_acted(records),
        first_signal(records).is_some() ==> first_signal(records).unwrap().len() > 0,
    decreases records.len(),
{
    if records.len() > 0 {
        let init = records.drop_last();
        assert forall|i: int| 0 <= i < init.len() implies record_ok(#[trigger] init[i]) by {
            assert(init[i] == records[i]);
        }
        lemma_signal_needs_action(init);
        if first_signal(init).is_some() {
            let i = choose|i: int| 0 <= i < init.len() && init[i].result == StepResult::Acted;
            assert(records[i] == init[i]);
        } else if records.last().signal.is_some() {
            assert(record_ok(records[records.len() - 1]));
        }
    }
}

/// Which kind of evidence a start signal is.
pub open spec fn signal_source_of(signal: Seq<char>) -> Seq<char> {
    if seq_starts_with(signal, "url:"@) {
        "url"@
    } else if seq_starts_with(signal, "file:selected"@) {
        "file_input"@
    } else if seq_starts_with(signal, "progress:"@) {
        "progress"@
    } else if seq_starts_with(signal, "text:"@) {
        "text"@
    } else if seq_starts_with(signal, "chooser:"@) {
        "chooser_file_set"@
    } else {
        "unknown"@
    }
}

/// The kind of evidence of a start signal, from its prefix.
pub fn upload_signal_source(signal: &str) -> (r: &'static str)
    ensures
        r@ == signal_source_of(signal@),
{
    if starts_with_str(signal, "url:") {
        "url"
    } else if starts_with_str(signal, "file:selected") {
        "file_input"
    } else if starts_with_str(signal, "progress:") {
        "progress"
    } else if starts_with_str(signal, "text:") {
        "text"
    } else if starts_with_str(signal, "chooser:") {
        "chooser_file_set"
    } else {
        "unknown"
    }
}

/// Position of the first record that saw a signal, if any.
pub open spec fn first_signal_pos(records: Seq<StepRecord>) -> Option<int>
    decreases records.len(),
{
    if records.len() == 0 {
        None
    } else {
        match first_signal_pos(records.drop_last()) {
            Some(i) => Some(i),
            None => if records.last().signal.is_some() {
                Some(records.len() - 1)
            } else {
                None
            },
        }
    }
}

/// The outcome text of a record.
pub open spec fn outcome_text(r: StepRecord) -> Seq<char> {
    match r.result {
        StepResult::NoMatch => "count=0"@,
        StepResult::Failed => "failed"@,
        StepResult::Acted => match r.signal {
            Some(s) => "signal="@ + s@,
            None => "no_signal_fast"@,
        },
    }
}

/// One trail entry as text: technique tag, target, outcome.
pub open spec fn record_text(r: StepRecord) -> Seq<char> {
    strategy_tag(r.strategy) + ":"@ + r.target@ + " "@ + outcome_text(r)
}

impl StepRecord {
    /// The entry as text.
    pub fn describe(&self) -> (r: String)
        ensures
            r@ == record_text(*self),
    {
        let mut out = String::from_str(self.strategy.tag());
        out.append(":");
        out.append(self.target.as_str());
        out.append(" ");
        match self.result {
            StepResult::NoMatch => out.append("count=0"),
            StepResult::Failed => out.append("failed"),
            StepResult::Acted => match &self.signal {
                Some(sig) => {
                    out.append("signal=");
                    out.append(sig.as_str());
                },
                None => out.append("no_signal_fast"),
            },
        }
        out
    }
}

impl UploadCascade {
    /// Position of the record whose signal won, if any.
    pub fn winner(&self) -> (r: Option<usize>)
        ensures
            match (r, first_signal_pos(self.records@)) {
                (Some(a), Some(b)) => a as int == b,
                (None, None) => true,
                _ => false,
            },
    {
        let mut i: usize = 0;
        while i < self.records.len()
            invariant
                i <= self.records@.len(),
                first_signal_pos(self.records@.subrange(0, i as int)).is_none(),
            decreases self.records@.len() - i,
        {
            let ghost next = self.records@.subrange(0, i + 1);
            assert(next.drop_last() =~= self.records@.subrange(0, i as int));
            if self.records[i].signal.is_some() {
                proof {
                    lemma_first_signal_pos_prefix(self.records@, i + 1);
                }
                return Some(i);
            }
            i = i + 1;
        }
        assert(self.records@.subrange(0, i as int) =~= self.records@);
        None
    }

    /// The whole trail as text, entries joined by ` | `.
    pub fn trail(&self) -> (r: String)
        ensures
            r@ == trail_text(self.records@),
    {
        let mut out = String::new();
        let mut i: usize = 0;
        while i < self.records.len()
            invariant
                i <= self.records@.len(),
                out@ == trail_text(self.records@.subrange(0, i as int)),
            decreases self.records@.len() - i,
        {
            let ghost next = self.records@.subrange(0, i + 1);
            assert(next.drop_last() =~= self.records@.subrange(0, i as int));
            if i > 0 {
                out.append(" | ");
            }
            out.append(self.records[i].describe().as_str());
            i = i + 1;
        }
        assert(self.records@.subrange(0, i as int) =~= self.records@);
        out
    }
}

/// The trail as text, entries joined by ` | `.
pub open spec fn trail_text(records: Seq<StepRecord>) -> Seq<char>
    decreases records.len(),
{
    if records.len() == 0 {
        Seq::empty()
    } else if records.len() == 1 {
        record_text(records[0])
    } else {
        trail_text(records.drop_last()) + " | "@ + record_text(records.last())
    }
}

proof fn lemma_first_signal_pos_prefix(records: Seq<StepRecord>, n: int)
    requires
        0 < n <= records.len(),
        first_signal_pos(records.subrange(0, n - 1)).is_none(),
        records[n - 1].signal.is_some(),
    ensures
        first_signal_pos(records) == Some(n - 1),
    decreases records.len(),
{
    if records.len() > n {
        assert(records.drop_last().subrange(0, n - 1) =~= records.subrange(0, n - 1));
        lemma_first_signal_pos_prefix(records.drop_last(), n);
    } else {
        assert(records.drop_last() =~= records.subrange(0, n - 1));
    }
}

/// Both title and description failed to fill where the destination treats
/// that as an error.
#[derive(Clone, Copy, Debug, PartialEq, Eq, Structural)]
pub struct FillFailure;

/// The outcome of an upload whose start signal was seen, given how filling
/// the fields went: an error when neither title nor description was filled
/// and the destination treats that as one, else the signal followed by the
/// fill summary.
pub open spec fn fill_result_of(
    signal: Seq<char>,
    title_marker: Seq<char>,
    description_marker: Seq<char>,
    tags_added: nat,
    tags_total: nat,
    fill_failure_is_error: bool,
) -> Result<Seq<char>, FillFailure> {
    if !fill_success(title_marker) && !fill_success(description_marker) && fill_failure_is_error {
        Err(FillFailure)
    } else {
        Ok(signal + ";fill=title:"@ + marker_status_of(title_marker) + ",desc:"@ + marker_status_of(
            description_marker,
        ) + ",tags:"@ + dec_text(tags_added) + "/"@ + dec_text(tags_total))
    }
}

/// The outcome of an upload whose start signal was seen.
pub fn fill_result(
    signal: &str,
    title_marker: &str,
    description_marker: &str,
    tags_added: usize,
    tags_total: usize,
    fill_failure_is_error: bool,
) -> (r: Result<String, FillFailure>)
    ensures
        match (r, fill_result_of(
            signal@,
            title_marker@,
            description_marker@,
            tags_added as nat,
            tags_total as nat,
            fill_failure_is_error,
        )) {
            (Ok(a), Ok(b)) => a@ == b,
            (Err(a), Err(b)) => a == b,
            _ => false,
        },
{
    if !is_fill_success(title_marker) && !is_fill_success(description_marker)
        && fill_failure_is_error {
        return Err(FillFailure);
    }
    let mut out = String::from_str(signal);
    out.append(";fill=title:");
    out.append(marker_status(title_marker));
    out.append(",desc:");
    out.append(marker_status(description_marker));
    out.append(",tags:");
    out.append(u64_text(tags_added as u64).as_str());
    out.append("/");
    out.append(u64_text(tags_total as u64).as_str());
    Ok(out)
}

} // verus!
