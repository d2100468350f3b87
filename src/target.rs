//! Page scoring and selection against an expected destination, and the
//! decisions that acquire the destination page.
use vstd::prelude::*;
use crate::text::{
    bool_text, chars_of, contains_str, dec_text, occurs_at, push_bool, same_text, seq_contains,
    seq_starts_with, signed_text, starts_with_str, string_of, u64_text, i64_text,
};
use vstd::string::StringExecFns;

verus! {

/// Score a strict-mode selection must reach to be accepted.
pub const STRICT_TARGET_SCORE: i32 = 70;

/// Seconds to wait for pages on the first poll.
pub const CDP_INITIAL_TARGET_WAIT_SECS: u64 = 2;

/// Seconds to wait for pages after redirecting or opening a page.
pub const CDP_TARGET_RETRY_WAIT_SECS: u64 = 3;

/// First position at or after `i` where `p` occurs in `s`, or `-1`.
pub open spec fn find_from(s: Seq<char>, p: Seq<char>, i: int) -> int
    decreases s.len() + 1 - i,
{
    if i < 0 || i + p.len() > s.len() {
        -1
    } else if occurs_at(s, p, i) {
        i
    } else {
        find_from(s, p, i + 1)
    }
}

/// Length of the prefix of `s` before the first `c`.
pub open spec fn prefix_before(s: Seq<char>, c: char) -> int
    decreases s.len(),
{
    if s.len() == 0 {
        0
    } else if s[0] == c {
        0
    } else {
        1 + prefix_before(s.drop_first(), c)
    }
}

/// The host part of a URL: the text after the first `//` up to the next
/// `/`, or empty when the URL holds no `//`.
pub open spec fn host_of(url: Seq<char>) -> Seq<char> {
    let i = find_from(url, seq!['/', '/'], 0);
    if i < 0 {
        Seq::empty()
    } else {
        let rest = url.subrange(i + 2, url.len() as int);
        rest.subrange(0, prefix_before(rest, '/'))
    }
}

/// How well `url` matches the expected destination.
pub open spec fn url_score(url: Seq<char>, expected_url: Seq<char>, expected_host: Seq<char>) -> i32 {
    if expected_url.len() > 0 && url == expected_url {
        100
    } else if expected_url.len() > 0 && seq_contains(url, expected_url) {
        90
    } else if expected_host.len() > 0 && seq_contains(url, expected_host) {
        70
    } else if seq_starts_with(url, "http://"@) || seq_starts_with(url, "https://"@) {
        10
    } else {
        0
    }
}

proof fn lemma_prefix_before_bounds(s: Seq<char>, c: char)
    ensures
        0 <= prefix_before(s, c) <= s.len(),
        forall|k: int| 0 <= k < prefix_before(s, c) ==> s[k] != c,
        prefix_before(s, c) < s.len() ==> s[prefix_before(s, c)] == c,
    decreases s.len(),
{
    if s.len() > 0 && s[0] != c {
        lemma_prefix_before_bounds(s.drop_first(), c);
        assert forall|k: int| 0 <= k < prefix_before(s, c) implies s[k] != c by {
            if k > 0 {
                assert(s[k] == s.drop_first()[k - 1]);
            }
        }
    }
}

/// The host part of `url` (see `host_of`).
pub fn extract_host(url: &str) -> (r: String)
    ensures
        r@ == host_of(url@),
{
    let u = chars_of(url);
    let n = u.len();
    let sep = chars_of("//");
    proof { reveal_strlit("//"); }
    assert(sep@ =~= seq!['/', '/']);
    let mut i: usize = 0;
    let mut found = false;
    while !found && n >= 2 && i <= n - 2
        invariant
            n == u@.len(),
            i <= n,
            sep@ == seq!['/', '/'],
            find_from(u@, sep@, 0) == find_from(u@, sep@, i as int),
            found ==> occurs_at(u@, sep@, i as int),
        decreases n - i + (if found { 0int } else { 1int }),
    {
        if crate::text::vec_occurs_at(&u, &sep, i) {
            found = true;
        } else {
            i = i + 1;
        }
    }
    if !found {
        assert(find_from(u@, sep@, i as int) == -1);
        return String::new();
    }
    assert(find_from(u@, sep@, i as int) == i);
    let mut host: Vec<char> = Vec::new();
    let mut j: usize = i + 2;
    while j < n && u[j] != '/'
        invariant
            n == u@.len(),
            i + 2 <= j <= n,
            host@ == u@.subrange(i + 2, j as int),
            forall|k: int| i + 2 <= k < j ==> u@[k] != '/',
        decreases n - j,
    {
        host.push(u[j]);
        j = j + 1;
        assert(host@ =~= u@.subrange(i + 2, j as int));
    }
    proof {
        let rest = u@.subrange(i + 2, n as int);
        lemma_prefix_before_bounds(rest, '/');
        let q = prefix_before(rest, '/');
        if q < j - (i + 2) {
            assert(rest[q] == u@[i + 2 + q]);
        }
        if q > j - (i + 2) {
            assert(rest[j - (i + 2)] == u@[j as int]);
        }
        assert(q == j - (i + 2));
        assert(host@ =~= rest.subrange(0, q));
    }
    string_of(&host)
}

/// Score `url` against the expected destination: exact match 100, holds the
/// expected URL 90, holds the expected host 70, any http(s) URL 10, else 0.
pub fn score_url_match(url: &str, expected_url: &str, expected_host: &str) -> (r: i32)
    ensures
        r == url_score(url@, expected_url@, expected_host@),
{
    let has_url = expected_url.unicode_len() > 0;
    if has_url && same_text(url, expected_url) {
        return 100;
    }
    if has_url && contains_str(url, expected_url) {
        return 90;
    }
    if expected_host.unicode_len() > 0 && contains_str(url, expected_host) {
        return 70;
    }
    if starts_with_str(url, "http://") || starts_with_str(url, "https://") {
        return 10;
    }
    0
}

/// One page as seen on one polling tick.
#[derive(Clone, Debug)]
pub struct PageProbe {
    pub idx: usize,
    pub url: String,
    pub score: i32,
    pub exact_url_match: bool,
    pub ready_complete: bool,
    pub visible: bool,
    pub focused: bool,
    pub body_text_len: usize,
    pub title: String,
    pub body_excerpt: String,
}

/// `1` for true, `0` for false.
pub open spec fn rank_of(b: bool) -> i32 {
    if b {
        1
    } else {
        0
    }
}

/// `1` for true, `0` for false.
pub fn bool_rank(value: bool) -> (r: i32)
    ensures
        r == rank_of(value),
{
    if value {
        1
    } else {
        0
    }
}

/// The comparison key of a page, most significant first; the page index is
/// the last component.
pub fn page_probe_rank(probe: &PageProbe) -> (r: (i32, i32, i32, i32, i32, i32, usize))
    ensures
        r == (
            probe.score,
            rank_of(probe.exact_url_match),
            rank_of(probe.ready_complete),
            rank_of(probe.visible),
            rank_of(probe.focused),
            rank_of(probe.body_text_len > 0),
            probe.idx,
        ),
{
    (
        probe.score,
        bool_rank(probe.exact_url_match),
        bool_rank(probe.ready_complete),
        bool_rank(probe.visible),
        bool_rank(probe.focused),
        bool_rank(probe.body_text_len > 0),
        probe.idx,
    )
}

/// `a` ranks strictly above `b` on (score, exact match, ready, visible,
/// focused, non-empty body), compared lexicographically.
pub open spec fn outranks(a: PageProbe, b: PageProbe) -> bool {
    if a.score != b.score {
        a.score > b.score
    } else if a.exact_url_match != b.exact_url_match {
        a.exact_url_match
    } else if a.ready_complete != b.ready_complete {
        a.ready_complete
    } else if a.visible != b.visible {
        a.visible
    } else if a.focused != b.focused {
        a.focused
    } else {
        a.body_text_len > 0 && b.body_text_len == 0
    }
}

/// Position `b` holds the chosen page: it outranks every page before it, and
/// no page after it outranks it. Ties therefore go to the lowest position.
pub open spec fn is_choice(probes: Seq<PageProbe>, b: int) -> bool {
    &&& 0 <= b < probes.len()
    &&& forall|j: int| 0 <= j < b ==> outranks(probes[b], probes[j])
    &&& forall|j: int| b < j < probes.len() ==> !outranks(probes[j], probes[b])
}

/// Does `a` outrank `b`?
pub fn probe_outranks(a: &PageProbe, b: &PageProbe) -> (r: bool)
    ensures
        r == outranks(*a, *b),
{
    let ka = page_probe_rank(a);
    let kb = page_probe_rank(b);
    if ka.0 != kb.0 {
        ka.0 > kb.0
    } else if ka.1 != kb.1 {
        ka.1 > kb.1
    } else if ka.2 != kb.2 {
        ka.2 > kb.2
    } else if ka.3 != kb.3 {
        ka.3 > kb.3
    } else if ka.4 != kb.4 {
        ka.4 > kb.4
    } else {
        ka.5 > kb.5
    }
}

proof fn lemma_outranks_transitive(a: PageProbe, b: PageProbe, c: PageProbe)
    requires
        outranks(a, b),
        outranks(b, c),
    ensures
        outranks(a, c),
{
}

proof fn lemma_outranks_total(a: PageProbe, b: PageProbe)
    ensures
        outranks(a, b) || outranks(b, a) || (!outranks(a, b) && !outranks(b, a)),
        !(outranks(a, b) && outranks(b, a)),
{
}

/// The outcome of choosing among the open pages.
pub struct PageSelection {
    pub idx: usize,
    pub score: i32,
    pub url: String,
    pub tie_break: String,
    pub observed: Vec<PageProbe>,
}

impl PageSelection {
    /// The probe of the chosen page, if one of the observed probes has its index.
    pub fn selected_probe(&self) -> (r: Option<&PageProbe>)
        ensures
            r.is_none() <==> forall|i: int|
                0 <= i < self.observed@.len() ==> self.observed@[i].idx != self.idx,
            r.is_some() ==> exists|i: int|
                0 <= i < self.observed@.len() && *r.unwrap() == self.observed@[i]
                    && self.observed@[i].idx == self.idx && forall|k: int|
                    0 <= k < i ==> self.observed@[k].idx != self.idx,
    {
        let mut i: usize = 0;
        while i < self.observed.len()
            invariant
                i <= self.observed@.len(),
                forall|k: int| 0 <= k < i ==> self.observed@[k].idx != self.idx,
            decreases self.observed@.len() - i,
        {
            if self.observed[i].idx == self.idx {
                return Some(&self.observed[i]);
            }
            i = i + 1;
        }
        None
    }
}

/// Position of the chosen page among `probes`: the first one that no other
/// page outranks. `None` when there are no pages.
pub fn choose_page(probes: &Vec<PageProbe>) -> (r: Option<usize>)
    ensures
        probes@.len() == 0 <==> r.is_none(),
        r.is_some() ==> is_choice(probes@, r.unwrap() as int),
{
    if probes.len() == 0 {
        return None;
    }
    let mut best: usize = 0;
    let mut i: usize = 1;
    while i < probes.len()
        invariant
            1 <= i <= probes@.len(),
            best < i,
            forall|j: int| 0 <= j < best ==> outranks(probes@[best as int], probes@[j]),
            forall|j: int| best < j < i ==> !outranks(probes@[j], probes@[best as int]),
        decreases probes@.len() - i,
    {
        if probe_outranks(&probes[i], &probes[best]) {
            proof {
                let nb = probes@[i as int];
                let ob = probes@[best as int];
                assert forall|j: int| 0 <= j < i implies outranks(nb, probes@[j]) by {
                    if j < best {
                        lemma_outranks_transitive(nb, ob, probes@[j]);
                    } else if j > best {
                        lemma_outranks_total(probes@[j], ob);
                    }
                }
            }
            best = i;
        }
        i = i + 1;
    }
    Some(best)
}

/// The text that explains a choice.
pub open spec fn tie_break_text(p: PageProbe) -> Seq<char> {
    "score="@ + signed_text(p.score as int) + " exact_url_match="@ + bool_text(p.exact_url_match)
        + " ready_complete="@ + bool_text(p.ready_complete) + " visible="@ + bool_text(p.visible)
        + " focused="@ + bool_text(p.focused) + " body_non_empty="@ + bool_text(
        p.body_text_len > 0,
    ) + " idx="@ + dec_text(p.idx as nat) + " body_excerpt="@ + p.body_excerpt@
}

/// The text that explains choosing `p`.
pub fn format_tie_break(p: &PageProbe) -> (r: String)
    ensures
        r@ == tie_break_text(*p),
{
    let mut out = String::new();
    out.append("score=");
    out.append(i64_text(p.score as i64).as_str());
    out.append(" exact_url_match=");
    push_bool(&mut out, p.exact_url_match);
    out.append(" ready_complete=");
    push_bool(&mut out, p.ready_complete);
    out.append(" visible=");
    push_bool(&mut out, p.visible);
    out.append(" focused=");
    push_bool(&mut out, p.focused);
    out.append(" body_non_empty=");
    push_bool(&mut out, p.body_text_len > 0);
    out.append(" idx=");
    out.append(u64_text(p.idx as u64).as_str());
    out.append(" body_excerpt=");
    out.append(p.body_excerpt.as_str());
    out
}

/// Choose among the probes of the open pages. With no pages the selection
/// holds index 0, the lowest score and an empty URL.
pub fn select_best_page(probes: Vec<PageProbe>) -> (r: PageSelection)
    ensures
        r.observed@ == probes@,
        probes@.len() == 0 ==> r.idx == 0 && r.score == i32::MIN && r.url@.len() == 0,
        probes@.len() > 0 ==> exists|b: int|
            is_choice(probes@, b) && r.idx == probes@[b].idx && r.score == probes@[b].score
                && r.url@ == probes@[b].url@ && r.tie_break@ == tie_break_text(probes@[b]),
{
    match choose_page(&probes) {
        Some(b) => {
            let chosen = &probes[b];
            let idx = chosen.idx;
            let score = chosen.score;
            let url = chosen.url.clone();
            let tie_break = format_tie_break(chosen);
            PageSelection { idx, score, url, tie_break, observed: probes }
        },
        None => {
            let empty = PageProbe {
                idx: 0,
                url: String::new(),
                score: i32::MIN,
                exact_url_match: false,
                ready_complete: false,
                visible: false,
                focused: false,
                body_text_len: 0,
                title: String::new(),
                body_excerpt: String::new(),
            };
            let tie_break = format_tie_break(&empty);
            PageSelection { idx: 0, score: i32::MIN, url: String::new(), tie_break, observed: probes }
        },
    }
}

/// The match tier of a URL: 4 exact, 3 holds the expected URL, 2 holds the
/// expected host, 1 any http(s) URL, 0 none.
pub open spec fn url_tier(url: Seq<char>, expected_url: Seq<char>, expected_host: Seq<char>) -> int {
    if expected_url.len() > 0 && url == expected_url {
        4
    } else if expected_url.len() > 0 && seq_contains(url, expected_url) {
        3
    } else if expected_host.len() > 0 && seq_contains(url, expected_host) {
        2
    } else if seq_starts_with(url, "http://"@) || seq_starts_with(url, "https://"@) {
        1
    } else {
        0
    }
}

/// Scoring depends on the URL and the expected destination alone, and a URL
/// in a higher match tier always scores strictly higher than one in a lower
/// tier: exact > holds the URL > holds the host > bare http(s) > none.
pub proof fn law_score_follows_tiers(
    a: Seq<char>,
    b: Seq<char>,
    expected_url: Seq<char>,
    expected_host: Seq<char>,
)
    ensures
        url_tier(a, expected_url, expected_host) > url_tier(b, expected_url, expected_host)
            ==> url_score(a, expected_url, expected_host) > url_score(
            b,
            expected_url,
            expected_host,
        ),
        url_tier(a, expected_url, expected_host) == url_tier(b, expected_url, expected_host)
            ==> url_score(a, expected_url, expected_host) == url_score(
            b,
            expected_url,
            expected_host,
        ),
{
}

/// At most one position satisfies the choice rule: the selection among a
/// given set of probes is fully determined, with ties going to the lowest
/// position.
pub proof fn law_choice_is_unique(probes: Seq<PageProbe>, b1: int, b2: int)
    requires
        is_choice(probes, b1),
        is_choice(probes, b2),
    ensures
        b1 == b2,
{
    if b1 < b2 {
        assert(outranks(probes[b2], probes[b1]));
    } else if b2 < b1 {
        assert(outranks(probes[b1], probes[b2]));
    }
}

/// The chosen page is never outranked by any other page.
pub proof fn law_choice_is_maximal(probes: Seq<PageProbe>, b: int, j: int)
    requires
        is_choice(probes, b),
        0 <= j < probes.len(),
    ensures
        !outranks(probes[j], probes[b]),
{
    if j < b {
        lemma_outranks_total(probes[b], probes[j]);
    }
}

/// The flags that steer acquiring the destination page.
#[derive(Clone, Copy, Debug, PartialEq, Eq, Structural)]
pub struct AcquireState {
    pub created_target_page: bool,
    pub redirected_existing_page: bool,
}

/// What to do next while acquiring the destination page.
#[derive(Clone, Copy, Debug, PartialEq, Eq, Structural)]
pub enum AcquireStep {
    /// Use the selected page.
    Accept,
    /// Open a new page at the destination, then poll again.
    CreatePage,
    /// Send the selected page to the destination, then poll again.
    RedirectSelected,
    /// The browser answers but never offered a page to work with.
    FailNoPage,
    /// The destination page could not be found or created.
    FailTargetNotFound,
}

/// No flag has been set yet.
pub fn initial_acquire_state() -> (r: AcquireState)
    ensures
        !r.created_target_page && !r.redirected_existing_page,
{
    AcquireState { created_target_page: false, redirected_existing_page: false }
}

/// A selection is accepted outside strict mode, or in strict mode when its
/// score reaches the strict threshold.
pub open spec fn selection_accepted(strict: bool, score: i32) -> bool {
    !strict || score >= STRICT_TARGET_SCORE
}

/// The next step, given the state, whether any page is open, the selection
/// score, whether strict mode is on (an expected host is known) and whether
/// an expected URL is known. Once a page was created, a destination still
/// not found ends the search.
pub open spec fn acquire_step_of(
    st: AcquireState,
    pages_empty: bool,
    score: i32,
    strict: bool,
    has_expected_url: bool,
) -> AcquireStep {
    if pages_empty {
        if st.created_target_page {
            AcquireStep::FailNoPage
        } else {
            AcquireStep::CreatePage
        }
    } else if selection_accepted(strict, score) {
        AcquireStep::Accept
    } else if st.created_target_page {
        AcquireStep::FailTargetNotFound
    } else if !st.redirected_existing_page && has_expected_url {
        AcquireStep::RedirectSelected
    } else {
        AcquireStep::CreatePage
    }
}

/// The state after taking `step` (whatever the step's own outcome was).
pub open spec fn acquire_state_after(st: AcquireState, step: AcquireStep) -> AcquireState {
    match step {
        AcquireStep::CreatePage => AcquireState { created_target_page: true, ..st },
        AcquireStep::RedirectSelected => AcquireState { redirected_existing_page: true, ..st },
        _ => st,
    }
}

/// How many more non-final steps can come from `st`.
pub open spec fn acquire_budget(st: AcquireState) -> nat {
    (if st.created_target_page { 0nat } else { 1nat }) + (if st.redirected_existing_page {
        0nat
    } else {
        1nat
    })
}

/// Decide the next step and the state that follows it.
pub fn next_acquire_step(
    st: AcquireState,
    pages_empty: bool,
    score: i32,
    strict: bool,
    has_expected_url: bool,
) -> (r: (AcquireStep, AcquireState))
    ensures
        r.0 == acquire_step_of(st, pages_empty, score, strict, has_expected_url),
        r.1 == acquire_state_after(st, r.0),
{
    let step = if pages_empty {
        if st.created_target_page {
            AcquireStep::FailNoPage
        } else {
            AcquireStep::CreatePage
        }
    } else if !strict || score >= STRICT_TARGET_SCORE {
        AcquireStep::Accept
    } else if st.created_target_page {
        AcquireStep::FailTargetNotFound
    } else if !st.redirected_existing_page && has_expected_url {
        AcquireStep::RedirectSelected
    } else {
        AcquireStep::CreatePage
    };
    let next = match step {
        AcquireStep::CreatePage => AcquireState { created_target_page: true, ..st },
        AcquireStep::RedirectSelected => AcquireState { redirected_existing_page: true, ..st },
        _ => st,
    };
    (step, next)
}

/// After a page was created once, a selection that is still not accepted
/// fails with `FailTargetNotFound`, and no page at all with `FailNoPage`.
pub proof fn law_created_page_ends_search(
    st: AcquireState,
    pages_empty: bool,
    score: i32,
    strict: bool,
    has_expected_url: bool,
)
    requires
        st.created_target_page,
        !selection_accepted(strict, score) || pages_empty,
    ensures
        acquire_step_of(st, pages_empty, score, strict, has_expected_url) == (if pages_empty {
            AcquireStep::FailNoPage
        } else {
            AcquireStep::FailTargetNotFound
        }),
{
}

/// Acquiring a page ends: every step that polls again spends one unit of a
/// budget of two, so at most two such steps come before a final one.
pub proof fn law_acquire_terminates(
    st: AcquireState,
    pages_empty: bool,
    score: i32,
    strict: bool,
    has_expected_url: bool,
)
    ensures
        ({
            let step = acquire_step_of(st, pages_empty, score, strict, has_expected_url);
            (step == AcquireStep::CreatePage || step == AcquireStep::RedirectSelected)
                ==> acquire_budget(acquire_state_after(st, step)) < acquire_budget(st)
        }),
        acquire_budget(st) <= 2,
{
}

} // verus!
