//! Selector-free click targets: scoring visible elements by upload-affinity
//! signals and ranking the best three points.
use vstd::prelude::*;
use vstd::string::StringExecFns;

verus! {

/// Points awarded (in hundredths) when the element's text names an upload.
pub const GEOMETRY_TEXT_SCORE: i64 = 4500;

/// Points for a dashed border, the usual drop-here affordance.
pub const GEOMETRY_DASHED_SCORE: i64 = 3000;

/// Points when an ARIA label or title names an upload.
pub const GEOMETRY_SEMANTIC_SCORE: i64 = 1800;

/// Points when the class name hints at upload, drag or drop.
pub const GEOMETRY_CLASS_SCORE: i64 = 1200;

/// Points when the element's area lies in the plausible widget window.
pub const GEOMETRY_SIZE_SCORE: i64 = 800;

/// Penalty when the text is a known navigation or container phrase.
pub const GEOMETRY_CONTAINER_PENALTY: i64 = 4200;

/// Penalty for an element covering most of the viewport.
pub const GEOMETRY_OVERSIZE_PENALTY: i64 = 2400;

/// Scale of the distance penalty: distance over diagonal, times this.
pub const GEOMETRY_DISTANCE_SCALE: u64 = 2000;

/// Largest bonus an embedding context may give, in whole points.
pub const GEOMETRY_MAX_CONTEXT_PRIORITY: u32 = 30;

/// Smallest side of an element worth clicking without a strong signal.
pub const GEOMETRY_MIN_SIDE: u32 = 160;

/// Largest area of the widget window: 900 by 900 pixels.
pub const GEOMETRY_MAX_WIDGET_AREA: u64 = 810000;

/// Percent of the viewport above which an element is oversized.
pub const GEOMETRY_OVERSIZE_PERCENT: u64 = 58;

/// Most candidates kept.
pub const GEOMETRY_TOP_N: usize = 3;

/// What one visible element offers, measured in the page.
pub struct GeometryFeatures {
    /// Center of the element's clickable target, rounded to pixels.
    pub x: i64,
    pub y: i64,
    pub width: u32,
    pub height: u32,
    pub text_hit: bool,
    pub dashed_hit: bool,
    pub semantic_hit: bool,
    pub class_hit: bool,
    pub container_hit: bool,
    /// Priority of the embedding context, in whole points.
    pub context_priority: u32,
    /// Distance from the viewport center, rounded to pixels.
    pub center_distance: u32,
    pub viewport_width: u32,
    pub viewport_height: u32,
    pub viewport_diagonal: u32,
    pub context: String,
    pub frame_path: String,
}

/// A ranked click point.
pub struct GeometryCandidate {
    pub x: i64,
    pub y: i64,
    /// Score in hundredths of a point.
    pub score: i64,
    pub context: String,
    pub frame_path: String,
    pub reason: String,
}

/// Area of the element.
pub open spec fn area_of(f: GeometryFeatures) -> int {
    f.width as int * f.height as int
}

/// The element covers more than the oversize share of the viewport.
pub open spec fn oversize(f: GeometryFeatures) -> bool {
    area_of(f) * 100 > f.viewport_width as int * f.viewport_height as int
        * GEOMETRY_OVERSIZE_PERCENT as int
}

/// The element's area lies in the widget window.
pub open spec fn widget_sized(f: GeometryFeatures) -> bool {
    GEOMETRY_MIN_SIDE as int * GEOMETRY_MIN_SIDE as int <= area_of(f)
        <= GEOMETRY_MAX_WIDGET_AREA as int
}

/// An element is a candidate when it has a strong signal or is large
/// enough, and is neither a container phrase nor oversized unless its text
/// or border speaks for it.
pub open spec fn admitted(f: GeometryFeatures) -> bool {
    let strong = f.text_hit || f.dashed_hit || f.semantic_hit;
    let size_hit = f.width >= GEOMETRY_MIN_SIDE && f.height >= GEOMETRY_MIN_SIDE;
    &&& strong || size_hit
    &&& !(f.container_hit && !f.text_hit && !f.dashed_hit)
    &&& !(oversize(f) && !f.text_hit && !f.dashed_hit)
}

/// The context bonus, capped.
pub open spec fn context_bonus(f: GeometryFeatures) -> int {
    if f.context_priority > GEOMETRY_MAX_CONTEXT_PRIORITY {
        GEOMETRY_MAX_CONTEXT_PRIORITY as int * 100
    } else {
        f.context_priority as int * 100
    }
}

/// The distance penalty in hundredths: distance over diagonal, times 20
/// points, rounded down.
pub open spec fn distance_penalty(f: GeometryFeatures) -> int {
    if f.viewport_diagonal == 0 {
        0
    } else {
        (GEOMETRY_DISTANCE_SCALE as int * f.center_distance as int) / (f.viewport_diagonal as int)
    }
}

/// The score of an element, in hundredths of a point.
pub open spec fn geometry_score_of(f: GeometryFeatures) -> int {
    (if f.text_hit { GEOMETRY_TEXT_SCORE as int } else { 0 }) + (if f.dashed_hit {
        GEOMETRY_DASHED_SCORE as int
    } else {
        0
    }) + (if f.semantic_hit { GEOMETRY_SEMANTIC_SCORE as int } else { 0 }) + (if f.class_hit {
        GEOMETRY_CLASS_SCORE as int
    } else {
        0
    }) + context_bonus(f) + (if widget_sized(f) { GEOMETRY_SIZE_SCORE as int } else { 0 }) - (
    if f.container_hit {
        GEOMETRY_CONTAINER_PENALTY as int
    } else {
        0
    }) - (if oversize(f) { GEOMETRY_OVERSIZE_PENALTY as int } else { 0 }) - distance_penalty(f)
}

/// The product of two 32-bit sizes.
fn product(a: u32, b: u32) -> (r: u64)
    ensures
        r as int == a as int * b as int,
{
    assert(a as int * b as int <= 0xffff_ffff * 0xffff_ffff) by (nonlinear_arith)
        requires a <= 0xffff_ffff, b <= 0xffff_ffff;
    a as u64 * b as u64
}

/// Is the element oversized?
fn is_oversize(f: &GeometryFeatures) -> (r: bool)
    ensures
        r == oversize(*f),
{
    let area = product(f.width, f.height);
    let viewport = product(f.viewport_width, f.viewport_height);
    area as u128 * 100 > viewport as u128 * GEOMETRY_OVERSIZE_PERCENT as u128
}

/// The distance penalty of the element.
fn penalty_of(f: &GeometryFeatures) -> (r: u64)
    ensures
        r as int == distance_penalty(*f),
        r <= GEOMETRY_DISTANCE_SCALE * 0xffff_ffff,
{
    if f.viewport_diagonal == 0 {
        return 0;
    }
    let num: u64 = GEOMETRY_DISTANCE_SCALE * f.center_distance as u64;
    let den: u64 = f.viewport_diagonal as u64;
    let penalty: u64 = num / den;
    assert(penalty <= num) by (nonlinear_arith)
        requires
            penalty == num / den,
            den > 0;
    penalty
}

/// Is the element a candidate?
pub fn is_admitted(f: &GeometryFeatures) -> (r: bool)
    ensures
        r == admitted(*f),
{
    let over = is_oversize(f);
    let strong = f.text_hit || f.dashed_hit || f.semantic_hit;
    let size_hit = f.width >= GEOMETRY_MIN_SIDE && f.height >= GEOMETRY_MIN_SIDE;
    (strong || size_hit) && !(f.container_hit && !f.text_hit && !f.dashed_hit) && !(over
        && !f.text_hit && !f.dashed_hit)
}

/// The element's score, in hundredths of a point.
pub fn geometry_score(f: &GeometryFeatures) -> (r: i64)
    ensures
        r as int == geometry_score_of(*f),
{
    let area = product(f.width, f.height);
    let over = is_oversize(f);
    let bonus: i64 = if f.context_priority > GEOMETRY_MAX_CONTEXT_PRIORITY {
        GEOMETRY_MAX_CONTEXT_PRIORITY as i64 * 100
    } else {
        f.context_priority as i64 * 100
    };
    let text: i64 = if f.text_hit { GEOMETRY_TEXT_SCORE } else { 0 };
    let dashed: i64 = if f.dashed_hit { GEOMETRY_DASHED_SCORE } else { 0 };
    let semantic: i64 = if f.semantic_hit { GEOMETRY_SEMANTIC_SCORE } else { 0 };
    let class: i64 = if f.class_hit { GEOMETRY_CLASS_SCORE } else { 0 };
    let min_area = product(GEOMETRY_MIN_SIDE, GEOMETRY_MIN_SIDE);
    let size: i64 = if min_area <= area && area <= GEOMETRY_MAX_WIDGET_AREA {
        GEOMETRY_SIZE_SCORE
    } else {
        0
    };
    let container: i64 = if f.container_hit { GEOMETRY_CONTAINER_PENALTY } else { 0 };
    let oversized: i64 = if over { GEOMETRY_OVERSIZE_PENALTY } else { 0 };
    let penalty = penalty_of(f);
    text + dashed + semantic + class + bonus + size - container - oversized - penalty as i64
}

/// Two elements share a dedupe key: same context and same rounded point.
pub open spec fn same_key(a: GeometryFeatures, b: GeometryFeatures) -> bool {
    a.context@ == b.context@ && a.x == b.x && a.y == b.y
}

/// Element `i` is a candidate that no earlier candidate shares a key with.
pub open spec fn is_fresh(fs: Seq<GeometryFeatures>, i: int) -> bool {
    &&& admitted(fs[i])
    &&& forall|j: int| 0 <= j < i ==> !(admitted(fs[j]) && same_key(fs[j], fs[i]))
}

/// Where a score enters a list ranked by descending score: after every
/// entry that scores at least as much, so earlier entries win ties.
pub open spec fn insert_pos(fs: Seq<GeometryFeatures>, top: Seq<int>, s: int) -> int
    decreases top.len(),
{
    if top.len() == 0 {
        0
    } else if geometry_score_of(fs[top[0]]) >= s {
        1 + insert_pos(fs, top.drop_first(), s)
    } else {
        0
    }
}

/// `top` with position `i` ranked in, cut to the best three.
pub open spec fn insert_ranked(fs: Seq<GeometryFeatures>, top: Seq<int>, i: int) -> Seq<int> {
    let p = insert_pos(fs, top, geometry_score_of(fs[i]));
    let whole = top.take(p).push(i) + top.skip(p);
    if whole.len() > GEOMETRY_TOP_N {
        whole.take(GEOMETRY_TOP_N as int)
    } else {
        whole
    }
}

/// The positions of the best three candidates of a scan, best first; among
/// equal scores the earlier element comes first.
pub open spec fn ranked_positions(fs: Seq<GeometryFeatures>) -> Seq<int>
    decreases fs.len(),
{
    if fs.len() == 0 {
        Seq::empty()
    } else {
        let rest = ranked_positions(fs.drop_last());
        if is_fresh(fs, fs.len() - 1) {
            insert_ranked(fs, rest, fs.len() - 1)
        } else {
            rest
        }
    }
}

proof fn lemma_insert_pos_prefix(fs: Seq<GeometryFeatures>, n: int, top: Seq<int>, s: int)
    requires
        0 <= n <= fs.len(),
        forall|k: int| 0 <= k < top.len() ==> 0 <= #[trigger] top[k] < n,
    ensures
        insert_pos(fs.subrange(0, n), top, s) == insert_pos(fs, top, s),
        0 <= insert_pos(fs, top, s) <= top.len(),
    decreases top.len(),
{
    if top.len() > 0 {
        assert(fs.subrange(0, n)[top[0]] == fs[top[0]]);
        assert forall|k: int| 0 <= k < top.drop_first().len() implies 0 <= #[trigger] top.drop_first()[k] < n by {
            assert(top.drop_first()[k] == top[k + 1]);
        }
        lemma_insert_pos_prefix(fs, n, top.drop_first(), s);
    }
}

proof fn lemma_ranked_bounds(fs: Seq<GeometryFeatures>)
    ensures
        ranked_positions(fs).len() <= GEOMETRY_TOP_N,
        forall|k: int| 0 <= k < ranked_positions(fs).len() ==> 0 <= #[trigger] ranked_positions(fs)[k] < fs.len(),
    decreases fs.len(),
{
    if fs.len() > 0 {
        let init = fs.drop_last();
        lemma_ranked_bounds(init);
        let rest = ranked_positions(init);
        if is_fresh(fs, fs.len() - 1) {
            let i = fs.len() - 1;
            lemma_insert_pos_prefix(fs, fs.len() as int, rest, geometry_score_of(fs[i]));
            let p = insert_pos(fs, rest, geometry_score_of(fs[i]));
            let whole = rest.take(p).push(i) + rest.skip(p);
            assert forall|k: int| 0 <= k < whole.len() implies 0 <= #[trigger] whole[k] < fs.len() by {
                if k < p {
                    assert(whole[k] == rest[k]);
                } else if k > p {
                    assert(whole[k] == rest[k - 1]);
                }
            }
        }
    }
}

/// Does an element before `i` share a key with element `i`?
fn seen_before(fs: &Vec<GeometryFeatures>, i: usize) -> (r: bool)
    requires
        i < fs@.len(),
    ensures
        r == exists|j: int| 0 <= j < i && admitted(fs@[j]) && same_key(fs@[j], fs@[i as int]),
{
    let mut j: usize = 0;
    while j < i
        invariant
            i < fs@.len(),
            j <= i,
            forall|k: int| 0 <= k < j ==> !(admitted(fs@[k]) && same_key(fs@[k], fs@[i as int])),
        decreases i - j,
    {
        if is_admitted(&fs[j]) && fs[j].x == fs[i].x && fs[j].y == fs[i].y
            && crate::text::same_text(fs[j].context.as_str(), fs[i].context.as_str()) {
            return true;
        }
        j = j + 1;
    }
    false
}

/// The view of a list of positions.
pub open spec fn positions_view(v: Seq<usize>) -> Seq<int> {
    v.map_values(|p: usize| p as int)
}

proof fn lemma_view_push(v: Seq<usize>, x: usize)
    ensures
        positions_view(v.push(x)) == positions_view(v).push(x as int),
{
    assert forall|j: int| 0 <= j < v.len() + 1 implies #[trigger] positions_view(v.push(x))[j]
        == positions_view(v).push(x as int)[j] by {
        if j < v.len() {
        }
    }
    assert(positions_view(v.push(x)) =~= positions_view(v).push(x as int));
}

/// The positions of the best three candidates of a scan, best first.
pub fn rank_positions(fs: &Vec<GeometryFeatures>) -> (r: Vec<usize>)
    ensures
        positions_view(r@) == ranked_positions(fs@),
{
    let mut top: Vec<usize> = Vec::new();
    let mut i: usize = 0;
    while i < fs.len()
        invariant
            i <= fs@.len(),
            positions_view(top@) == ranked_positions(fs@.subrange(0, i as int)),
        decreases fs@.len() - i,
    {
        let ghost sub = fs@.subrange(0, i + 1);
        proof {
            assert(sub.drop_last() =~= fs@.subrange(0, i as int));
            lemma_ranked_bounds(fs@.subrange(0, i as int));
            assert(sub[i as int] == fs@[i as int]);
            assert forall|j: int| 0 <= j < i implies sub[j] == fs@[j] by {}
        }
        if is_admitted(&fs[i]) && !seen_before(fs, i) {
            let s = geometry_score(&fs[i]);
            let ghost rest = positions_view(top@);
            proof {
                lemma_insert_pos_prefix(fs@, i + 1, rest, s as int);
                lemma_insert_pos_prefix(fs@, i as int, rest, s as int);
            }
            assert(rest.skip(0) =~= rest);
            let mut p: usize = 0;
            while p < top.len() && geometry_score(&fs[top[p]]) >= s
                invariant
                    i < fs@.len(),
                    rest == positions_view(top@),
                    forall|k: int| 0 <= k < rest.len() ==> 0 <= #[trigger] rest[k] < i,
                    p <= top@.len(),
                    forall|k: int| 0 <= k < p ==> geometry_score_of(fs@[#[trigger] rest[k]]) >= s,
                    insert_pos(fs@, rest, s as int) == p + insert_pos(fs@, rest.skip(p as int), s as int),
                decreases top@.len() - p,
            {
                proof {
                    let t = rest.skip(p as int);
                    assert(t[0] == rest[p as int]);
                    assert(t.drop_first() =~= rest.skip(p + 1));
                }
                p = p + 1;
            }
            proof {
                let t = rest.skip(p as int);
                if p < top@.len() {
                    assert(t[0] == rest[p as int]);
                }
                assert(insert_pos(fs@, t, s as int) == 0);
            }
            let mut next: Vec<usize> = Vec::new();
            let mut k: usize = 0;
            while k < p
                invariant
                    k <= p <= top@.len(),
                    rest == positions_view(top@),
                    positions_view(next@) == rest.take(k as int),
                decreases p - k,
            {
                assert(rest[k as int] == top@[k as int] as int);
                proof {
                    lemma_view_push(next@, top@[k as int]);
                }
                next.push(top[k]);
                k = k + 1;
                assert(positions_view(next@) =~= rest.take(k as int));
            }
            proof {
                lemma_view_push(next@, i);
            }
            next.push(i);
            assert(positions_view(next@) =~= rest.take(p as int).push(i as int));
            let mut k2: usize = p;
            while k2 < top.len()
                invariant
                    p <= k2 <= top@.len(),
                    rest == positions_view(top@),
                    positions_view(next@) == rest.take(p as int).push(i as int) + rest.subrange(
                        p as int,
                        k2 as int,
                    ),
                decreases top@.len() - k2,
            {
                assert(rest[k2 as int] == top@[k2 as int] as int);
                proof {
                    lemma_view_push(next@, top@[k2 as int]);
                }
                next.push(top[k2]);
                k2 = k2 + 1;
                assert(positions_view(next@) =~= rest.take(p as int).push(i as int) + rest.subrange(
                    p as int,
                    k2 as int,
                ));
            }
            assert(rest.subrange(p as int, rest.len() as int) =~= rest.skip(p as int));
            if next.len() > GEOMETRY_TOP_N {
                next.truncate(GEOMETRY_TOP_N);
                assert(positions_view(next@) =~= (rest.take(p as int).push(i as int) + rest.skip(
                    p as int,
                )).take(GEOMETRY_TOP_N as int));
            }
            proof {
                assert(is_fresh(sub, i as int));
                assert(geometry_score_of(sub[i as int]) == s as int);
                assert(insert_pos(sub, rest, s as int) == p);
            }
            top = next;
        } else {
            proof {
                if admitted(fs@[i as int]) {
                    let j = choose|j: int|
                        0 <= j < i && admitted(fs@[j]) && same_key(fs@[j], fs@[i as int]);
                    assert(sub[j] == fs@[j]);
                }
                assert(!is_fresh(sub, i as int));
            }
        }
        i = i + 1;
    }
    assert(fs@.subrange(0, fs@.len() as int) =~= fs@);
    top
}

/// Positions in `top` are ranked: scores never increase along the list.
pub open spec fn ranked_desc(fs: Seq<GeometryFeatures>, top: Seq<int>) -> bool {
    forall|a: int, b: int|
        0 <= a < b < top.len() ==> geometry_score_of(fs[top[a]]) >= geometry_score_of(fs[top[b]])
}

proof fn lemma_insert_pos_props(fs: Seq<GeometryFeatures>, top: Seq<int>, s: int)
    ensures
        0 <= insert_pos(fs, top, s) <= top.len(),
        forall|k: int| 0 <= k < insert_pos(fs, top, s) ==> geometry_score_of(fs[top[k]]) >= s,
        insert_pos(fs, top, s) < top.len() ==> geometry_score_of(fs[top[insert_pos(fs, top, s)]])
            < s,
    decreases top.len(),
{
    if top.len() > 0 && geometry_score_of(fs[top[0]]) >= s {
        let t = top.drop_first();
        lemma_insert_pos_props(fs, t, s);
        assert forall|k: int| 0 <= k < insert_pos(fs, top, s) implies geometry_score_of(
            fs[top[k]],
        ) >= s by {
            if k > 0 {
                assert(top[k] == t[k - 1]);
            }
        }
        if insert_pos(fs, top, s) < top.len() {
            assert(top[insert_pos(fs, top, s)] == t[insert_pos(fs, t, s)]);
        }
    }
}

proof fn lemma_insert_keeps_order(fs: Seq<GeometryFeatures>, top: Seq<int>, i: int)
    requires
        ranked_desc(fs, top),
    ensures
        ranked_desc(fs, insert_ranked(fs, top, i)),
{
    let sc = geometry_score_of(fs[i]);
    lemma_insert_pos_props(fs, top, sc);
    let p = insert_pos(fs, top, sc);
    let whole = top.take(p).push(i) + top.skip(p);
    assert forall|a: int, b: int| 0 <= a < b < whole.len() implies geometry_score_of(
        fs[whole[a]],
    ) >= geometry_score_of(fs[whole[b]]) by {
        if a < p {
            assert(whole[a] == top[a]);
        } else if a > p {
            assert(whole[a] == top[a - 1]);
        }
        if b < p {
            assert(whole[b] == top[b]);
        } else if b > p {
            assert(whole[b] == top[b - 1]);
        }
        if a == p && b > p {
            assert(geometry_score_of(fs[top[p]]) >= geometry_score_of(fs[top[b - 1]]));
        }
    }
    if whole.len() > GEOMETRY_TOP_N {
        assert forall|a: int, b: int| 0 <= a < b < whole.take(GEOMETRY_TOP_N as int).len() implies geometry_score_of(
            fs[whole.take(GEOMETRY_TOP_N as int)[a]],
        ) >= geometry_score_of(fs[whole.take(GEOMETRY_TOP_N as int)[b]]) by {
            assert(whole.take(GEOMETRY_TOP_N as int)[a] == whole[a]);
            assert(whole.take(GEOMETRY_TOP_N as int)[b] == whole[b]);
        }
    }
}

proof fn lemma_ranked_sorted(fs: Seq<GeometryFeatures>)
    ensures
        ranked_desc(fs, ranked_positions(fs)),
    decreases fs.len(),
{
    if fs.len() > 0 {
        let init = fs.drop_last();
        lemma_ranked_sorted(init);
        lemma_ranked_bounds(init);
        let rest = ranked_positions(init);
        assert(ranked_desc(fs, rest)) by {
            assert forall|k: int| 0 <= k < rest.len() implies fs[rest[k]] == init[rest[k]] by {}
        }
        if is_fresh(fs, fs.len() - 1) {
            lemma_insert_keeps_order(fs, rest, fs.len() - 1);
        }
    }
}

/// Geometry ranking is a function of the scan alone: two scans of the same
/// frozen page yield the same list, in the same order. That list holds at
/// most three positions of distinct elements of the scan, each a candidate,
/// ranked by non-increasing score.
pub proof fn law_geometry_ranking_stable(scan1: Seq<GeometryFeatures>, scan2: Seq<GeometryFeatures>)
    requires
        scan1 == scan2,
    ensures
        ranked_positions(scan1) == ranked_positions(scan2),
        ranked_positions(scan1).len() <= GEOMETRY_TOP_N,
        ranked_desc(scan1, ranked_positions(scan1)),
        forall|k: int|
            0 <= k < ranked_positions(scan1).len() ==> 0 <= #[trigger] ranked_positions(scan1)[k]
                < scan1.len() && admitted(scan1[ranked_positions(scan1)[k]]),
{
    lemma_ranked_bounds(scan1);
    lemma_ranked_sorted(scan1);
    lemma_ranked_admitted(scan1);
}

proof fn lemma_ranked_admitted(fs: Seq<GeometryFeatures>)
    ensures
        forall|k: int|
            0 <= k < ranked_positions(fs).len() ==> 0 <= #[trigger] ranked_positions(fs)[k]
                < fs.len() && admitted(fs[ranked_positions(fs)[k]]),
    decreases fs.len(),
{
    lemma_ranked_bounds(fs);
    if fs.len() > 0 {
        let init = fs.drop_last();
        lemma_ranked_admitted(init);
        let rest = ranked_positions(init);
        assert forall|k: int| 0 <= k < rest.len() implies admitted(fs[rest[k]]) by {
            assert(fs[rest[k]] == init[rest[k]]);
        }
        if is_fresh(fs, fs.len() - 1) {
            let i = fs.len() - 1;
            lemma_insert_pos_props(fs, rest, geometry_score_of(fs[i]));
            let p = insert_pos(fs, rest, geometry_score_of(fs[i]));
            let whole = rest.take(p).push(i) + rest.skip(p);
            assert forall|k: int| 0 <= k < whole.len() implies admitted(fs[whole[k]]) by {
                if k < p {
                    assert(whole[k] == rest[k]);
                } else if k > p {
                    assert(whole[k] == rest[k - 1]);
                }
            }
            if whole.len() > GEOMETRY_TOP_N {
                assert forall|k: int| 0 <= k < whole.take(GEOMETRY_TOP_N as int).len() implies admitted(
                    fs[whole.take(GEOMETRY_TOP_N as int)[k]],
                ) by {
                    assert(whole.take(GEOMETRY_TOP_N as int)[k] == whole[k]);
                }
            }
        }
    }
}

/// Joins words with `+`.
pub open spec fn join_plus(tags: Seq<Seq<char>>) -> Seq<char>
    decreases tags.len(),
{
    if tags.len() == 0 {
        Seq::empty()
    } else if tags.len() == 1 {
        tags[0]
    } else {
        join_plus(tags.drop_last()) + "+"@ + tags.last()
    }
}

/// `tags` with `tag` added when `on` holds.
pub open spec fn tag_if(tags: Seq<Seq<char>>, on: bool, tag: Seq<char>) -> Seq<Seq<char>> {
    if on {
        tags.push(tag)
    } else {
        tags
    }
}

/// The reasons behind an element's score, in scoring order.
pub open spec fn reason_tags(f: GeometryFeatures) -> Seq<Seq<char>> {
    let t = tag_if(Seq::empty(), f.text_hit, "text"@);
    let t = tag_if(t, f.dashed_hit, "dashed"@);
    let t = tag_if(t, f.semantic_hit, "semantic"@);
    let t = tag_if(t, f.class_hit, "class"@);
    let t = tag_if(t, f.context_priority > 0, "wujie"@);
    let t = tag_if(t, widget_sized(f), "size"@);
    let t = tag_if(t, f.container_hit, "container_penalty"@);
    tag_if(t, oversize(f), "oversize_penalty"@)
}

proof fn lemma_join_empty(tags: Seq<Seq<char>>)
    requires
        forall|i: int| 0 <= i < tags.len() ==> (#[trigger] tags[i]).len() > 0,
    ensures
        join_plus(tags).len() == 0 <==> tags.len() == 0,
    decreases tags.len(),
{
    if tags.len() > 1 {
        assert(tags.last() == tags[tags.len() - 1]);
    } else if tags.len() == 1 {
        assert(tags[0].len() > 0);
    }
}

/// Add `tag` to the joined text when `on` holds.
fn push_tag(out: &mut String, tags: Ghost<Seq<Seq<char>>>, on: bool, tag: &str) -> (r: Ghost<
    Seq<Seq<char>>,
>)
    requires
        old(out)@ == join_plus(tags@),
        tag@.len() > 0,
        forall|i: int| 0 <= i < tags@.len() ==> (#[trigger] tags@[i]).len() > 0,
    ensures
        r@ == tag_if(tags@, on, tag@),
        final(out)@ == join_plus(r@),
        forall|i: int| 0 <= i < r@.len() ==> (#[trigger] r@[i]).len() > 0,
{
    proof {
        lemma_join_empty(tags@);
    }
    if on {
        let ghost next = tags@.push(tag@);
        assert(next.drop_last() =~= tags@);
        if out.as_str().unicode_len() == 0 {
            out.append(tag);
            assert(next.len() == 1);
        } else {
            out.append("+");
            out.append(tag);
        }
        Ghost(next)
    } else {
        tags
    }
}

/// The `+`-joined reasons behind an element's score.
pub fn geometry_reason(f: &GeometryFeatures) -> (r: String)
    ensures
        r@ == join_plus(reason_tags(*f)),
{
    let mut out = String::new();
    let area = product(f.width, f.height);
    let t: Ghost<Seq<Seq<char>>> = Ghost(Seq::empty());
    proof {
        reveal_strlit("text");
        reveal_strlit("dashed");
        reveal_strlit("semantic");
        reveal_strlit("class");
        reveal_strlit("wujie");
        reveal_strlit("size");
        reveal_strlit("container_penalty");
        reveal_strlit("oversize_penalty");
    }
    let t = push_tag(&mut out, t, f.text_hit, "text");
    let t = push_tag(&mut out, t, f.dashed_hit, "dashed");
    let t = push_tag(&mut out, t, f.semantic_hit, "semantic");
    let t = push_tag(&mut out, t, f.class_hit, "class");
    let t = push_tag(&mut out, t, f.context_priority > 0, "wujie");
    let min_area = product(GEOMETRY_MIN_SIDE, GEOMETRY_MIN_SIDE);
    let t = push_tag(&mut out, t, min_area <= area && area <= GEOMETRY_MAX_WIDGET_AREA, "size");
    let t = push_tag(&mut out, t, f.container_hit, "container_penalty");
    let over = is_oversize(f);
    let t = push_tag(&mut out, t, over, "oversize_penalty");
    out
}

/// The candidate built from one element.
pub open spec fn candidate_matches(c: GeometryCandidate, f: GeometryFeatures) -> bool {
    &&& c.x == f.x
    &&& c.y == f.y
    &&& c.score as int == geometry_score_of(f)
    &&& c.context@ == f.context@
    &&& c.frame_path@ == f.frame_path@
    &&& c.reason@ == join_plus(reason_tags(f))
}

/// The best three click candidates of a scan, best first.
pub fn rank_geometry_candidates(fs: &Vec<GeometryFeatures>) -> (r: Vec<GeometryCandidate>)
    ensures
        r@.len() == ranked_positions(fs@).len(),
        forall|k: int|
            0 <= k < r@.len() ==> candidate_matches(#[trigger] r@[k], fs@[ranked_positions(fs@)[k]]),
{
    let top = rank_positions(fs);
    proof {
        lemma_ranked_bounds(fs@);
        assert forall|j: int| 0 <= j < top@.len() implies 0 <= #[trigger] top@[j] < fs@.len() by {
            assert(positions_view(top@)[j] == top@[j] as int);
        }
    }
    let mut out: Vec<GeometryCandidate> = Vec::new();
    let mut k: usize = 0;
    while k < top.len()
        invariant
            k <= top@.len(),
            positions_view(top@) == ranked_positions(fs@),
            forall|j: int| 0 <= j < top@.len() ==> 0 <= #[trigger] top@[j] < fs@.len(),
            out@.len() == k,
            forall|j: int|
                0 <= j < k ==> candidate_matches(#[trigger] out@[j], fs@[ranked_positions(fs@)[j]]),
        decreases top@.len() - k,
    {
        proof {
            assert(positions_view(top@)[k as int] == top@[k as int] as int);
            assert(0 <= ranked_positions(fs@)[k as int] < fs@.len());
        }
        let f = &fs[top[k]];
        let c = GeometryCandidate {
            x: f.x,
            y: f.y,
            score: geometry_score(f),
            context: f.context.clone(),
            frame_path: f.frame_path.clone(),
            reason: geometry_reason(f),
        };
        out.push(c);
        k = k + 1;
    }
    out
}

/// The best three are kept: a fresh candidate left out of the ranking comes
/// only when three were kept, and scores no higher than the last one kept.
/// So when fewer than three fresh candidates exist, all of them are kept.
pub proof fn law_ranking_keeps_best(fs: Seq<GeometryFeatures>, i: int)
    requires
        0 <= i < fs.len(),
        is_fresh(fs, i),
        forall|k: int|
            0 <= k < ranked_positions(fs).len() ==> #[trigger] ranked_positions(fs)[k] != i,
    ensures
        ranked_positions(fs).len() == GEOMETRY_TOP_N,
        geometry_score_of(fs[i]) <= geometry_score_of(fs[ranked_positions(fs)[2]]),
    decreases fs.len(),
{
    let n = fs.len();
    let init = fs.drop_last();
    let rest = ranked_positions(init);
    lemma_ranked_bounds(init);
    lemma_ranked_sorted(init);
    assert forall|k: int| 0 <= k < rest.len() implies fs[rest[k]] == init[rest[k]] by {}
    if i == n - 1 {
        let s = geometry_score_of(fs[i]);
        lemma_insert_pos_props(fs, rest, s);
        let p = insert_pos(fs, rest, s);
        let whole = rest.take(p).push(i) + rest.skip(p);
        assert(whole[p] == i);
        let r = ranked_positions(fs);
        assert(r == insert_ranked(fs, rest, i));
        if whole.len() <= GEOMETRY_TOP_N || p < GEOMETRY_TOP_N {
            if whole.len() > GEOMETRY_TOP_N {
                assert(whole.take(GEOMETRY_TOP_N as int)[p] == i);
            }
            assert(r[p] == i);
            assert(false);
        }
        assert(p == 3 && rest.len() == 3);
        assert(whole.take(GEOMETRY_TOP_N as int) =~= rest);
    } else {
        assert(is_fresh(init, i)) by {
            assert forall|j: int| 0 <= j < i implies !(admitted(init[j]) && same_key(
                init[j],
                init[i],
            )) by {
                assert(init[j] == fs[j]);
            }
        }
        if !is_fresh(fs, n - 1) {
            assert(ranked_positions(fs) == rest);
            assert forall|k: int| 0 <= k < rest.len() implies #[trigger] rest[k] != i by {
                assert(ranked_positions(fs)[k] == rest[k]);
            }
            law_ranking_keeps_best(init, i);
        } else {
            let nw = n - 1;
            let s = geometry_score_of(fs[nw]);
            lemma_insert_pos_props(fs, rest, s);
            let p = insert_pos(fs, rest, s);
            let whole = rest.take(p).push(nw) + rest.skip(p);
            let in_rest = exists|k: int| 0 <= k < rest.len() && rest[k] == i;
            if in_rest {
                let k = choose|k: int| 0 <= k < rest.len() && rest[k] == i;
                let pos = if k < p { k } else { k + 1 };
                assert(whole[pos] == i);
                let r = ranked_positions(fs);
                assert(r == insert_ranked(fs, rest, nw));
                if whole.len() <= GEOMETRY_TOP_N || pos < GEOMETRY_TOP_N {
                    if whole.len() > GEOMETRY_TOP_N {
                        assert(whole.take(GEOMETRY_TOP_N as int)[pos] == i);
                    }
                    assert(r[pos] == i);
                    assert(false);
                }
                assert(pos == 3 && k == 2 && p <= 2 && rest.len() == 3);
                assert(whole.take(GEOMETRY_TOP_N as int)[2] == whole[2]);
                if p == 2 {
                    assert(whole[2] == nw);
                } else {
                    assert(whole[2] == rest[1]);
                    assert(geometry_score_of(init[rest[1]]) >= geometry_score_of(init[rest[2]]));
                }
            } else {
                assert forall|k: int| 0 <= k < rest.len() implies #[trigger] rest[k] != i by {}
                law_ranking_keeps_best(init, i);
                assert(ranked_positions(fs) == insert_ranked(fs, rest, nw));
                assert(rest.len() == 3);
                assert(whole.len() == 4);
                assert(whole.take(GEOMETRY_TOP_N as int)[2] == whole[2]);
                if p == 2 {
                    assert(whole[2] == nw);
                } else if p < 2 {
                    assert(whole[2] == rest[1]);
                    assert(geometry_score_of(init[rest[1]]) >= geometry_score_of(init[rest[2]]));
                } else {
                    assert(whole[2] == rest[2]);
                }
            }
        }
    }
}

} // verus!
