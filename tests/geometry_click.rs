use multi_publisher::chooser::{
    build_wechat_retry_candidates, ChooserRetry, ClickMethod, ClickOutcome, RetryAction, RetryEnd,
};
use multi_publisher::geometry::{
    geometry_reason, geometry_score, is_admitted, rank_geometry_candidates, GeometryCandidate,
    GeometryFeatures,
};

fn feat(x: i64, y: i64, w: u32, h: u32, ctx: &str) -> GeometryFeatures {
    GeometryFeatures {
        x,
        y,
        width: w,
        height: h,
        text_hit: false,
        dashed_hit: false,
        semantic_hit: false,
        class_hit: false,
        container_hit: false,
        context_priority: 0,
        center_distance: 0,
        viewport_width: 1000,
        viewport_height: 800,
        viewport_diagonal: 1281,
        context: ctx.to_string(),
        frame_path: String::new(),
    }
}

#[test]
fn score_adds_signals_and_subtracts_penalties() {
    let mut f = feat(500, 400, 300, 200, "main");
    f.text_hit = true;
    f.dashed_hit = true;
    f.center_distance = 640;
    // 45 + 30 + 8 (60000 px area) - 20 * 640 / 1281 (9.99)
    assert_eq!(geometry_score(&f), 4500 + 3000 + 800 - 999);
    assert_eq!(geometry_reason(&f), "text+dashed+size");
    f.width = 1000;
    f.height = 800;
    f.container_hit = true;
    f.context_priority = 45;
    assert_eq!(geometry_score(&f), 4500 + 3000 + 3000 + 800 - 4200 - 2400 - 999);
    assert_eq!(geometry_reason(&f), "text+dashed+wujie+size+container_penalty+oversize_penalty");
}

#[test]
fn weak_elements_are_not_admitted() {
    let small = feat(1, 1, 50, 50, "main");
    assert!(!is_admitted(&small));
    let big = feat(1, 1, 200, 200, "main");
    assert!(is_admitted(&big));
    let mut container = feat(1, 1, 200, 200, "main");
    container.container_hit = true;
    assert!(!is_admitted(&container));
    let mut huge = feat(1, 1, 1000, 800, "main");
    huge.semantic_hit = true;
    assert!(!is_admitted(&huge));
}

#[test]
fn ranking_keeps_best_three_deduplicated_and_is_repeatable() {
    let mut a = feat(10, 10, 200, 200, "main");
    a.class_hit = true;
    let mut b = feat(20, 20, 200, 200, "main");
    b.text_hit = true;
    let mut dup = feat(20, 20, 200, 200, "main");
    dup.text_hit = true;
    dup.dashed_hit = true;
    let c = feat(30, 30, 200, 200, "main");
    let mut d = feat(40, 40, 200, 200, "wujie");
    d.dashed_hit = true;
    let small = feat(50, 50, 10, 10, "main");
    let scan = vec![a, b, dup, c, d, small];
    let first = rank_geometry_candidates(&scan);
    let second = rank_geometry_candidates(&scan);
    let pts: Vec<(i64, i64, i64)> = first.iter().map(|c| (c.x, c.y, c.score)).collect();
    assert_eq!(pts, vec![(20, 20, 5300), (40, 40, 3800), (10, 10, 2000)]);
    let pts2: Vec<(i64, i64, i64)> = second.iter().map(|c| (c.x, c.y, c.score)).collect();
    assert_eq!(pts, pts2);
}

#[test]
fn equal_scores_keep_scan_order() {
    let scan = vec![feat(1, 1, 200, 200, "m"), feat(2, 2, 200, 200, "m"), feat(3, 3, 200, 200, "m"), feat(4, 4, 200, 200, "m")];
    let ranked = rank_geometry_candidates(&scan);
    let xs: Vec<i64> = ranked.iter().map(|c| c.x).collect();
    assert_eq!(xs, vec![1, 2, 3]);
}

fn cand(x: i64, y: i64) -> GeometryCandidate {
    GeometryCandidate {
        x,
        y,
        score: 10,
        context: "c".to_string(),
        frame_path: "f".to_string(),
        reason: "text".to_string(),
    }
}

#[test]
fn retry_candidates_start_with_clicked_point_without_repeats() {
    let geo = vec![cand(5, 5), cand(7, 7), cand(5, 5)];
    let r = build_wechat_retry_candidates(Some(7), Some(7), "ctx", "frame", &geo);
    let pts: Vec<(i64, i64)> = r.iter().map(|c| (c.x, c.y)).collect();
    assert_eq!(pts, vec![(7, 7), (5, 5)]);
    assert_eq!(r[0].reason, "selected_point");
    assert_eq!(r[0].context, "ctx");
    let none = build_wechat_retry_candidates(None, Some(1), "", "", &geo);
    assert_eq!(none.len(), 2);
}

#[test]
fn retry_rounds_alternate_and_stop() {
    let mut st = ChooserRetry::new(5);
    assert_eq!(st.rounds, 3);
    let mut clicks = 0;
    loop {
        match st.next_action(5000) {
            RetryAction::Click { candidate, method, wait_ms } => {
                assert!(candidate < 3);
                assert_eq!(wait_ms, 1700);
                assert_eq!(method, if clicks % 2 == 0 { ClickMethod::CdpMouse } else { ClickMethod::JsChain });
                clicks += 1;
                st = st.after(ClickOutcome::TimedOut).unwrap();
            }
            RetryAction::Stop(end) => {
                assert_eq!(end, RetryEnd::Exhausted);
                break;
            }
        }
    }
    assert_eq!(clicks, 6);
}

#[test]
fn retry_ends_on_event_budget_or_no_points() {
    let st = ChooserRetry::new(2);
    assert_eq!(st.next_action(0), RetryAction::Stop(RetryEnd::BudgetSpent));
    assert_eq!(st.next_action(900), RetryAction::Click { candidate: 0, method: ClickMethod::CdpMouse, wait_ms: 900 });
    assert_eq!(st.after(ClickOutcome::Opened), Err(RetryEnd::Opened(1, ClickMethod::CdpMouse)));
    let js = st.after(ClickOutcome::ClickFailed).unwrap();
    assert_eq!(js.method, ClickMethod::JsChain);
    assert_eq!(js.after(ClickOutcome::StreamClosed), Err(RetryEnd::StreamClosed(ClickMethod::JsChain)));
    assert_eq!(ChooserRetry::new(0).next_action(100), RetryAction::Stop(RetryEnd::NoCandidates));
}
