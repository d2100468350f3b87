use multi_publisher::target::{
    bool_rank, extract_host, initial_acquire_state, next_acquire_step, page_probe_rank,
    score_url_match, select_best_page, AcquireStep, PageProbe,
};

fn probe(idx: usize, url: &str, expected_url: &str, expected_host: &str) -> PageProbe {
    PageProbe {
        idx,
        url: url.to_string(),
        score: score_url_match(url, expected_url, expected_host),
        exact_url_match: url == expected_url,
        ready_complete: true,
        visible: true,
        focused: false,
        body_text_len: 10,
        title: String::new(),
        body_excerpt: String::new(),
    }
}

#[test]
fn host_is_text_between_scheme_and_path() {
    assert_eq!(extract_host("https://member.bilibili.com/platform/upload"), "member.bilibili.com");
    assert_eq!(extract_host("http://a.b"), "a.b");
    assert_eq!(extract_host("about:blank"), "");
    assert_eq!(extract_host(""), "");
}

#[test]
fn score_tiers_are_ordered() {
    let expected = "https://studio.youtube.com/upload";
    let host = "studio.youtube.com";
    let exact = score_url_match(expected, expected, host);
    let contains = score_url_match("https://studio.youtube.com/upload?x=1", expected, host);
    let by_host = score_url_match("https://studio.youtube.com/channel", expected, host);
    let bare = score_url_match("https://example.com", expected, host);
    let none = score_url_match("chrome://newtab", expected, host);
    assert_eq!((exact, contains, by_host, bare, none), (100, 90, 70, 10, 0));
    assert!(exact > contains && contains > by_host && by_host > bare && bare > none);
}

#[test]
fn empty_expectations_score_only_http() {
    assert_eq!(score_url_match("http://x", "", ""), 10);
    assert_eq!(score_url_match("file:///x", "", ""), 0);
}

#[test]
fn rank_key_lists_components() {
    let p = probe(4, "https://a.com", "https://a.com", "a.com");
    assert_eq!(page_probe_rank(&p), (100, 1, 1, 1, 0, 1, 4));
    assert_eq!(bool_rank(true), 1);
    assert_eq!(bool_rank(false), 0);
}

#[test]
fn exact_url_page_is_chosen_among_other_tabs() {
    let expected = "https://creator.xiaohongshu.com/publish/publish";
    let host = "creator.xiaohongshu.com";
    let probes = vec![
        probe(0, "https://creator.xiaohongshu.com/home", expected, host),
        probe(1, "https://www.google.com", expected, host),
        probe(2, expected, expected, host),
        probe(3, "chrome://newtab", expected, host),
    ];
    let sel = select_best_page(probes);
    assert_eq!(sel.idx, 2);
    assert_eq!(sel.score, 100);
    assert_eq!(sel.url, expected);
    assert_eq!(sel.selected_probe().unwrap().idx, 2);
}

#[test]
fn ties_go_to_lowest_index() {
    let expected = "https://a.com/up";
    let probes = vec![
        probe(0, "https://b.com", expected, "a.com"),
        probe(1, "https://a.com/x", expected, "a.com"),
        probe(2, "https://a.com/y", expected, "a.com"),
    ];
    let sel = select_best_page(probes);
    assert_eq!(sel.idx, 1);
    assert!(sel.tie_break.starts_with("score=70 exact_url_match=false ready_complete=true"));
    assert!(sel.tie_break.contains(" idx=1 "));
}

#[test]
fn readiness_breaks_score_ties() {
    let expected = "https://a.com/up";
    let mut stale = probe(0, "https://a.com/x", expected, "a.com");
    stale.visible = false;
    let live = probe(1, "https://a.com/x", expected, "a.com");
    let sel = select_best_page(vec![stale, live]);
    assert_eq!(sel.idx, 1);
}

#[test]
fn no_pages_gives_empty_selection() {
    let sel = select_best_page(Vec::new());
    assert_eq!(sel.idx, 0);
    assert_eq!(sel.score, i32::MIN);
    assert!(sel.url.is_empty());
    assert!(sel.selected_probe().is_none());
}

#[test]
fn acquisition_redirects_then_creates_then_fails() {
    let st = initial_acquire_state();
    let (step, st) = next_acquire_step(st, false, 10, true, true);
    assert_eq!(step, AcquireStep::RedirectSelected);
    let (step, st) = next_acquire_step(st, false, 10, true, true);
    assert_eq!(step, AcquireStep::CreatePage);
    let (step, _) = next_acquire_step(st, false, 10, true, true);
    assert_eq!(step, AcquireStep::FailTargetNotFound);
}

#[test]
fn acquisition_accepts_strict_score_and_non_strict() {
    let st = initial_acquire_state();
    assert_eq!(next_acquire_step(st, false, 70, true, true).0, AcquireStep::Accept);
    assert_eq!(next_acquire_step(st, false, 0, false, true).0, AcquireStep::Accept);
    let (step, st2) = next_acquire_step(st, true, 0, true, true);
    assert_eq!(step, AcquireStep::CreatePage);
    assert_eq!(next_acquire_step(st2, true, 0, true, true).0, AcquireStep::FailNoPage);
}

#[test]
fn created_page_ends_search_without_redirect() {
    let st = initial_acquire_state();
    let (step, st) = next_acquire_step(st, true, i32::MIN, true, true);
    assert_eq!(step, AcquireStep::CreatePage);
    let (step, _) = next_acquire_step(st, false, 10, true, true);
    assert_eq!(step, AcquireStep::FailTargetNotFound);
}
