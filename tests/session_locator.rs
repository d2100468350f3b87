use multi_publisher::errors::ErrorKind;
use multi_publisher::session::{
    extract_flag_u16, is_profile_busy, lock_pid_from_link_name, matches_profile_user_data_dir,
    next_profile_index, plan_session, port_from_active_port_file, running_profile_debug_ports,
    session_for, ChromeSession, ChromeSessionMode, ReadyStep, ReadyWait, SessionPlan,
};

#[test]
fn stale_lock_of_dead_process_launches_new_session() {
    let busy = is_profile_busy(true, Some(false));
    assert!(!busy);
    let plan = plan_session(None, busy);
    assert_eq!(plan, Ok(SessionPlan::Launch));
    let s = session_for(plan.unwrap(), 9310);
    assert_eq!(s, ChromeSession { port: 9310, mode: ChromeSessionMode::LaunchedNew });
    assert_eq!(s.mode.as_str(), "launched_new");
}

#[test]
fn live_lock_fails_with_profile_busy() {
    assert!(is_profile_busy(true, Some(true)));
    assert!(is_profile_busy(true, None));
    assert!(!is_profile_busy(false, None));
    assert_eq!(plan_session(None, true), Err(ErrorKind::ProfileBusy));
    assert_eq!(plan_session(Some(9400), true), Ok(SessionPlan::Reuse(9400)));
    assert_eq!(ChromeSessionMode::ReusedExisting.as_str(), "reused_existing");
}

#[test]
fn flag_value_is_read_from_first_matching_word() {
    let line = "/chrome --user-data-dir=/p --remote-debugging-port=\"9321\" --remote-debugging-port=9400";
    assert_eq!(extract_flag_u16(line, "--remote-debugging-port="), Some(9321));
    assert_eq!(extract_flag_u16("x --remote-debugging-port='9322'", "--remote-debugging-port="), Some(9322));
    assert_eq!(extract_flag_u16("x --remote-debugging-port=abc --remote-debugging-port=+9 ", "--remote-debugging-port="), Some(9));
    assert_eq!(extract_flag_u16("x --remote-debugging-port=70000", "--remote-debugging-port="), None);
    assert_eq!(extract_flag_u16("", "--remote-debugging-port="), None);
}

#[test]
fn profile_match_accepts_quotes() {
    assert!(matches_profile_user_data_dir("c --user-data-dir=/home/a/p1 x", "/home/a/p1"));
    assert!(matches_profile_user_data_dir("c --user-data-dir=\"/home/a/p1\"", "/home/a/p1"));
    assert!(matches_profile_user_data_dir("c --user-data-dir='/home/a/p1'", "/home/a/p1"));
    assert!(!matches_profile_user_data_dir("c --user-data-dir=/home/a/p2", "/home/a/p1"));
}

#[test]
fn ports_are_collected_from_matching_lines() {
    let lines = vec![
        "chrome --user-data-dir=/p1 --remote-debugging-port=9301".to_string(),
        "chrome --user-data-dir=/p2 --remote-debugging-port=9302".to_string(),
        "chrome --user-data-dir=/p1".to_string(),
        "chrome --remote-debugging-port=9303 --user-data-dir=/p1".to_string(),
    ];
    assert_eq!(running_profile_debug_ports(&lines, "/p1"), vec![9301, 9303]);
    assert!(running_profile_debug_ports(&Vec::new(), "/p1").is_empty());
}

#[test]
fn lock_link_name_ends_with_pid() {
    assert_eq!(lock_pid_from_link_name("myhost-12345"), Some(12345));
    assert_eq!(lock_pid_from_link_name("a-b-77"), Some(77));
    assert_eq!(lock_pid_from_link_name("4242"), Some(4242));
    assert_eq!(lock_pid_from_link_name("host-"), None);
}

#[test]
fn port_marker_first_line_is_the_port() {
    assert_eq!(port_from_active_port_file("9333\n/devtools/browser/abc\n"), Some(9333));
    assert_eq!(port_from_active_port_file("  9334 \r\nrest"), Some(9334));
    assert_eq!(port_from_active_port_file(""), None);
    assert_eq!(port_from_active_port_file("x\n9335"), None);
}

#[test]
fn next_index_follows_largest() {
    let names = vec!["douyin-1".to_string(), "douyin-7".to_string(), "wechat-9".to_string(), "douyin-x".to_string()];
    assert_eq!(next_profile_index("douyin", &names), Some(8));
    assert_eq!(next_profile_index("youtube", &names), Some(1));
    assert_eq!(next_profile_index("douyin", &vec!["douyin-4294967295".to_string()]), None);
}

#[test]
fn ready_wait_outcomes() {
    let s = ChromeSession { port: 9300, mode: ChromeSessionMode::LaunchedNew };
    let w = ReadyWait::start(&s);
    let (step, w2) = w.step(false, true, false, false);
    assert_eq!(step, ReadyStep::Poll);
    assert!(w2.saw_version);
    let w3 = w2.rediscovered(Some(9400));
    assert_eq!(w3.active_port, 9400);
    assert_eq!(w3.rediscovered(Some(9500)).active_port, 9400);
    assert_eq!(w3.step(false, true, true, false).0, ReadyStep::Ready(9400));
    assert_eq!(w3.step(true, false, false, false).0, ReadyStep::Fail(ErrorKind::ProfileBusy));
    assert_eq!(w.step(true, false, false, false).0, ReadyStep::Fail(ErrorKind::ChromeNotReady));
    assert_eq!(w.step(true, false, false, true).0, ReadyStep::Fail(ErrorKind::ProfileBusy));
}
