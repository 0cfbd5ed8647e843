use free_cursor_client::platform::Platform;
use free_cursor_client::process::{
    eq_ignore_ascii_case, matching_pids, self_family_pids, target_app_name_bytes, ProcessDescriptor,
    WaitAction, WaitState,
};

fn p(pid: u32, name: &str) -> ProcessDescriptor {
    ProcessDescriptor { pid, name: name.as_bytes().to_vec() }
}

#[test]
fn scan_matches_target_name_ignoring_case() {
    let procs = vec![p(1, "cursor"), p(2, "Cursor Helper"), p(3, "CURSOR"), p(4, "Code")];
    let target = target_app_name_bytes(Platform::Linux);
    assert_eq!(matching_pids(&procs, &target), vec![1, 3]);
    let win = target_app_name_bytes(Platform::Windows);
    assert_eq!(matching_pids(&vec![p(8, "cursor.EXE"), p(9, "Cursor")], &win), vec![8]);
}

#[test]
fn ascii_case_comparison_is_exact_otherwise() {
    assert!(eq_ignore_ascii_case(&b"AbC".to_vec(), &b"aBc".to_vec()));
    assert!(!eq_ignore_ascii_case(&b"abc".to_vec(), &b"abcd".to_vec()));
    assert!(!eq_ignore_ascii_case(&b"ab[".to_vec(), &b"ab{".to_vec()));
}

#[test]
fn self_family_excludes_the_caller() {
    let procs = vec![
        p(10, "free-cursor-client"),
        p(11, "Free-Cursor-Client.exe"),
        p(12, "cursor"),
        p(13, "free-cursor"),
        p(14, "free-cursor-client-old"),
    ];
    assert_eq!(self_family_pids(&procs, 10), vec![11, 14]);
    assert!(self_family_pids(&Vec::new(), 1).is_empty());
}

#[test]
fn wait_returns_immediately_when_target_absent() {
    let mut st = WaitState::new(true);
    assert_eq!(st.step(&Some(Vec::new())), WaitAction::Finish);
    assert!(!st.noticed);
}

#[test]
fn wait_fails_open_when_scan_fails() {
    let mut st = WaitState::new(false);
    assert_eq!(st.step(&None), WaitAction::Finish);
}

#[test]
fn wait_returns_only_after_a_clear_scan() {
    let mut st = WaitState::new(true);
    assert_eq!(st.step(&Some(vec![42])), WaitAction::NotifyAndPause { millis: 300 });
    assert_eq!(st.step(&Some(vec![42, 43])), WaitAction::Pause { millis: 300 });
    assert_eq!(st.step(&Some(vec![43])), WaitAction::Pause { millis: 300 });
    assert_eq!(st.step(&Some(Vec::new())), WaitAction::Finish);
}

#[test]
fn background_wait_polls_slowly_without_notice() {
    let mut st = WaitState::new(false);
    assert_eq!(st.step(&Some(vec![7])), WaitAction::Pause { millis: 300_000 });
    assert!(!st.noticed);
}
