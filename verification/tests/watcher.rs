use game_time_manager::games::{FocusSpan, Game};
use game_time_manager::ignore::{is_ignored, IgnoreError};
use game_time_manager::system_provider::NotificationState;
use game_time_manager::watcher::{Decision, ProcessInfo, SkipReason, WatchError, Watcher};

fn proc_info(name: &str, run_time: u64) -> ProcessInfo {
    ProcessInfo { name: name.to_string(), exe: format!("C:\\Games\\{}", name), run_time }
}

#[test]
fn game_new_is_fresh() {
    let g = Game::new("doom.exe".to_string());
    assert_eq!(g.name, "doom.exe");
    assert_eq!(g.friendly_name, "doom.exe");
    assert_eq!(g.focus_time_total, 0);
    assert_eq!(g.focus_time_7_days, 0);
    assert_eq!(g.run_time_total, 0);
    assert_eq!(g.run_time_7_days, 0);
    assert!(g.sessions.is_empty());
}

#[test]
fn watcher_proceeds_only_when_busy_or_unknown() {
    assert!(Watcher::proceeds(None));
    assert!(Watcher::proceeds(Some(NotificationState::Busy)));
    assert!(!Watcher::proceeds(Some(NotificationState::RunningD3dFullScreen)));
    assert!(!Watcher::proceeds(Some(NotificationState::NotPresent)));
    assert!(!Watcher::proceeds(Some(NotificationState::PresentationMode)));
    assert!(!Watcher::proceeds(Some(NotificationState::AcceptsNotifications)));
    assert!(!Watcher::proceeds(Some(NotificationState::QuietTime)));
    assert!(!Watcher::proceeds(Some(NotificationState::App)));
    assert!(!Watcher::proceeds(Some(NotificationState::Other(42))));
}

#[test]
fn ignore_list_matches_names() {
    let ignore = vec!["^explorer\\.exe$".to_string(), "steam".to_string()];
    assert_eq!(is_ignored(&ignore, "explorer.exe"), Ok(true));
    assert_eq!(is_ignored(&ignore, "steamwebhelper.exe"), Ok(true));
    assert_eq!(is_ignored(&ignore, "doom.exe"), Ok(false));
    assert_eq!(is_ignored(&Vec::new(), "doom.exe"), Ok(false));
}

#[test]
fn ignore_list_invalid_pattern() {
    let ignore = vec!["(unclosed".to_string()];
    assert_eq!(is_ignored(&ignore, "doom.exe"), Err(IgnoreError::InvalidPattern));
}

#[test]
fn observe_skips_missing_process() {
    let mut w = Watcher::new();
    let r = w.observe(10, 1, None, &Vec::new(), 0, 60);
    assert_eq!(r, Ok(Decision::Skip(SkipReason::NoProcess)));
    assert!(w.games().is_empty());
    assert_eq!(w.last_shown(), None);
}

#[test]
fn observe_skips_own_process() {
    let mut w = Watcher::new();
    let p = proc_info("game_time_manager.exe", 5);
    let r = w.observe(7, 7, Some(&p), &Vec::new(), 0, 60);
    assert_eq!(r, Ok(Decision::Skip(SkipReason::OwnProcess)));
    assert!(w.games().is_empty());
}

#[test]
fn observe_skips_ignored_process() {
    let mut w = Watcher::new();
    let p = proc_info("explorer.exe", 5);
    let ignore = vec!["explorer".to_string()];
    let r = w.observe(10, 1, Some(&p), &ignore, 0, 60);
    assert_eq!(r, Ok(Decision::Skip(SkipReason::Ignored)));
    assert!(w.games().is_empty());
    assert_eq!(w.last_shown(), None);
}

#[test]
fn observe_invalid_ignore_list_fails() {
    let mut w = Watcher::new();
    let p = proc_info("doom.exe", 5);
    let ignore = vec!["[".to_string()];
    let r = w.observe(10, 1, Some(&p), &ignore, 0, 60);
    assert_eq!(r, Err(WatchError::InvalidIgnorePattern));
    assert!(w.games().is_empty());
}

#[test]
fn first_look_starts_session_without_report() {
    let mut w = Watcher::new();
    let p = proc_info("doom.exe", 5);
    let r = w.observe(10, 1, Some(&p), &Vec::new(), 1000, 60);
    assert_eq!(r, Ok(Decision::Skip(SkipReason::TooSoon)));
    assert_eq!(w.games().len(), 1);
    let g = &w.games()[0];
    assert_eq!(g.name, "doom.exe");
    assert_eq!(g.sessions.len(), 1);
    assert_eq!(g.sessions[0].pid, 10);
    assert_eq!(g.sessions[0].focus_spans, vec![FocusSpan(Some(1000), None)]);
    assert_eq!(g.sessions[0].run_time, 0);
    assert_eq!(w.last_shown(), Some(1000));
}

#[test]
fn reports_are_spaced_by_frequency() {
    let mut w = Watcher::new();
    let p = proc_info("doom.exe", 5);
    w.observe(10, 1, Some(&p), &Vec::new(), 1000, 60).unwrap();
    // 59.999 seconds later: still too soon.
    let r = w.observe(10, 1, Some(&p), &Vec::new(), 60999, 60);
    assert_eq!(r, Ok(Decision::Skip(SkipReason::TooSoon)));
    // exactly 60 seconds later: report.
    let r = w.observe(10, 1, Some(&p), &Vec::new(), 61000, 60);
    assert_eq!(r, Ok(Decision::Notify(0)));
    assert_eq!(w.games()[0].sessions.len(), 1);
}

#[test]
fn report_and_mark_shown() {
    let mut w = Watcher::new();
    let p = proc_info("doom.exe", 3725);
    w.observe(10, 1, Some(&p), &Vec::new(), 0, 0).unwrap();
    // A frequency of zero never holds a report back.
    let r = w.observe(10, 1, Some(&p), &Vec::new(), 5, 0);
    assert_eq!(r, Ok(Decision::Notify(0)));
    let msg = w.report(0, "DOOM".to_string(), p.run_time);
    assert_eq!(msg, "1h 2m");
    assert_eq!(w.games()[0].friendly_name, "DOOM");
    assert_eq!(w.games()[0].sessions[0].run_time, 3725);
    w.mark_shown(9);
    assert_eq!(w.last_shown(), Some(9));
    let r = w.observe(10, 1, Some(&p), &Vec::new(), 10, 1);
    assert_eq!(r, Ok(Decision::Skip(SkipReason::TooSoon)));
}

#[test]
fn new_process_starts_new_session() {
    let mut w = Watcher::new();
    let p = proc_info("doom.exe", 5);
    w.observe(10, 1, Some(&p), &Vec::new(), 0, 1).unwrap();
    assert_eq!(w.observe(10, 1, Some(&p), &Vec::new(), 5000, 1), Ok(Decision::Notify(0)));
    // Same game, new process: a second session, and the start holds the report back.
    assert_eq!(w.observe(11, 1, Some(&p), &Vec::new(), 6000, 1), Ok(Decision::Skip(SkipReason::TooSoon)));
    assert_eq!(w.games().len(), 1);
    assert_eq!(w.games()[0].sessions.len(), 2);
    assert_eq!(w.games()[0].sessions[1].pid, 11);
    assert_eq!(w.last_shown(), Some(6000));
}

#[test]
fn games_are_kept_apart_by_name() {
    let mut w = Watcher::new();
    let a = proc_info("a.exe", 5);
    let b = proc_info("b.exe", 5);
    w.observe(1, 0, Some(&a), &Vec::new(), 0, 1).unwrap();
    w.observe(2, 0, Some(&b), &Vec::new(), 0, 1).unwrap();
    w.observe(1, 0, Some(&a), &Vec::new(), 0, 1).unwrap();
    let names: Vec<&str> = w.games().iter().map(|g| g.name.as_str()).collect();
    assert_eq!(names, vec!["a.exe", "b.exe"]);
    assert_eq!(w.games()[0].sessions.len(), 1);
    assert_eq!(w.games()[1].sessions.len(), 1);
}

#[test]
fn repeat_look_adds_nothing() {
    let mut w = Watcher::new();
    let p = proc_info("doom.exe", 5);
    w.track(4, &p.name, 100, 30);
    let before = w.last_shown();
    w.track(4, &p.name, 200, 30);
    assert_eq!(w.games().len(), 1);
    assert_eq!(w.games()[0].sessions.len(), 1);
    assert_eq!(w.last_shown(), before);
}

#[test]
fn apply_uses_given_ignore_answer() {
    let mut w = Watcher::new();
    let p = proc_info("doom.exe", 5);
    assert_eq!(w.apply(3, 1, Some(&p), true, 0, 1), Decision::Skip(SkipReason::Ignored));
    assert!(w.games().is_empty());
    assert_eq!(w.apply(3, 1, Some(&p), false, 0, 1), Decision::Skip(SkipReason::TooSoon));
    assert_eq!(w.games().len(), 1);
}

#[test]
fn clock_going_back_counts_as_no_time() {
    let mut w = Watcher::new();
    let p = proc_info("doom.exe", 5);
    w.track(4, &p.name, 100_000, 30);
    assert_eq!(w.track(4, &p.name, 50, 30), Decision::Skip(SkipReason::TooSoon));
}
