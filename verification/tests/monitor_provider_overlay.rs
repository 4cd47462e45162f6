use game_time_manager::config::{Config, OverlayConfig, WatcherConfig};
use game_time_manager::monitor::Monitor;
use game_time_manager::overlay::{DisplayStep, Overlay, OverlayAction};
use game_time_manager::system_provider::{
    foreground_pid, is_fullscreen, NotificationState, Rect, Win32Provider,
};
use game_time_manager::watcher::ProcessInfo;

fn config(width: u32, height: u32, show_duration: u32) -> Config {
    Config {
        overlay: OverlayConfig {
            width,
            height,
            font: "Arial".to_string(),
            font_size: 100,
            font_rgb: vec![255, 255, 255],
            background_rgb: vec![255, 0, 0],
        },
        watcher: WatcherConfig {
            poll_frequency: 2,
            show_frequency: 60,
            show_duration,
            notification_frequency: 600,
            ignore: vec![],
        },
    }
}

#[test]
fn monitor_proceeds_on_busy_and_d3d() {
    assert!(Monitor::proceeds(None));
    assert!(Monitor::proceeds(Some(NotificationState::Busy)));
    assert!(Monitor::proceeds(Some(NotificationState::RunningD3dFullScreen)));
    assert!(!Monitor::proceeds(Some(NotificationState::PresentationMode)));
    assert!(!Monitor::proceeds(Some(NotificationState::NotPresent)));
}

#[test]
fn monitor_reports_every_look() {
    let mut m = Monitor::new();
    assert_eq!(m.observe(3, None, 0), None);
    assert!(m.games().is_empty());
    let p = ProcessInfo { name: "doom.exe".to_string(), exe: String::new(), run_time: 7260 };
    assert_eq!(m.observe(3, Some(&p), 0), Some("2h 1m".to_string()));
    let p2 = ProcessInfo { name: "doom.exe".to_string(), exe: String::new(), run_time: 7320 };
    assert_eq!(m.observe(3, Some(&p2), 10), Some("2h 2m".to_string()));
    assert_eq!(m.games().len(), 1);
    assert_eq!(m.games()[0].sessions.len(), 1);
    assert_eq!(m.games()[0].sessions[0].run_time, 7320);
    assert_eq!(m.observe(4, Some(&p2), 20), Some("2h 2m".to_string()));
    assert_eq!(m.games()[0].sessions.len(), 2);
}

#[test]
fn foreground_pid_needs_thread() {
    assert_eq!(foreground_pid(0, 12), None);
    assert_eq!(foreground_pid(5, 12), Some(12));
}

#[test]
fn fullscreen_needs_both_reads_and_equal_rects() {
    let m = Rect { left: 0, top: 0, right: 1920, bottom: 1080 };
    let w = Rect { left: 0, top: 0, right: 1920, bottom: 1040 };
    assert!(is_fullscreen(true, true, m, m));
    assert!(!is_fullscreen(true, true, w, m));
    assert!(!is_fullscreen(false, true, m, m));
    assert!(!is_fullscreen(true, false, m, m));
}

#[test]
fn game_pid_only_when_busy_fullscreen_and_found() {
    let p = Win32Provider {};
    assert_eq!(p.game_pid_from(Some(NotificationState::Busy), true, 9, 42), Ok(42));
    let err = Err("ErrNoGameFound".to_string());
    assert_eq!(p.game_pid_from(None, true, 9, 42), err);
    assert_eq!(p.game_pid_from(Some(NotificationState::RunningD3dFullScreen), true, 9, 42), err);
    assert_eq!(p.game_pid_from(Some(NotificationState::Busy), false, 9, 42), err);
    assert_eq!(p.game_pid_from(Some(NotificationState::Busy), true, 0, 42), err);
}

#[test]
fn product_name_falls_back_to_empty() {
    let p = Win32Provider {};
    assert_eq!(p.product_name_from(Some("DOOM Eternal".to_string())), Ok("DOOM Eternal".to_string()));
    assert_eq!(p.product_name_from(None), Ok(String::new()));
}

#[test]
fn overlay_starts_hidden() {
    let o = Overlay::new();
    assert!(!o.visible());
    assert_eq!(o.label(), "");
    assert_eq!(o.size(), (200, 100));
    assert_eq!(o.position(), (200, 0));
}

#[test]
fn overlay_shows_text_at_right_corner() {
    let mut o = Overlay::new();
    let cfg = config(300, 120, 5);
    let a = o.on_notice("1h 2m", Some(&cfg), (1920, 0));
    assert_eq!(
        a,
        OverlayAction::Show { text: "1h 2m".to_string(), width: 300, height: 120, x: 1620, y: 0 }
    );
    assert!(o.visible());
    assert_eq!(o.label(), "1h 2m");
    assert_eq!(o.position(), (1620, 0));
    assert_eq!(o.position().0 + 300, 1920);
}

#[test]
fn overlay_hides_on_empty_text() {
    let mut o = Overlay::new();
    let cfg = config(300, 120, 5);
    o.on_notice("1h 2m", Some(&cfg), (1920, 0));
    assert_eq!(o.on_notice("", Some(&cfg), (1920, 0)), OverlayAction::Hide);
    assert!(!o.visible());
    assert_eq!(o.label(), "1h 2m");
}

#[test]
fn overlay_without_config_changes_nothing() {
    let mut o = Overlay::new();
    assert_eq!(o.on_notice("1h 2m", None, (1920, 0)), OverlayAction::NoChange);
    assert!(!o.visible());
    assert_eq!(o.label(), "");
}

#[test]
fn overlay_close_stops_dispatch() {
    let o = Overlay::new();
    assert_eq!(o.close(), OverlayAction::StopDispatch);
}

#[test]
fn display_steps_show_then_clear() {
    let cfg = config(300, 120, 5);
    let steps = Overlay::display_steps("0h 3m".to_string(), Some(&cfg));
    assert_eq!(
        steps,
        vec![
            DisplayStep::SetText("0h 3m".to_string()),
            DisplayStep::Notice,
            DisplayStep::Sleep(5),
            DisplayStep::SetText(String::new()),
            DisplayStep::Notice,
        ]
    );
    assert!(Overlay::display_steps("x".to_string(), None).is_empty());
}
