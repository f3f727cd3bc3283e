use meetily::audio_monitor::{
    is_monitoring_active, start_level_monitoring, stop_level_monitoring, LevelMonitor,
};
use meetily::tray::{
    menu_action, recording_event, should_create_window, toggle_label, tray_click, MenuAction,
    TrayClick,
};
use meetily::window_manager::window_position;

#[test]
fn monitoring_follows_start_and_stop() {
    let mut m = LevelMonitor::new();
    assert!(!is_monitoring_active(&m));
    start_level_monitoring(&mut m);
    assert!(is_monitoring_active(&m));
    start_level_monitoring(&mut m);
    assert!(is_monitoring_active(&m));
    stop_level_monitoring(&mut m);
    assert!(!is_monitoring_active(&m));
}

#[test]
fn menu_items_map_to_actions() {
    assert!(menu_action("toggle_recording") == MenuAction::ToggleRecording);
    assert!(menu_action("open_window") == MenuAction::OpenWindow);
    assert!(menu_action("settings") == MenuAction::OpenSettings);
    assert!(menu_action("quit") == MenuAction::Quit);
    assert!(menu_action("Quit") == MenuAction::Ignore);
    assert!(menu_action("") == MenuAction::Ignore);
}

#[test]
fn labels_and_events_follow_the_recording_state() {
    assert_eq!(toggle_label(true), "Stop Recording");
    assert_eq!(toggle_label(false), "Start Recording");
    assert_eq!(recording_event(true), "start-recording-from-tray");
    assert_eq!(recording_event(false), "stop-recording-from-tray");
}

#[test]
fn tray_click_toggles_the_window() {
    assert!(tray_click(true, Some(true)) == TrayClick::HideWindow);
    assert!(tray_click(true, Some(false)) == TrayClick::ShowWindow);
    assert!(tray_click(true, None) == TrayClick::ShowWindow);
    assert!(tray_click(false, Some(true)) == TrayClick::Nothing);
    assert!(should_create_window("main", false));
    assert!(!should_create_window("main", true));
    assert!(!should_create_window("floating", false));
}

#[test]
fn saved_window_position_is_restored() {
    assert_eq!(window_position(Some((Some(200), Some(300))), Some((1920, 1080))), (200, 300));
    assert_eq!(window_position(Some((Some(-5), Some(0))), None), (-5, 0));
}

#[test]
fn missing_position_puts_the_window_top_right() {
    assert_eq!(window_position(None, Some((1920, 1080))), (1680, 20));
    assert_eq!(window_position(Some((Some(-1), Some(300))), Some((2560, 1440))), (2320, 20));
    assert_eq!(window_position(Some((Some(300), None)), Some((1920, 1080))), (1680, 20));
    assert_eq!(window_position(None, Some((100, 50))), (-140, 20));
}

#[test]
fn missing_position_and_monitor_use_the_fallback() {
    assert_eq!(window_position(Some((None, Some(300))), None), (850, 450));
    assert_eq!(window_position(None, None), (850, 450));
}

#[test]
fn saved_position_is_narrowed_like_a_cast() {
    let wide = (1i64 << 32) + 100;
    assert_eq!(window_position(Some((Some(wide), Some(7))), None), (100, 7));
}
