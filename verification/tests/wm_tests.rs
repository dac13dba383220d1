use overlay_backend::error::Error;
use overlay_backend::monitors::RawMonitor;
use overlay_backend::wm::{
    channel_for_message, Channel, WindowManager, WindowPhase, WindowState,
};

fn raw(x: i32, y: i32, width: u32, height: u32) -> RawMonitor {
    RawMonitor { name: None, x, y, width, height, scale_centi: 100 }
}

fn hidden_window() -> WindowState {
    WindowState {
        x: 0,
        y: 0,
        width: 800,
        height: 600,
        passthrough: false,
        visible: false,
        minimized: false,
        focused: false,
    }
}

fn state_of(wm: &WindowManager, label: &str) -> WindowState {
    for w in wm.windows.iter() {
        if w.label == label {
            match w.phase {
                WindowPhase::Open(st) => return st,
                WindowPhase::Closed => panic!("window {} is closed", label),
            }
        }
    }
    panic!("window {} is not registered", label);
}

fn manager_with_both_windows() -> WindowManager {
    let mut wm = WindowManager::new();
    wm.register_window(String::from("main"), hidden_window()).unwrap();
    wm.register_window(String::from("overlay"), hidden_window()).unwrap();
    wm
}

#[test]
fn duplicate_label_is_rejected() {
    let mut wm = WindowManager::new();
    wm.register_window(String::from("main"), hidden_window()).unwrap();
    let r = wm.register_window(String::from("main"), hidden_window());
    assert_eq!(r, Err(Error::InvalidArgument));
    assert_eq!(wm.windows.len(), 1);
}

#[test]
fn bind_covers_monitor_bounds() {
    let mut wm = manager_with_both_windows();
    let mons = vec![raw(0, 0, 1920, 1080), raw(1920, 0, 2560, 1440)];
    let r = wm.bind_window_to_monitor(&String::from("main"), &mons, 1, true);
    assert_eq!(r, Ok(()));
    let st = state_of(&wm, "main");
    assert_eq!((st.x, st.y, st.width, st.height), (1920, 0, 2560, 1440));
    assert!(!st.passthrough);
}

#[test]
fn bind_without_capture_enables_passthrough() {
    let mut wm = manager_with_both_windows();
    let mons = vec![raw(0, 0, 1920, 1080)];
    wm.bind_window_to_monitor(&String::from("main"), &mons, 0, false).unwrap();
    assert!(state_of(&wm, "main").passthrough);
}

#[test]
fn bind_out_of_range_fails_without_mutation() {
    let mut wm = manager_with_both_windows();
    let before = state_of(&wm, "main");
    let mons = vec![raw(0, 0, 1920, 1080)];
    let r = wm.bind_window_to_monitor(&String::from("main"), &mons, 1, true);
    assert_eq!(r, Err(Error::InvalidArgument));
    assert_eq!(state_of(&wm, "main"), before);
}

#[test]
fn bind_missing_window_fails_not_found() {
    let mut wm = WindowManager::new();
    let mons = vec![raw(0, 0, 1920, 1080)];
    let r = wm.bind_window_to_monitor(&String::from("main"), &mons, 0, true);
    assert_eq!(r, Err(Error::NotFound));
}

#[test]
fn position_overlay_is_idempotent() {
    let mut wm = manager_with_both_windows();
    let mons = vec![raw(0, 0, 1920, 1080), raw(1920, 0, 2560, 1440)];
    assert_eq!(wm.position_overlay_window(&mons, 1), Ok(()));
    let first = state_of(&wm, "overlay");
    assert_eq!(wm.position_overlay_window(&mons, 1), Ok(()));
    let second = state_of(&wm, "overlay");
    assert_eq!(first, second);
    assert_eq!((first.x, first.y, first.width, first.height), (1920, 0, 2560, 1440));
}

#[test]
fn position_overlay_keeps_passthrough() {
    let mut wm = manager_with_both_windows();
    wm.set_passthrough(&String::from("overlay"), true).unwrap();
    let mons = vec![raw(0, 0, 1920, 1080)];
    wm.position_overlay_window(&mons, 0).unwrap();
    assert!(state_of(&wm, "overlay").passthrough);
}

#[test]
fn position_absent_overlay_fails_not_found() {
    let mut wm = WindowManager::new();
    wm.register_window(String::from("main"), hidden_window()).unwrap();
    let mons = vec![raw(0, 0, 1920, 1080)];
    assert_eq!(wm.position_overlay_window(&mons, 0), Err(Error::NotFound));
}

#[test]
fn position_overlay_bad_id_fails_invalid_argument() {
    let mut wm = manager_with_both_windows();
    let mons = vec![raw(0, 0, 1920, 1080)];
    assert_eq!(wm.position_overlay_window(&mons, 3), Err(Error::InvalidArgument));
}

#[test]
fn show_makes_overlay_visible_and_focused() {
    let mut wm = manager_with_both_windows();
    assert_eq!(wm.show_overlay_window(), Ok(()));
    let st = state_of(&wm, "overlay");
    assert!(st.visible);
    assert!(st.focused);
}

#[test]
fn show_moves_focus_off_other_windows() {
    let mut wm = manager_with_both_windows();
    wm.enable_overlay_interaction(&String::from("main")).unwrap();
    assert!(state_of(&wm, "main").focused);
    wm.show_overlay_window().unwrap();
    assert!(!state_of(&wm, "main").focused);
    assert!(state_of(&wm, "overlay").focused);
}

#[test]
fn hide_clears_visibility() {
    let mut wm = manager_with_both_windows();
    wm.show_overlay_window().unwrap();
    assert_eq!(wm.hide_overlay_window(), Ok(()));
    assert!(!state_of(&wm, "overlay").visible);
}

#[test]
fn show_without_overlay_is_a_no_op() {
    let mut wm = WindowManager::new();
    assert_eq!(wm.show_overlay_window(), Ok(()));
    assert_eq!(wm.hide_overlay_window(), Ok(()));
    assert_eq!(wm.destroy_overlay_window(), Ok(()));
}

#[test]
fn destroy_is_terminal() {
    let mut wm = manager_with_both_windows();
    assert_eq!(wm.destroy_overlay_window(), Ok(()));
    let mons = vec![raw(0, 0, 1920, 1080)];
    assert_eq!(wm.position_overlay_window(&mons, 0), Err(Error::NotFound));
    assert_eq!(wm.show_overlay_window(), Ok(()));
    match wm.windows[1].phase {
        WindowPhase::Closed => {},
        WindowPhase::Open(_) => panic!("overlay should stay closed"),
    }
}

#[test]
fn minimize_sets_the_flag() {
    let mut wm = manager_with_both_windows();
    assert_eq!(wm.minimize_window(&String::from("main")), Ok(()));
    assert!(state_of(&wm, "main").minimized);
    assert_eq!(wm.minimize_window(&String::from("nowhere")), Err(Error::NotFound));
}

#[test]
fn passthrough_round_trip() {
    let mut wm = manager_with_both_windows();
    wm.set_passthrough(&String::from("overlay"), true).unwrap();
    assert!(state_of(&wm, "overlay").passthrough);
    wm.set_passthrough(&String::from("overlay"), false).unwrap();
    assert!(!state_of(&wm, "overlay").passthrough);
}

#[test]
fn enable_interaction_focuses_and_captures() {
    let mut wm = manager_with_both_windows();
    wm.set_passthrough(&String::from("overlay"), true).unwrap();
    assert_eq!(wm.enable_overlay_interaction(&String::from("overlay")), Ok(()));
    let st = state_of(&wm, "overlay");
    assert!(st.focused);
    assert!(!st.passthrough);
}

#[test]
fn disable_interaction_twice_equals_once() {
    let mut wm = manager_with_both_windows();
    wm.disable_overlay_interaction(&String::from("overlay")).unwrap();
    let once = state_of(&wm, "overlay");
    assert!(once.passthrough);
    wm.disable_overlay_interaction(&String::from("overlay")).unwrap();
    assert_eq!(state_of(&wm, "overlay"), once);
}

#[test]
fn enable_interaction_twice_equals_once() {
    let mut wm = manager_with_both_windows();
    wm.enable_overlay_interaction(&String::from("overlay")).unwrap();
    let once = state_of(&wm, "overlay");
    wm.enable_overlay_interaction(&String::from("overlay")).unwrap();
    assert_eq!(state_of(&wm, "overlay"), once);
}

#[test]
fn broadcast_type_selects_channel() {
    let mut wm = manager_with_both_windows();
    let toggle = String::from("toggle-edit-mode");
    assert_eq!(wm.broadcast_to_overlay(Some(&toggle)), Ok(()));
    assert_eq!(wm.overlay_events, vec![Channel::ToggleEditMode]);
}

#[test]
fn broadcast_without_type_defaults_to_settings() {
    let mut wm = manager_with_both_windows();
    assert_eq!(wm.broadcast_to_overlay(None), Ok(()));
    assert_eq!(wm.overlay_events, vec![Channel::SettingsUpdate]);
}

#[test]
fn broadcast_unknown_type_defaults_to_settings() {
    let mut wm = manager_with_both_windows();
    let unknown = String::from("resize");
    wm.broadcast_to_overlay(Some(&unknown)).unwrap();
    let settings = String::from("settings-update");
    wm.broadcast_to_overlay(Some(&settings)).unwrap();
    assert_eq!(wm.overlay_events, vec![Channel::SettingsUpdate, Channel::SettingsUpdate]);
}

#[test]
fn broadcast_without_overlay_degrades_to_no_op() {
    let mut wm = WindowManager::new();
    let toggle = String::from("toggle-edit-mode");
    assert_eq!(wm.broadcast_to_overlay(Some(&toggle)), Ok(()));
    assert!(wm.overlay_events.is_empty());
}

#[test]
fn broadcast_to_main_uses_edit_mode_state() {
    let mut wm = manager_with_both_windows();
    assert_eq!(wm.broadcast_to_main(), Ok(()));
    assert_eq!(wm.main_events, vec![Channel::EditModeState]);
}

#[test]
fn channel_names_match_event_names() {
    assert_eq!(Channel::ToggleEditMode.name(), "toggle-edit-mode");
    assert_eq!(Channel::SettingsUpdate.name(), "settings-update");
    assert_eq!(Channel::EditModeState.name(), "edit-mode-state");
}

#[test]
fn channel_for_message_matches_the_dispatch() {
    let toggle = String::from("toggle-edit-mode");
    assert_eq!(channel_for_message(Some(&toggle)), Channel::ToggleEditMode);
    let other = String::from("anything-else");
    assert_eq!(channel_for_message(Some(&other)), Channel::SettingsUpdate);
    assert_eq!(channel_for_message(None), Channel::SettingsUpdate);
}
