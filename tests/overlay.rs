use vochat_desktop::hotkey::{ComboState, KeyTransition, ALT_KEY, Z_KEY};
use vochat_desktop::overlay::{on_hotkey_event, overlay_window_config, signal_name_of, AppState, HotkeyEffect, WindowAction};
use vochat_desktop::hotkey::ComboTransition;

#[test]
fn toggle_twice_restores_visibility() {
    for exists in [false, true] {
        for start in [false, true] {
            let mut s = AppState { overlay_visible: start, is_recording: true };
            let before = s;
            s.toggle_overlay(exists);
            assert_eq!(s.overlay_visible, !start);
            s.toggle_overlay(exists);
            assert_eq!(s, before);
        }
    }
}

#[test]
fn toggle_actions() {
    let mut s = AppState::new();
    assert_eq!(s.toggle_overlay(false), WindowAction::Create);
    assert_eq!(s.toggle_overlay(true), WindowAction::Hide);
    assert_eq!(s.toggle_overlay(true), WindowAction::Show);
    assert_eq!(s.toggle_overlay(false), WindowAction::Nothing);
    assert!(!s.overlay_visible);
}

#[test]
fn hide_twice_stays_hidden() {
    let mut s = AppState { overlay_visible: true, is_recording: false };
    assert_eq!(s.hide_overlay(true), WindowAction::Hide);
    assert!(!s.overlay_visible);
    assert_eq!(s.hide_overlay(true), WindowAction::Hide);
    assert!(!s.overlay_visible);
    assert_eq!(s.hide_overlay(false), WindowAction::Nothing);
    assert!(!s.overlay_visible);
}

#[test]
fn recording_flag_is_independent() {
    let mut s = AppState::new();
    s.set_recording(true);
    s.toggle_overlay(false);
    assert!(s.is_recording);
    s.hide_overlay(true);
    assert!(s.is_recording);
    s.set_recording(false);
    assert!(!s.is_recording);
}

#[test]
fn signal_names() {
    assert_eq!(signal_name_of(ComboTransition::Activated), "hotkey-pressed");
    assert_eq!(signal_name_of(ComboTransition::Deactivated), "hotkey-released");
}

#[test]
fn hotkey_edges_drive_the_overlay() {
    let mut combo = ComboState::alt_z();
    let mut state = AppState::new();
    let none = HotkeyEffect { window: WindowAction::Nothing, signal: None };
    assert_eq!(on_hotkey_event(&mut state, &mut combo, ALT_KEY, KeyTransition::Press, false), none);
    assert_eq!(
        on_hotkey_event(&mut state, &mut combo, Z_KEY, KeyTransition::Press, false),
        HotkeyEffect { window: WindowAction::Create, signal: Some("hotkey-pressed") }
    );
    assert!(state.overlay_visible);
    assert_eq!(on_hotkey_event(&mut state, &mut combo, Z_KEY, KeyTransition::Press, true), none);
    assert_eq!(
        on_hotkey_event(&mut state, &mut combo, Z_KEY, KeyTransition::Release, true),
        HotkeyEffect { window: WindowAction::Hide, signal: Some("hotkey-released") }
    );
    assert!(!state.overlay_visible);
    assert_eq!(
        on_hotkey_event(&mut state, &mut combo, Z_KEY, KeyTransition::Press, true),
        HotkeyEffect { window: WindowAction::Show, signal: Some("hotkey-pressed") }
    );
    assert_eq!(
        on_hotkey_event(&mut state, &mut combo, ALT_KEY, KeyTransition::Release, false),
        HotkeyEffect { window: WindowAction::Nothing, signal: None }
    );
    assert!(!state.overlay_visible);
}

#[test]
fn overlay_window_settings() {
    let c = overlay_window_config();
    assert_eq!(c.label, "overlay");
    assert_eq!(c.page, "overlay.html");
    assert_eq!(c.title, "vochat.io");
    assert_eq!((c.width, c.height, c.x, c.y), (280, 70, 0, 0));
    assert!(c.always_on_top && !c.decorations && c.transparent);
    assert!(!c.resizable && c.skip_taskbar && c.visible);
}
