use vochat_desktop::hotkey::{ComboState, ComboTransition, KeyTransition, ALT_KEY, Z_KEY};

const OTHER_KEY: u32 = 99;

#[test]
fn alt_z_scenario() {
    let mut combo = ComboState::alt_z();
    assert_eq!(combo.on_key_event(ALT_KEY, KeyTransition::Press), None);
    assert_eq!(combo.on_key_event(Z_KEY, KeyTransition::Press), Some(ComboTransition::Activated));
    assert_eq!(combo.on_key_event(ALT_KEY, KeyTransition::Release), Some(ComboTransition::Deactivated));
    assert!(combo.is_held(1));
    assert_eq!(combo.on_key_event(Z_KEY, KeyTransition::Release), None);
    assert!(!combo.is_active());
}

#[test]
fn active_tracks_all_held() {
    let mut combo = ComboState::alt_z();
    let events = [
        (Z_KEY, KeyTransition::Press),
        (ALT_KEY, KeyTransition::Press),
        (Z_KEY, KeyTransition::Release),
        (Z_KEY, KeyTransition::Press),
        (ALT_KEY, KeyTransition::Release),
        (ALT_KEY, KeyTransition::Release),
        (OTHER_KEY, KeyTransition::Press),
    ];
    for (key, t) in events {
        combo.on_key_event(key, t);
        assert_eq!(combo.is_active(), combo.is_held(0) && combo.is_held(1));
    }
}

#[test]
fn repeated_press_activates_once() {
    let mut combo = ComboState::alt_z();
    combo.on_key_event(ALT_KEY, KeyTransition::Press);
    assert_eq!(combo.on_key_event(Z_KEY, KeyTransition::Press), Some(ComboTransition::Activated));
    assert_eq!(combo.on_key_event(Z_KEY, KeyTransition::Press), None);
    assert_eq!(combo.on_key_event(Z_KEY, KeyTransition::Press), None);
    assert_eq!(combo.on_key_event(ALT_KEY, KeyTransition::Press), None);
    assert!(combo.is_active());
}

#[test]
fn release_of_either_key_deactivates() {
    let mut combo = ComboState::alt_z();
    combo.on_key_event(ALT_KEY, KeyTransition::Press);
    combo.on_key_event(Z_KEY, KeyTransition::Press);
    assert_eq!(combo.on_key_event(Z_KEY, KeyTransition::Release), Some(ComboTransition::Deactivated));
    assert!(combo.is_held(0));
    assert_eq!(combo.on_key_event(Z_KEY, KeyTransition::Press), Some(ComboTransition::Activated));
}

#[test]
fn other_keys_are_ignored() {
    let mut combo = ComboState::alt_z();
    assert_eq!(combo.on_key_event(OTHER_KEY, KeyTransition::Press), None);
    combo.on_key_event(ALT_KEY, KeyTransition::Press);
    combo.on_key_event(Z_KEY, KeyTransition::Press);
    assert_eq!(combo.on_key_event(OTHER_KEY, KeyTransition::Release), None);
    assert!(combo.is_active());
}

#[test]
fn empty_combination_is_refused() {
    assert!(ComboState::new(vec![]).is_none());
}

#[test]
fn three_key_combination() {
    let mut combo = ComboState::new(vec![10, 20, 30]).unwrap();
    assert_eq!(combo.on_key_event(10, KeyTransition::Press), None);
    assert_eq!(combo.on_key_event(20, KeyTransition::Press), None);
    assert_eq!(combo.on_key_event(30, KeyTransition::Press), Some(ComboTransition::Activated));
    assert_eq!(combo.on_key_event(20, KeyTransition::Release), Some(ComboTransition::Deactivated));
    assert_eq!(combo.on_key_event(10, KeyTransition::Release), None);
}

#[test]
fn single_key_combination() {
    let mut combo = ComboState::new(vec![7]).unwrap();
    assert!(!combo.is_active());
    assert_eq!(combo.on_key_event(7, KeyTransition::Press), Some(ComboTransition::Activated));
    assert_eq!(combo.on_key_event(7, KeyTransition::Release), Some(ComboTransition::Deactivated));
}
