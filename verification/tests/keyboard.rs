use gadgets::engine::{Config, EngineId, Intent};
use gadgets::gesture::{GestureDetector, GestureState};
use gadgets::keys::{Key, KeyEvent, Modifier, ModifierState};

fn press(key: Key) -> KeyEvent {
    KeyEvent { key, pressed: true }
}

fn release(key: Key) -> KeyEvent {
    KeyEvent { key, pressed: false }
}

fn force_primary() -> Option<Intent> {
    Some(Intent::ForceSwitch(EngineId::new("xkb:us::eng")))
}

#[test]
fn keys_belong_to_their_modifier() {
    assert_eq!(Key::ControlLeft.modifier(), Some(Modifier::Control));
    assert_eq!(Key::ControlRight.modifier(), Some(Modifier::Control));
    assert_eq!(Key::MetaLeft.modifier(), Some(Modifier::Super));
    assert_eq!(Key::MetaRight.modifier(), Some(Modifier::Super));
    assert_eq!(Key::Space.modifier(), None);
    assert_eq!(Key::LeftBracket.modifier(), None);
    assert_eq!(Key::Other(3).modifier(), None);
}

#[test]
fn the_tracker_follows_presses_and_releases() {
    let mut m = ModifierState::new();
    assert!(!m.is_pressed(Key::ControlLeft));
    assert!(!m.is_held(Modifier::Control));
    m.record(Key::ControlLeft, true);
    assert!(m.is_pressed(Key::ControlLeft));
    assert!(!m.is_pressed(Key::ControlRight));
    assert!(m.is_held(Modifier::Control));
    assert!(!m.is_held(Modifier::Super));
    m.record(Key::ControlRight, true);
    m.record(Key::ControlLeft, false);
    assert!(!m.is_pressed(Key::ControlLeft));
    assert!(m.is_held(Modifier::Control));
    m.record(Key::ControlRight, false);
    assert!(!m.is_held(Modifier::Control));
    m.record(Key::MetaRight, true);
    assert!(m.is_pressed(Key::MetaRight));
    assert!(m.is_held(Modifier::Super));
}

#[test]
fn releasing_a_key_never_pressed_changes_nothing() {
    let mut m = ModifierState::new();
    m.record(Key::MetaLeft, false);
    assert!(!m.is_pressed(Key::MetaLeft));
    m.record(Key::ControlLeft, true);
    m.record(Key::ControlRight, false);
    assert!(m.is_pressed(Key::ControlLeft));
    assert!(!m.is_pressed(Key::ControlRight));
}

#[test]
fn other_keys_are_not_tracked() {
    let mut m = ModifierState::new();
    m.record(Key::Space, true);
    m.record(Key::Other(42), true);
    m.record(Key::LeftBracket, true);
    assert!(!m.is_pressed(Key::Space));
    assert!(!m.is_pressed(Key::Other(42)));
    assert!(!m.is_pressed(Key::LeftBracket));
    assert!(!m.is_held(Modifier::Control));
    assert!(!m.is_held(Modifier::Super));
}

#[test]
fn untracked_keys_leave_the_detector_alone() {
    let config = Config::standard();
    let mut d = GestureDetector::new();
    d.on_key(&config, press(Key::MetaLeft));
    d.on_key(&config, press(Key::ControlRight));
    for code in 0..50u32 {
        assert_eq!(d.on_key(&config, press(Key::Other(code))), None);
        assert_eq!(d.on_key(&config, release(Key::Other(code))), None);
        assert_eq!(d.gesture(), GestureState::ComboModifierHeld);
        assert!(d.modifiers().is_pressed(Key::MetaLeft));
        assert!(d.modifiers().is_pressed(Key::ControlRight));
        assert!(!d.modifiers().is_pressed(Key::MetaRight));
        assert!(!d.modifiers().is_pressed(Key::ControlLeft));
    }
    let mut idle = GestureDetector::new();
    assert_eq!(idle.on_key(&config, press(Key::Other(1))), None);
    assert_eq!(idle.gesture(), GestureState::Idle);
}

#[test]
fn the_chord_forces_the_primary_engine_on_every_press() {
    let config = Config::standard();
    let mut d = GestureDetector::new();
    assert_eq!(d.on_key(&config, press(Key::LeftBracket)), None);
    assert_eq!(d.on_key(&config, press(Key::ControlLeft)), None);
    assert_eq!(d.on_key(&config, press(Key::LeftBracket)), force_primary());
    assert_eq!(d.on_key(&config, release(Key::LeftBracket)), None);
    assert_eq!(d.on_key(&config, press(Key::LeftBracket)), force_primary());
    assert_eq!(d.on_key(&config, press(Key::LeftBracket)), force_primary());
    assert_eq!(d.gesture(), GestureState::Idle);
    assert_eq!(d.on_key(&config, release(Key::ControlLeft)), None);
    assert_eq!(d.on_key(&config, press(Key::LeftBracket)), None);
    assert_eq!(d.on_key(&config, press(Key::ControlRight)), None);
    assert_eq!(d.on_key(&config, press(Key::LeftBracket)), force_primary());
}

#[test]
fn the_chord_works_in_every_state_of_the_combo() {
    let config = Config::standard();
    let mut d = GestureDetector::new();
    d.on_key(&config, press(Key::ControlLeft));
    d.on_key(&config, press(Key::MetaLeft));
    assert_eq!(d.gesture(), GestureState::ComboModifierHeld);
    assert_eq!(d.on_key(&config, press(Key::LeftBracket)), force_primary());
    assert_eq!(d.gesture(), GestureState::ComboModifierHeld);
    d.on_key(&config, press(Key::Space));
    assert_eq!(d.gesture(), GestureState::ComboDetected);
    assert_eq!(d.on_key(&config, press(Key::LeftBracket)), force_primary());
    assert_eq!(d.gesture(), GestureState::ComboDetected);
}

#[test]
fn the_combo_asks_for_reconciliation_once() {
    let config = Config::standard();
    let mut d = GestureDetector::new();
    assert_eq!(d.gesture(), GestureState::Idle);
    assert_eq!(d.on_key(&config, press(Key::MetaLeft)), None);
    assert_eq!(d.gesture(), GestureState::ComboModifierHeld);
    assert_eq!(d.on_key(&config, press(Key::Space)), None);
    assert_eq!(d.gesture(), GestureState::ComboDetected);
    assert_eq!(d.on_key(&config, release(Key::MetaLeft)), Some(Intent::ReconcilePending));
    assert_eq!(d.gesture(), GestureState::Idle);
    assert_eq!(d.on_key(&config, release(Key::MetaLeft)), None);
    assert_eq!(d.on_key(&config, release(Key::Space)), None);
    assert_eq!(d.gesture(), GestureState::Idle);
}

#[test]
fn a_bare_tap_asks_for_nothing() {
    let config = Config::standard();
    let mut d = GestureDetector::new();
    assert_eq!(d.on_key(&config, press(Key::MetaRight)), None);
    assert_eq!(d.on_key(&config, release(Key::MetaRight)), None);
    assert_eq!(d.gesture(), GestureState::Idle);
}

#[test]
fn other_events_do_not_reset_a_combo() {
    let config = Config::standard();
    let mut d = GestureDetector::new();
    d.on_key(&config, press(Key::MetaLeft));
    d.on_key(&config, press(Key::Other(30)));
    d.on_key(&config, release(Key::Other(30)));
    d.on_key(&config, press(Key::MetaLeft));
    d.on_key(&config, release(Key::Space));
    assert_eq!(d.gesture(), GestureState::ComboModifierHeld);
    d.on_key(&config, press(Key::Space));
    d.on_key(&config, press(Key::Space));
    d.on_key(&config, release(Key::Space));
    d.on_key(&config, press(Key::ControlLeft));
    d.on_key(&config, release(Key::ControlLeft));
    assert_eq!(d.gesture(), GestureState::ComboDetected);
    assert_eq!(d.on_key(&config, release(Key::MetaLeft)), Some(Intent::ReconcilePending));
}

#[test]
fn the_secondary_key_alone_does_nothing() {
    let config = Config::standard();
    let mut d = GestureDetector::new();
    assert_eq!(d.on_key(&config, press(Key::Space)), None);
    assert_eq!(d.gesture(), GestureState::Idle);
    assert_eq!(d.on_key(&config, press(Key::MetaLeft)), None);
    assert_eq!(d.on_key(&config, release(Key::MetaLeft)), None);
}

#[test]
fn either_key_of_the_primary_modifier_ends_the_combo() {
    let config = Config::standard();
    let mut d = GestureDetector::new();
    d.on_key(&config, press(Key::MetaLeft));
    d.on_key(&config, press(Key::Space));
    assert_eq!(d.on_key(&config, release(Key::MetaRight)), Some(Intent::ReconcilePending));
    assert_eq!(d.gesture(), GestureState::Idle);
}

#[test]
fn another_configuration_moves_the_gestures() {
    let mut config = Config::standard();
    config.primary_modifier = Modifier::Control;
    config.secondary_key = Key::Other(9);
    config.chord_key = Key::Other(9);
    config.primary_engine = EngineId::new("a");
    let mut d = GestureDetector::new();
    assert_eq!(d.on_key(&config, press(Key::ControlLeft)), None);
    assert_eq!(d.gesture(), GestureState::ComboModifierHeld);
    assert_eq!(
        d.on_key(&config, press(Key::Other(9))),
        Some(Intent::ForceSwitch(EngineId::new("a")))
    );
    assert_eq!(d.gesture(), GestureState::ComboDetected);
    assert_eq!(d.on_key(&config, release(Key::ControlLeft)), Some(Intent::ReconcilePending));
}
