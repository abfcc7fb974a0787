use overfloat::keybinds::{
    is_modifier_key, keypress_channel, keypress_window, modifier_key_at, Button, EventType,
    KeyboardState, MODIFIER_KEY_COUNT,
};
use overfloat::keys::Key;

#[test]
fn modifier_then_key_emits_one_combination() {
    let mut state = KeyboardState::new();
    assert_eq!(state.keydown(Key::ControlLeft), None);
    assert_eq!(state.keydown(Key::KeyA), Some("LCtrl+A".to_string()));
}

#[test]
fn held_key_repeats_emit_nothing() {
    let mut state = KeyboardState::new();
    assert_eq!(state.keydown(Key::KeyK), Some("K".to_string()));
    assert_eq!(state.keydown(Key::KeyK), None);
    assert_eq!(state.keydown(Key::KeyK), None);
    state.keyup(Key::KeyK);
    assert_eq!(state.keydown(Key::KeyK), Some("K".to_string()));
}

#[test]
fn modifiers_are_listed_in_the_fixed_order() {
    let mut state = KeyboardState::new();
    state.keydown(Key::ShiftLeft);
    state.keydown(Key::Alt);
    state.keydown(Key::ControlLeft);
    state.keydown(Key::MetaLeft);
    assert_eq!(state.keydown(Key::KeyA), Some("LMeta+LCtrl+Alt+LShft+A".to_string()));
}

#[test]
fn press_order_of_modifiers_does_not_matter() {
    let mut one = KeyboardState::new();
    one.keydown(Key::ShiftRight);
    one.keydown(Key::ControlRight);
    let mut other = KeyboardState::new();
    other.keydown(Key::ControlRight);
    other.keydown(Key::ShiftRight);
    let expected = Some("RCtrl+RShft+F5".to_string());
    assert_eq!(one.keydown(Key::F5), expected);
    assert_eq!(other.keydown(Key::F5), expected);
}

#[test]
fn all_modifiers_held() {
    let mut state = KeyboardState::new();
    for key in [
        Key::ShiftRight, Key::ShiftLeft, Key::AltGr, Key::Alt, Key::ControlRight,
        Key::ControlLeft, Key::MetaRight, Key::MetaLeft,
    ] {
        assert_eq!(state.keydown(key), None);
    }
    assert_eq!(
        state.keydown(Key::Return),
        Some("LMeta+RMeta+LCtrl+RCtrl+Alt+AltGr+LShft+RShft+Return".to_string())
    );
}

#[test]
fn other_held_keys_are_not_listed() {
    let mut state = KeyboardState::new();
    assert_eq!(state.keydown(Key::KeyA), Some("A".to_string()));
    assert_eq!(state.keydown(Key::KeyB), Some("B".to_string()));
    state.keydown(Key::Alt);
    assert_eq!(state.keydown(Key::KeyC), Some("Alt+C".to_string()));
}

#[test]
fn released_modifier_is_no_longer_listed() {
    let mut state = KeyboardState::new();
    state.keydown(Key::ControlLeft);
    state.keydown(Key::ShiftLeft);
    state.keyup(Key::ControlLeft);
    assert_eq!(state.keydown(Key::KeyX), Some("LShft+X".to_string()));
}

#[test]
fn releasing_a_key_that_was_never_pressed_changes_nothing() {
    let mut state = KeyboardState::new();
    state.keyup(Key::KeyQ);
    state.keyup(Key::ControlLeft);
    assert!(!state.is_pressed(Key::KeyQ));
    assert!(!state.is_pressed(Key::ControlLeft));
    assert_eq!(state.keydown(Key::KeyQ), Some("Q".to_string()));
    state.keydown(Key::ControlLeft);
    state.keyup(Key::KeyW);
    assert_eq!(state.keydown(Key::KeyE), Some("LCtrl+E".to_string()));
}

#[test]
fn unmapped_key_is_tracked_and_emits_nothing() {
    let mut state = KeyboardState::new();
    assert_eq!(state.keydown(Key::Unknown(77)), None);
    assert!(state.is_pressed(Key::Unknown(77)));
    assert!(!state.is_pressed(Key::Unknown(78)));
    state.keyup(Key::Unknown(77));
    assert!(!state.is_pressed(Key::Unknown(77)));
}

#[test]
fn unmapped_keys_do_not_disturb_named_keys() {
    let mut state = KeyboardState::new();
    state.keydown(Key::Unknown(0));
    assert!(!state.is_pressed(Key::Alt));
    state.keydown(Key::Alt);
    state.keyup(Key::Unknown(0));
    assert!(state.is_pressed(Key::Alt));
    assert_eq!(state.keydown(Key::KeyA), Some("Alt+A".to_string()));
}

#[test]
fn modifier_alone_emits_nothing() {
    let mut state = KeyboardState::new();
    for index in 0..MODIFIER_KEY_COUNT {
        assert_eq!(state.keydown(modifier_key_at(index)), None);
    }
}

#[test]
fn pressed_state_follows_presses_and_releases() {
    let mut state = KeyboardState::new();
    assert!(!state.is_pressed(Key::Tab));
    state.keydown(Key::Tab);
    assert!(state.is_pressed(Key::Tab));
    state.keyup(Key::Tab);
    assert!(!state.is_pressed(Key::Tab));
}

#[test]
fn events_are_dispatched() {
    let mut state = KeyboardState::new();
    assert_eq!(state.handle_key_press_event(EventType::KeyPress(Key::ShiftLeft)), None);
    assert_eq!(
        state.handle_key_press_event(EventType::KeyPress(Key::Num1)),
        Some("LShft+1".to_string())
    );
    assert_eq!(state.handle_key_press_event(EventType::KeyPress(Key::Num1)), None);
    assert_eq!(state.handle_key_press_event(EventType::KeyRelease(Key::Num1)), None);
    assert_eq!(state.handle_key_press_event(EventType::KeyRelease(Key::ShiftLeft)), None);
    assert_eq!(
        state.handle_key_press_event(EventType::KeyPress(Key::Num1)),
        Some("1".to_string())
    );
}

#[test]
fn mouse_events_are_ignored() {
    let mut state = KeyboardState::new();
    state.keydown(Key::Alt);
    assert_eq!(state.handle_key_press_event(EventType::ButtonPress(Button::Left)), None);
    assert_eq!(state.handle_key_press_event(EventType::ButtonRelease(Button::Unknown(9))), None);
    assert_eq!(state.handle_key_press_event(EventType::MouseMove), None);
    assert_eq!(
        state.handle_key_press_event(EventType::Wheel { delta_x: 1, delta_y: -1 }),
        None
    );
    assert!(state.is_pressed(Key::Alt));
}

#[test]
fn the_modifier_keys() {
    let expected = [
        Key::MetaLeft, Key::MetaRight, Key::ControlLeft, Key::ControlRight, Key::Alt,
        Key::AltGr, Key::ShiftLeft, Key::ShiftRight,
    ];
    assert_eq!(MODIFIER_KEY_COUNT, 8);
    for (index, key) in expected.iter().enumerate() {
        assert_eq!(modifier_key_at(index), *key);
        assert!(is_modifier_key(*key));
    }
    assert!(!is_modifier_key(Key::KeyA));
    assert!(!is_modifier_key(Key::CapsLock));
    assert!(!is_modifier_key(Key::Unknown(3)));
}

#[test]
fn combinations_are_announced_on_a_fixed_channel() {
    assert_eq!(keypress_window(), "Overfloat");
    assert_eq!(keypress_channel(), "Overfloat://GlobalKeypress");
}
