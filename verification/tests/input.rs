use malen::input::input_state::{key_down_event, key_up_event};
use malen::input::keys_state::{window_key_down_event, window_key_up_event};
use malen::input::input_state::{Event, InputState};
use malen::input::keys_state::{Event as WindowEvent, KeysState};
use malen::input::{Key, VirtualKeyCode};

#[test]
fn key_codes() {
    assert_eq!(Key::from_keyboard_event("Digit1"), Some(Key::Key1));
    assert_eq!(Key::from_keyboard_event("KeyW"), Some(Key::W));
    assert_eq!(Key::from_keyboard_event("ArrowLeft"), Some(Key::Left));
    assert_eq!(Key::from_keyboard_event("Space"), Some(Key::Space));
    assert_eq!(Key::from_keyboard_event("Enter"), Some(Key::Return));
    assert_eq!(Key::from_keyboard_event("PlayPause"), Some(Key::PlayPause));
    assert_eq!(Key::from_keyboard_event("Power"), Some(Key::Power));
    assert_eq!(Key::from_keyboard_event("Tab"), Some(Key::Tab));
    assert_eq!(Key::from_keyboard_event("ShiftRight"), Some(Key::RShift));
    assert_eq!(Key::from_keyboard_event("Slash"), Some(Key::Slash));
    assert_eq!(Key::from_keyboard_event("AudioVolumeDown"), Some(Key::VolumeDown));
    assert_eq!(Key::from_keyboard_event("Yen"), Some(Key::Yen));
    assert_eq!(Key::from_keyboard_event("Copy"), None);
    assert_eq!(Key::from_keyboard_event("keyw"), None);
    assert_eq!(Key::from_keyboard_event(""), None);
}

#[test]
fn virtual_key_codes() {
    assert_eq!(VirtualKeyCode::from_keyboard_event("Digit0"), Some(VirtualKeyCode::Key0));
    assert_eq!(VirtualKeyCode::from_keyboard_event("F24"), Some(VirtualKeyCode::F24));
    assert_eq!(VirtualKeyCode::from_keyboard_event("Power"), Some(VirtualKeyCode::Power));
    assert_eq!(VirtualKeyCode::from_keyboard_event("Yen"), Some(VirtualKeyCode::Yen));
    assert_eq!(VirtualKeyCode::from_keyboard_event("AudioVolumeUp"), Some(VirtualKeyCode::VolumeUp));
    assert_eq!(VirtualKeyCode::from_keyboard_event("Copy"), None);
}

#[test]
fn input_state_tracks_keys_and_mouse() {
    let mut s = InputState::new();
    assert!(!s.key(Key::A));
    s.handle_event(&Event::KeyPressed(Key::A));
    s.handle_event(&Event::KeyPressed(Key::B));
    s.handle_event(&Event::KeyPressed(Key::A));
    assert!(s.key(Key::A) && s.key(Key::B));
    assert_eq!(s.pressed_keys().len(), 2);
    s.handle_event(&Event::KeyReleased(Key::A));
    assert!(!s.key(Key::A) && s.key(Key::B));
    s.handle_event(&Event::MouseMoved(3.5f64.to_bits(), 4.0f64.to_bits()));
    assert_eq!(s.mouse_logical_pos(), (3.5f64.to_bits(), 4.0f64.to_bits()));
    s.handle_event(&Event::Focused);
    assert!(s.key(Key::B));
    s.handle_event(&Event::Unfocused);
    assert!(!s.key(Key::B));
    assert!(s.pressed_keys().is_empty());
    assert_eq!(s.mouse_logical_pos(), (3.5f64.to_bits(), 4.0f64.to_bits()));
}

#[test]
fn keys_state_tracks_keys() {
    let mut s = KeysState::default();
    s.on_event(&WindowEvent::KeyPressed(VirtualKeyCode::Escape));
    assert!(s.key(VirtualKeyCode::Escape));
    s.on_event(&WindowEvent::WindowResized(800.0f64.to_bits(), 600.0f64.to_bits()));
    assert!(s.key(VirtualKeyCode::Escape));
    s.on_event(&WindowEvent::KeyReleased(VirtualKeyCode::Space));
    assert!(s.key(VirtualKeyCode::Escape));
    s.on_event(&WindowEvent::Unfocused);
    assert!(!s.key(VirtualKeyCode::Escape));
}

#[test]
fn pressed_keys_come_in_key_order() {
    let mut s = InputState::new();
    s.handle_event(&Event::KeyPressed(Key::Space));
    s.handle_event(&Event::KeyPressed(Key::W));
    s.handle_event(&Event::KeyPressed(Key::Key3));
    s.handle_event(&Event::KeyPressed(Key::A));
    s.handle_event(&Event::KeyPressed(Key::W));
    assert_eq!(s.pressed_keys(), vec![Key::Key3, Key::A, Key::W, Key::Space]);
    let mut sorted = s.pressed_keys().to_vec();
    sorted.sort();
    assert_eq!(sorted, s.pressed_keys());
    s.handle_event(&Event::KeyReleased(Key::A));
    assert_eq!(s.pressed_keys(), vec![Key::Key3, Key::W, Key::Space]);
    assert_eq!(Key::from_rank(Key::Space.rank()), Key::Space);
    assert_eq!(Key::from_rank(0), Key::Key1);
    assert_eq!(Key::Key1.rank(), 0);
    assert!(Key::A.rank() < Key::Space.rank());
}

#[test]
fn input_state_default_is_empty() {
    let s = InputState::default();
    assert!(s.pressed_keys().is_empty());
    assert_eq!(s.mouse_logical_pos(), (0, 0));
    assert!(!s.key(Key::Escape));
}

#[test]
fn key_and_window_key_tables_agree() {
    let codes = [
        "Digit1", "KeyQ", "F24", "PrintScreen", "ArrowUp", "NumpadEnter", "PlayPause", "Power",
        "PrevTrack", "AltRight", "BracketRight", "ControlRight", "ShiftRight", "MetaRight",
        "Slash", "Sleep", "Stop", "Sysrq", "Tab", "Underline", "Unlabeled", "AudioVolumeDown",
        "AudioVolumeUp", "Wake", "WebBack", "WebFavorites", "WebForward", "WebHome",
        "WebRefresh", "WebSearch", "WebStop", "Yen", "Copy", "", "tab",
    ];
    for code in codes {
        let key = Key::from_keyboard_event(code).map(|k| format!("{:?}", k));
        let window_key = VirtualKeyCode::from_keyboard_event(code).map(|k| format!("{:?}", k));
        assert_eq!(key, window_key, "code {}", code);
    }
}

#[test]
fn key_events_from_codes() {
    assert_eq!(key_down_event("KeyA", false), Some(Event::KeyPressed(Key::A)));
    assert_eq!(key_down_event("KeyA", true), None);
    assert_eq!(key_down_event("Nope", false), None);
    assert_eq!(key_up_event("Tab"), Some(Event::KeyReleased(Key::Tab)));
    assert_eq!(key_up_event("Copy"), None);
    assert_eq!(
        window_key_down_event("Yen"),
        Some(WindowEvent::KeyPressed(VirtualKeyCode::Yen))
    );
    assert_eq!(
        window_key_up_event("Space"),
        Some(WindowEvent::KeyReleased(VirtualKeyCode::Space))
    );
    assert_eq!(window_key_up_event("space"), None);
}

#[test]
fn window_keys_pressed_and_released() {
    let mut s = KeysState::new();
    s.on_event(&WindowEvent::KeyPressed(VirtualKeyCode::A));
    s.on_event(&WindowEvent::KeyPressed(VirtualKeyCode::Yen));
    s.on_event(&WindowEvent::KeyPressed(VirtualKeyCode::A));
    s.on_event(&WindowEvent::KeyReleased(VirtualKeyCode::A));
    assert!(!s.key(VirtualKeyCode::A));
    assert!(s.key(VirtualKeyCode::Yen));
    assert_eq!(VirtualKeyCode::Key1.rank(), 0);
}
