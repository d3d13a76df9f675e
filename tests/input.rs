use raylib4::gamepad::{Gamepad, GamepadAxis, GamepadButton};
use raylib4::keyboard::{Key, Keyboard};
use raylib4::mouse::{MouseButton, MouseCursor};
use raylib4::touch::{gestures_to_flags, Gesture};

#[test]
fn key_codes_map_both_ways() {
    assert_eq!(Key::from_u32(65), Some(Key::A));
    assert_eq!(Key::from_u32(32), Some(Key::Space));
    assert_eq!(Key::from_u32(348), Some(Key::KbMenu));
    assert_eq!(Key::from_u32(256), Some(Key::Escape));
    assert_eq!(Key::A.code(), 65);
    assert_eq!(Key::Escape.code(), 256);
}

#[test]
fn unknown_key_codes_give_none() {
    assert_eq!(Key::from_u32(0), None);
    assert_eq!(Key::from_u32(1), None);
    assert_eq!(Key::from_u32(58), None);
    assert_eq!(Key::from_u32(349), None);
    assert_eq!(Key::from_u32(u32::MAX), None);
}

#[test]
fn char_queue_is_decoded_until_the_end_marker() {
    let mut kb = Keyboard::new();
    assert!(kb.record_char_code('h' as i32));
    assert!(kb.record_char_code(0xD800));
    assert!(kb.record_char_code(-5));
    assert!(kb.record_char_code('é' as i32));
    assert!(!kb.record_char_code(0));
    let mut chars = kb.take_pressed_chars();
    assert_eq!(chars.next(), Some('h'));
    assert_eq!(chars.next(), Some('é'));
    assert_eq!(chars.next(), None);
    assert_eq!(chars.next(), None);
}

#[test]
fn drained_char_queue_stays_empty_in_the_same_frame() {
    let mut kb = Keyboard::new();
    kb.record_char_code('a' as i32);
    kb.record_char_code('b' as i32);
    let mut first = kb.take_pressed_chars();
    assert_eq!(first.next(), Some('a'));
    assert_eq!(first.next(), Some('b'));
    assert_eq!(first.next(), None);
    let mut second = kb.take_pressed_chars();
    assert_eq!(second.next(), None);
}

#[test]
fn drained_key_queue_stays_empty_in_the_same_frame() {
    let mut kb = Keyboard::new();
    assert!(kb.record_key_code(87));
    assert!(kb.record_key_code(9999));
    assert!(kb.record_key_code(262));
    assert!(!kb.record_key_code(0));
    let mut first = kb.take_pressed_keys();
    assert_eq!(first.next(), Some(Key::W));
    assert_eq!(first.next(), Some(Key::Right));
    assert_eq!(first.next(), None);
    let mut second = kb.take_pressed_keys();
    assert_eq!(second.next(), None);
}

#[test]
fn key_and_char_queues_are_separate() {
    let mut kb = Keyboard::new();
    kb.record_char_code('x' as i32);
    kb.record_key_code(88);
    let mut keys = kb.take_pressed_keys();
    assert_eq!(keys.next(), Some(Key::X));
    let mut chars = kb.take_pressed_chars();
    assert_eq!(chars.next(), Some('x'));
}

#[test]
fn gamepad_button_pressed_codes() {
    assert_eq!(GamepadButton::from_pressed_code(-1), None);
    assert_eq!(GamepadButton::from_pressed_code(1), Some(GamepadButton::LeftFaceUp));
    assert_eq!(GamepadButton::from_pressed_code(5), Some(GamepadButton::RightFaceUp));
    assert_eq!(GamepadButton::from_pressed_code(17), Some(GamepadButton::RightThumb));
    assert_eq!(GamepadButton::from_pressed_code(0), Some(GamepadButton::Unknown));
    assert_eq!(GamepadButton::from_pressed_code(42), Some(GamepadButton::Unknown));
    assert_eq!(GamepadButton::MiddleRight.code(), 15);
}

#[test]
fn gamepad_axes_follow_the_reported_count() {
    assert_eq!(
        Gamepad::get_axises(4),
        vec![GamepadAxis::LeftX, GamepadAxis::LeftY, GamepadAxis::RightX, GamepadAxis::RightY]
    );
    assert_eq!(Gamepad::get_axises(10).len(), 6);
    assert_eq!(Gamepad::get_axises(0), vec![]);
    assert_eq!(Gamepad::get_axises(-3), vec![]);
    assert_eq!(GamepadAxis::from_u32(5), Some(GamepadAxis::RightTrigger));
    assert_eq!(GamepadAxis::from_u32(6), None);
}

#[test]
fn gesture_codes_and_flags() {
    assert_eq!(Gesture::from_detected_code(8), Gesture::Drag);
    assert_eq!(Gesture::from_detected_code(512), Gesture::PinchOut);
    assert_eq!(Gesture::from_detected_code(0), Gesture::NoGesture);
    assert_eq!(Gesture::from_detected_code(3), Gesture::NoGesture);
    assert_eq!(gestures_to_flags(&[Gesture::Tap, Gesture::Drag]), 9);
    assert_eq!(gestures_to_flags(&[Gesture::Tap, Gesture::Tap]), 1);
    assert_eq!(gestures_to_flags(&[]), 0);
}

#[test]
fn mouse_codes() {
    assert_eq!(MouseButton::Left.code(), 0);
    assert_eq!(MouseButton::Back.code(), 6);
    assert_eq!(MouseCursor::NotAllowed.code(), 10);
}
