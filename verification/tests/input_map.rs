use gui_bridge::input::{
    forwarded_char, gui_key_pressed, map_key, modifiers_of, GuiKey, HostKey, TextKey,
};

#[test]
fn the_key_table_maps_named_keys_to_their_physical_keys() {
    assert_eq!(map_key(GuiKey::Tab), HostKey::Tab);
    assert_eq!(map_key(GuiKey::LeftArrow), HostKey::ArrowLeft);
    assert_eq!(map_key(GuiKey::Menu), HostKey::ContextMenu);
    assert_eq!(map_key(GuiKey::Alpha0), HostKey::Digit0);
    assert_eq!(map_key(GuiKey::A), HostKey::KeyA);
    assert_eq!(map_key(GuiKey::Z), HostKey::KeyZ);
    assert_eq!(map_key(GuiKey::F12), HostKey::F12);
    assert_eq!(map_key(GuiKey::Apostrophe), HostKey::Quote);
    assert_eq!(map_key(GuiKey::GraveAccent), HostKey::Backquote);
    assert_eq!(map_key(GuiKey::Keypad9), HostKey::Numpad9);
    assert_eq!(map_key(GuiKey::KeypadEqual), HostKey::NumpadEqual);
}

#[test]
fn gamepad_mouse_and_reserved_keys_map_to_the_sentinel() {
    assert_eq!(map_key(GuiKey::GamepadStart), HostKey::Unknown);
    assert_eq!(map_key(GuiKey::GamepadRStickDown), HostKey::Unknown);
    assert_eq!(map_key(GuiKey::MouseLeft), HostKey::Unknown);
    assert_eq!(map_key(GuiKey::MouseWheelY), HostKey::Unknown);
    assert_eq!(map_key(GuiKey::ReservedForModCtrl), HostKey::Unknown);
    assert_eq!(map_key(GuiKey::ReservedForModSuper), HostKey::Unknown);
}

#[test]
fn pressed_keys_read_through_the_table() {
    let pressed = vec![HostKey::KeyA, HostKey::ShiftLeft, HostKey::Numpad3];
    assert!(gui_key_pressed(&pressed, GuiKey::A));
    assert!(gui_key_pressed(&pressed, GuiKey::LeftShift));
    assert!(gui_key_pressed(&pressed, GuiKey::Keypad3));
    assert!(!gui_key_pressed(&pressed, GuiKey::B));
    assert!(!gui_key_pressed(&pressed, GuiKey::RightShift));
}

#[test]
fn the_sentinel_is_never_reported_pressed() {
    // Even a pressed-key list that contains the sentinel itself cannot make
    // an unmapped key read as pressed.
    let pressed = vec![HostKey::Unknown, HostKey::KeyQ];
    assert!(!gui_key_pressed(&pressed, GuiKey::GamepadStart));
    assert!(!gui_key_pressed(&pressed, GuiKey::MouseLeft));
    assert!(gui_key_pressed(&pressed, GuiKey::Q));
}

#[test]
fn modifier_flags_combine_left_and_right_keys() {
    let pressed = vec![HostKey::AltRight, HostKey::ControlLeft];
    let m = modifiers_of(&pressed);
    assert!(m.alt);
    assert!(m.ctrl);
    assert!(!m.shift);
    assert!(!m.super_key);
    let none = modifiers_of(&Vec::new());
    assert!(!none.alt && !none.ctrl && !none.shift && !none.super_key);
}

#[test]
fn character_events_forward_their_last_code_point_when_pressed() {
    assert_eq!(forwarded_char(&TextKey::Character(vec!['a', 'b']), true), Some('b'));
    assert_eq!(forwarded_char(&TextKey::Character(vec!['x']), true), Some('x'));
    assert_eq!(forwarded_char(&TextKey::Character(Vec::new()), true), None);
    assert_eq!(forwarded_char(&TextKey::Character(vec!['a']), false), None);
}

#[test]
fn dead_keys_space_and_other_keys_forward_accordingly() {
    assert_eq!(forwarded_char(&TextKey::Dead(Some('e')), true), Some('e'));
    assert_eq!(forwarded_char(&TextKey::Dead(None), true), None);
    assert_eq!(forwarded_char(&TextKey::Space, true), Some(' '));
    assert_eq!(forwarded_char(&TextKey::Other, true), None);
    assert_eq!(forwarded_char(&TextKey::Space, false), None);
}
