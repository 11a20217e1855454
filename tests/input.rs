use cafe_auth::input::{
    is_control, to_key, to_key_scroll, to_modifier, to_mouse_button, to_scroll, Key, KeyModifiers, Modifier,
    MouseButton, ScrollDirection, ScrollEvent, TouchEventType,
};

#[test]
fn letters_answer_to_both_cases() {
    assert_eq!(to_key(65, Some('A')), (Some('A'), Some(Key::A)));
    assert_eq!(to_key(97, Some('a')), (Some('a'), Some(Key::A)));
    assert_eq!(to_key(122, Some('z')), (Some('z'), Some(Key::Z)));
}

#[test]
fn named_keys_map() {
    assert_eq!(to_key(32, Some(' ')), (Some(' '), Some(Key::Space)));
    assert_eq!(to_key(65364, None), (None, Some(Key::Down)));
    assert_eq!(to_key(65362, None), (None, Some(Key::Up)));
    assert_eq!(to_key(65470, None), (None, Some(Key::F1)));
    assert_eq!(to_key(65494, None), (None, Some(Key::F25)));
    assert_eq!(to_key(65456, Some('0')), (Some('0'), Some(Key::Kp0)));
    assert_eq!(to_key(65469, Some('=')), (Some('='), Some(Key::KpEqual)));
    assert_eq!(to_key(64797, None), (None, Some(Key::PrintScreen)));
    assert_eq!(to_key(65383, None), (None, Some(Key::Menu)));
}

#[test]
fn control_characters_are_dropped() {
    assert_eq!(to_key(65293, Some('\r')), (None, Some(Key::Enter)));
    assert_eq!(to_key(65289, Some('\t')), (None, Some(Key::Tab)));
    assert_eq!(to_key(65307, Some('\u{1b}')), (None, Some(Key::Escape)));
    assert_eq!(to_key(65535, Some('\u{7f}')), (None, Some(Key::Delete)));
}

#[test]
fn unknown_codes_give_nothing() {
    assert_eq!(to_key(0, Some('x')), (None, None));
    assert_eq!(to_key(12345, None), (None, None));
    assert_eq!(to_key(65495, None), (None, None));
}

#[test]
fn key_mapping_is_deterministic() {
    for code in [32u32, 48, 65, 97, 91, 65104, 65421, 65516, 99999] {
        assert_eq!(to_key(code, Some('q')), to_key(code, Some('q')));
    }
}

#[test]
fn control_character_bounds() {
    assert!(is_control('\u{0}'));
    assert!(is_control('\u{1f}'));
    assert!(!is_control(' '));
    assert!(!is_control('~'));
    assert!(is_control('\u{7f}'));
    assert!(is_control('\u{9f}'));
    assert!(!is_control('\u{a0}'));
}

#[test]
fn mouse_buttons() {
    assert_eq!(to_mouse_button(1), Some(MouseButton::Left));
    assert_eq!(to_mouse_button(2), Some(MouseButton::Middle));
    assert_eq!(to_mouse_button(3), Some(MouseButton::Right));
    assert_eq!(to_mouse_button(0), None);
    assert_eq!(to_mouse_button(8), None);
}

fn mods(alt: bool, super_key: bool, control: bool, shift: bool) -> KeyModifiers {
    KeyModifiers { alt, super_key, control, shift }
}

#[test]
fn modifier_bits_are_tested_independently() {
    assert_eq!(to_modifier(0), KeyModifiers::empty());
    assert_eq!(to_modifier(0x1), mods(false, false, false, true));
    assert_eq!(to_modifier(0x4), mods(false, false, true, false));
    assert_eq!(to_modifier(0x400_0000), mods(false, true, false, false));
    assert_eq!(to_modifier(0x1000_0000), mods(true, false, false, false));
    assert_eq!(to_modifier(0x8), KeyModifiers::empty());
    assert_eq!(to_modifier(0xffff_ffff), mods(true, true, true, true));
}

#[test]
fn modifiers_of_combined_mask_are_the_union() {
    let a: u32 = 0x1 | 0x8;
    let b: u32 = 0x4 | 0x1000_0000;
    let ma = to_modifier(a);
    let mb = to_modifier(b);
    let union = mods(ma.alt || mb.alt, ma.super_key || mb.super_key, ma.control || mb.control, ma.shift || mb.shift);
    assert_eq!(to_modifier(a | b), union);
    assert_eq!(to_modifier(a | b), to_modifier(b | a));
    assert_eq!(to_modifier(a | a), to_modifier(a));
}

#[test]
fn inserting_modifiers() {
    let mut m = KeyModifiers::empty();
    assert!(m.is_empty());
    m.insert(Modifier::Shift);
    m.insert(Modifier::Shift);
    assert!(!m.is_empty());
    assert_eq!(m, mods(false, false, false, true));
}

#[test]
fn wheel_scrolls_one_line() {
    assert_eq!(
        to_scroll(0, ScrollDirection::Down, 10, 20),
        Some(ScrollEvent { delta_x: 0, delta_y: -38, origin_x: 10, origin_y: 20, phase: TouchEventType::Down })
    );
    assert_eq!(
        to_scroll(0x1, ScrollDirection::Up, 1, 2),
        Some(ScrollEvent { delta_x: 0, delta_y: 38, origin_x: 1, origin_y: 2, phase: TouchEventType::Up })
    );
    assert_eq!(
        to_scroll(0, ScrollDirection::Left, 0, 0),
        Some(ScrollEvent { delta_x: 0, delta_y: 0, origin_x: 0, origin_y: 0, phase: TouchEventType::Cancel })
    );
    assert_eq!(
        to_scroll(0, ScrollDirection::Smooth, 0, 0),
        Some(ScrollEvent { delta_x: 0, delta_y: 0, origin_x: 0, origin_y: 0, phase: TouchEventType::Cancel })
    );
}

#[test]
fn wheel_with_control_is_ignored() {
    assert_eq!(to_scroll(0x4, ScrollDirection::Down, 10, 20), None);
    assert_eq!(to_scroll(0x5, ScrollDirection::Up, 10, 20), None);
}

#[test]
fn arrow_keys_scroll_two_lines() {
    let none = KeyModifiers::empty();
    assert_eq!(
        to_key_scroll(None, Key::Down, none, 3, 4),
        Some(ScrollEvent { delta_x: 0, delta_y: -76, origin_x: 3, origin_y: 4, phase: TouchEventType::Down })
    );
    assert_eq!(
        to_key_scroll(None, Key::Up, none, 3, 4),
        Some(ScrollEvent { delta_x: 0, delta_y: 76, origin_x: 3, origin_y: 4, phase: TouchEventType::Up })
    );
    assert_eq!(to_key_scroll(None, Key::Left, none, 3, 4), None);
    assert_eq!(to_key_scroll(Some('x'), Key::Down, none, 3, 4), None);
    assert_eq!(to_key_scroll(None, Key::Down, mods(false, false, false, true), 3, 4), None);
}
