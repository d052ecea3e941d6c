use repose_bevy::input::{
    ascii_lowercase, ime_enabled_write, ime_event_for, key_event_for, map_key, modifiers_from_keys,
    pointer_action, pointer_button_for, scroll_scale, ImeEvent, ImeMessage, Key, KeyEventType,
    LogicalKey, ModifierKeys, Modifiers, MouseButtonKind, PointerAction, PointerButton, ScrollUnit,
};

fn no_keys() -> ModifierKeys {
    ModifierKeys {
        shift_left: false,
        shift_right: false,
        control_left: false,
        control_right: false,
        alt_left: false,
        alt_right: false,
        super_left: false,
        super_right: false,
    }
}

#[test]
fn modifiers_fold_left_and_right() {
    let mut keys = no_keys();
    keys.shift_right = true;
    keys.alt_left = true;
    let m = modifiers_from_keys(&keys, false);
    assert_eq!(
        m,
        Modifiers { shift: true, ctrl: false, alt: true, meta: false, command: false }
    );
}

#[test]
fn command_is_ctrl_off_macos_and_meta_on_macos() {
    let mut keys = no_keys();
    keys.control_left = true;
    assert!(modifiers_from_keys(&keys, false).command);
    assert!(!modifiers_from_keys(&keys, true).command);
    let mut keys = no_keys();
    keys.super_right = true;
    assert!(!modifiers_from_keys(&keys, false).command);
    assert!(modifiers_from_keys(&keys, true).command);
    assert!(modifiers_from_keys(&keys, true).meta);
}

#[test]
fn no_modifier_keys_means_no_modifiers() {
    let m = modifiers_from_keys(&no_keys(), true);
    assert_eq!(
        m,
        Modifiers { shift: false, ctrl: false, alt: false, meta: false, command: false }
    );
}

#[test]
fn ascii_lowercase_only_touches_ascii_capitals() {
    assert_eq!(ascii_lowercase('A'), 'a');
    assert_eq!(ascii_lowercase('Z'), 'z');
    assert_eq!(ascii_lowercase('q'), 'q');
    assert_eq!(ascii_lowercase('@'), '@');
    assert_eq!(ascii_lowercase('['), '[');
    assert_eq!(ascii_lowercase('Ä'), 'Ä');
}

#[test]
fn character_keys_map_to_lowercase_first_char() {
    assert_eq!(map_key(&LogicalKey::Character("A".to_string())), Key::Character('a'));
    assert_eq!(map_key(&LogicalKey::Character("xy".to_string())), Key::Character('x'));
    assert_eq!(map_key(&LogicalKey::Character("É".to_string())), Key::Character('É'));
    assert_eq!(map_key(&LogicalKey::Character(String::new())), Key::Character('\0'));
}

#[test]
fn named_keys_map_one_to_one() {
    assert_eq!(map_key(&LogicalKey::Enter), Key::Enter);
    assert_eq!(map_key(&LogicalKey::Tab), Key::Tab);
    assert_eq!(map_key(&LogicalKey::Backspace), Key::Backspace);
    assert_eq!(map_key(&LogicalKey::Delete), Key::Delete);
    assert_eq!(map_key(&LogicalKey::Escape), Key::Escape);
    assert_eq!(map_key(&LogicalKey::ArrowLeft), Key::ArrowLeft);
    assert_eq!(map_key(&LogicalKey::ArrowRight), Key::ArrowRight);
    assert_eq!(map_key(&LogicalKey::ArrowUp), Key::ArrowUp);
    assert_eq!(map_key(&LogicalKey::ArrowDown), Key::ArrowDown);
    assert_eq!(map_key(&LogicalKey::Home), Key::Home);
    assert_eq!(map_key(&LogicalKey::End), Key::End);
    assert_eq!(map_key(&LogicalKey::PageUp), Key::PageUp);
    assert_eq!(map_key(&LogicalKey::PageDown), Key::PageDown);
    assert_eq!(map_key(&LogicalKey::Space), Key::Space);
    assert_eq!(map_key(&LogicalKey::Other), Key::Unknown);
}

#[test]
fn function_keys_are_numbered_from_one() {
    let fs = [
        LogicalKey::F1,
        LogicalKey::F2,
        LogicalKey::F3,
        LogicalKey::F4,
        LogicalKey::F5,
        LogicalKey::F6,
        LogicalKey::F7,
        LogicalKey::F8,
        LogicalKey::F9,
        LogicalKey::F10,
        LogicalKey::F11,
        LogicalKey::F12,
    ];
    for (i, f) in fs.iter().enumerate() {
        assert_eq!(map_key(f), Key::F((i + 1) as u8));
    }
}

#[test]
fn key_events_carry_utf16_for_characters_only() {
    let mods = modifiers_from_keys(&no_keys(), false);
    let e = key_event_for(&LogicalKey::Character("K".to_string()), true, false, mods);
    assert_eq!(e.key, Key::Character('k'));
    assert_eq!(e.utf16_code_point, 'k' as u16);
    assert_eq!(e.event_type, KeyEventType::Down);
    assert!(!e.is_repeat);

    let e = key_event_for(&LogicalKey::Enter, false, true, mods);
    assert_eq!(e.utf16_code_point, 0);
    assert_eq!(e.event_type, KeyEventType::Up);
    assert!(e.is_repeat);
}

#[test]
fn utf16_code_point_truncates_astral_characters() {
    let mods = modifiers_from_keys(&no_keys(), false);
    let e = key_event_for(&LogicalKey::Character("😀".to_string()), true, false, mods);
    assert_eq!(e.key, Key::Character('😀'));
    assert_eq!(e.utf16_code_point, ('😀' as u32 & 0xffff) as u16);
}

#[test]
fn mouse_buttons_map_to_pointer_buttons() {
    assert_eq!(pointer_button_for(MouseButtonKind::Left), Some(PointerButton::Primary));
    assert_eq!(pointer_button_for(MouseButtonKind::Right), Some(PointerButton::Secondary));
    assert_eq!(pointer_button_for(MouseButtonKind::Middle), Some(PointerButton::Tertiary));
    assert_eq!(pointer_button_for(MouseButtonKind::Back), None);
    assert_eq!(pointer_button_for(MouseButtonKind::Forward), None);
    assert_eq!(pointer_button_for(MouseButtonKind::Other(7)), None);
}

#[test]
fn pointer_actions_follow_button_state() {
    assert_eq!(
        pointer_action(MouseButtonKind::Left, true),
        Some(PointerAction::Press(PointerButton::Primary))
    );
    assert_eq!(
        pointer_action(MouseButtonKind::Right, false),
        Some(PointerAction::Release(PointerButton::Secondary))
    );
    assert_eq!(pointer_action(MouseButtonKind::Back, true), None);
}

#[test]
fn wheel_lines_are_thirty_two_pixels() {
    assert_eq!(scroll_scale(ScrollUnit::Line), 32);
    assert_eq!(scroll_scale(ScrollUnit::Pixel), 1);
}

#[test]
fn ime_messages_translate() {
    assert_eq!(ime_event_for(ImeMessage::Enabled), ImeEvent::Start);
    assert_eq!(ime_event_for(ImeMessage::Disabled), ImeEvent::Cancel);
    assert_eq!(
        ime_event_for(ImeMessage::Preedit { value: "か".to_string(), cursor: Some((0, 1)) }),
        ImeEvent::Update { text: "か".to_string(), cursor: Some((0, 1)) }
    );
    assert_eq!(
        ime_event_for(ImeMessage::Commit { value: "漢字".to_string() }),
        ImeEvent::Commit("漢字".to_string())
    );
}

#[test]
fn ime_switch_written_only_on_change() {
    assert_eq!(ime_enabled_write(false, true), Some(true));
    assert_eq!(ime_enabled_write(true, false), Some(false));
    assert_eq!(ime_enabled_write(true, true), None);
    assert_eq!(ime_enabled_write(false, false), None);
}
