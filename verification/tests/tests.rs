use orbkb::event::LogicalKeyboardEvent;
use orbkb::keys;
use orbkb::keys::Key;
use orbkb::keys::KeyType;
use orbkb::layout::gb;
use orbkb::layout::us;
use orbkb::scancode::scancode_to_key;
use orbkb::scancode::ScancodeReader;
use orbkb::state::KeyboardState;
use orbkb::state::Modifiers;

#[test]
fn test_simple() {
    let mut kb_state = KeyboardState::new(gb());

    // Press 'a' key, should emit 'a'
    let result = kb_state.actuate_key(Key::from_keycode(keys::KEY_A), true);
    assert_eq!(result.logical, Some(LogicalKeyboardEvent::Symbol('a')));
    kb_state.actuate_key(Key::from_keycode(keys::KEY_A), false);

    // Press '1' key, should emit '1'
    let result = kb_state.actuate_key(Key::from_keycode(keys::KEY_1), true);
    assert_eq!(result.logical, Some(LogicalKeyboardEvent::Symbol('1')));
    kb_state.actuate_key(Key::from_keycode(keys::KEY_1), false);
}

#[test]
fn test_shift_modifier() {
    let mut kb_state = KeyboardState::new(gb());

    // Press the shift key
    kb_state.actuate_key(Key::from_keycode(keys::KEY_L_SHIFT), true);

    // Press 'a' key, should emit 'A'
    let result = kb_state.actuate_key(Key::from_keycode(keys::KEY_A), true);
    assert_eq!(result.logical, Some(LogicalKeyboardEvent::Symbol('A')));
    kb_state.actuate_key(Key::from_keycode(keys::KEY_A), false);

    // Press '1' should emit '!'
    let result = kb_state.actuate_key(Key::from_keycode(keys::KEY_1), true);
    assert_eq!(result.logical, Some(LogicalKeyboardEvent::Symbol('!')));
    kb_state.actuate_key(Key::from_keycode(keys::KEY_1), false);

    // Release shift key
    kb_state.actuate_key(Key::from_keycode(keys::KEY_L_SHIFT), false);

    // Press 'a' key, should now emit 'a'
    let result = kb_state.actuate_key(Key::from_keycode(keys::KEY_A), true);
    assert_eq!(result.logical, Some(LogicalKeyboardEvent::Symbol('a')));
    kb_state.actuate_key(Key::from_keycode(keys::KEY_A), false);
}

#[test]
fn test_alt_gr_modifier() {
    let mut kb_state = KeyboardState::new(gb());

    // Press the alt gr key
    kb_state.actuate_key(Key::from_keycode(keys::KEY_ALT_GR), true);

    // Press '`' key, should emit '|'
    let result = kb_state.actuate_key(Key::from_keycode(keys::KEY_BACKTICK), true);
    assert_eq!(result.logical, Some(LogicalKeyboardEvent::Symbol('|')));
    kb_state.actuate_key(Key::from_keycode(keys::KEY_BACKTICK), false);
}

#[test]
fn test_caps_lock() {
    let mut kb_state = KeyboardState::new(gb());

    assert_eq!(kb_state.caps_lock(), false);

    // Press and release the caps lock key
    kb_state.actuate_key(Key::from_keycode(keys::KEY_CAPS_LOCK), true);
    kb_state.actuate_key(Key::from_keycode(keys::KEY_CAPS_LOCK), false);

    assert_eq!(kb_state.caps_lock(), true);

    // Press 'a' key, should emit 'A'
    let result = kb_state.actuate_key(Key::from_keycode(keys::KEY_A), true);
    assert_eq!(result.logical, Some(LogicalKeyboardEvent::Symbol('A')));
    kb_state.actuate_key(Key::from_keycode(keys::KEY_A), false);

    // Press '1' key, should emit '1'
    // Note: numerals and punctuation are unaffected by caps lock
    let result = kb_state.actuate_key(Key::from_keycode(keys::KEY_1), true);
    assert_eq!(result.logical, Some(LogicalKeyboardEvent::Symbol('1')));
    kb_state.actuate_key(Key::from_keycode(keys::KEY_1), false);

    // Press the shift key
    kb_state.actuate_key(Key::from_keycode(keys::KEY_L_SHIFT), true);

    // Press 'a' key, should emit 'a'
    // Note: The shift key negates the caps lock
    let result = kb_state.actuate_key(Key::from_keycode(keys::KEY_A), true);
    assert_eq!(result.logical, Some(LogicalKeyboardEvent::Symbol('a')));
    kb_state.actuate_key(Key::from_keycode(keys::KEY_A), false);

    // Press '1' key, should emit '!'
    let result = kb_state.actuate_key(Key::from_keycode(keys::KEY_1), true);
    assert_eq!(result.logical, Some(LogicalKeyboardEvent::Symbol('!')));
    kb_state.actuate_key(Key::from_keycode(keys::KEY_1), false);

    // Release the shift key
    kb_state.actuate_key(Key::from_keycode(keys::KEY_L_SHIFT), false);

    // Press and release the caps lock key again
    kb_state.actuate_key(Key::from_keycode(keys::KEY_CAPS_LOCK), true);
    kb_state.actuate_key(Key::from_keycode(keys::KEY_CAPS_LOCK), false);

    assert_eq!(kb_state.caps_lock(), false);

    // Press 'a' key, should emit 'a'
    let result = kb_state.actuate_key(Key::from_keycode(keys::KEY_A), true);
    assert_eq!(result.logical, Some(LogicalKeyboardEvent::Symbol('a')));
    kb_state.actuate_key(Key::from_keycode(keys::KEY_A), false);
}

#[test]
fn test_num_lock() {
    let mut kb_state = KeyboardState::new(gb());

    assert_eq!(kb_state.num_lock(), false);

    // Press and release the num lock key
    kb_state.actuate_key(Key::from_keycode(keys::KEY_NUM_LOCK), true);
    kb_state.actuate_key(Key::from_keycode(keys::KEY_NUM_LOCK), false);

    assert_eq!(kb_state.num_lock(), true);

    // Press and release the num lock key again
    kb_state.actuate_key(Key::from_keycode(keys::KEY_NUM_LOCK), true);
    kb_state.actuate_key(Key::from_keycode(keys::KEY_NUM_LOCK), false);

    assert_eq!(kb_state.num_lock(), false);
}

#[test]
fn test_scroll_lock() {
    let mut kb_state = KeyboardState::new(gb());

    assert_eq!(kb_state.scroll_lock(), false);

    // Press and release the scroll lock key
    kb_state.actuate_key(Key::from_keycode(keys::KEY_SCROLL_LOCK), true);
    kb_state.actuate_key(Key::from_keycode(keys::KEY_SCROLL_LOCK), false);

    assert_eq!(kb_state.scroll_lock(), true);

    // Press and release the scroll lock key again
    kb_state.actuate_key(Key::from_keycode(keys::KEY_SCROLL_LOCK), true);
    kb_state.actuate_key(Key::from_keycode(keys::KEY_SCROLL_LOCK), false);

    assert_eq!(kb_state.scroll_lock(), false);
}

#[test]
fn test_disable_lock_keys() {
    let mut kb_state = KeyboardState::new(gb());
    kb_state.lock_keys_enabled = false;

    assert_eq!(kb_state.caps_lock(), false);
    assert_eq!(kb_state.num_lock(), false);
    assert_eq!(kb_state.scroll_lock(), false);

    // Press and release the caps lock key
    kb_state.actuate_key(Key::from_keycode(keys::KEY_CAPS_LOCK), true);
    kb_state.actuate_key(Key::from_keycode(keys::KEY_CAPS_LOCK), false);

    assert_eq!(kb_state.caps_lock(), false);

    // Press and release the num lock key
    kb_state.actuate_key(Key::from_keycode(keys::KEY_NUM_LOCK), true);
    kb_state.actuate_key(Key::from_keycode(keys::KEY_NUM_LOCK), false);

    assert_eq!(kb_state.num_lock(), false);

    // Press and release the scroll lock key
    kb_state.actuate_key(Key::from_keycode(keys::KEY_SCROLL_LOCK), true);
    kb_state.actuate_key(Key::from_keycode(keys::KEY_SCROLL_LOCK), false);

    assert_eq!(kb_state.scroll_lock(), false);
}

#[test]
fn test_disabled_lock_keys_still_command() {
    let mut kb_state = KeyboardState::new(gb());
    kb_state.lock_keys_enabled = false;

    // Even with lock toggling disabled, a lock key press emits a command
    let result = kb_state.actuate_key(Key::from_keycode(keys::KEY_CAPS_LOCK), true);
    let no_mods = Modifiers {
        shift: false,
        ctrl: false,
        alt: false,
        alt_gr: false,
        sup: false,
    };
    assert_eq!(
        result.logical,
        Some(LogicalKeyboardEvent::Command(
            no_mods,
            Key::from_keycode(keys::KEY_CAPS_LOCK)
        ))
    );
    assert_eq!(kb_state.caps_lock(), false);
}

#[test]
fn test_repeat_detection() {
    let mut kb_state = KeyboardState::new(gb());

    // First press is not a repeat; a second press without a release is
    let result = kb_state.actuate_key(Key::from_keycode(keys::KEY_A), true);
    assert_eq!(result.repeat, false);
    let result = kb_state.actuate_key(Key::from_keycode(keys::KEY_A), true);
    assert_eq!(result.repeat, true);
    assert_eq!(result.logical, Some(LogicalKeyboardEvent::Symbol('a')));

    // The key is still recorded as held exactly once: one release clears it
    let result = kb_state.actuate_key(Key::from_keycode(keys::KEY_A), false);
    assert_eq!(result.repeat, false);
    assert_eq!(kb_state.key_pressed(Key::from_keycode(keys::KEY_A)), false);

    // Releasing an already released key is a repeat as well
    let result = kb_state.actuate_key(Key::from_keycode(keys::KEY_A), false);
    assert_eq!(result.repeat, true);
}

#[test]
fn test_ctrl_chord() {
    let mut kb_state = KeyboardState::new(gb());

    // Hold ctrl and press 'c': a command, not a symbol
    kb_state.actuate_key(Key::from_keycode(keys::KEY_L_CTRL), true);
    let result = kb_state.actuate_key(Key::from_keycode(keys::KEY_C), true);
    let ctrl_mods = Modifiers {
        shift: false,
        ctrl: true,
        alt: false,
        alt_gr: false,
        sup: false,
    };
    assert_eq!(
        result.logical,
        Some(LogicalKeyboardEvent::Command(
            ctrl_mods,
            Key::from_keycode(keys::KEY_C)
        ))
    );
    assert_eq!(ctrl_mods.to_bits(), 2);
}

#[test]
fn test_numpad_modes() {
    let mut kb_state = KeyboardState::new(gb());

    // With num lock off, numpad 7 remaps to a Home command
    let result = kb_state.actuate_key(Key::from_keycode(keys::KEY_NUM_7), true);
    let no_mods = Modifiers {
        shift: false,
        ctrl: false,
        alt: false,
        alt_gr: false,
        sup: false,
    };
    assert_eq!(
        result.logical,
        Some(LogicalKeyboardEvent::Command(
            no_mods,
            Key::from_keycode(keys::KEY_HOME)
        ))
    );
    kb_state.actuate_key(Key::from_keycode(keys::KEY_NUM_7), false);

    // Numpad 5 has no navigation equivalent: no action at all
    let result = kb_state.actuate_key(Key::from_keycode(keys::KEY_NUM_5), true);
    assert_eq!(result.logical, None);
    kb_state.actuate_key(Key::from_keycode(keys::KEY_NUM_5), false);

    // Turn num lock on: numpad 7 now emits the digit
    kb_state.actuate_key(Key::from_keycode(keys::KEY_NUM_LOCK), true);
    kb_state.actuate_key(Key::from_keycode(keys::KEY_NUM_LOCK), false);
    let result = kb_state.actuate_key(Key::from_keycode(keys::KEY_NUM_7), true);
    assert_eq!(result.logical, Some(LogicalKeyboardEvent::Symbol('7')));
    kb_state.actuate_key(Key::from_keycode(keys::KEY_NUM_7), false);

    // The decimal key emits '.' with num lock on
    let result = kb_state.actuate_key(Key::from_keycode(keys::KEY_NUM_DECIMAL), true);
    assert_eq!(result.logical, Some(LogicalKeyboardEvent::Symbol('.')));
}

#[test]
fn test_alt_gr_without_alt_gr_key() {
    // On a layout without a real AltGr key, that key acts as a second alt,
    // so a chord comes out instead of a symbol
    let mut kb_state = KeyboardState::new(us());
    kb_state.actuate_key(Key::from_keycode(keys::KEY_ALT_GR), true);
    let result = kb_state.actuate_key(Key::from_keycode(keys::KEY_A), true);
    let alt_mods = Modifiers {
        shift: false,
        ctrl: false,
        alt: true,
        alt_gr: false,
        sup: false,
    };
    assert_eq!(
        result.logical,
        Some(LogicalKeyboardEvent::Command(
            alt_mods,
            Key::from_keycode(keys::KEY_A)
        ))
    );
}

#[test]
fn test_unclassified_key_updates_state_only() {
    let mut kb_state = KeyboardState::new(gb());

    // Keycode 0 is outside every class: the transition is recorded but no
    // action is produced
    let result = kb_state.actuate_key(Key::from_keycode(0), true);
    assert_eq!(result.logical, None);
    assert_eq!(result.repeat, false);
    assert_eq!(kb_state.key_pressed(Key::from_keycode(0)), true);
}

#[test]
fn test_key_classification() {
    assert!(Key::from_keycode(keys::KEY_A).is_alphabetic());
    assert!(Key::from_keycode(keys::KEY_1).is_numeric());
    assert!(Key::from_keycode(keys::KEY_COMMA).is_punctuation());
    assert!(Key::from_keycode(keys::KEY_ENTER).is_control());
    assert!(Key::from_keycode(keys::KEY_NUM_7).is_numpad());
    assert_eq!(
        Key::from_keycode(keys::KEY_Z).key_type(),
        Some(KeyType::Alphabetic)
    );
    assert_eq!(
        Key::from_keycode(keys::KEY_NUM_SUB).key_type(),
        Some(KeyType::Control)
    );
    assert_eq!(Key::from_keycode(0).key_type(), None);
    assert_eq!(Key::from_keycode(255).key_type(), None);
}

#[test]
fn test_qwerty_char_and_name() {
    assert_eq!(Key::from_keycode(keys::KEY_A).qwerty_char(), 'a');
    assert_eq!(Key::from_keycode(keys::KEY_1).qwerty_char(), '1');
    assert_eq!(Key::from_keycode(keys::KEY_NUM_MUL).qwerty_char(), '*');
    assert_eq!(Key::from_keycode(keys::KEY_ESC).qwerty_char(), '\0');
    assert_eq!(Key::from_keycode(keys::KEY_A).name(), "A");
    assert_eq!(Key::from_keycode(keys::KEY_ESC).name(), "ESC");
    assert_eq!(Key::from_keycode(keys::KEY_PRT_SCR).name(), "PRINT SCREEN");
    assert_eq!(Key::from_keycode(255).name(), "UNNAMED");
    assert_eq!(Key::from_keycode(keys::KEY_A).keycode(), 30);
}

#[test]
fn test_layout_get_symbol() {
    let layout = gb();
    assert_eq!(layout.has_alt_gr_key, true);
    assert_eq!(layout.get_symbol(0, 0, Key::from_keycode(keys::KEY_A)), Some('a'));
    assert_eq!(layout.get_symbol(0, 1, Key::from_keycode(keys::KEY_1)), Some('!'));
    assert_eq!(layout.get_symbol(0, 1, Key::from_keycode(keys::KEY_3)), Some('£'));
    assert_eq!(layout.get_symbol(1, 0, Key::from_keycode(keys::KEY_BACKTICK)), Some('|'));
    assert_eq!(layout.get_symbol(0, 0, Key::from_keycode(keys::KEY_ENTER)), None);

    let layout = us();
    assert_eq!(layout.has_alt_gr_key, false);
    assert_eq!(layout.get_symbol(0, 1, Key::from_keycode(keys::KEY_2)), Some('@'));
    assert_eq!(layout.get_symbol(1, 0, Key::from_keycode(keys::KEY_BACKTICK)), None);
}

#[test]
fn test_modifiers_to_bits() {
    let none = Modifiers {
        shift: false,
        ctrl: false,
        alt: false,
        alt_gr: false,
        sup: false,
    };
    assert_eq!(none.to_bits(), 0);
    let all = Modifiers {
        shift: true,
        ctrl: true,
        alt: true,
        alt_gr: true,
        sup: true,
    };
    assert_eq!(all.to_bits(), 31);
    let shift_alt_gr = Modifiers {
        shift: true,
        ctrl: false,
        alt: false,
        alt_gr: true,
        sup: false,
    };
    assert_eq!(shift_alt_gr.to_bits(), 9);
}

#[test]
fn test_scancode_table() {
    assert_eq!(scancode_to_key(false, 0x1E), Some(Key::from_keycode(keys::KEY_A)));
    assert_eq!(scancode_to_key(false, 0x01), Some(Key::from_keycode(keys::KEY_ESC)));
    assert_eq!(scancode_to_key(true, 0x1C), Some(Key::from_keycode(keys::KEY_NUM_ENTER)));
    assert_eq!(scancode_to_key(false, 0x1C), Some(Key::from_keycode(keys::KEY_ENTER)));
    assert_eq!(scancode_to_key(true, 0x48), Some(Key::from_keycode(keys::KEY_UP)));
    assert_eq!(scancode_to_key(false, 0x54), None);
    assert_eq!(scancode_to_key(true, 0x01), None);
}

#[test]
fn test_scancode_reader() {
    let mut reader = ScancodeReader::new();

    // A plain press of 'a' (scancode 0x1E)
    assert_eq!(
        reader.feed_scancode(0x1E),
        Some((Key::from_keycode(keys::KEY_A), false))
    );

    // The release carries the high bit
    assert_eq!(
        reader.feed_scancode(0x9E),
        Some((Key::from_keycode(keys::KEY_A), true))
    );

    // The extended prefix yields nothing by itself, then decodes the next byte
    assert_eq!(reader.feed_scancode(0xE0), None);
    assert_eq!(
        reader.feed_scancode(0x48),
        Some((Key::from_keycode(keys::KEY_UP), false))
    );

    // The escape applies to releases too
    assert_eq!(reader.feed_scancode(0xE0), None);
    assert_eq!(
        reader.feed_scancode(0xC8),
        Some((Key::from_keycode(keys::KEY_UP), true))
    );

    // An undefined combination is dropped, and the escape flag is cleared
    // even then: 0x48 decodes unescaped afterwards
    assert_eq!(reader.feed_scancode(0xE0), None);
    assert_eq!(reader.feed_scancode(0x01), None);
    assert_eq!(
        reader.feed_scancode(0x48),
        Some((Key::from_keycode(keys::KEY_NUM_8), false))
    );

    // An undefined plain byte is dropped as well
    assert_eq!(reader.feed_scancode(0x54), None);
}

#[test]
fn test_lock_round_trip() {
    let mut kb_state = KeyboardState::new(gb());

    // Two press/release pairs of each lock key land back on the initial state
    for _ in 0..2 {
        kb_state.actuate_key(Key::from_keycode(keys::KEY_CAPS_LOCK), true);
        kb_state.actuate_key(Key::from_keycode(keys::KEY_CAPS_LOCK), false);
        kb_state.actuate_key(Key::from_keycode(keys::KEY_NUM_LOCK), true);
        kb_state.actuate_key(Key::from_keycode(keys::KEY_NUM_LOCK), false);
        kb_state.actuate_key(Key::from_keycode(keys::KEY_SCROLL_LOCK), true);
        kb_state.actuate_key(Key::from_keycode(keys::KEY_SCROLL_LOCK), false);
    }
    assert_eq!(kb_state.caps_lock(), false);
    assert_eq!(kb_state.num_lock(), false);
    assert_eq!(kb_state.scroll_lock(), false);
}
