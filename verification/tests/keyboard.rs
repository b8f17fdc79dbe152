use kernel_core::keyboard::handle_scancode;
use kernel_core::keyboard::KeyboardState;
use kernel_core::keyboard::KeymapLanguage;

fn start() -> KeyboardState {
    KeyboardState::start()
}

#[test]
fn press_letter_emits_character() {
    let mut s = start();
    // 0x23 is 'h' on the US layout.
    let out = handle_scancode(0x23, &mut s);
    assert_eq!(out, vec![b'h']);
}

#[test]
fn release_of_character_key_produces_no_output() {
    let mut s = start();
    let out = handle_scancode(0x23 | 0x80, &mut s);
    assert!(out.is_empty());
}

#[test]
fn release_of_any_key_produces_no_output() {
    for keycode in 0u8..0x80 {
        let mut s = start();
        let out = handle_scancode(keycode | 0x80, &mut s);
        assert!(out.is_empty(), "keycode 0x{:02x} produced output on release", keycode);
    }
}

#[test]
fn shift_press_release_restores_state() {
    let mut s = start();
    let before = s;
    handle_scancode(0x2A, &mut s);
    assert!(s.shift);
    handle_scancode(0x2A | 0x80, &mut s);
    assert_eq!(s, before);
}

#[test]
fn ctrl_and_alt_press_release_restore_state() {
    for key in [0x1Du8, 0x38u8] {
        let mut s = start();
        let before = s;
        handle_scancode(key, &mut s);
        handle_scancode(key | 0x80, &mut s);
        assert_eq!(s, before);
    }
}

#[test]
fn shifted_letter_is_uppercase() {
    let mut s = start();
    handle_scancode(0x2A, &mut s);
    let out = handle_scancode(0x23, &mut s);
    assert_eq!(out, vec![b'H']);
}

#[test]
fn capslock_toggles_on_release_only() {
    let mut s = start();
    handle_scancode(0x3A, &mut s);
    assert!(!s.capslock);
    handle_scancode(0x3A | 0x80, &mut s);
    assert!(s.capslock);
    let out = handle_scancode(0x23, &mut s);
    assert_eq!(out, vec![b'H']);
}

#[test]
fn ctrl_with_letter_emits_caret_pair() {
    let mut s = start();
    handle_scancode(0x1D, &mut s);
    let out = handle_scancode(0x23, &mut s);
    assert_eq!(out, vec![b'^', b'H']);
}

#[test]
fn ctrl_with_digit_is_swallowed() {
    let mut s = start();
    handle_scancode(0x1D, &mut s);
    // 0x02 is the '1' key.
    let out = handle_scancode(0x02, &mut s);
    assert!(out.is_empty());
}

#[test]
fn enter_emits_newline_on_press_only() {
    let mut s = start();
    assert_eq!(handle_scancode(0x1C, &mut s), vec![b'\n']);
    assert!(handle_scancode(0x1C | 0x80, &mut s).is_empty());
}

#[test]
fn backspace_emits_backspace_byte_on_press_only() {
    let mut s = start();
    assert_eq!(handle_scancode(0x0E, &mut s), vec![0x08]);
    assert!(handle_scancode(0x0E | 0x80, &mut s).is_empty());
}

#[test]
fn ctrl_alt_lang_toggles_layout_and_twice_restores_it() {
    let mut s = start();
    handle_scancode(0x1D, &mut s);
    handle_scancode(0x38, &mut s);
    assert_eq!(s.lang, KeymapLanguage::US);
    handle_scancode(0x10, &mut s);
    assert_eq!(s.lang, KeymapLanguage::FR);
    handle_scancode(0x10, &mut s);
    assert_eq!(s.lang, KeymapLanguage::US);
}

#[test]
fn layout_changes_what_the_same_key_produces() {
    let mut s = start();
    // 0x10 produces 'q' on the US layout and 'a' on the FR layout.
    assert_eq!(handle_scancode(0x10, &mut s), vec![b'q']);
    s.lang = KeymapLanguage::FR;
    assert_eq!(handle_scancode(0x10, &mut s), vec![b'a']);
}

#[test]
fn keypad_digit_obeys_numlock() {
    let mut s = start();
    assert!(s.numlock);
    // 0x47 is keypad 7.
    assert_eq!(handle_scancode(0x47, &mut s), vec![b'7']);
    handle_scancode(0x45, &mut s);
    handle_scancode(0x45 | 0x80, &mut s);
    assert!(!s.numlock);
    assert!(handle_scancode(0x47, &mut s).is_empty());
}

#[test]
fn unmapped_key_produces_no_output() {
    let mut s = start();
    // 0x3B is F1: no keymap entry.
    assert!(handle_scancode(0x3B, &mut s).is_empty());
}

#[test]
fn alt_held_swallows_ordinary_keys() {
    let mut s = start();
    handle_scancode(0x38, &mut s);
    assert!(handle_scancode(0x23, &mut s).is_empty());
}
