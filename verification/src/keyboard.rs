//! The keyboard scancode decoder: a pure state machine from raw scancodes
//! and modifier state to output bytes.
//!
//! A scancode is split into a 7-bit keycode and a release bit.  Shift, ctrl
//! and alt track the key being held; capslock and numlock toggle their latch
//! on release only, so key repeat cannot double-toggle them.  Enter and
//! backspace emit their bytes on press.  Every other key is looked up in the
//! active layout's keymap under a flat index combining the keycode with the
//! shift-or-capslock, alt and numlock states as independent bit-fields.
//!
//! Policy choices pinned down here: a held alt (outside the layout hotkey)
//! maps to no output, numlock gates the numeric keypad alone, and
//! ctrl with a non-letter key is swallowed.

use vstd::prelude::*;

use crate::keymap_fr::keymap_fr;
use crate::keymap_fr::spec_keymap_fr;
use crate::keymap_us::keymap_us;
use crate::keymap_us::spec_keymap_us;

verus! {

/// The available keymap layouts.
#[allow(dead_code)]
#[derive(Clone, Copy, PartialEq, Eq, Structural, Debug)]
pub enum KeymapLanguage {
    US,
    FR,
}

/// The decoder state: active layout, held modifiers, and the two latches.
#[derive(Clone, Copy, PartialEq, Eq, Structural, Debug)]
pub struct KeyboardState {
    pub lang: KeymapLanguage,
    pub shift: bool,
    pub ctrl: bool,
    pub alt: bool,
    pub capslock: bool,
    pub numlock: bool,
}

impl KeyboardState {
    /// The boot state: US layout, nothing held, numlock latched on.
    pub fn start() -> (s: KeyboardState)
        ensures
            s == (KeyboardState {
                lang: KeymapLanguage::US,
                shift: false,
                ctrl: false,
                alt: false,
                capslock: false,
                numlock: true,
            }),
    {
        KeyboardState {
            lang: KeymapLanguage::US,
            shift: false,
            ctrl: false,
            alt: false,
            capslock: false,
            numlock: true,
        }
    }
}

/// The other layout.
pub open spec fn spec_lang_toggle(lang: KeymapLanguage) -> KeymapLanguage {
    match lang {
        KeymapLanguage::US => KeymapLanguage::FR,
        KeymapLanguage::FR => KeymapLanguage::US,
    }
}

/// The keycode held by ctrl: 0x1D.
pub const KEY_CTRL: u8 = 0x1D;

/// The keycode held by alt: 0x38.
pub const KEY_ALT: u8 = 0x38;

/// The left shift keycode.
pub const KEY_LSHIFT: u8 = 0x2A;

/// The right shift keycode.
pub const KEY_RSHIFT: u8 = 0x36;

/// The capslock keycode.
pub const KEY_CAPSLOCK: u8 = 0x3A;

/// The numlock keycode.
pub const KEY_NUMLOCK: u8 = 0x45;

/// The enter keycode.
pub const KEY_ENTER: u8 = 0x1C;

/// The backspace keycode.
pub const KEY_BACKSPACE: u8 = 0x0E;

/// The keycode of the layout hotkey: ctrl+alt+this key toggles the layout.
pub const KEY_LANG: u8 = 0x10;

/// The flat keymap index: the keycode with shift-or-capslock, alt and
/// numlock as independent bit-fields above it.
pub open spec fn spec_keymap_index(keycode: u8, shifted: bool, alt: bool, numlock: bool) -> int {
    keycode + (if shifted {
        0x80int
    } else {
        0
    }) + (if alt {
        0x100int
    } else {
        0
    }) + (if numlock {
        0x200int
    } else {
        0
    })
}

/// The active layout's keymap entry for a flat index.
pub open spec fn spec_keymap_at(lang: KeymapLanguage, idx: int) -> u8 {
    match lang {
        KeymapLanguage::US => spec_keymap_us(idx),
        KeymapLanguage::FR => spec_keymap_fr(idx),
    }
}

/// Whether a byte is an ASCII letter.
pub open spec fn spec_is_ascii_alpha(b: u8) -> bool {
    (0x41 <= b <= 0x5A) || (0x61 <= b <= 0x7A)
}

/// The byte with a lowercase letter raised to uppercase.
pub open spec fn spec_to_upper(b: u8) -> u8 {
    if 0x61 <= b <= 0x7A {
        (b - 0x20) as u8
    } else {
        b
    }
}

/// The decoder state after one scancode.
pub open spec fn spec_decode_state(s: KeyboardState, scancode: u8) -> KeyboardState {
    let keycode = scancode & 0x7F;
    let pressed = scancode & 0x80 == 0;
    if keycode == KEY_CTRL {
        KeyboardState { ctrl: pressed, ..s }
    } else if keycode == KEY_ALT {
        KeyboardState { alt: pressed, ..s }
    } else if keycode == KEY_LSHIFT || keycode == KEY_RSHIFT {
        KeyboardState { shift: pressed, ..s }
    } else if keycode == KEY_CAPSLOCK {
        if !pressed {
            KeyboardState { capslock: !s.capslock, ..s }
        } else {
            s
        }
    } else if keycode == KEY_NUMLOCK {
        if !pressed {
            KeyboardState { numlock: !s.numlock, ..s }
        } else {
            s
        }
    } else if pressed && s.ctrl && s.alt && keycode == KEY_LANG {
        KeyboardState { lang: spec_lang_toggle(s.lang), ..s }
    } else {
        s
    }
}

/// The bytes one scancode produces, given the state it arrives in.
pub open spec fn spec_decode_output(s: KeyboardState, scancode: u8) -> Seq<u8> {
    let keycode = scancode & 0x7F;
    let pressed = scancode & 0x80 == 0;
    if !pressed {
        Seq::empty()
    } else if keycode == KEY_CTRL || keycode == KEY_ALT || keycode == KEY_LSHIFT || keycode
        == KEY_RSHIFT || keycode == KEY_CAPSLOCK || keycode == KEY_NUMLOCK {
        Seq::empty()
    } else if keycode == KEY_ENTER {
        seq![0x0Au8]
    } else if keycode == KEY_BACKSPACE {
        seq![0x08u8]
    } else {
        let s1 = spec_decode_state(s, scancode);
        let idx = spec_keymap_index(keycode, s1.shift || s1.capslock, s1.alt, s1.numlock);
        let key = spec_keymap_at(s1.lang, idx);
        if key == 0 {
            Seq::empty()
        } else if s1.ctrl {
            if spec_is_ascii_alpha(key) {
                seq![0x5Eu8, spec_to_upper(key)]
            } else {
                Seq::empty()
            }
        } else {
            seq![key]
        }
    }
}

/// Decodes one scancode: updates the modifier and latch state and returns
/// the produced bytes (none to two of them).
pub fn handle_scancode(scancode: u8, state: &mut KeyboardState) -> (output: Vec<u8>)
    ensures
        *final(state) == spec_decode_state(*old(state), scancode),
        output@ == spec_decode_output(*old(state), scancode),
{
    let keycode = scancode & 0x7F;
    let is_release = scancode & 0x80 != 0;
    let is_pressed = !is_release;
    let mut output: Vec<u8> = Vec::new();

    if keycode == KEY_CTRL {
        state.ctrl = is_pressed;
    } else if keycode == KEY_ALT {
        state.alt = is_pressed;
    } else if keycode == KEY_LSHIFT || keycode == KEY_RSHIFT {
        state.shift = is_pressed;
    } else if keycode == KEY_CAPSLOCK {
        if is_release {
            state.capslock = !state.capslock;
        }
    } else if keycode == KEY_NUMLOCK {
        if is_release {
            state.numlock = !state.numlock;
        }
    } else if keycode == KEY_ENTER {
        if is_pressed {
            output.push(0x0A);
        }
    } else if keycode == KEY_BACKSPACE {
        if is_pressed {
            output.push(0x08);
        }
    } else if is_pressed {
        if state.ctrl && state.alt && keycode == KEY_LANG {
            state.lang = match state.lang {
                KeymapLanguage::US => KeymapLanguage::FR,
                KeymapLanguage::FR => KeymapLanguage::US,
            };
        }

        proof {
            assert(keycode < 0x80) by (bit_vector)
                requires
                    keycode == scancode & 0x7F,
            ;
        }
        let shifted = state.shift || state.capslock;
        let mut idx: u16 = keycode as u16;
        if shifted {
            idx += 0x80;
        }
        if state.alt {
            idx += 0x100;
        }
        if state.numlock {
            idx += 0x200;
        }
        let key = match state.lang {
            KeymapLanguage::US => keymap_us(idx),
            KeymapLanguage::FR => keymap_fr(idx),
        };

        if key != 0 {
            if state.ctrl {
                if !(0x41 <= key && key <= 0x5A) && !(0x61 <= key && key <= 0x7A) {
                    return output;
                }
                output.push(0x5E);
                if 0x61 <= key && key <= 0x7A {
                    output.push(key - 0x20);
                } else {
                    output.push(key);
                }
            } else {
                output.push(key);
            }
        }
    }
    output
}

/// A scancode with the release bit set never produces output, whatever the
/// key and whatever the state.
pub proof fn lemma_release_produces_no_output(s: KeyboardState, scancode: u8)
    requires
        scancode & 0x80 != 0,
    ensures
        spec_decode_output(s, scancode) == Seq::<u8>::empty(),
{
}

/// Pressing and then releasing shift, ctrl or alt restores the state it
/// found, provided that modifier was not already held (a press while the
/// key is already down would erase the held flag's prior value).
pub proof fn lemma_modifier_press_release_restores(s: KeyboardState, keycode: u8)
    requires
        keycode == KEY_CTRL || keycode == KEY_ALT || keycode == KEY_LSHIFT || keycode
            == KEY_RSHIFT,
        keycode == KEY_CTRL ==> !s.ctrl,
        keycode == KEY_ALT ==> !s.alt,
        (keycode == KEY_LSHIFT || keycode == KEY_RSHIFT) ==> !s.shift,
    ensures
        spec_decode_state(spec_decode_state(s, keycode), keycode | 0x80) == s,
{
    let kc = keycode;
    assert(kc == 0x1D || kc == 0x38 || kc == 0x2A || kc == 0x36 ==> kc & 0x7F == kc && kc & 0x80
        == 0 && (kc | 0x80) & 0x7F == kc && (kc | 0x80) & 0x80 != 0) by (bit_vector);
}

/// Toggling the layout twice with the ctrl+alt hotkey returns the whole
/// state, the active layout included, to its original value.
pub proof fn lemma_lang_toggle_idempotent(s: KeyboardState)
    requires
        s.ctrl,
        s.alt,
    ensures
        spec_decode_state(spec_decode_state(s, KEY_LANG), KEY_LANG) == s,
{
    assert(0x10u8 & 0x7F == 0x10 && 0x10u8 & 0x80 == 0) by (bit_vector);
}

} // verus!
