//! The US keymap: the layout's character for each flat keymap index.
//!
//! The flat index packs the keycode with the shift-or-capslock, alt and
//! numlock bits; see the decoder.  The alt plane is unmapped, the numeric
//! keypad block is gated by numlock, and every index not listed maps to
//! zero, meaning "no character".

use vstd::prelude::*;

verus! {

/// Whether a keycode lies in the numeric keypad block.
pub open spec fn spec_is_keypad(kc: int) -> bool {
    0x47 <= kc <= 0x53
}

/// The numeric keypad characters, active while numlock is latched, as a function of the keycode.
pub open spec fn spec_keypad(kc: int) -> u8 {
    if kc == 0x47 {
        0x37
    } else if kc == 0x48 {
        0x38
    } else if kc == 0x49 {
        0x39
    } else if kc == 0x4A {
        0x2D
    } else if kc == 0x4B {
        0x34
    } else if kc == 0x4C {
        0x35
    } else if kc == 0x4D {
        0x36
    } else if kc == 0x4E {
        0x2B
    } else if kc == 0x4F {
        0x31
    } else if kc == 0x50 {
        0x32
    } else if kc == 0x51 {
        0x33
    } else if kc == 0x52 {
        0x30
    } else if kc == 0x53 {
        0x2E
    } else {
        0
    }
}

/// The numeric keypad characters, active while numlock is latched.
pub fn keypad_key(kc: u16) -> (r: u8)
    ensures
        r == spec_keypad(kc as int),
{
    if kc == 0x47 {
        0x37
    } else if kc == 0x48 {
        0x38
    } else if kc == 0x49 {
        0x39
    } else if kc == 0x4A {
        0x2D
    } else if kc == 0x4B {
        0x34
    } else if kc == 0x4C {
        0x35
    } else if kc == 0x4D {
        0x36
    } else if kc == 0x4E {
        0x2B
    } else if kc == 0x4F {
        0x31
    } else if kc == 0x50 {
        0x32
    } else if kc == 0x51 {
        0x33
    } else if kc == 0x52 {
        0x30
    } else if kc == 0x53 {
        0x2E
    } else {
        0
    }
}

/// The US unshifted plane, as a function of the keycode.
pub open spec fn spec_us_normal(kc: int) -> u8 {
    if kc == 0x02 {
        0x31
    } else if kc == 0x03 {
        0x32
    } else if kc == 0x04 {
        0x33
    } else if kc == 0x05 {
        0x34
    } else if kc == 0x06 {
        0x35
    } else if kc == 0x07 {
        0x36
    } else if kc == 0x08 {
        0x37
    } else if kc == 0x09 {
        0x38
    } else if kc == 0x0A {
        0x39
    } else if kc == 0x0B {
        0x30
    } else if kc == 0x0C {
        0x2D
    } else if kc == 0x0D {
        0x3D
    } else if kc == 0x10 {
        0x71
    } else if kc == 0x11 {
        0x77
    } else if kc == 0x12 {
        0x65
    } else if kc == 0x13 {
        0x72
    } else if kc == 0x14 {
        0x74
    } else if kc == 0x15 {
        0x79
    } else if kc == 0x16 {
        0x75
    } else if kc == 0x17 {
        0x69
    } else if kc == 0x18 {
        0x6F
    } else if kc == 0x19 {
        0x70
    } else if kc == 0x1A {
        0x5B
    } else if kc == 0x1B {
        0x5D
    } else if kc == 0x1E {
        0x61
    } else if kc == 0x1F {
        0x73
    } else if kc == 0x20 {
        0x64
    } else if kc == 0x21 {
        0x66
    } else if kc == 0x22 {
        0x67
    } else if kc == 0x23 {
        0x68
    } else if kc == 0x24 {
        0x6A
    } else if kc == 0x25 {
        0x6B
    } else if kc == 0x26 {
        0x6C
    } else if kc == 0x27 {
        0x3B
    } else if kc == 0x28 {
        0x27
    } else if kc == 0x29 {
        0x60
    } else if kc == 0x2B {
        0x5C
    } else if kc == 0x2C {
        0x7A
    } else if kc == 0x2D {
        0x78
    } else if kc == 0x2E {
        0x63
    } else if kc == 0x2F {
        0x76
    } else if kc == 0x30 {
        0x62
    } else if kc == 0x31 {
        0x6E
    } else if kc == 0x32 {
        0x6D
    } else if kc == 0x33 {
        0x2C
    } else if kc == 0x34 {
        0x2E
    } else if kc == 0x35 {
        0x2F
    } else if kc == 0x37 {
        0x2A
    } else if kc == 0x39 {
        0x20
    } else {
        0
    }
}

/// The US unshifted plane.
pub fn us_normal_key(kc: u16) -> (r: u8)
    ensures
        r == spec_us_normal(kc as int),
{
    if kc == 0x02 {
        0x31
    } else if kc == 0x03 {
        0x32
    } else if kc == 0x04 {
        0x33
    } else if kc == 0x05 {
        0x34
    } else if kc == 0x06 {
        0x35
    } else if kc == 0x07 {
        0x36
    } else if kc == 0x08 {
        0x37
    } else if kc == 0x09 {
        0x38
    } else if kc == 0x0A {
        0x39
    } else if kc == 0x0B {
        0x30
    } else if kc == 0x0C {
        0x2D
    } else if kc == 0x0D {
        0x3D
    } else if kc == 0x10 {
        0x71
    } else if kc == 0x11 {
        0x77
    } else if kc == 0x12 {
        0x65
    } else if kc == 0x13 {
        0x72
    } else if kc == 0x14 {
        0x74
    } else if kc == 0x15 {
        0x79
    } else if kc == 0x16 {
        0x75
    } else if kc == 0x17 {
        0x69
    } else if kc == 0x18 {
        0x6F
    } else if kc == 0x19 {
        0x70
    } else if kc == 0x1A {
        0x5B
    } else if kc == 0x1B {
        0x5D
    } else if kc == 0x1E {
        0x61
    } else if kc == 0x1F {
        0x73
    } else if kc == 0x20 {
        0x64
    } else if kc == 0x21 {
        0x66
    } else if kc == 0x22 {
        0x67
    } else if kc == 0x23 {
        0x68
    } else if kc == 0x24 {
        0x6A
    } else if kc == 0x25 {
        0x6B
    } else if kc == 0x26 {
        0x6C
    } else if kc == 0x27 {
        0x3B
    } else if kc == 0x28 {
        0x27
    } else if kc == 0x29 {
        0x60
    } else if kc == 0x2B {
        0x5C
    } else if kc == 0x2C {
        0x7A
    } else if kc == 0x2D {
        0x78
    } else if kc == 0x2E {
        0x63
    } else if kc == 0x2F {
        0x76
    } else if kc == 0x30 {
        0x62
    } else if kc == 0x31 {
        0x6E
    } else if kc == 0x32 {
        0x6D
    } else if kc == 0x33 {
        0x2C
    } else if kc == 0x34 {
        0x2E
    } else if kc == 0x35 {
        0x2F
    } else if kc == 0x37 {
        0x2A
    } else if kc == 0x39 {
        0x20
    } else {
        0
    }
}

/// The US shifted plane, as a function of the keycode.
pub open spec fn spec_us_shifted(kc: int) -> u8 {
    if kc == 0x02 {
        0x21
    } else if kc == 0x03 {
        0x40
    } else if kc == 0x04 {
        0x23
    } else if kc == 0x05 {
        0x24
    } else if kc == 0x06 {
        0x25
    } else if kc == 0x07 {
        0x5E
    } else if kc == 0x08 {
        0x26
    } else if kc == 0x09 {
        0x2A
    } else if kc == 0x0A {
        0x28
    } else if kc == 0x0B {
        0x29
    } else if kc == 0x0C {
        0x5F
    } else if kc == 0x0D {
        0x2B
    } else if kc == 0x10 {
        0x51
    } else if kc == 0x11 {
        0x57
    } else if kc == 0x12 {
        0x45
    } else if kc == 0x13 {
        0x52
    } else if kc == 0x14 {
        0x54
    } else if kc == 0x15 {
        0x59
    } else if kc == 0x16 {
        0x55
    } else if kc == 0x17 {
        0x49
    } else if kc == 0x18 {
        0x4F
    } else if kc == 0x19 {
        0x50
    } else if kc == 0x1A {
        0x7B
    } else if kc == 0x1B {
        0x7D
    } else if kc == 0x1E {
        0x41
    } else if kc == 0x1F {
        0x53
    } else if kc == 0x20 {
        0x44
    } else if kc == 0x21 {
        0x46
    } else if kc == 0x22 {
        0x47
    } else if kc == 0x23 {
        0x48
    } else if kc == 0x24 {
        0x4A
    } else if kc == 0x25 {
        0x4B
    } else if kc == 0x26 {
        0x4C
    } else if kc == 0x27 {
        0x3A
    } else if kc == 0x28 {
        0x22
    } else if kc == 0x29 {
        0x7E
    } else if kc == 0x2B {
        0x7C
    } else if kc == 0x2C {
        0x5A
    } else if kc == 0x2D {
        0x58
    } else if kc == 0x2E {
        0x43
    } else if kc == 0x2F {
        0x56
    } else if kc == 0x30 {
        0x42
    } else if kc == 0x31 {
        0x4E
    } else if kc == 0x32 {
        0x4D
    } else if kc == 0x33 {
        0x3C
    } else if kc == 0x34 {
        0x3E
    } else if kc == 0x35 {
        0x3F
    } else if kc == 0x37 {
        0x2A
    } else if kc == 0x39 {
        0x20
    } else {
        0
    }
}

/// The US shifted plane.
pub fn us_shifted_key(kc: u16) -> (r: u8)
    ensures
        r == spec_us_shifted(kc as int),
{
    if kc == 0x02 {
        0x21
    } else if kc == 0x03 {
        0x40
    } else if kc == 0x04 {
        0x23
    } else if kc == 0x05 {
        0x24
    } else if kc == 0x06 {
        0x25
    } else if kc == 0x07 {
        0x5E
    } else if kc == 0x08 {
        0x26
    } else if kc == 0x09 {
        0x2A
    } else if kc == 0x0A {
        0x28
    } else if kc == 0x0B {
        0x29
    } else if kc == 0x0C {
        0x5F
    } else if kc == 0x0D {
        0x2B
    } else if kc == 0x10 {
        0x51
    } else if kc == 0x11 {
        0x57
    } else if kc == 0x12 {
        0x45
    } else if kc == 0x13 {
        0x52
    } else if kc == 0x14 {
        0x54
    } else if kc == 0x15 {
        0x59
    } else if kc == 0x16 {
        0x55
    } else if kc == 0x17 {
        0x49
    } else if kc == 0x18 {
        0x4F
    } else if kc == 0x19 {
        0x50
    } else if kc == 0x1A {
        0x7B
    } else if kc == 0x1B {
        0x7D
    } else if kc == 0x1E {
        0x41
    } else if kc == 0x1F {
        0x53
    } else if kc == 0x20 {
        0x44
    } else if kc == 0x21 {
        0x46
    } else if kc == 0x22 {
        0x47
    } else if kc == 0x23 {
        0x48
    } else if kc == 0x24 {
        0x4A
    } else if kc == 0x25 {
        0x4B
    } else if kc == 0x26 {
        0x4C
    } else if kc == 0x27 {
        0x3A
    } else if kc == 0x28 {
        0x22
    } else if kc == 0x29 {
        0x7E
    } else if kc == 0x2B {
        0x7C
    } else if kc == 0x2C {
        0x5A
    } else if kc == 0x2D {
        0x58
    } else if kc == 0x2E {
        0x43
    } else if kc == 0x2F {
        0x56
    } else if kc == 0x30 {
        0x42
    } else if kc == 0x31 {
        0x4E
    } else if kc == 0x32 {
        0x4D
    } else if kc == 0x33 {
        0x3C
    } else if kc == 0x34 {
        0x3E
    } else if kc == 0x35 {
        0x3F
    } else if kc == 0x37 {
        0x2A
    } else if kc == 0x39 {
        0x20
    } else {
        0
    }
}

/// The US keymap over the whole flat index space.
pub open spec fn spec_keymap_us(idx: int) -> u8 {
    if idx < 0 || idx >= 0x400 {
        0
    } else {
        let kc = idx % 0x80;
        let shifted = (idx / 0x80) % 2 == 1;
        let alt = (idx / 0x100) % 2 == 1;
        let num = (idx / 0x200) % 2 == 1;
        if alt {
            0
        } else if spec_is_keypad(kc) {
            if num {
                spec_keypad(kc)
            } else {
                0
            }
        } else if shifted {
            spec_us_shifted(kc)
        } else {
            spec_us_normal(kc)
        }
    }
}

/// Looks up one flat index in the US keymap.
pub fn keymap_us(idx: u16) -> (r: u8)
    ensures
        r == spec_keymap_us(idx as int),
{
    if idx >= 0x400 {
        return 0;
    }
    let kc = idx % 0x80;
    let shifted = (idx / 0x80) % 2 == 1;
    let alt = (idx / 0x100) % 2 == 1;
    let num = (idx / 0x200) % 2 == 1;
    if alt {
        0
    } else if 0x47 <= kc && kc <= 0x53 {
        if num {
            keypad_key(kc)
        } else {
            0
        }
    } else if shifted {
        us_shifted_key(kc)
    } else {
        us_normal_key(kc)
    }
}

} // verus!
