//! Encoding of literal characters as HID boot-keyboard usage IDs.

use vstd::prelude::*;

verus! {

/// The left-shift bit of the modifier bitmask.
pub const LEFT_SHIFT: u8 = 0x02;

/// ASCII `a`.
pub const ASCII_LOWER_A: u8 = 0x61;

/// ASCII `z`.
pub const ASCII_LOWER_Z: u8 = 0x7A;

/// ASCII `A`.
pub const ASCII_UPPER_A: u8 = 0x41;

/// ASCII `Z`.
pub const ASCII_UPPER_Z: u8 = 0x5A;

/// ASCII `0`.
pub const ASCII_ZERO: u8 = 0x30;

/// ASCII `1`.
pub const ASCII_ONE: u8 = 0x31;

/// ASCII `9`.
pub const ASCII_NINE: u8 = 0x39;

/// ASCII `.`.
pub const ASCII_DOT: u8 = 0x2E;

/// ASCII `!`.
pub const ASCII_BANG: u8 = 0x21;

/// ASCII newline.
pub const ASCII_NEWLINE: u8 = 0x0A;

/// ASCII space.
pub const ASCII_SPACE: u8 = 0x20;

/// The (modifier, keycode) pair a literal byte encodes to, or `None` for a
/// byte outside the supported set.  Lower-case letters map to `0x04 + (c - 'a')`
/// with no modifier, upper-case letters to the same keycode row under left
/// shift, digits `1`..`9` to `0x1E + (c - '1')`, and `0`, `.`, `!`, newline and
/// space to their fixed usage IDs.
pub open spec fn spec_encode(c: u8) -> Option<(u8, u8)> {
    if ASCII_LOWER_A <= c && c <= ASCII_LOWER_Z {
        Some((0u8, (c - 93) as u8))
    } else if ASCII_UPPER_A <= c && c <= ASCII_UPPER_Z {
        Some((LEFT_SHIFT, (c - 61) as u8))
    } else if ASCII_ONE <= c && c <= ASCII_NINE {
        Some((0u8, (c - 19) as u8))
    } else if c == ASCII_ZERO {
        Some((0u8, 0x27u8))
    } else if c == ASCII_DOT {
        Some((0u8, 0x37u8))
    } else if c == ASCII_BANG {
        Some((LEFT_SHIFT, 0x1Eu8))
    } else if c == ASCII_NEWLINE {
        Some((0u8, 0x28u8))
    } else if c == ASCII_SPACE {
        Some((0u8, 0x2Cu8))
    } else {
        None
    }
}

/// Encode one literal byte as a (modifier, keycode) pair, `None` if the byte
/// has no mapping.  Pure and total.
pub fn encode(c: u8) -> (r: Option<(u8, u8)>)
    ensures
        r == spec_encode(c),
{
    if c >= ASCII_LOWER_A && c <= ASCII_LOWER_Z {
        Some((0, c - 93))
    } else if c >= ASCII_UPPER_A && c <= ASCII_UPPER_Z {
        Some((LEFT_SHIFT, c - 61))
    } else if c >= ASCII_ONE && c <= ASCII_NINE {
        Some((0, c - 19))
    } else if c == ASCII_ZERO {
        Some((0, 0x27))
    } else if c == ASCII_DOT {
        Some((0, 0x37))
    } else if c == ASCII_BANG {
        Some((LEFT_SHIFT, 0x1E))
    } else if c == ASCII_NEWLINE {
        Some((0, 0x28))
    } else if c == ASCII_SPACE {
        Some((0, 0x2C))
    } else {
        None
    }
}

} // verus!
