use vstd::prelude::*;
use crate::options::OptionSet;

verus! {

/// No styling bit set.
pub const NORMAL: u8 = 0;

/// Swap foreground and background colors.
pub const REVERSE: u8 = 1;

/// Blinking glyphs.
pub const BLINK: u8 = 2;

/// The display mode mask for the given option presence: reverse video is
/// forced when no custom glyph is given, and otherwise follows the reverse
/// flag; blink follows the blink flag alone.
pub open spec fn mode_mask(glyph_given: bool, reverse: bool, blink: bool) -> u8 {
    (if !glyph_given || reverse { REVERSE } else { NORMAL }) | (if blink { BLINK } else { NORMAL })
}

/// Composes the display mode mask from the presence of the glyph, reverse
/// and blink options.
pub fn compose_mode(glyph_given: bool, reverse: bool, blink: bool) -> (r: u8)
    ensures
        r == mode_mask(glyph_given, reverse, blink),
{
    // Without a custom glyph the default style reverses the colors.
    let reverse_on = !glyph_given || reverse;
    let reverse_bit: u8 = if reverse_on { REVERSE } else { NORMAL };
    let blink_bit: u8 = if blink { BLINK } else { NORMAL };
    reverse_bit | blink_bit
}

/// The display mode mask for parsed options: driven by whether `-c`, `-r`
/// and `-b` were given.
pub fn get_display_mode(opts: &OptionSet) -> (r: u8)
    ensures
        r == mode_mask(opts.glyph is Some, opts.reverse, opts.blink),
{
    compose_mode(opts.glyph.is_some(), opts.reverse, opts.blink)
}

/// The two styling bits of the mask are independent: the reverse bit is set
/// exactly when no custom glyph is given or reverse is asked for, the blink
/// bit exactly when blink is asked for, and no other bit is ever set.
pub proof fn mode_mask_bits(glyph_given: bool, reverse: bool, blink: bool)
    ensures
        (mode_mask(glyph_given, reverse, blink) & REVERSE != 0) == (!glyph_given || reverse),
        (mode_mask(glyph_given, reverse, blink) & BLINK != 0) == blink,
        mode_mask(glyph_given, reverse, blink) & !(REVERSE | BLINK) == 0,
{
    let m = mode_mask(glyph_given, reverse, blink);
    let rv = !glyph_given || reverse;
    assert(m == (if rv { 1u8 } else { 0u8 }) | (if blink { 2u8 } else { 0u8 }));
    assert((((if rv { 1u8 } else { 0u8 }) | (if blink { 2u8 } else { 0u8 })) & 1u8 != 0) == rv
        && (((if rv { 1u8 } else { 0u8 }) | (if blink { 2u8 } else { 0u8 })) & 2u8 != 0) == blink
        && ((if rv { 1u8 } else { 0u8 }) | (if blink { 2u8 } else { 0u8 })) & !(1u8 | 2u8) == 0)
        by (bit_vector);
}

} // verus!
