use font8x8::{UnicodeFonts, BASIC_FONTS};
use vstd::prelude::*;

verus! {

/// Bitmap rows that the basic Latin font table holds for the character with
/// code `c`.
pub uninterp spec fn basic_glyph(c: u8) -> Seq<u8>;

/// Code of the character whose bitmap stands in for characters the font
/// table lacks: `'?'`.
pub const FALLBACK_CHAR: u8 = 63;

/// Number of characters in the basic Latin table (`U+0000` to `U+007F`).
pub const FONT_CHARS: u8 = 128;

/// The bitmap that `glyph` gives for character code `c`: eight rows.
pub open spec fn glyph_of(c: u8) -> Seq<u8> {
    Seq::new(
        8,
        |i: int|
            if c < FONT_CHARS {
                basic_glyph(c)[i]
            } else {
                basic_glyph(FALLBACK_CHAR)[i]
            },
    )
}

/// Relies on `font8x8::BASIC_FONTS.get`: its table covers exactly the codes
/// `U+0000` to `U+007F`, so a lookup succeeds if and only if `c < 128`, and
/// the bitmap depends on the character alone.
#[verifier::external_body]
fn font_lookup(c: u8) -> (r: Option<[u8; 8]>)
    ensures
        r.is_some() == (c < FONT_CHARS),
        r matches Some(g) ==> g@ == basic_glyph(c),
{
    BASIC_FONTS.get(c as char)
}

/// Bitmap of the character with code `c`; characters that the font table
/// lacks get the bitmap of `'?'`.
pub fn glyph(c: u8) -> (r: [u8; 8])
    ensures
        r@ == glyph_of(c),
{
    let r = match font_lookup(c) {
        Some(g) => g,
        None => {
            match font_lookup(FALLBACK_CHAR) {
                Some(g) => g,
                None => [0u8; 8],
            }
        },
    };
    assert(r@ =~= glyph_of(c));
    r
}

} // verus!
