//! Row-level bit operations on 8×8 bitmaps: each bitmap is eight row bytes,
//! one bit per pixel.
use vstd::prelude::*;

verus! {

/// Number of rows in a bitmap, and of pixels in a row.
pub const ROWS: usize = 8;

/// Whether bit `i` (0 is the least significant) of `x` is set.
pub open spec fn bit(x: u8, i: u8) -> bool {
    (x >> i) & 1u8 == 1u8
}

/// `x` with its bit order reversed: bit `i` moves to bit `7 - i`.
pub open spec fn reversed(x: u8) -> u8 {
    ((x & 0x01u8) << 7u8) | ((x & 0x02u8) << 5u8) | ((x & 0x04u8) << 3u8) | ((x & 0x08u8) << 1u8)
        | ((x & 0x10u8) >> 1u8) | ((x & 0x20u8) >> 3u8) | ((x & 0x40u8) >> 5u8) | ((x & 0x80u8)
        >> 7u8)
}

/// Reversal mirrors a row: bit `i` of the result is bit `7 - i` of the row.
pub proof fn lemma_reversed_mirrors(x: u8)
    ensures
        forall|i: u8| i < 8 ==> #[trigger] bit(reversed(x), i) == bit(x, (7 - i) as u8),
{
    let r = reversed(x);
    assert(forall|i: u8| i < 8 ==> #[trigger] ((r >> i) & 1u8) == ((x >> ((7 - i) as u8)) & 1u8))
        by (bit_vector)
        requires
            r == ((x & 0x01u8) << 7u8) | ((x & 0x02u8) << 5u8) | ((x & 0x04u8) << 3u8) | ((x
                & 0x08u8) << 1u8) | ((x & 0x10u8) >> 1u8) | ((x & 0x20u8) >> 3u8) | ((x & 0x40u8)
                >> 5u8) | ((x & 0x80u8) >> 7u8),
    ;
}

/// Row `x` shifted `s` pixels towards the high bit; pixels pushed past the edge
/// are lost, and a shift of 8 or more leaves nothing.
pub open spec fn shl_row(x: u8, s: u32) -> u8 {
    if s >= 8 {
        0
    } else {
        x << (s as u8)
    }
}

/// Row `x` shifted `s` pixels towards the low bit; a shift of 8 or more leaves
/// nothing.
pub open spec fn shr_row(x: u8, s: u32) -> u8 {
    if s >= 8 {
        0
    } else {
        x >> (s as u8)
    }
}

/// Reverses the bit order of a row.
pub fn reverse_row(x: u8) -> (r: u8)
    ensures
        r == reversed(x),
        forall|i: u8| i < 8 ==> #[trigger] bit(r, i) == bit(x, (7 - i) as u8),
{
    let r: u8 = ((x & 0x01u8) << 7u8) | ((x & 0x02u8) << 5u8) | ((x & 0x04u8) << 3u8) | ((x
        & 0x08u8) << 1u8) | ((x & 0x10u8) >> 1u8) | ((x & 0x20u8) >> 3u8) | ((x & 0x40u8) >> 5u8)
        | ((x & 0x80u8) >> 7u8);
    proof {
        assert(r == reversed(x));
        lemma_reversed_mirrors(x);
    }
    r
}

/// Shifts a row `s` pixels towards the high bit.
pub fn shift_row_left(x: u8, s: u32) -> (r: u8)
    ensures
        r == shl_row(x, s),
        s >= 8 ==> r == 0,
{
    if s >= 8 {
        0
    } else {
        x << (s as u8)
    }
}

/// Shifts a row `s` pixels towards the low bit.
pub fn shift_row_right(x: u8, s: u32) -> (r: u8)
    ensures
        r == shr_row(x, s),
        s >= 8 ==> r == 0,
{
    if s >= 8 {
        0
    } else {
        x >> (s as u8)
    }
}

/// Reverses the bit order of every row of a bitmap.
pub fn reverse_rows(g: [u8; 8]) -> (r: [u8; 8])
    ensures
        r@ == g@.map_values(|x: u8| reversed(x)),
{
    let mut r: [u8; 8] = [0u8; 8];
    let mut i: usize = 0;
    while i < ROWS
        invariant
            i <= ROWS,
            forall|j: int| 0 <= j < i ==> r@[j] == reversed(g@[j]),
        decreases ROWS - i,
    {
        r[i] = reverse_row(g[i]);
        i = i + 1;
    }
    assert(r@ =~= g@.map_values(|x: u8| reversed(x)));
    r
}

/// Shifts every row of a bitmap `s` pixels towards the high bit.
pub fn shift_left(g: [u8; 8], s: u32) -> (r: [u8; 8])
    ensures
        r@ == g@.map_values(|x: u8| shl_row(x, s)),
        s >= 8 ==> forall|i: int| 0 <= i < 8 ==> r@[i] == 0,
{
    let mut r: [u8; 8] = [0u8; 8];
    let mut i: usize = 0;
    while i < ROWS
        invariant
            i <= ROWS,
            forall|j: int| 0 <= j < i ==> r@[j] == shl_row(g@[j], s),
        decreases ROWS - i,
    {
        r[i] = shift_row_left(g[i], s);
        i = i + 1;
    }
    assert(r@ =~= g@.map_values(|x: u8| shl_row(x, s)));
    r
}

/// Shifts every row of a bitmap `s` pixels towards the low bit.
pub fn shift_right(g: [u8; 8], s: u32) -> (r: [u8; 8])
    ensures
        r@ == g@.map_values(|x: u8| shr_row(x, s)),
        s >= 8 ==> forall|i: int| 0 <= i < 8 ==> r@[i] == 0,
{
    let mut r: [u8; 8] = [0u8; 8];
    let mut i: usize = 0;
    while i < ROWS
        invariant
            i <= ROWS,
            forall|j: int| 0 <= j < i ==> r@[j] == shr_row(g@[j], s),
        decreases ROWS - i,
    {
        r[i] = shift_row_right(g[i], s);
        i = i + 1;
    }
    assert(r@ =~= g@.map_values(|x: u8| shr_row(x, s)));
    r
}

/// Row-by-row bitwise OR of two bitmaps.
pub open spec fn overlaid(a: Seq<u8>, b: Seq<u8>) -> Seq<u8> {
    Seq::new(8, |i: int| a[i] | b[i])
}

/// Lays bitmap `b` over bitmap `a`: a pixel is lit where it is lit in either.
pub fn overlay(a: [u8; 8], b: [u8; 8]) -> (r: [u8; 8])
    ensures
        r@ == overlaid(a@, b@),
{
    let mut r: [u8; 8] = [0u8; 8];
    let mut i: usize = 0;
    while i < ROWS
        invariant
            i <= ROWS,
            forall|j: int| 0 <= j < i ==> r@[j] == a@[j] | b@[j],
        decreases ROWS - i,
    {
        r[i] = a[i] | b[i];
        i = i + 1;
    }
    assert(r@ =~= overlaid(a@, b@));
    r
}

/// An overlay keeps every lit pixel of both of its parts.
pub proof fn lemma_overlay_covers_parts(a: Seq<u8>, b: Seq<u8>)
    ensures
        forall|i: int|
            0 <= i < 8 ==> (a[i] & #[trigger] overlaid(a, b)[i]) == a[i] && (b[i] & overlaid(
                a,
                b,
            )[i]) == b[i],
{
    assert forall|i: int| 0 <= i < 8 implies (a[i] & #[trigger] overlaid(a, b)[i]) == a[i] && (
    b[i] & overlaid(a, b)[i]) == b[i] by {
        let x = a[i];
        let y = b[i];
        assert((x & (x | y)) == x && (y & (x | y)) == y) by (bit_vector);
    }
}

/// The frame shown while the glyph `next` scrolls in behind the glyph `prev`,
/// `s` pixels into the scroll. Glyph rows come with the opposite bit order to
/// the panel's, so each row is reversed first; `prev` then moves `s` pixels
/// towards the high bit and `next` appears from the low side.
pub open spec fn scroll_frame(prev: Seq<u8>, next: Seq<u8>, s: u32) -> Seq<u8> {
    overlaid(
        prev.map_values(|x: u8| shl_row(reversed(x), s)),
        next.map_values(|x: u8| shr_row(reversed(x), (8 - s) as u32)),
    )
}

/// Composes the frame shown `s` pixels into the scroll from `prev` to `next`.
pub fn compose_frame(prev: [u8; 8], next: [u8; 8], s: u32) -> (r: [u8; 8])
    requires
        s <= 8,
    ensures
        r@ == scroll_frame(prev@, next@, s),
{
    let left = shift_left(reverse_rows(prev), s);
    let right = shift_right(reverse_rows(next), 8 - s);
    let r = overlay(left, right);
    assert(left@ =~= prev@.map_values(|x: u8| shl_row(reversed(x), s)));
    assert(right@ =~= next@.map_values(|x: u8| shr_row(reversed(x), (8 - s) as u32)));
    r
}

} // verus!
