//! Packed-pixel framebuffer codec.
//!
//! The framebuffer stores two 4-bit shades per byte for a landscape panel of
//! 960 columns by 540 rows.  Callers draw in portrait coordinates
//! (`0 <= x < 540`, `0 <= y < 960`); a fixed 90-degree rotation maps a
//! logical point to its physical scan-out address.  The high nibble of a byte
//! holds the pixel at the even (lower) physical column, the low nibble the
//! pixel at the odd column.

use vstd::prelude::*;
use vstd::pervasive::VecAdditionalExecFns;

verus! {

/// Logical screen width in portrait orientation.
pub const SCREEN_W: i32 = 540;

/// Logical screen height in portrait orientation.
pub const SCREEN_H: i32 = 960;

/// Number of bytes in the packed framebuffer: 960 * 540 / 2.
pub const FB_LEN: usize = 259200;

/// A logical point lies on the portrait screen.
pub open spec fn in_screen(x: int, y: int) -> bool {
    0 <= x < 540 && 0 <= y < 960
}

/// Index of the 4-bit cell for logical point (x, y) when the cells of the
/// landscape buffer are counted one nibble at a time: the physical row is x,
/// the physical column is 959 - y.
pub open spec fn nibble_index(x: int, y: int) -> int {
    x * 960 + (959 - y)
}

/// Byte index of logical point (x, y) in the packed framebuffer.
pub open spec fn byte_index(x: int, y: int) -> int {
    nibble_index(x, y) / 2
}

/// Whether logical point (x, y) is stored in the high nibble of its byte
/// (true exactly when its physical column is even).
pub open spec fn is_high_nibble(x: int, y: int) -> bool {
    nibble_index(x, y) % 2 == 0
}

/// The two 4-bit halves of a byte, high nibble first.
pub open spec fn spec_split(byte: u8) -> (u8, u8) {
    (byte >> 4, byte & 0x0F)
}

/// A byte built from two 4-bit halves, high nibble first.
pub open spec fn spec_join(left: u8, right: u8) -> u8 {
    ((left & 0x0F) << 4) | (right & 0x0F)
}

/// The shade stored for logical point (x, y); meaningful when the point is
/// on screen and the buffer has its full length.
pub open spec fn pixel_at(fb: Seq<u8>, x: int, y: int) -> u8 {
    let byte = fb[byte_index(x, y)];
    if is_high_nibble(x, y) {
        byte >> 4
    } else {
        byte & 0x0F
    }
}

/// The framebuffer after storing shade s at logical point (x, y): the
/// selected nibble of the addressed byte is overwritten, everything else is
/// kept; off-screen writes leave the buffer unchanged.
pub open spec fn write_pixel_spec(fb: Seq<u8>, x: int, y: int, s: u8) -> Seq<u8> {
    if in_screen(x, y) && fb.len() == FB_LEN {
        let i = byte_index(x, y);
        let byte = fb[i];
        let new_byte = if is_high_nibble(x, y) {
            spec_join(s, byte & 0x0F)
        } else {
            spec_join(byte >> 4, s)
        };
        fb.update(i, new_byte)
    } else {
        fb
    }
}

/// Split a framebuffer byte into its two pixels of 4 significant bits each.
pub fn split_byte(byte: u8) -> (r: (u8, u8))
    ensures
        r == spec_split(byte),
        r.0 <= 15,
        r.1 <= 15,
{
    proof {
        assert(byte >> 4 <= 15 && byte & 0x0F <= 15) by (bit_vector);
    }
    (byte >> 4, byte & 0x0F)
}

/// Join two 4-bit shades into one byte, high nibble first.
pub fn join_bytes(left: u8, right: u8) -> (r: u8)
    ensures
        r == spec_join(left, right),
{
    ((left & 0x0F) << 4) | (right & 0x0F)
}

/// Splitting a byte and joining the halves again gives the byte back.
pub proof fn lemma_join_split(byte: u8)
    ensures
        spec_join(spec_split(byte).0, spec_split(byte).1) == byte,
{
    assert((((byte >> 4) & 0x0F) << 4) | ((byte & 0x0F) & 0x0F) == byte) by (bit_vector);
}

/// Joining two values and splitting the result gives their low nibbles back;
/// for shades in [0, 15] it gives the values themselves.
pub proof fn lemma_split_join(left: u8, right: u8)
    ensures
        spec_split(spec_join(left, right)).0 == left & 0x0F,
        spec_split(spec_join(left, right)).1 == right & 0x0F,
{
    assert(((((left & 0x0F) << 4) | (right & 0x0F)) >> 4) == left & 0x0F) by (bit_vector);
    assert(((((left & 0x0F) << 4) | (right & 0x0F)) & 0x0F) == right & 0x0F) by (bit_vector);
}

/// Distinct on-screen points occupy distinct nibble cells.
pub proof fn lemma_nibble_index_injective(x1: int, y1: int, x2: int, y2: int)
    requires
        in_screen(x1, y1),
        in_screen(x2, y2),
        nibble_index(x1, y1) == nibble_index(x2, y2),
    ensures
        x1 == x2 && y1 == y2,
{
    assert(x1 * 960 - x2 * 960 == (x1 - x2) * 960) by (nonlinear_arith);
    assert((x1 - x2) * 960 == y1 - y2);
    if x1 != x2 {
        assert((x1 - x2) * 960 >= 960 || (x1 - x2) * 960 <= -960) by (nonlinear_arith)
            requires
                x1 - x2 >= 1 || x1 - x2 <= -1,
        ;
    }
}

/// The nibble index of an on-screen point lies within the buffer, and its
/// byte index and nibble side determine it.
pub proof fn lemma_nibble_index_range(x: int, y: int)
    requires
        in_screen(x, y),
    ensures
        0 <= nibble_index(x, y) < 518400,
        0 <= byte_index(x, y) < FB_LEN,
        nibble_index(x, y) == 2 * byte_index(x, y) + (if is_high_nibble(x, y) { 0int } else { 1int }),
        is_high_nibble(x, y) <==> (959 - y) % 2 == 0,
{
    assert(0 <= x * 960 <= 539 * 960) by (nonlinear_arith)
        requires 0 <= x <= 539;
    let n = nibble_index(x, y);
    vstd::arithmetic::div_mod::lemma_fundamental_div_mod(n, 2);
    assert(n % 2 == (x * 960 + (959 - y)) % 2);
    assert((x * 960 + (959 - y)) % 2 == (959 - y) % 2) by (nonlinear_arith)
        requires 0 <= 959 - y < 960;
}

/// Storing a shade at an on-screen point sets exactly that pixel and leaves
/// every other pixel and every other byte unchanged.
pub proof fn lemma_write_pixel(fb: Seq<u8>, x: int, y: int, s: u8)
    requires
        fb.len() == FB_LEN,
        in_screen(x, y),
        s <= 15,
    ensures
        write_pixel_spec(fb, x, y, s).len() == FB_LEN,
        pixel_at(write_pixel_spec(fb, x, y, s), x, y) == s,
        forall|a: int, b: int|
            in_screen(a, b) && !(a == x && b == y) ==> pixel_at(
                write_pixel_spec(fb, x, y, s),
                a,
                b,
            ) == pixel_at(fb, a, b),
        forall|i: int|
            0 <= i < FB_LEN && i != byte_index(x, y) ==> write_pixel_spec(fb, x, y, s)[i] == fb[i],
{
    let fb2 = write_pixel_spec(fb, x, y, s);
    let i = byte_index(x, y);
    let byte = fb[i];
    lemma_nibble_index_range(x, y);
    if is_high_nibble(x, y) {
        assert(s <= 15 ==> (((s & 0x0F) << 4) | ((byte & 0x0F) & 0x0F)) >> 4 == s) by (bit_vector);
    } else {
        assert(s <= 15 ==> ((((byte >> 4) & 0x0F) << 4) | (s & 0x0F)) & 0x0F == s) by (bit_vector);
    }
    assert forall|a: int, b: int| in_screen(a, b) && !(a == x && b == y) implies pixel_at(
        fb2,
        a,
        b,
    ) == pixel_at(fb, a, b) by {
        lemma_nibble_index_range(a, b);
        if byte_index(a, b) == i {
            if is_high_nibble(a, b) == is_high_nibble(x, y) {
                lemma_nibble_index_injective(x, y, a, b);
                assert(false);
            }
            if is_high_nibble(x, y) {
                // (a, b) reads the low nibble, which the write kept.
                assert((((s & 0x0F) << 4) | ((byte & 0x0F) & 0x0F)) & 0x0F == byte & 0x0F)
                    by (bit_vector);
            } else {
                assert(((((byte >> 4) & 0x0F) << 4) | (s & 0x0F)) >> 4 == byte >> 4)
                    by (bit_vector);
            }
        }
    }
}

/// Every nibble of the framebuffer is some on-screen pixel, so two
/// full-length buffers that agree on the shade of every on-screen pixel
/// are equal: a pixel-by-pixel contract pins the buffer down completely.
pub proof fn lemma_pixel_extensionality(fb1: Seq<u8>, fb2: Seq<u8>)
    requires
        fb1.len() == FB_LEN,
        fb2.len() == FB_LEN,
        forall|x: int, y: int| in_screen(x, y) ==> pixel_at(fb1, x, y) == pixel_at(fb2, x, y),
    ensures
        fb1 == fb2,
{
    assert forall|i: int| 0 <= i < FB_LEN implies fb1[i] == fb2[i] by {
        // The high nibble of byte i is the pixel at nibble cell 2i, the
        // low nibble the pixel at cell 2i + 1.
        let n_hi = 2 * i;
        let n_lo = 2 * i + 1;
        vstd::arithmetic::div_mod::lemma_fundamental_div_mod(n_hi, 960);
        vstd::arithmetic::div_mod::lemma_fundamental_div_mod(n_lo, 960);
        let x_hi = n_hi / 960;
        let y_hi = 959 - n_hi % 960;
        let x_lo = n_lo / 960;
        let y_lo = 959 - n_lo % 960;
        vstd::arithmetic::div_mod::lemma_div_is_ordered(n_hi, 518399, 960);
        vstd::arithmetic::div_mod::lemma_div_is_ordered(0, n_hi, 960);
        vstd::arithmetic::div_mod::lemma_div_is_ordered(n_lo, 518399, 960);
        vstd::arithmetic::div_mod::lemma_div_is_ordered(0, n_lo, 960);
        assert(in_screen(x_hi, y_hi) && in_screen(x_lo, y_lo));
        assert(nibble_index(x_hi, y_hi) == n_hi && nibble_index(x_lo, y_lo) == n_lo);
        vstd::arithmetic::div_mod::lemma_fundamental_div_mod_converse(n_hi, 2, i, 0);
        vstd::arithmetic::div_mod::lemma_fundamental_div_mod_converse(n_lo, 2, i, 1);
        assert(pixel_at(fb1, x_hi, y_hi) == fb1[i] >> 4 && pixel_at(fb1, x_lo, y_lo) == fb1[i]
            & 0x0F);
        let b1 = fb1[i];
        let b2 = fb2[i];
        assert((b1 >> 4 == b2 >> 4 && b1 & 0x0F == b2 & 0x0F) ==> b1 == b2) by (bit_vector);
    }
    assert(fb1 =~= fb2);
}

/// Write a shade to logical point (x, y), silently clipping points that lie
/// off screen.  Only the addressed nibble changes.
pub fn draw_pixel(fb: &mut Vec<u8>, x: i32, y: i32, shade: u8)
    requires
        old(fb)@.len() == FB_LEN,
        shade <= 15,
    ensures
        final(fb)@.len() == FB_LEN,
        final(fb)@ == write_pixel_spec(old(fb)@, x as int, y as int, shade),
        forall|a: int, b: int|
            in_screen(a, b) ==> pixel_at(final(fb)@, a, b) == (if a == x && b == y {
                shade
            } else {
                pixel_at(old(fb)@, a, b)
            }),
        forall|i: int|
            0 <= i < FB_LEN && i != byte_index(x as int, y as int) ==> final(fb)@[i]
                == old(fb)@[i],
        !in_screen(x as int, y as int) ==> final(fb)@ == old(fb)@,
{
    if let Some((px, py)) = to_landscape(x, y) {
        proof {
            lemma_nibble_index_range(x as int, y as int);
        }
        let idx: usize = ((py * 960 + px) / 2) as usize;
        let byte = fb[idx];
        let (left, right) = split_byte(byte);
        let new_byte = if px % 2 == 0 {
            join_bytes(shade, right)
        } else {
            join_bytes(left, shade)
        };
        fb.set(idx, new_byte);
        proof {
            lemma_write_pixel(old(fb)@, x as int, y as int, shade);
        }
    }
}

/// Read back the shade of logical point (x, y); None off screen.
pub fn get_pixel(fb: &Vec<u8>, x: i32, y: i32) -> (r: Option<u8>)
    requires
        fb@.len() == FB_LEN,
    ensures
        r is Some <==> in_screen(x as int, y as int),
        in_screen(x as int, y as int) ==> r == Some(pixel_at(fb@, x as int, y as int)),
{
    if let Some((px, py)) = to_landscape(x, y) {
        proof {
            lemma_nibble_index_range(x as int, y as int);
        }
        let idx: usize = ((py * 960 + px) / 2) as usize;
        let (left, right) = split_byte(fb[idx]);
        if px % 2 == 0 {
            Some(left)
        } else {
            Some(right)
        }
    } else {
        None
    }
}

/// Overwrite every byte of the framebuffer with the shade doubled into both
/// nibbles, so that every pixel reads back as that shade.
pub fn set_all(fb: &mut Vec<u8>, shade: u8)
    requires
        old(fb)@.len() == FB_LEN,
        shade <= 15,
    ensures
        final(fb)@.len() == FB_LEN,
        forall|i: int| 0 <= i < FB_LEN ==> final(fb)@[i] == spec_join(shade, shade),
        forall|a: int, b: int| in_screen(a, b) ==> pixel_at(final(fb)@, a, b) == shade,
{
    let filler = join_bytes(shade, shade);
    let mut i: usize = 0;
    while i < FB_LEN
        invariant
            fb@.len() == FB_LEN,
            0 <= i <= FB_LEN,
            shade <= 15,
            filler == spec_join(shade, shade),
            forall|j: int| 0 <= j < i ==> fb@[j] == spec_join(shade, shade),
        decreases FB_LEN - i,
    {
        fb.set(i, filler);
        i += 1;
    }
    proof {
        assert(shade <= 15 ==> ((((shade & 0x0F) << 4) | (shade & 0x0F)) >> 4 == shade
            && (((shade & 0x0F) << 4) | (shade & 0x0F)) & 0x0F == shade)) by (bit_vector);
        assert forall|a: int, b: int| in_screen(a, b) implies pixel_at(fb@, a, b) == shade by {
            lemma_nibble_index_range(a, b);
        }
    }
}

/// Transform a logical point (x, y) to landscape coordinates, if possible.
/// After transformation, the first coordinate is in [0, 960) and the second
/// in [0, 540).  Returns None if the point lies outside of the display.
pub fn to_landscape(x: i32, y: i32) -> (r: Option<(i32, i32)>)
    ensures
        r is Some <==> in_screen(x as int, y as int),
        in_screen(x as int, y as int) ==> r == Some((((960 - y - 1) as i32, x))),
{
    if x < 0 || x >= 540 || y < 0 || y >= 960 {
        return None;
    }
    Some((960 - y - 1, x))
}

} // verus!
