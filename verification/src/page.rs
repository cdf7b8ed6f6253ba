//! Whole-page helpers: the alignment grid and the header.
//!
//! These sit above the raw primitives: the grid rules the page at fixed
//! column and row intervals, and the header places a centered line of text
//! with an underline across the top of the screen.

use vstd::prelude::*;

use crate::codec::{in_screen, pixel_at, FB_LEN};
use crate::glyph::{blit_glyphs, blit_glyphs_prefix, glyph_wf, layout_origin_x, Glyph};
use crate::raster::{draw_hline, draw_line, draw_vline};

verus! {

/// Membership in the grid: every row and every column whose index is a
/// positive multiple of the respective step.
pub open spec fn in_grid(x_step: int, y_step: int, a: int, b: int) -> bool {
    (b % y_step == 0 && b >= y_step) || (a % x_step == 0 && a >= x_step)
}

/// Between two multiples of a positive step there lies no further multiple.
proof fn lemma_next_multiple(step: int, y: int, b: int)
    requires
        step >= 1,
        y % step == 0,
        b % step == 0,
        y < b,
    ensures
        b >= y + step,
{
    vstd::arithmetic::div_mod::lemma_fundamental_div_mod(b, step);
    vstd::arithmetic::div_mod::lemma_fundamental_div_mod(y, step);
    let qb = b / step;
    let qy = y / step;
    assert(step * qb > step * qy ==> qb > qy) by (nonlinear_arith)
        requires
            step >= 1,
    ;
    assert(qb >= qy + 1 ==> step * qb >= step * qy + step) by (nonlinear_arith)
        requires
            step >= 1,
    ;
}

/// Rule the page with horizontal lines every y_step rows and vertical
/// lines every x_step columns, skipping the edge at zero.
pub fn draw_grid(fb: &mut Vec<u8>, x_step: i32, y_step: i32, luma: u8)
    requires
        old(fb)@.len() == FB_LEN,
        luma <= 15,
        0 < x_step <= 1000000,
        0 < y_step <= 1000000,
    ensures
        final(fb)@.len() == FB_LEN,
        forall|a: int, b: int|
            in_screen(a, b) ==> pixel_at(final(fb)@, a, b) == (if in_grid(
                x_step as int,
                y_step as int,
                a,
                b,
            ) {
                luma
            } else {
                pixel_at(old(fb)@, a, b)
            }),
{
    let mut y = y_step;
    while y < 960
        invariant
            fb@.len() == FB_LEN,
            luma <= 15,
            0 < x_step <= 1000000,
            0 < y_step <= 1000000,
            y_step <= y <= 960 + y_step,
            y % y_step == 0,
            forall|a: int, b: int|
                in_screen(a, b) ==> pixel_at(fb@, a, b) == (if b % (y_step as int) == 0 && y_step as int <= b < y as int {
                    luma
                } else {
                    pixel_at(old(fb)@, a, b)
                }),
        decreases 960 + y_step - y,
    {
        draw_hline(fb, 0, y, 540, luma);
        proof {
            assert forall|b: int| #![trigger b % (y_step as int)] y < b < y + y_step implies !(b % (y_step as int) == 0) by {
                if b % (y_step as int) == 0 {
                    lemma_next_multiple(y_step as int, y as int, b);
                }
            }
            vstd::arithmetic::div_mod::lemma_mod_add_multiples_vanish(y as int, y_step as int);
        }
        y = y + y_step;
    }
    let ghost fb_rows = fb@;
    let mut x = x_step;
    while x < 540
        invariant
            fb@.len() == FB_LEN,
            luma <= 15,
            0 < x_step <= 1000000,
            0 < y_step <= 1000000,
            x_step <= x <= 540 + x_step,
            x % x_step == 0,
            fb_rows.len() == FB_LEN,
            forall|a: int, b: int|
                in_screen(a, b) ==> pixel_at(fb_rows, a, b) == (if b % (y_step as int) == 0 && b >= y_step as int {
                    luma
                } else {
                    pixel_at(old(fb)@, a, b)
                }),
            forall|a: int, b: int|
                in_screen(a, b) ==> pixel_at(fb@, a, b) == (if a % (x_step as int) == 0 && x_step as int <= a < x as int {
                    luma
                } else {
                    pixel_at(fb_rows, a, b)
                }),
        decreases 540 + x_step - x,
    {
        draw_vline(fb, x, 0, 960, luma);
        proof {
            assert forall|a: int| #![trigger a % (x_step as int)] x < a < x + x_step implies !(a % (x_step as int) == 0) by {
                if a % (x_step as int) == 0 {
                    lemma_next_multiple(x_step as int, x as int, a);
                }
            }
            vstd::arithmetic::div_mod::lemma_mod_add_multiples_vanish(x as int, x_step as int);
        }
        x = x + x_step;
    }
}

/// Draw the header: the given line of rasterized text centered on the top
/// of the screen, with a two-row black underline across the full width at
/// rows 40 and 41.  Centering needs at least one glyph.
pub fn draw_header(fb: &mut Vec<u8>, time_glyphs: &Vec<Glyph>)
    requires
        old(fb)@.len() == FB_LEN,
        forall|k: int| 0 <= k < time_glyphs@.len() ==> glyph_wf(#[trigger] time_glyphs@[k]),
        time_glyphs@.len() > 0,
    ensures
        final(fb)@.len() == FB_LEN,
        forall|a: int, b: int|
            in_screen(a, b) ==> pixel_at(final(fb)@, a, b) == (if b == 40 || b == 41 {
                0u8
            } else {
                pixel_at(
                    blit_glyphs_prefix(
                        old(fb)@,
                        time_glyphs@,
                        layout_origin_x(time_glyphs@, 270, true),
                        0,
                        time_glyphs@.len() as int,
                    ),
                    a,
                    b,
                )
            }),
{
    blit_glyphs(fb, 270, 0, time_glyphs, true);
    draw_line(fb, 0, 40, 540, 40, 0x0);
    draw_line(fb, 0, 41, 540, 41, 0x0);
}

} // verus!
