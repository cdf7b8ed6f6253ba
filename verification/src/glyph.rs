//! Placement of rasterized glyph coverage data.
//!
//! The font collaborator rasterizes each glyph into a stream of relative
//! pixel coordinates with fractional coverage, given here in thousandths.
//! This module quantizes coverage to a 4-bit shade — full coverage is ink,
//! so black — and writes the shades through the pixel codec at the resolved
//! positions, either left-aligned at the anchor or horizontally centered on
//! it using the first and last glyph bounding boxes.  No font parsing
//! happens here.

use vstd::prelude::*;

use crate::codec::{draw_pixel, write_pixel_spec, FB_LEN};

verus! {

/// One rasterized pixel of a glyph: coordinates relative to the glyph
/// bounding box and coverage in thousandths (0 = blank, 1000 = full ink).
#[derive(Clone, Copy, Debug, PartialEq, Eq, Structural)]
pub struct GlyphPixel {
    pub gx: u32,
    pub gy: u32,
    pub coverage: u32,
}

/// One rasterized glyph: its bounding-box offsets, the right edge of its
/// bounding box, and its coverage pixels.
#[derive(Clone, Debug)]
pub struct Glyph {
    pub min_x: i32,
    pub min_y: i32,
    pub max_x: i32,
    pub pixels: Vec<GlyphPixel>,
}

/// The shade of a coverage value in thousandths: full coverage is black
/// (0), no coverage is white (15), rounding to the nearest shade.
pub open spec fn spec_coverage_shade(c: int) -> int {
    ((1000 - c) * 15 + 500) / 1000
}

/// Quantize a coverage value in thousandths to a 4-bit shade.
pub fn coverage_to_shade(coverage: u32) -> (s: u8)
    requires
        coverage <= 1000,
    ensures
        s as int == spec_coverage_shade(coverage as int),
        s <= 15,
{
    (((1000 - coverage) * 15 + 500) / 1000) as u8
}

/// Bounds on a glyph's offsets, pixel coordinates and coverage values.
pub open spec fn glyph_wf(g: Glyph) -> bool {
    -10000 <= g.min_x <= 10000 && -10000 <= g.min_y <= 10000 && -10000 <= g.max_x <= 10000
        && forall|k: int|
        0 <= k < g.pixels@.len() ==> (#[trigger] g.pixels@[k]).gx <= 10000 && g.pixels@[k].gy
            <= 10000 && g.pixels@[k].coverage <= 1000
}

/// Division that truncates toward zero, as the machine division does.
pub open spec fn div_trunc(a: int, d: int) -> int {
    if a >= 0 {
        a / d
    } else {
        -((-a) / d)
    }
}

/// The horizontal origin of a glyph run: the anchor itself, or, for a
/// centered run, the anchor shifted left by half the span from the first
/// glyph's left edge to the last glyph's right edge.
pub open spec fn layout_origin_x(gs: Seq<Glyph>, x: int, centered: bool) -> int {
    if centered && gs.len() > 0 {
        x - div_trunc(gs.last().max_x - gs.first().min_x, 2)
    } else {
        x
    }
}

/// The framebuffer after writing the first n coverage pixels of one glyph
/// whose bounding box is anchored at (ox, oy).
pub open spec fn blit_glyph_prefix(fb: Seq<u8>, g: Glyph, ox: int, oy: int, n: int) -> Seq<u8>
    decreases n,
{
    if n <= 0 {
        fb
    } else {
        let p = g.pixels@[n - 1];
        write_pixel_spec(
            blit_glyph_prefix(fb, g, ox, oy, n - 1),
            ox + g.min_x + p.gx,
            oy + g.min_y + p.gy,
            spec_coverage_shade(p.coverage as int) as u8,
        )
    }
}

/// The framebuffer after writing all coverage pixels of one glyph.
pub open spec fn blit_glyph(fb: Seq<u8>, g: Glyph, ox: int, oy: int) -> Seq<u8> {
    blit_glyph_prefix(fb, g, ox, oy, g.pixels@.len() as int)
}

/// The framebuffer after writing the first n glyphs of a run.
pub open spec fn blit_glyphs_prefix(fb: Seq<u8>, gs: Seq<Glyph>, ox: int, oy: int, n: int) -> Seq<
    u8,
>
    decreases n,
{
    if n <= 0 {
        fb
    } else {
        blit_glyph(blit_glyphs_prefix(fb, gs, ox, oy, n - 1), gs[n - 1], ox, oy)
    }
}

/// Write a run of rasterized glyphs into the framebuffer at the anchor
/// (x, y): each coverage pixel lands at the run origin plus the glyph's
/// bounding-box offset plus its relative coordinates, with its coverage
/// quantized to a shade.  With `centered` the run is centered horizontally
/// on the anchor, which needs at least one glyph.
pub fn blit_glyphs(fb: &mut Vec<u8>, x: i32, y: i32, glyphs: &Vec<Glyph>, centered: bool)
    requires
        old(fb)@.len() == FB_LEN,
        -1000000 <= x <= 1000000,
        -1000000 <= y <= 1000000,
        forall|k: int| 0 <= k < glyphs@.len() ==> glyph_wf(#[trigger] glyphs@[k]),
        centered ==> glyphs@.len() > 0,
    ensures
        final(fb)@.len() == FB_LEN,
        final(fb)@ == blit_glyphs_prefix(
            old(fb)@,
            glyphs@,
            layout_origin_x(glyphs@, x as int, centered),
            y as int,
            glyphs@.len() as int,
        ),
{
    let ox: i32;
    if centered {
        let width = glyphs[glyphs.len() - 1].max_x - glyphs[0].min_x;
        ox = x - width / 2;
    } else {
        ox = x;
    }
    let mut j: usize = 0;
    while j < glyphs.len()
        invariant
            fb@.len() == FB_LEN,
            -1000000 <= x <= 1000000,
            -1000000 <= y <= 1000000,
            -1020000 <= ox <= 1020000,
            ox == layout_origin_x(glyphs@, x as int, centered),
            forall|k: int| 0 <= k < glyphs@.len() ==> glyph_wf(#[trigger] glyphs@[k]),
            0 <= j <= glyphs@.len(),
            fb@ == blit_glyphs_prefix(
                old(fb)@,
                glyphs@,
                ox as int,
                y as int,
                j as int,
            ),
        decreases glyphs@.len() - j,
    {
        let g = &glyphs[j];
        let ghost fb_at_glyph = fb@;
        let mut i: usize = 0;
        while i < g.pixels.len()
            invariant
                fb@.len() == FB_LEN,
                glyph_wf(*g),
                -1020000 <= ox <= 1020000,
                -1000000 <= y <= 1000000,
                0 <= i <= g.pixels@.len(),
                fb_at_glyph.len() == FB_LEN,
                fb@ == blit_glyph_prefix(fb_at_glyph, *g, ox as int, y as int, i as int),
            decreases g.pixels@.len() - i,
        {
            let p = g.pixels[i];
            let px = ox + g.min_x + p.gx as i32;
            let py = y + g.min_y + p.gy as i32;
            let s = coverage_to_shade(p.coverage);
            draw_pixel(fb, px, py, s);
            i = i + 1;
        }
        j = j + 1;
    }
}

} // verus!
