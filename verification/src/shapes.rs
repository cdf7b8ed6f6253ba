//! Parametric weather shapes.
//!
//! Each shape is drawn as a fixed sequence of rasterizer calls: first the
//! foreground silhouette, then smaller concentric background fills that
//! punch out an outline ring where the shape has one.  Every contract
//! states, pixel for pixel, the layered result of that sequence as a
//! drawing layer — the shade the shape leaves at a pixel, or nothing where
//! the shape does not paint — so that composed icons can stack shape
//! layers.

use vstd::prelude::*;

use crate::codec::{in_screen, pixel_at, FB_LEN};
use crate::raster::{
    draw_line, fill_circle, fill_rect, fill_triangle, in_disk, in_filled_tri, in_rect,
    lemma_disk_bounds, lemma_filled_tri_bound, lemma_line_bound, on_line, Point,
};

verus! {

/// Bounds on a shape's center and scale: generous enough for any on-screen
/// drawing, tight enough that every derived coordinate stays well inside
/// the rasterizer's own coordinate range.
pub open spec fn shape_ok(cx: int, cy: int, scale: int) -> bool {
    -100000 <= cx <= 100000 && -100000 <= cy <= 100000 && 0 <= scale <= 100000
}

/// A point from in-range spec-level coordinates.
pub open spec fn mk_point(x: int, y: int) -> Point {
    Point { x: x as i32, y: y as i32 }
}

/// The shade a drawing layer leaves at a pixel, or the shade underneath
/// where the layer paints nothing.
pub open spec fn layer_apply(layer: Option<u8>, under: u8) -> u8 {
    match layer {
        Option::Some(s) => s,
        Option::None => under,
    }
}

/// Stack two layers: the upper one wins wherever it paints.
pub open spec fn layer_over(upper: Option<u8>, lower: Option<u8>) -> Option<u8> {
    if upper is Some {
        upper
    } else {
        lower
    }
}

/// Drawing a shape is idempotent: applying a layer to a pixel it has
/// already determined leaves the pixel as it is, so drawing the same shape
/// twice gives the image of drawing it once.
pub proof fn lemma_layer_idempotent(layer: Option<u8>, under: u8)
    ensures
        layer_apply(layer, layer_apply(layer, under)) == layer_apply(layer, under),
{
}

/// Outline thickness of a cloud: a thirtieth of the scale, at least one.
pub open spec fn cloud_stroke(scale: int) -> int {
    if scale / 30 >= 1 {
        scale / 30
    } else {
        1
    }
}

/// The cloud silhouette: two outer lobes with a connecting body rectangle
/// and two upper lobes.
pub open spec fn cloud_fg_region(cx: int, cy: int, scale: int, a: int, b: int) -> bool {
    let r = scale / 6;
    in_disk(cx - scale / 2 + r, cy, r, a, b) || in_disk(cx + scale / 2 - r, cy, r, a, b)
        || in_rect(cx - (scale - 2 * r) / 2, cy - r, scale - 2 * r, 2 * r, a, b) || in_disk(
        cx - scale / 6,
        cy - scale / 6,
        scale / 5,
        a,
        b,
    ) || in_disk(cx + scale / 7, cy - scale / 5, scale / 4, a, b)
}

/// The cloud interior: the silhouette shrunk by the stroke width on every
/// lobe, leaving the outline ring in the foreground shade.
pub open spec fn cloud_bg_region(cx: int, cy: int, scale: int, a: int, b: int) -> bool {
    let r = scale / 6;
    let k = cloud_stroke(scale);
    in_disk(cx - scale / 2 + r, cy, r - k, a, b) || in_disk(cx + scale / 2 - r, cy, r - k, a, b)
        || in_rect(cx - (scale - 2 * r) / 2, cy - (r - k), scale - 2 * r, 2 * (r - k), a, b)
        || in_disk(cx - scale / 6, cy - scale / 6, scale / 5 - k, a, b) || in_disk(
        cx + scale / 7,
        cy - scale / 5,
        scale / 4 - k,
        a,
        b,
    )
}

/// The cloud as a drawing layer: interior in the background shade, outline
/// ring in the foreground shade.
pub open spec fn cloud_layer(cx: int, cy: int, scale: int, fg: u8, bg: u8, a: int, b: int) -> Option<
    u8,
> {
    if cloud_bg_region(cx, cy, scale, a, b) {
        Option::Some(bg)
    } else if cloud_fg_region(cx, cy, scale, a, b) {
        Option::Some(fg)
    } else {
        Option::None
    }
}

/// Draw a cloud of the given scale centered at (cx, cy): the silhouette in
/// the foreground shade, then the shrunk interior in the background shade,
/// leaving an outline ring.
pub fn cloud(fb: &mut Vec<u8>, cx: i32, cy: i32, scale: u32, fg: u8, bg: u8)
    requires
        old(fb)@.len() == FB_LEN,
        fg <= 15,
        bg <= 15,
        shape_ok(cx as int, cy as int, scale as int),
    ensures
        final(fb)@.len() == FB_LEN,
        forall|a: int, b: int|
            in_screen(a, b) ==> pixel_at(final(fb)@, a, b) == layer_apply(
                cloud_layer(cx as int, cy as int, scale as int, fg, bg, a, b),
                pixel_at(old(fb)@, a, b),
            ),
{
    let sc = scale as i32;
    let stroke = if sc / 30 >= 1 {
        sc / 30
    } else {
        1
    };
    let r = sc / 6;
    fill_circle(fb, cx - sc / 2 + r, cy, r, fg);
    fill_circle(fb, cx + sc / 2 - r, cy, r, fg);
    fill_rect(fb, cx - (sc - 2 * r) / 2, cy - r, sc - 2 * r, 2 * r, fg);
    fill_circle(fb, cx - sc / 6, cy - sc / 6, sc / 5, fg);
    fill_circle(fb, cx + sc / 7, cy - sc / 5, sc / 4, fg);
    fill_circle(fb, cx - sc / 2 + r, cy, r - stroke, bg);
    fill_circle(fb, cx + sc / 2 - r, cy, r - stroke, bg);
    fill_rect(fb, cx - (sc - 2 * r) / 2, cy - (r - stroke), sc - 2 * r, 2 * (r - stroke), bg);
    fill_circle(fb, cx - sc / 6, cy - sc / 6, sc / 5 - stroke, bg);
    fill_circle(fb, cx + sc / 7, cy - sc / 5, sc / 4 - stroke, bg);
}

/// The moon as a drawing layer: a foreground disk with an offset disk of
/// the same radius punched out, leaving a crescent.
pub open spec fn moon_layer(cx: int, cy: int, scale: int, fg: u8, bg: u8, a: int, b: int) -> Option<
    u8,
> {
    if in_disk(cx + scale / 6, cy, scale / 2, a, b) {
        Option::Some(bg)
    } else if in_disk(cx, cy, scale / 2, a, b) {
        Option::Some(fg)
    } else {
        Option::None
    }
}

/// Draw a moon: a full disk in the foreground shade with an offset disk of
/// the same radius punched out in the background shade.
pub fn moon(fb: &mut Vec<u8>, cx: i32, cy: i32, scale: u32, fg: u8, bg: u8)
    requires
        old(fb)@.len() == FB_LEN,
        fg <= 15,
        bg <= 15,
        shape_ok(cx as int, cy as int, scale as int),
    ensures
        final(fb)@.len() == FB_LEN,
        forall|a: int, b: int|
            in_screen(a, b) ==> pixel_at(final(fb)@, a, b) == layer_apply(
                moon_layer(cx as int, cy as int, scale as int, fg, bg, a, b),
                pixel_at(old(fb)@, a, b),
            ),
{
    let sc = scale as i32;
    fill_circle(fb, cx, cy, sc / 2, fg);
    fill_circle(fb, cx + sc / 6, cy, sc / 2, bg);
}

/// The three horizontal bars of a fog band: each is a tenth of the scale
/// thick, a full scale wide, and they sit a fifth of the scale apart.
pub open spec fn fog_band_region(cx: int, cy: int, scale: int, a: int, b: int) -> bool {
    let half = scale / 2;
    let step = scale / 5;
    let k = scale / 10;
    in_rect(cx - half, cy - step - k / 2, 2 * half + 1, k, a, b) || in_rect(
        cx - half,
        cy - k / 2,
        2 * half + 1,
        k,
        a,
        b,
    ) || in_rect(cx - half, cy + step - k / 2, 2 * half + 1, k, a, b)
}

/// The fog band as a drawing layer.
pub open spec fn fog_band_layer(cx: int, cy: int, scale: int, shade: u8, a: int, b: int) -> Option<
    u8,
> {
    if fog_band_region(cx, cy, scale, a, b) {
        Option::Some(shade)
    } else {
        Option::None
    }
}

/// Draw a fog band: three horizontal bars in one shade.
pub fn fog_band(fb: &mut Vec<u8>, cx: i32, cy: i32, scale: u32, shade: u8)
    requires
        old(fb)@.len() == FB_LEN,
        shade <= 15,
        shape_ok(cx as int, cy as int, scale as int),
    ensures
        final(fb)@.len() == FB_LEN,
        forall|a: int, b: int|
            in_screen(a, b) ==> pixel_at(final(fb)@, a, b) == layer_apply(
                fog_band_layer(cx as int, cy as int, scale as int, shade, a, b),
                pixel_at(old(fb)@, a, b),
            ),
{
    let sc = scale as i32;
    let half = sc / 2;
    let step = sc / 5;
    let k = sc / 10;
    fill_rect(fb, cx - half, cy - step - k / 2, 2 * half + 1, k, shade);
    fill_rect(fb, cx - half, cy - k / 2, 2 * half + 1, k, shade);
    fill_rect(fb, cx - half, cy + step - k / 2, 2 * half + 1, k, shade);
}

/// The four rays of a sun: a horizontal and a vertical diameter plus two
/// diagonals shortened to about two thirds of the half-width.
pub open spec fn sun_rays_region(cx: int, cy: int, scale: int, a: int, b: int) -> bool {
    let h = scale / 2;
    let ray = (scale / 2) * 13 / 20;
    on_line(cx - h, cy, cx + h, cy, a, b) || on_line(cx, cy - h, cx, cy + h, a, b) || on_line(
        cx - ray,
        cy - ray,
        cx + ray,
        cy + ray,
        a,
        b,
    ) || on_line(cx - ray, cy + ray, cx + ray, cy - ray, a, b)
}

/// The sun as a drawing layer: a background core inside a three-pixel
/// foreground ring of quarter-scale radius, a background clearing around
/// it, and four foreground rays beyond the clearing.
pub open spec fn sun_layer(cx: int, cy: int, scale: int, fg: u8, bg: u8, a: int, b: int) -> Option<
    u8,
> {
    if in_disk(cx, cy, scale / 4 - 3, a, b) {
        Option::Some(bg)
    } else if in_disk(cx, cy, scale / 4, a, b) {
        Option::Some(fg)
    } else if in_disk(cx, cy, scale * 3 / 10, a, b) {
        Option::Some(bg)
    } else if sun_rays_region(cx, cy, scale, a, b) {
        Option::Some(fg)
    } else {
        Option::None
    }
}

/// Draw a sun: four rays through the center, a background disk that clears
/// the rays near the center, and a three-pixel-thick outline ring of a
/// quarter-scale radius around a background core.
pub fn sun(fb: &mut Vec<u8>, cx: i32, cy: i32, scale: u32, fg: u8, bg: u8)
    requires
        old(fb)@.len() == FB_LEN,
        fg <= 15,
        bg <= 15,
        shape_ok(cx as int, cy as int, scale as int),
    ensures
        final(fb)@.len() == FB_LEN,
        forall|a: int, b: int|
            in_screen(a, b) ==> pixel_at(final(fb)@, a, b) == layer_apply(
                sun_layer(cx as int, cy as int, scale as int, fg, bg, a, b),
                pixel_at(old(fb)@, a, b),
            ),
{
    let sc = scale as i32;
    let h = sc / 2;
    let ray = (sc / 2) * 13 / 20;
    draw_line(fb, cx - h, cy, cx + h, cy, fg);
    draw_line(fb, cx, cy - h, cx, cy + h, fg);
    draw_line(fb, cx - ray, cy - ray, cx + ray, cy + ray, fg);
    draw_line(fb, cx - ray, cy + ray, cx + ray, cy - ray, fg);
    fill_circle(fb, cx, cy, sc * 3 / 10, bg);
    fill_circle(fb, cx, cy, sc / 4, fg);
    fill_circle(fb, cx, cy, sc / 4 - 3, bg);
}

/// A raindrop: a disk of half the size with an upward-pointing triangle cap
/// whose apex sits a quarter beyond the size above the center.
pub open spec fn raindrop_region(cx: int, cy: int, size: int, a: int, b: int) -> bool {
    in_disk(cx, cy, size / 2, a, b) || in_filled_tri(
        mk_point(cx - size / 2, cy),
        mk_point(cx, cy - 5 * size / 4),
        mk_point(cx + size / 2, cy),
        a,
        b,
    )
}

/// The raindrop as a drawing layer.
pub open spec fn raindrop_layer(cx: int, cy: int, size: int, shade: u8, a: int, b: int) -> Option<
    u8,
> {
    if raindrop_region(cx, cy, size, a, b) {
        Option::Some(shade)
    } else {
        Option::None
    }
}

/// Draw a raindrop of the given size centered at (cx, cy).  A size of at
/// least two keeps the cap an upward-pointing triangle with strictly
/// increasing corner columns.
pub fn raindrop(fb: &mut Vec<u8>, cx: i32, cy: i32, size: u32, shade: u8)
    requires
        old(fb)@.len() == FB_LEN,
        shade <= 15,
        shape_ok(cx as int, cy as int, size as int),
        size >= 2,
    ensures
        final(fb)@.len() == FB_LEN,
        forall|a: int, b: int|
            in_screen(a, b) ==> pixel_at(final(fb)@, a, b) == layer_apply(
                raindrop_layer(cx as int, cy as int, size as int, shade, a, b),
                pixel_at(old(fb)@, a, b),
            ),
{
    let sc = size as i32;
    fill_circle(fb, cx, cy, sc / 2, shade);
    let p0 = Point { x: cx - sc / 2, y: cy };
    let p1 = Point { x: cx, y: cy - 5 * sc / 4 };
    let p2 = Point { x: cx + sc / 2, y: cy };
    let _ = fill_triangle(fb, p0, p1, p2, shade);
}

/// The four arms of a snowflake: a horizontal and a vertical diameter plus
/// two diagonals of a third of the size.
pub open spec fn snowflake_region(cx: int, cy: int, size: int, a: int, b: int) -> bool {
    let half = size / 2;
    let diag = size / 3;
    on_line(cx - half, cy, cx + half, cy, a, b) || on_line(cx, cy - half, cx, cy + half, a, b)
        || on_line(cx - diag, cy - diag, cx + diag, cy + diag, a, b) || on_line(
        cx + diag,
        cy - diag,
        cx - diag,
        cy + diag,
        a,
        b,
    )
}

/// The snowflake as a drawing layer.
pub open spec fn snowflake_layer(cx: int, cy: int, size: int, shade: u8, a: int, b: int) -> Option<
    u8,
> {
    if snowflake_region(cx, cy, size, a, b) {
        Option::Some(shade)
    } else {
        Option::None
    }
}

/// Draw a snowflake: four crossing arms in one shade.
pub fn snowflake(fb: &mut Vec<u8>, cx: i32, cy: i32, size: u32, shade: u8)
    requires
        old(fb)@.len() == FB_LEN,
        shade <= 15,
        shape_ok(cx as int, cy as int, size as int),
    ensures
        final(fb)@.len() == FB_LEN,
        forall|a: int, b: int|
            in_screen(a, b) ==> pixel_at(final(fb)@, a, b) == layer_apply(
                snowflake_layer(cx as int, cy as int, size as int, shade, a, b),
                pixel_at(old(fb)@, a, b),
            ),
{
    let sc = size as i32;
    let half = sc / 2;
    let diag = sc / 3;
    draw_line(fb, cx - half, cy, cx + half, cy, shade);
    draw_line(fb, cx, cy - half, cx, cy + half, shade);
    draw_line(fb, cx - diag, cy - diag, cx + diag, cy + diag, shade);
    draw_line(fb, cx + diag, cy - diag, cx - diag, cy + diag, shade);
}

/// The three strokes of a lightning bolt, from the top tip over the two
/// middle bends down to the bottom tip.
pub open spec fn lightning_region(cx: int, cy: int, size: int, a: int, b: int) -> bool {
    let h = size;
    let w = size / 2;
    let dh = size / 4;
    on_line(cx, cy - h / 2, cx - w / 2, cy + dh / 2, a, b) || on_line(
        cx - w / 2,
        cy + dh / 2,
        cx + w / 2,
        cy - dh / 2,
        a,
        b,
    ) || on_line(cx + w / 2, cy - dh / 2, cx, cy + h / 2, a, b)
}

/// The lightning bolt as a drawing layer.
pub open spec fn lightning_layer(cx: int, cy: int, size: int, shade: u8, a: int, b: int) -> Option<
    u8,
> {
    if lightning_region(cx, cy, size, a, b) {
        Option::Some(shade)
    } else {
        Option::None
    }
}

/// Draw a lightning bolt: three connected strokes in one shade.
pub fn lightning(fb: &mut Vec<u8>, cx: i32, cy: i32, size: u32, shade: u8)
    requires
        old(fb)@.len() == FB_LEN,
        shade <= 15,
        shape_ok(cx as int, cy as int, size as int),
    ensures
        final(fb)@.len() == FB_LEN,
        forall|a: int, b: int|
            in_screen(a, b) ==> pixel_at(final(fb)@, a, b) == layer_apply(
                lightning_layer(cx as int, cy as int, size as int, shade, a, b),
                pixel_at(old(fb)@, a, b),
            ),
{
    let sc = size as i32;
    let h = sc;
    let w = sc / 2;
    let dh = sc / 4;
    draw_line(fb, cx, cy - h / 2, cx - w / 2, cy + dh / 2, shade);
    draw_line(fb, cx - w / 2, cy + dh / 2, cx + w / 2, cy - dh / 2, shade);
    draw_line(fb, cx + w / 2, cy - dh / 2, cx, cy + h / 2, shade);
}

/// A cloud writes only within one scale of its center.
pub proof fn lemma_cloud_footprint(
    cx: int,
    cy: int,
    scale: int,
    fg: u8,
    bg: u8,
    a: int,
    b: int,
)
    requires
        0 <= scale,
        cloud_layer(cx, cy, scale, fg, bg, a, b) is Some,
    ensures
        cx - scale <= a <= cx + scale,
        cy - scale <= b <= cy + scale,
{
    let r = scale / 6;
    let k = cloud_stroke(scale);
    if in_disk(cx - scale / 2 + r, cy, r, a, b) {
        lemma_disk_bounds(cx - scale / 2 + r, cy, r, a, b);
    }
    if in_disk(cx + scale / 2 - r, cy, r, a, b) {
        lemma_disk_bounds(cx + scale / 2 - r, cy, r, a, b);
    }
    if in_disk(cx - scale / 6, cy - scale / 6, scale / 5, a, b) {
        lemma_disk_bounds(cx - scale / 6, cy - scale / 6, scale / 5, a, b);
    }
    if in_disk(cx + scale / 7, cy - scale / 5, scale / 4, a, b) {
        lemma_disk_bounds(cx + scale / 7, cy - scale / 5, scale / 4, a, b);
    }
    if in_disk(cx - scale / 2 + r, cy, r - k, a, b) {
        lemma_disk_bounds(cx - scale / 2 + r, cy, r - k, a, b);
    }
    if in_disk(cx + scale / 2 - r, cy, r - k, a, b) {
        lemma_disk_bounds(cx + scale / 2 - r, cy, r - k, a, b);
    }
    if in_disk(cx - scale / 6, cy - scale / 6, scale / 5 - k, a, b) {
        lemma_disk_bounds(cx - scale / 6, cy - scale / 6, scale / 5 - k, a, b);
    }
    if in_disk(cx + scale / 7, cy - scale / 5, scale / 4 - k, a, b) {
        lemma_disk_bounds(cx + scale / 7, cy - scale / 5, scale / 4 - k, a, b);
    }
}

/// A moon writes only within one scale of its center.
pub proof fn lemma_moon_footprint(cx: int, cy: int, scale: int, fg: u8, bg: u8, a: int, b: int)
    requires
        0 <= scale,
        moon_layer(cx, cy, scale, fg, bg, a, b) is Some,
    ensures
        cx - scale <= a <= cx + scale,
        cy - scale <= b <= cy + scale,
{
    if in_disk(cx + scale / 6, cy, scale / 2, a, b) {
        lemma_disk_bounds(cx + scale / 6, cy, scale / 2, a, b);
    }
    if in_disk(cx, cy, scale / 2, a, b) {
        lemma_disk_bounds(cx, cy, scale / 2, a, b);
    }
}

/// A fog band writes only within one scale of its center.
pub proof fn lemma_fog_band_footprint(cx: int, cy: int, scale: int, shade: u8, a: int, b: int)
    requires
        0 <= scale,
        fog_band_layer(cx, cy, scale, shade, a, b) is Some,
    ensures
        cx - scale <= a <= cx + scale,
        cy - scale <= b <= cy + scale,
{
}

/// A sun writes only within twice its scale of its center.
pub proof fn lemma_sun_footprint(cx: int, cy: int, scale: int, fg: u8, bg: u8, a: int, b: int)
    requires
        0 <= scale,
        sun_layer(cx, cy, scale, fg, bg, a, b) is Some,
    ensures
        cx - 2 * scale <= a <= cx + 2 * scale,
        cy - 2 * scale <= b <= cy + 2 * scale,
{
    let h = scale / 2;
    let ray = (scale / 2) * 13 / 20;
    if in_disk(cx, cy, scale / 4 - 3, a, b) {
        lemma_disk_bounds(cx, cy, scale / 4 - 3, a, b);
    } else if in_disk(cx, cy, scale / 4, a, b) {
        lemma_disk_bounds(cx, cy, scale / 4, a, b);
    } else if in_disk(cx, cy, scale * 3 / 10, a, b) {
        lemma_disk_bounds(cx, cy, scale * 3 / 10, a, b);
    } else {
        if on_line(cx - h, cy, cx + h, cy, a, b) {
            lemma_line_bound(cx - h, cy, cx + h, cy, a, b);
        }
        if on_line(cx, cy - h, cx, cy + h, a, b) {
            lemma_line_bound(cx, cy - h, cx, cy + h, a, b);
        }
        if on_line(cx - ray, cy - ray, cx + ray, cy + ray, a, b) {
            lemma_line_bound(cx - ray, cy - ray, cx + ray, cy + ray, a, b);
        }
        if on_line(cx - ray, cy + ray, cx + ray, cy - ray, a, b) {
            lemma_line_bound(cx - ray, cy + ray, cx + ray, cy - ray, a, b);
        }
    }
}

/// A raindrop writes only within twice its size of its center.
pub proof fn lemma_raindrop_footprint(cx: int, cy: int, size: int, shade: u8, a: int, b: int)
    requires
        shape_ok(cx, cy, size),
        raindrop_layer(cx, cy, size, shade, a, b) is Some,
    ensures
        cx - 2 * size <= a <= cx + 2 * size,
        cy - 2 * size <= b <= cy + 2 * size,
{
    if in_disk(cx, cy, size / 2, a, b) {
        lemma_disk_bounds(cx, cy, size / 2, a, b);
    } else {
        lemma_filled_tri_bound(
            mk_point(cx - size / 2, cy),
            mk_point(cx, cy - 5 * size / 4),
            mk_point(cx + size / 2, cy),
            a,
            b,
        );
    }
}

/// A snowflake writes only within twice its size of its center.
pub proof fn lemma_snowflake_footprint(cx: int, cy: int, size: int, shade: u8, a: int, b: int)
    requires
        0 <= size,
        snowflake_layer(cx, cy, size, shade, a, b) is Some,
    ensures
        cx - 2 * size <= a <= cx + 2 * size,
        cy - 2 * size <= b <= cy + 2 * size,
{
    let half = size / 2;
    let diag = size / 3;
    if on_line(cx - half, cy, cx + half, cy, a, b) {
        lemma_line_bound(cx - half, cy, cx + half, cy, a, b);
    }
    if on_line(cx, cy - half, cx, cy + half, a, b) {
        lemma_line_bound(cx, cy - half, cx, cy + half, a, b);
    }
    if on_line(cx - diag, cy - diag, cx + diag, cy + diag, a, b) {
        lemma_line_bound(cx - diag, cy - diag, cx + diag, cy + diag, a, b);
    }
    if on_line(cx + diag, cy - diag, cx - diag, cy + diag, a, b) {
        lemma_line_bound(cx + diag, cy - diag, cx - diag, cy + diag, a, b);
    }
}

/// A lightning bolt writes only within twice its size of its center.
pub proof fn lemma_lightning_footprint(cx: int, cy: int, size: int, shade: u8, a: int, b: int)
    requires
        0 <= size,
        lightning_layer(cx, cy, size, shade, a, b) is Some,
    ensures
        cx - 2 * size <= a <= cx + 2 * size,
        cy - 2 * size <= b <= cy + 2 * size,
{
    let h = size;
    let w = size / 2;
    let dh = size / 4;
    if on_line(cx, cy - h / 2, cx - w / 2, cy + dh / 2, a, b) {
        lemma_line_bound(cx, cy - h / 2, cx - w / 2, cy + dh / 2, a, b);
    }
    if on_line(cx - w / 2, cy + dh / 2, cx + w / 2, cy - dh / 2, a, b) {
        lemma_line_bound(cx - w / 2, cy + dh / 2, cx + w / 2, cy - dh / 2, a, b);
    }
    if on_line(cx + w / 2, cy - dh / 2, cx, cy + h / 2, a, b) {
        lemma_line_bound(cx + w / 2, cy - dh / 2, cx, cy + h / 2, a, b);
    }
}

} // verus!
