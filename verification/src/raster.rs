//! Geometric primitives over the packed framebuffer.
//!
//! Every operation works in logical (portrait) coordinates and clips
//! silently, pixel by pixel, through [`crate::codec::draw_pixel`].  The
//! contracts pin down, pixel for pixel, which shades the buffer holds after
//! each call.

use vstd::prelude::*;

use crate::codec::{draw_pixel, in_screen, pixel_at, write_pixel_spec, FB_LEN};

verus! {

/// An integer point in logical (portrait) drawing coordinates.
#[derive(Clone, Copy, Debug, PartialEq, Eq, Structural)]
pub struct Point {
    pub x: i32,
    pub y: i32,
}

/// Coordinate magnitude accepted by the primitives; keeps every intermediate
/// rasterization quantity comfortably inside `i32`.
pub const COORD_LIMIT: i32 = 1000000;

/// The point lies within the coordinate range the rasterizer accepts.
pub open spec fn coord_ok(x: int, y: int) -> bool {
    -1000000 <= x <= 1000000 && -1000000 <= y <= 1000000
}

/// Membership in a horizontal run of `len` pixels starting at (x, y).
pub open spec fn in_hrun(x: int, y: int, len: int, a: int, b: int) -> bool {
    b == y && x <= a < x + len
}

/// Membership in a vertical run of `len` pixels starting at (x, y).
pub open spec fn in_vrun(x: int, y: int, len: int, a: int, b: int) -> bool {
    a == x && y <= b < y + len
}

/// Membership in the w-by-h rectangle whose top-left corner is (x, y).
pub open spec fn in_rect(x: int, y: int, w: int, h: int, a: int, b: int) -> bool {
    x <= a < x + w && y <= b < y + h
}

/// Membership in the disk of radius r around (u, v); empty for negative r.
pub open spec fn in_disk(u: int, v: int, r: int, a: int, b: int) -> bool {
    r >= 0 && (a - u) * (a - u) + (b - v) * (b - v) <= r * r
}

/// Draw a horizontal run of `length` pixels starting at (x, y); a length of
/// zero or less paints nothing.
pub fn draw_hline(fb: &mut Vec<u8>, x: i32, y: i32, length: i32, shade: u8)
    requires
        old(fb)@.len() == FB_LEN,
        shade <= 15,
        length > 0 ==> x + length <= i32::MAX,
    ensures
        final(fb)@.len() == FB_LEN,
        forall|a: int, b: int|
            in_screen(a, b) ==> pixel_at(final(fb)@, a, b) == (if in_hrun(
                x as int,
                y as int,
                length as int,
                a,
                b,
            ) {
                shade
            } else {
                pixel_at(old(fb)@, a, b)
            }),
{
    let mut i: i32 = 0;
    while i < length
        invariant
            fb@.len() == FB_LEN,
            shade <= 15,
            0 <= i,
            length > 0 ==> i <= length && x + length <= i32::MAX,
            length <= 0 ==> i == 0,
            forall|a: int, b: int|
                in_screen(a, b) ==> pixel_at(fb@, a, b) == (if in_hrun(
                    x as int,
                    y as int,
                    i as int,
                    a,
                    b,
                ) {
                    shade
                } else {
                    pixel_at(old(fb)@, a, b)
                }),
        decreases length - i,
    {
        draw_pixel(fb, x + i, y, shade);
        i = i + 1;
    }
}

/// Draw a vertical run of `length` pixels starting at (x, y); a length of
/// zero or less paints nothing.
pub fn draw_vline(fb: &mut Vec<u8>, x: i32, y: i32, length: i32, shade: u8)
    requires
        old(fb)@.len() == FB_LEN,
        shade <= 15,
        length > 0 ==> y + length <= i32::MAX,
    ensures
        final(fb)@.len() == FB_LEN,
        forall|a: int, b: int|
            in_screen(a, b) ==> pixel_at(final(fb)@, a, b) == (if in_vrun(
                x as int,
                y as int,
                length as int,
                a,
                b,
            ) {
                shade
            } else {
                pixel_at(old(fb)@, a, b)
            }),
{
    let mut i: i32 = 0;
    while i < length
        invariant
            fb@.len() == FB_LEN,
            shade <= 15,
            0 <= i,
            length > 0 ==> i <= length && y + length <= i32::MAX,
            length <= 0 ==> i == 0,
            forall|a: int, b: int|
                in_screen(a, b) ==> pixel_at(fb@, a, b) == (if in_vrun(
                    x as int,
                    y as int,
                    i as int,
                    a,
                    b,
                ) {
                    shade
                } else {
                    pixel_at(old(fb)@, a, b)
                }),
        decreases length - i,
    {
        draw_pixel(fb, x, y + i, shade);
        i = i + 1;
    }
}

/// Fill the w-by-h rectangle whose top-left corner is (x, y), one horizontal
/// run per row; empty when w or h is zero or less.
pub fn fill_rect(fb: &mut Vec<u8>, x: i32, y: i32, w: i32, h: i32, shade: u8)
    requires
        old(fb)@.len() == FB_LEN,
        shade <= 15,
        w > 0 ==> x + w <= i32::MAX,
        h > 0 ==> y + h <= i32::MAX,
    ensures
        final(fb)@.len() == FB_LEN,
        forall|a: int, b: int|
            in_screen(a, b) ==> pixel_at(final(fb)@, a, b) == (if in_rect(
                x as int,
                y as int,
                w as int,
                h as int,
                a,
                b,
            ) {
                shade
            } else {
                pixel_at(old(fb)@, a, b)
            }),
{
    let mut j: i32 = 0;
    while j < h
        invariant
            fb@.len() == FB_LEN,
            shade <= 15,
            0 <= j,
            w > 0 ==> x + w <= i32::MAX,
            h > 0 ==> j <= h && y + h <= i32::MAX,
            h <= 0 ==> j == 0,
            forall|a: int, b: int|
                in_screen(a, b) ==> pixel_at(fb@, a, b) == (if in_rect(
                    x as int,
                    y as int,
                    w as int,
                    j as int,
                    a,
                    b,
                ) {
                    shade
                } else {
                    pixel_at(old(fb)@, a, b)
                }),
        decreases h - j,
    {
        draw_hline(fb, x, y + j, w, shade);
        j = j + 1;
    }
}

/// The pixels of the w-by-h rectangle at (x, y), as a set.
pub open spec fn rect_pixel_set(x: int, y: int, w: int, h: int) -> Set<(int, int)> {
    Set::new(|p: (int, int)| in_rect(x, y, w, h, p.0, p.1))
}

/// A w-by-h rectangle covers exactly w * h pixels.
pub proof fn lemma_rect_pixel_count(x: int, y: int, w: int, h: int)
    requires
        0 <= w,
        0 <= h,
    ensures
        rect_pixel_set(x, y, w, h).finite(),
        rect_pixel_set(x, y, w, h).len() == w * h,
    decreases h,
{
    if h == 0 {
        assert(rect_pixel_set(x, y, w, 0) =~= Set::<(int, int)>::empty());
    } else {
        let prev = rect_pixel_set(x, y, w, h - 1);
        let row = Set::new(|p: (int, int)| p.1 == y + h - 1 && x <= p.0 < x + w);
        lemma_rect_pixel_count(x, y, w, h - 1);
        let f = |i: int| (i, y + h - 1);
        vstd::set_lib::lemma_int_range(x, x + w);
        assert(vstd::set_lib::set_int_range(x, x + w).map(f) =~= row) by {
            assert forall|p: (int, int)| row.contains(p) implies vstd::set_lib::set_int_range(
                x,
                x + w,
            ).map(f).contains(p) by {
                assert(vstd::set_lib::set_int_range(x, x + w).contains(p.0) && f(p.0) == p);
            }
        }
        vstd::set_lib::lemma_map_size(
            vstd::set_lib::set_int_range(x, x + w),
            row,
            f,
        );
        vstd::set_lib::lemma_set_disjoint_lens(prev, row);
        assert(rect_pixel_set(x, y, w, h) =~= prev + row);
        assert(w * h == w * (h - 1) + w) by (nonlinear_arith);
    }
}

/// Absolute value of an integer.
pub open spec fn spec_abs(v: int) -> int {
    if v < 0 {
        -v
    } else {
        v
    }
}

/// Minor coordinate and error accumulator of the Bresenham recurrence after
/// i steps, for a run of d_major steps along the major axis with a minor
/// delta of d_minor, stepping the minor coordinate by `step` whenever the
/// error is positive.
pub open spec fn bres_state(m0: int, d_major: int, d_minor: int, step: int, i: int) -> (int, int)
    decreases i,
{
    if i <= 0 {
        (m0, 2 * d_minor - d_major)
    } else {
        let prev = bres_state(m0, d_major, d_minor, step, i - 1);
        if prev.1 > 0 {
            (prev.0 + step, prev.1 + 2 * (d_minor - d_major))
        } else {
            (prev.0, prev.1 + 2 * d_minor)
        }
    }
}

/// Membership in the shallow Bresenham trace from (x0, y0) to (x1, y1),
/// for endpoints already ordered by increasing x; the final column x1 is
/// not painted.
pub open spec fn on_shallow(x0: int, y0: int, x1: int, y1: int, a: int, b: int) -> bool {
    x0 <= a < x1 && b == bres_state(
        y0,
        x1 - x0,
        spec_abs(y1 - y0),
        if y1 >= y0 {
            1int
        } else {
            -1int
        },
        a - x0,
    ).0
}

/// Membership in the steep Bresenham trace from (x0, y0) to (x1, y1), for
/// endpoints already ordered by increasing y; the final row y1 is not
/// painted.
pub open spec fn on_steep(x0: int, y0: int, x1: int, y1: int, a: int, b: int) -> bool {
    y0 <= b < y1 && a == bres_state(
        x0,
        y1 - y0,
        spec_abs(x1 - x0),
        if x1 >= x0 {
            1int
        } else {
            -1int
        },
        b - y0,
    ).0
}

/// The set of pixels `draw_line` paints: horizontal and vertical segments
/// are painted end to end inclusive; diagonal segments follow the Bresenham
/// trace after the endpoints are normalized to increasing major coordinate.
pub open spec fn on_line(x0: int, y0: int, x1: int, y1: int, a: int, b: int) -> bool {
    if y0 == y1 {
        b == y0 && (if x0 <= x1 {
            x0 <= a <= x1
        } else {
            x1 <= a <= x0
        })
    } else if x0 == x1 {
        a == x0 && (if y0 <= y1 {
            y0 <= b <= y1
        } else {
            y1 <= b <= y0
        })
    } else if spec_abs(y1 - y0) < spec_abs(x1 - x0) {
        if x0 <= x1 {
            on_shallow(x0, y0, x1, y1, a, b)
        } else {
            on_shallow(x1, y1, x0, y0, a, b)
        }
    } else {
        if y0 <= y1 {
            on_steep(x0, y0, x1, y1, a, b)
        } else {
            on_steep(x1, y1, x0, y0, a, b)
        }
    }
}

/// A degenerate line whose endpoints coincide covers exactly that one point.
pub proof fn lemma_line_single_point(x: int, y: int, a: int, b: int)
    ensures
        on_line(x, y, x, y, a, b) <==> (a == x && b == y),
{
}

/// The Bresenham minor coordinate moves at most one step per iteration.
proof fn lemma_bres_minor_bound(m0: int, d_major: int, d_minor: int, step: int, i: int)
    requires
        -1 <= step <= 1,
        0 <= i,
    ensures
        m0 - i <= bres_state(m0, d_major, d_minor, step, i).0 <= m0 + i,
    decreases i,
{
    if i > 0 {
        lemma_bres_minor_bound(m0, d_major, d_minor, step, i - 1);
    }
}

/// A line stays within the span of its deltas around its first endpoint:
/// no painted pixel lies farther from (x0, y0) than the sum of the
/// absolute coordinate differences.
pub proof fn lemma_line_bound(x0: int, y0: int, x1: int, y1: int, a: int, b: int)
    requires
        on_line(x0, y0, x1, y1, a, b),
    ensures
        x0 - (spec_abs(x1 - x0) + spec_abs(y1 - y0)) <= a <= x0 + (spec_abs(x1 - x0) + spec_abs(
            y1 - y0,
        )),
        y0 - (spec_abs(x1 - x0) + spec_abs(y1 - y0)) <= b <= y0 + (spec_abs(x1 - x0) + spec_abs(
            y1 - y0,
        )),
{
    let adx = spec_abs(x1 - x0);
    let ady = spec_abs(y1 - y0);
    if y0 == y1 || x0 == x1 {
    } else if ady < adx {
        if x0 <= x1 {
            lemma_bres_minor_bound(y0, x1 - x0, ady, if y1 >= y0 { 1int } else { -1int }, a - x0);
        } else {
            lemma_bres_minor_bound(y1, x0 - x1, ady, if y0 >= y1 { 1int } else { -1int }, a - x1);
        }
    } else {
        if y0 <= y1 {
            lemma_bres_minor_bound(x0, y1 - y0, adx, if x1 >= x0 { 1int } else { -1int }, b - y0);
        } else {
            lemma_bres_minor_bound(x1, y0 - y1, adx, if x0 >= x1 { 1int } else { -1int }, b - y1);
        }
    }
}

/// Shallow Bresenham segment: one pixel per column from x0 (inclusive) to
/// x1 (exclusive), endpoints already ordered by increasing x.
fn draw_line_shallow(fb: &mut Vec<u8>, x0: i32, y0: i32, x1: i32, y1: i32, shade: u8)
    requires
        old(fb)@.len() == FB_LEN,
        shade <= 15,
        coord_ok(x0 as int, y0 as int),
        coord_ok(x1 as int, y1 as int),
        x0 < x1,
        y0 != y1,
        spec_abs(y1 as int - y0 as int) < x1 - x0,
    ensures
        final(fb)@.len() == FB_LEN,
        forall|a: int, b: int|
            in_screen(a, b) ==> pixel_at(final(fb)@, a, b) == (if on_shallow(
                x0 as int,
                y0 as int,
                x1 as int,
                y1 as int,
                a,
                b,
            ) {
                shade
            } else {
                pixel_at(old(fb)@, a, b)
            }),
{
    let dx = x1 - x0;
    let mut dy = y1 - y0;
    let yi: i32;
    if dy < 0 {
        yi = -1;
        dy = -dy;
    } else {
        yi = 1;
    }
    let mut err = 2 * dy - dx;
    let mut y = y0;
    let mut x = x0;
    while x < x1
        invariant
            fb@.len() == FB_LEN,
            shade <= 15,
            coord_ok(x0 as int, y0 as int),
            coord_ok(x1 as int, y1 as int),
            x0 <= x <= x1,
            dx == x1 - x0,
            dy == spec_abs(y1 as int - y0 as int),
            0 < dy < dx,
            yi == (if y1 >= y0 {
                1int
            } else {
                -1int
            }),
            (y as int, err as int) == bres_state(y0 as int, dx as int, dy as int, yi as int, (x
                - x0) as int),
            y0 - (x - x0) <= y <= y0 + (x - x0),
            -2 * dx <= err <= 2 * dx,
            forall|a: int, b: int|
                in_screen(a, b) ==> pixel_at(fb@, a, b) == (if x0 <= a < x && b == bres_state(
                    y0 as int,
                    dx as int,
                    dy as int,
                    yi as int,
                    a - x0,
                ).0 {
                    shade
                } else {
                    pixel_at(old(fb)@, a, b)
                }),
        decreases x1 - x,
    {
        draw_pixel(fb, x, y, shade);
        if err > 0 {
            y = y + yi;
            err = err + 2 * (dy - dx);
        } else {
            err = err + 2 * dy;
        }
        x = x + 1;
    }
}

/// Steep Bresenham segment: one pixel per row from y0 (inclusive) to y1
/// (exclusive), endpoints already ordered by increasing y.
fn draw_line_steep(fb: &mut Vec<u8>, x0: i32, y0: i32, x1: i32, y1: i32, shade: u8)
    requires
        old(fb)@.len() == FB_LEN,
        shade <= 15,
        coord_ok(x0 as int, y0 as int),
        coord_ok(x1 as int, y1 as int),
        y0 < y1,
        x0 != x1,
        spec_abs(x1 as int - x0 as int) <= y1 - y0,
    ensures
        final(fb)@.len() == FB_LEN,
        forall|a: int, b: int|
            in_screen(a, b) ==> pixel_at(final(fb)@, a, b) == (if on_steep(
                x0 as int,
                y0 as int,
                x1 as int,
                y1 as int,
                a,
                b,
            ) {
                shade
            } else {
                pixel_at(old(fb)@, a, b)
            }),
{
    let dy = y1 - y0;
    let mut dx = x1 - x0;
    let xi: i32;
    if dx < 0 {
        xi = -1;
        dx = -dx;
    } else {
        xi = 1;
    }
    let mut err = 2 * dx - dy;
    let mut x = x0;
    let mut y = y0;
    while y < y1
        invariant
            fb@.len() == FB_LEN,
            shade <= 15,
            coord_ok(x0 as int, y0 as int),
            coord_ok(x1 as int, y1 as int),
            y0 <= y <= y1,
            dy == y1 - y0,
            dx == spec_abs(x1 as int - x0 as int),
            0 < dx <= dy,
            xi == (if x1 >= x0 {
                1int
            } else {
                -1int
            }),
            (x as int, err as int) == bres_state(x0 as int, dy as int, dx as int, xi as int, (y
                - y0) as int),
            x0 - (y - y0) <= x <= x0 + (y - y0),
            -2 * dy <= err <= 2 * dy,
            forall|a: int, b: int|
                in_screen(a, b) ==> pixel_at(fb@, a, b) == (if y0 <= b < y && a == bres_state(
                    x0 as int,
                    dy as int,
                    dx as int,
                    xi as int,
                    b - y0,
                ).0 {
                    shade
                } else {
                    pixel_at(old(fb)@, a, b)
                }),
        decreases y1 - y,
    {
        draw_pixel(fb, x, y, shade);
        if err > 0 {
            x = x + xi;
            err = err + 2 * (dx - dy);
        } else {
            err = err + 2 * dx;
        }
        y = y + 1;
    }
}

/// Draw a line between two points.  Horizontal and vertical lines are
/// painted inclusively between the endpoints; other lines follow the
/// Bresenham trace with the endpoints normalized to increasing major
/// coordinate, which leaves the final major column or row unpainted.
pub fn draw_line(fb: &mut Vec<u8>, x0: i32, y0: i32, x1: i32, y1: i32, shade: u8)
    requires
        old(fb)@.len() == FB_LEN,
        shade <= 15,
        coord_ok(x0 as int, y0 as int),
        coord_ok(x1 as int, y1 as int),
    ensures
        final(fb)@.len() == FB_LEN,
        forall|a: int, b: int|
            in_screen(a, b) ==> pixel_at(final(fb)@, a, b) == (if on_line(
                x0 as int,
                y0 as int,
                x1 as int,
                y1 as int,
                a,
                b,
            ) {
                shade
            } else {
                pixel_at(old(fb)@, a, b)
            }),
{
    if y1 == y0 {
        if x0 <= x1 {
            draw_hline(fb, x0, y0, x1 - x0 + 1, shade);
        } else {
            draw_hline(fb, x1, y0, x0 - x1 + 1, shade);
        }
    } else if x1 == x0 {
        if y0 <= y1 {
            draw_vline(fb, x0, y0, y1 - y0 + 1, shade);
        } else {
            draw_vline(fb, x0, y1, y0 - y1 + 1, shade);
        }
    } else {
        let ady = if y1 >= y0 {
            y1 - y0
        } else {
            y0 - y1
        };
        let adx = if x1 >= x0 {
            x1 - x0
        } else {
            x0 - x1
        };
        if ady < adx {
            if x0 > x1 {
                draw_line_shallow(fb, x1, y1, x0, y0, shade);
            } else {
                draw_line_shallow(fb, x0, y0, x1, y1, shade);
            }
        } else {
            if y0 > y1 {
                draw_line_steep(fb, x1, y1, x0, y0, shade);
            } else {
                draw_line_steep(fb, x0, y0, x1, y1, shade);
            }
        }
    }
}

/// Draw the outline of a triangle: three lines closing the cycle
/// p0 -> p1 -> p2 -> p0.
pub fn draw_triangle(fb: &mut Vec<u8>, p0: Point, p1: Point, p2: Point, shade: u8)
    requires
        old(fb)@.len() == FB_LEN,
        shade <= 15,
        coord_ok(p0.x as int, p0.y as int),
        coord_ok(p1.x as int, p1.y as int),
        coord_ok(p2.x as int, p2.y as int),
    ensures
        final(fb)@.len() == FB_LEN,
        forall|a: int, b: int|
            in_screen(a, b) ==> pixel_at(final(fb)@, a, b) == (if on_line(
                p0.x as int,
                p0.y as int,
                p1.x as int,
                p1.y as int,
                a,
                b,
            ) || on_line(p1.x as int, p1.y as int, p2.x as int, p2.y as int, a, b) || on_line(
                p2.x as int,
                p2.y as int,
                p0.x as int,
                p0.y as int,
                a,
                b,
            ) {
                shade
            } else {
                pixel_at(old(fb)@, a, b)
            }),
{
    draw_line(fb, p0.x, p0.y, p1.x, p1.y, shade);
    draw_line(fb, p1.x, p1.y, p2.x, p2.y, shade);
    draw_line(fb, p2.x, p2.y, p0.x, p0.y, shade);
}

/// Squaring preserves a symmetric bound.
proof fn lemma_square_bound(a: int, m: int)
    requires
        -m <= a <= m,
        0 <= m,
    ensures
        0 <= a * a <= m * m,
{
    assert(-m <= a <= m && 0 <= m ==> 0 <= a * a <= m * m) by (nonlinear_arith);
}

/// Every point of a disk lies within r of the center on both axes.
pub proof fn lemma_disk_bounds(u: int, v: int, r: int, a: int, b: int)
    requires
        in_disk(u, v, r, a, b),
    ensures
        u - r <= a <= u + r,
        v - r <= b <= v + r,
{
    assert((a - u) * (a - u) + (b - v) * (b - v) <= r * r && r >= 0 ==> (u - r <= a <= u + r && v
        - r <= b <= v + r)) by (nonlinear_arith);
}

/// Fill the disk of radius r around (u, v) by brute-force membership over
/// the bounding square: every integer offset (dx, dy) with
/// dx * dx + dy * dy <= r * r is painted.  A negative radius paints nothing.
pub fn fill_circle(fb: &mut Vec<u8>, u: i32, v: i32, r: i32, shade: u8)
    requires
        old(fb)@.len() == FB_LEN,
        shade <= 15,
        r <= COORD_LIMIT,
        r >= 0 ==> i32::MIN <= u - r && u + r <= i32::MAX && i32::MIN <= v - r && v + r
            <= i32::MAX,
    ensures
        final(fb)@.len() == FB_LEN,
        r < 0 ==> final(fb)@ == old(fb)@,
        forall|a: int, b: int|
            in_screen(a, b) ==> pixel_at(final(fb)@, a, b) == (if in_disk(
                u as int,
                v as int,
                r as int,
                a,
                b,
            ) {
                shade
            } else {
                pixel_at(old(fb)@, a, b)
            }),
{
    if r < 0 {
        return ;
    }
    proof {
        lemma_square_bound(r as int, 1000000);
        assert forall|a: int, b: int| in_screen(a, b) implies pixel_at(fb@, a, b) == (if in_disk(
            u as int,
            v as int,
            r as int,
            a,
            b,
        ) && b < v - r {
            shade
        } else {
            pixel_at(old(fb)@, a, b)
        }) by {
            if in_disk(u as int, v as int, r as int, a, b) {
                lemma_disk_bounds(u as int, v as int, r as int, a, b);
            }
        }
    }
    let rr = r as i64 * r as i64;
    let mut dy: i32 = -r;
    while dy <= r
        invariant
            fb@.len() == FB_LEN,
            shade <= 15,
            0 <= r <= COORD_LIMIT,
            rr == r as int * r as int,
            i32::MIN <= u - r && u + r <= i32::MAX && i32::MIN <= v - r && v + r <= i32::MAX,
            -r <= dy <= r + 1,
            forall|a: int, b: int|
                in_screen(a, b) ==> pixel_at(fb@, a, b) == (if in_disk(
                    u as int,
                    v as int,
                    r as int,
                    a,
                    b,
                ) && b < v + dy {
                    shade
                } else {
                    pixel_at(old(fb)@, a, b)
                }),
        decreases r + 1 - dy,
    {
        proof {
            assert forall|a: int, b: int| in_screen(a, b) implies pixel_at(fb@, a, b) == (
            if in_disk(u as int, v as int, r as int, a, b) && (b < v + dy || (b == v + dy && a < u
                - r)) {
                shade
            } else {
                pixel_at(old(fb)@, a, b)
            }) by {
                if in_disk(u as int, v as int, r as int, a, b) {
                    lemma_disk_bounds(u as int, v as int, r as int, a, b);
                }
            }
        }
        let mut dx: i32 = -r;
        while dx <= r
            invariant
                fb@.len() == FB_LEN,
                shade <= 15,
                0 <= r <= COORD_LIMIT,
                rr == r as int * r as int,
                i32::MIN <= u - r && u + r <= i32::MAX && i32::MIN <= v - r && v + r <= i32::MAX,
                -r <= dy <= r,
                -r <= dx <= r + 1,
                forall|a: int, b: int|
                    in_screen(a, b) ==> pixel_at(fb@, a, b) == (if in_disk(
                        u as int,
                        v as int,
                        r as int,
                        a,
                        b,
                    ) && (b < v + dy || (b == v + dy && a < u + dx)) {
                        shade
                    } else {
                        pixel_at(old(fb)@, a, b)
                    }),
            decreases r + 1 - dx,
        {
            proof {
                lemma_square_bound(dx as int, 1000001);
                lemma_square_bound(dy as int, 1000001);
            }
            let dist = dx as i64 * dx as i64 + dy as i64 * dy as i64;
            if dist <= rr {
                draw_pixel(fb, u + dx, v + dy, shade);
            }
            proof {
                assert forall|a: int, b: int| in_screen(a, b) implies pixel_at(fb@, a, b) == (
                if in_disk(u as int, v as int, r as int, a, b) && (b < v + dy || (b == v + dy && a
                    < u + dx + 1)) {
                    shade
                } else {
                    pixel_at(old(fb)@, a, b)
                }) by {
                    if in_disk(u as int, v as int, r as int, a, b) {
                        lemma_disk_bounds(u as int, v as int, r as int, a, b);
                    }
                }
            }
            dx = dx + 1;
        }
        proof {
            assert forall|a: int, b: int| in_screen(a, b) implies pixel_at(fb@, a, b) == (
            if in_disk(u as int, v as int, r as int, a, b) && b < v + dy + 1 {
                shade
            } else {
                pixel_at(old(fb)@, a, b)
            }) by {
                if in_disk(u as int, v as int, r as int, a, b) {
                    lemma_disk_bounds(u as int, v as int, r as int, a, b);
                }
            }
        }
        dy = dy + 1;
    }
    proof {
        assert forall|a: int, b: int| in_screen(a, b) implies pixel_at(fb@, a, b) == (if in_disk(
            u as int,
            v as int,
            r as int,
            a,
            b,
        ) {
            shade
        } else {
            pixel_at(old(fb)@, a, b)
        }) by {
            if in_disk(u as int, v as int, r as int, a, b) {
                lemma_disk_bounds(u as int, v as int, r as int, a, b);
            }
        }
    }
}

/// The eight symmetric pixels one Horn step paints, in paint order.  The
/// last four swap the roles of the two center coordinates, so for centers
/// with u != v they mirror the arc across the diagonal rather than
/// completing the same circle; this quirk of the algorithm is kept as is.
pub open spec fn paint8(fb: Seq<u8>, u: int, v: int, cx: int, cy: int, s: u8) -> Seq<u8> {
    let f1 = write_pixel_spec(fb, u + cx, v + cy, s);
    let f2 = write_pixel_spec(f1, u - cx, v + cy, s);
    let f3 = write_pixel_spec(f2, u + cx, v - cy, s);
    let f4 = write_pixel_spec(f3, u - cx, v - cy, s);
    let f5 = write_pixel_spec(f4, v + cx, u + cy, s);
    let f6 = write_pixel_spec(f5, v - cx, u + cy, s);
    let f7 = write_pixel_spec(f6, v + cx, u - cy, s);
    write_pixel_spec(f7, v - cx, u - cy, s)
}

/// The framebuffer after running Horn's circle recurrence from state
/// (cx, cy, d) to completion: while cx >= cy, paint the eight symmetric
/// pixels, step cy up and adjust d, and step cx down whenever d becomes
/// nonnegative.
pub open spec fn horn_spec(fb: Seq<u8>, u: int, v: int, cx: int, cy: int, d: int, s: u8) -> Seq<
    u8,
>
    decreases cx - cy + 2,
{
    if cx < cy {
        fb
    } else {
        let fb2 = paint8(fb, u, v, cx, cy, s);
        let cy2 = cy + 1;
        let d2 = d + 2 * cy2 + 1;
        if d2 >= 0 {
            horn_spec(fb2, u, v, cx - 1, cy2, d2 - (2 * (cx - 1) + 1), s)
        } else {
            horn_spec(fb2, u, v, cx, cy2, d2, s)
        }
    }
}

/// Draw a circle outline of radius r around (u, v) with Horn's integer
/// midpoint recurrence; a negative radius paints nothing.
#[verifier::rlimit(60)]
pub fn draw_circle(fb: &mut Vec<u8>, u: i32, v: i32, r: i32, shade: u8)
    requires
        old(fb)@.len() == FB_LEN,
        shade <= 15,
        coord_ok(u as int, v as int),
        r <= COORD_LIMIT,
    ensures
        final(fb)@.len() == FB_LEN,
        r < 0 ==> final(fb)@ == old(fb)@,
        r >= 0 ==> final(fb)@ == horn_spec(old(fb)@, u as int, v as int, r as int, 0, 0, shade),
{
    if r < 0 {
        return ;
    }
    let mut x = r;
    let mut y: i32 = 0;
    let mut d: i64 = 0;
    while x >= y
        invariant
            fb@.len() == FB_LEN,
            shade <= 15,
            coord_ok(u as int, v as int),
            0 <= r <= COORD_LIMIT,
            0 <= y <= x + 2,
            x <= r,
            d == (y + 1) * (y + 1) - 1 + x * x - r * r,
            horn_spec(fb@, u as int, v as int, x as int, y as int, d as int, shade) == horn_spec(
                old(fb)@,
                u as int,
                v as int,
                r as int,
                0,
                0,
                shade,
            ),
        decreases x + 2 - y,
    {
        proof {
            lemma_square_bound(x as int, 1000000);
            lemma_square_bound((y + 1) as int, 1000001);
            lemma_square_bound(r as int, 1000000);
        }
        draw_pixel(fb, u + x, v + y, shade);
        draw_pixel(fb, u - x, v + y, shade);
        draw_pixel(fb, u + x, v - y, shade);
        draw_pixel(fb, u - x, v - y, shade);
        draw_pixel(fb, v + x, u + y, shade);
        draw_pixel(fb, v - x, u + y, shade);
        draw_pixel(fb, v + x, u - y, shade);
        draw_pixel(fb, v - x, u - y, shade);
        y = y + 1;
        d = d + 2 * y as i64 + 1;
        proof {
            assert((y as int + 1) * (y as int + 1) == (y as int) * (y as int) + 2 * y + 1)
                by (nonlinear_arith);
        }
        if d >= 0 {
            x = x - 1;
            d = d - (2 * x as i64 + 1);
            proof {
                assert((x as int + 1) * (x as int + 1) == (x as int) * (x as int) + 2 * x + 1)
                    by (nonlinear_arith);
            }
        }
    }
}

/// Why a triangle fill was refused.
#[derive(Clone, Copy, Debug, PartialEq, Eq, Structural)]
pub enum TriangleError {
    /// The corners could not be brought into strictly increasing x order.
    UnsortablePoints,
    /// The triangle does not point upward: the two outer corners must share
    /// a row and the middle corner must lie strictly above it.
    NotUpwardPointing,
}

/// The three corners ordered by ascending x, with the swap sequence the
/// fill uses.
pub open spec fn sort3_by_x(p0: Point, p1: Point, p2: Point) -> (Point, Point, Point) {
    let (a0, a1) = if p0.x > p1.x {
        (p1, p0)
    } else {
        (p0, p1)
    };
    let (b1, b2) = if a1.x > p2.x {
        (p2, a1)
    } else {
        (a1, p2)
    };
    let (c0, c1) = if a0.x > b1.x {
        (b1, a0)
    } else {
        (a0, b1)
    };
    (c0, c1, b2)
}

/// The corners have pairwise distinct x coordinates.
pub open spec fn tri_sorted_ok(p0: Point, p1: Point, p2: Point) -> bool {
    let (s0, s1, s2) = sort3_by_x(p0, p1, p2);
    s2.x > s1.x && s1.x > s0.x
}

/// The triangle points upward: the outer corners share a row and the middle
/// corner lies strictly above it.
pub open spec fn tri_upward_ok(p0: Point, p1: Point, p2: Point) -> bool {
    let (s0, s1, s2) = sort3_by_x(p0, p1, p2);
    s0.y == s2.y && s1.y < s0.y
}

/// Membership in the filled triangle scan: rows run from the apex
/// (exclusive of nothing, but with zero width on the first row) down to the
/// base row exclusive; each row holds a centered run whose half-width grows
/// with the inverse slope of the edge from the middle corner to the
/// rightmost corner.
pub open spec fn in_filled_tri(p0: Point, p1: Point, p2: Point, a: int, b: int) -> bool {
    let (s0, s1, s2) = sort3_by_x(p0, p1, p2);
    s1.y <= b < s2.y && {
        let num = (b - s1.y) * (s2.x - s1.x);
        let den = s2.y - s1.y;
        let start = s1.x - num / den;
        start <= a < start + (2 * num) / den
    }
}

/// A filled triangle stays between the middle corner's row and the base
/// row, and within twice the column spread of its two rightmost corners.
pub proof fn lemma_filled_tri_bound(p0: Point, p1: Point, p2: Point, a: int, b: int)
    requires
        in_filled_tri(p0, p1, p2, a, b),
    ensures
        sort3_by_x(p0, p1, p2).1.y <= b < sort3_by_x(p0, p1, p2).2.y,
        sort3_by_x(p0, p1, p2).1.x - (sort3_by_x(p0, p1, p2).2.x - sort3_by_x(p0, p1, p2).1.x)
            <= a,
        a < sort3_by_x(p0, p1, p2).1.x + 2 * (sort3_by_x(p0, p1, p2).2.x - sort3_by_x(
            p0,
            p1,
            p2,
        ).1.x),
{
    let s1 = sort3_by_x(p0, p1, p2).1;
    let s2 = sort3_by_x(p0, p1, p2).2;
    let den = s2.y - s1.y;
    let dxx = s2.x - s1.x;
    let num = (b - s1.y) * dxx;
    // The scan formula only admits pixels when the row run is nonempty,
    // which forces a positive column spread.
    if dxx <= 0 {
        assert((b - s1.y) * dxx <= 0) by (nonlinear_arith)
            requires
                b - s1.y >= 0,
                dxx <= 0,
        ;
        vstd::arithmetic::div_mod::lemma_div_is_ordered(2 * num, 0, den);
    } else {
        lemma_mul_bound(b - s1.y, dxx, den - 1, dxx);
        assert((den - 1) * dxx <= den * dxx && 2 * (den * dxx) == den * (2 * dxx))
            by (nonlinear_arith)
            requires
                dxx >= 0,
        ;
        vstd::arithmetic::div_mod::lemma_div_pos_is_pos(num, den);
        vstd::arithmetic::div_mod::lemma_div_is_ordered(num, den * dxx, den);
        vstd::arithmetic::div_mod::lemma_div_multiples_vanish(dxx, den);
        vstd::arithmetic::div_mod::lemma_div_is_ordered(2 * num, den * (2 * dxx), den);
        vstd::arithmetic::div_mod::lemma_div_multiples_vanish(2 * dxx, den);
    }
}

/// A nonnegative product of bounded factors is bounded.
proof fn lemma_mul_bound(a: int, b: int, ma: int, mb: int)
    requires
        0 <= a <= ma,
        0 <= b <= mb,
    ensures
        0 <= a * b <= ma * mb,
{
    assert(0 <= a <= ma && 0 <= b <= mb ==> 0 <= a * b <= ma * mb) by (nonlinear_arith);
}

/// Fill an upward-pointing triangle: the corners are sorted by ascending x;
/// the call is refused, leaving the buffer untouched, unless the sorted x
/// coordinates are strictly increasing, the outer corners share a row, and
/// the middle corner lies strictly above it.  On success the rows from the
/// middle corner's row down to (but excluding) the base row are painted
/// with runs centered under the middle corner.
pub fn fill_triangle(fb: &mut Vec<u8>, p0: Point, p1: Point, p2: Point, shade: u8) -> (r: Result<
    (),
    TriangleError,
>)
    requires
        old(fb)@.len() == FB_LEN,
        shade <= 15,
        coord_ok(p0.x as int, p0.y as int),
        coord_ok(p1.x as int, p1.y as int),
        coord_ok(p2.x as int, p2.y as int),
    ensures
        final(fb)@.len() == FB_LEN,
        !tri_sorted_ok(p0, p1, p2) ==> r == Err::<(), TriangleError>(
            TriangleError::UnsortablePoints,
        ) && final(fb)@ == old(fb)@,
        tri_sorted_ok(p0, p1, p2) && !tri_upward_ok(p0, p1, p2) ==> r == Err::<(), TriangleError>(
            TriangleError::NotUpwardPointing,
        ) && final(fb)@ == old(fb)@,
        tri_sorted_ok(p0, p1, p2) && tri_upward_ok(p0, p1, p2) ==> r is Ok && forall|a: int, b: int|
            in_screen(a, b) ==> pixel_at(final(fb)@, a, b) == (if in_filled_tri(p0, p1, p2, a, b) {
                shade
            } else {
                pixel_at(old(fb)@, a, b)
            }),
{
    let mut q0 = p0;
    let mut q1 = p1;
    let mut q2 = p2;
    if q0.x > q1.x {
        let t = q0;
        q0 = q1;
        q1 = t;
    }
    if q1.x > q2.x {
        let t = q1;
        q1 = q2;
        q2 = t;
    }
    if q0.x > q1.x {
        let t = q0;
        q0 = q1;
        q1 = t;
    }
    proof {
        assert((q0, q1, q2) == sort3_by_x(p0, p1, p2));
    }
    if !(q2.x > q1.x && q1.x > q0.x) {
        return Err(TriangleError::UnsortablePoints);
    }
    if q0.y != q2.y || q1.y >= q0.y {
        return Err(TriangleError::NotUpwardPointing);
    }
    let den64: i64 = (q2.y - q1.y) as i64;
    let ddx64: i64 = (q2.x - q1.x) as i64;
    let mut yy = q1.y;
    while yy < q2.y
        invariant
            fb@.len() == FB_LEN,
            shade <= 15,
            (q0, q1, q2) == sort3_by_x(p0, p1, p2),
            coord_ok(q1.x as int, q1.y as int),
            coord_ok(q2.x as int, q2.y as int),
            q2.x > q1.x,
            q1.y < q2.y,
            den64 == q2.y - q1.y,
            ddx64 == q2.x - q1.x,
            q1.y <= yy <= q2.y,
            forall|a: int, b: int|
                in_screen(a, b) ==> pixel_at(fb@, a, b) == (if in_filled_tri(p0, p1, p2, a, b) && b
                    < yy {
                    shade
                } else {
                    pixel_at(old(fb)@, a, b)
                }),
        decreases q2.y - yy,
    {
        proof {
            lemma_mul_bound((yy - q1.y) as int, ddx64 as int, den64 as int, 2000000);
            lemma_mul_bound(den64 as int, 2000000, 2000000, 2000000);
            vstd::arithmetic::div_mod::lemma_div_pos_is_pos((yy - q1.y) as int * ddx64 as int, den64 as int);
            vstd::arithmetic::div_mod::lemma_div_is_ordered(
                (yy - q1.y) as int * ddx64 as int,
                den64 as int * 2000000,
                den64 as int,
            );
            vstd::arithmetic::div_mod::lemma_div_multiples_vanish(2000000, den64 as int);
            vstd::arithmetic::div_mod::lemma_div_pos_is_pos(
                2 * ((yy - q1.y) as int * ddx64 as int),
                den64 as int,
            );
            lemma_mul_bound(den64 as int, 4000000, 2000000, 4000000);
            vstd::arithmetic::div_mod::lemma_div_is_ordered(
                2 * ((yy - q1.y) as int * ddx64 as int),
                den64 as int * 4000000,
                den64 as int,
            );
            vstd::arithmetic::div_mod::lemma_div_multiples_vanish(4000000, den64 as int);
        }
        let num: i64 = (yy - q1.y) as i64 * ddx64;
        let l: i32 = (num / den64) as i32;
        let start: i32 = q1.x - l;
        let run: i32 = ((2 * num) / den64) as i32;
        draw_hline(fb, start, yy, run, shade);
        yy = yy + 1;
    }
    Ok(())
}

} // verus!
