use epd_gfx::codec::{get_pixel, set_all, FB_LEN};
use epd_gfx::raster::{
    draw_circle, draw_hline, draw_line, draw_triangle, draw_vline, fill_circle, fill_rect,
    fill_triangle, Point, TriangleError,
};

fn white_buffer() -> Vec<u8> {
    let mut fb = vec![0u8; FB_LEN];
    set_all(&mut fb, 0xF);
    fb
}

/// The logical pixels whose shade differs between two buffers.
fn changed_pixels(before: &Vec<u8>, after: &Vec<u8>) -> Vec<(i32, i32)> {
    let mut out = Vec::new();
    for x in 0..540 {
        for y in 0..960 {
            if get_pixel(before, x, y) != get_pixel(after, x, y) {
                out.push((x, y));
            }
        }
    }
    out
}

#[test]
fn degenerate_line_sets_exactly_one_pixel() {
    let before = white_buffer();
    let mut fb = white_buffer();
    draw_line(&mut fb, 10, 20, 10, 20, 0x0);
    let changed = changed_pixels(&before, &fb);
    assert_eq!(changed, vec![(10, 20)]);
    assert_eq!(get_pixel(&fb, 10, 20), Some(0x0));
}

#[test]
fn hline_paints_its_run() {
    let mut fb = white_buffer();
    draw_hline(&mut fb, 5, 7, 10, 0x2);
    for x in 5..15 {
        assert_eq!(get_pixel(&fb, x, 7), Some(0x2));
    }
    assert_eq!(get_pixel(&fb, 4, 7), Some(0xF));
    assert_eq!(get_pixel(&fb, 15, 7), Some(0xF));
    assert_eq!(get_pixel(&fb, 5, 6), Some(0xF));
    assert_eq!(get_pixel(&fb, 5, 8), Some(0xF));
}

#[test]
fn hline_with_zero_or_negative_length_is_a_noop() {
    let before = white_buffer();
    let mut fb = white_buffer();
    draw_hline(&mut fb, 5, 7, 0, 0x0);
    draw_hline(&mut fb, 5, 7, -3, 0x0);
    assert_eq!(fb, before);
}

#[test]
fn hline_clips_at_the_right_border() {
    let mut fb = white_buffer();
    draw_hline(&mut fb, 535, 0, 10, 0x0);
    for x in 535..540 {
        assert_eq!(get_pixel(&fb, x, 0), Some(0x0));
    }
    assert_eq!(get_pixel(&fb, 534, 0), Some(0xF));
}

#[test]
fn vline_paints_its_run() {
    let mut fb = white_buffer();
    draw_vline(&mut fb, 30, 900, 80, 0x4);
    for y in 900..960 {
        assert_eq!(get_pixel(&fb, 30, y), Some(0x4));
    }
    assert_eq!(get_pixel(&fb, 30, 899), Some(0xF));
    assert_eq!(get_pixel(&fb, 29, 930), Some(0xF));
}

#[test]
fn fill_rect_paints_exactly_its_area() {
    let before = white_buffer();
    let mut fb = white_buffer();
    fill_rect(&mut fb, 3, 4, 5, 6, 0x1);
    let changed = changed_pixels(&before, &fb);
    assert_eq!(changed.len(), 30);
    for x in 3..8 {
        for y in 4..10 {
            assert_eq!(get_pixel(&fb, x, y), Some(0x1));
        }
    }
    assert_eq!(get_pixel(&fb, 2, 4), Some(0xF));
    assert_eq!(get_pixel(&fb, 8, 4), Some(0xF));
    assert_eq!(get_pixel(&fb, 3, 3), Some(0xF));
    assert_eq!(get_pixel(&fb, 3, 10), Some(0xF));
}

#[test]
fn fill_rect_clips_to_the_screen() {
    let before = white_buffer();
    let mut fb = white_buffer();
    fill_rect(&mut fb, -2, -3, 5, 6, 0x0);
    let changed = changed_pixels(&before, &fb);
    // The on-screen intersection is x in 0..3, y in 0..3.
    assert_eq!(changed.len(), 9);
    for x in 0..3 {
        for y in 0..3 {
            assert_eq!(get_pixel(&fb, x, y), Some(0x0));
        }
    }
}

#[test]
fn fill_circle_paints_exactly_the_disk() {
    for r in [0, 1, 2, 3, 5, 10, 25, 50, 100] {
        let mut fb = white_buffer();
        fill_circle(&mut fb, 200, 300, r, 0x0);
        for dx in -(r + 2)..=(r + 2) {
            for dy in -(r + 2)..=(r + 2) {
                let inside = dx * dx + dy * dy <= r * r;
                let shade = get_pixel(&fb, 200 + dx, 300 + dy).unwrap();
                assert_eq!(shade == 0x0, inside, "r={r} dx={dx} dy={dy}");
            }
        }
    }
}

#[test]
fn fill_circle_with_negative_radius_is_a_noop() {
    let before = white_buffer();
    let mut fb = white_buffer();
    fill_circle(&mut fb, 100, 100, -1, 0x0);
    assert_eq!(fb, before);
}

#[test]
fn fill_triangle_paints_the_scanline_rows() {
    let before = white_buffer();
    let mut fb = white_buffer();
    let p0 = Point { x: 100, y: 200 };
    let p1 = Point { x: 110, y: 180 };
    let p2 = Point { x: 125, y: 200 };
    assert_eq!(fill_triangle(&mut fb, p0, p1, p2, 0x0), Ok(()));
    // Row by row: start = 110 - i * 15 / 20, run = 2 * i * 15 / 20.
    for row in 180..200 {
        let i = (row - 180) as i64;
        let l = (i * 15 / 20) as i32;
        let run = (2 * i * 15 / 20) as i32;
        let start = 110 - l;
        for x in 90..140 {
            let painted = x >= start && x < start + run;
            let shade = get_pixel(&fb, x, row).unwrap();
            assert_eq!(shade == 0x0, painted, "row={row} x={x}");
        }
    }
    // The base row itself is not painted.
    for x in 90..140 {
        assert_eq!(get_pixel(&fb, x, 200), Some(0xF));
    }
    assert_ne!(fb, before);
}

#[test]
fn fill_triangle_rejects_equal_columns() {
    let before = white_buffer();
    let mut fb = white_buffer();
    let p0 = Point { x: 5, y: 10 };
    let p1 = Point { x: 5, y: 8 };
    let p2 = Point { x: 9, y: 10 };
    assert_eq!(
        fill_triangle(&mut fb, p0, p1, p2, 0x0),
        Err(TriangleError::UnsortablePoints)
    );
    assert_eq!(fb, before);
}

#[test]
fn fill_triangle_rejects_downward_triangles() {
    let before = white_buffer();
    let mut fb = white_buffer();
    let p0 = Point { x: 0, y: 0 };
    let p1 = Point { x: 5, y: 10 };
    let p2 = Point { x: 10, y: 0 };
    assert_eq!(
        fill_triangle(&mut fb, p0, p1, p2, 0x0),
        Err(TriangleError::NotUpwardPointing)
    );
    assert_eq!(fb, before);
}

#[test]
fn fill_triangle_rejects_sloped_bases() {
    let before = white_buffer();
    let mut fb = white_buffer();
    let p0 = Point { x: 0, y: 0 };
    let p1 = Point { x: 5, y: -10 };
    let p2 = Point { x: 10, y: 2 };
    assert_eq!(
        fill_triangle(&mut fb, p0, p1, p2, 0x0),
        Err(TriangleError::NotUpwardPointing)
    );
    assert_eq!(fb, before);
}

#[test]
fn diagonal_line_follows_the_bresenham_trace() {
    let mut fb = white_buffer();
    // Shallow line: dx = 10, dy = 4.
    draw_line(&mut fb, 20, 30, 30, 34, 0x0);
    // Reference run of the error recurrence: err = 2*dy - dx, stepping y
    // when err > 0.
    let mut y = 30;
    let mut err = 2 * 4 - 10;
    for x in 20..30 {
        assert_eq!(get_pixel(&fb, x, y), Some(0x0), "x={x}");
        if err > 0 {
            y += 1;
            err += 2 * (4 - 10);
        } else {
            err += 2 * 4;
        }
    }
    // The final column stays unpainted.
    assert_eq!(get_pixel(&fb, 30, 34), Some(0xF));
}

#[test]
fn triangle_outline_draws_its_horizontal_edge() {
    let mut fb = white_buffer();
    let p0 = Point { x: 50, y: 60 };
    let p1 = Point { x: 60, y: 40 };
    let p2 = Point { x: 70, y: 60 };
    draw_triangle(&mut fb, p0, p1, p2, 0x0);
    // The edge p2 -> p0 is horizontal and painted end to end.
    for x in 50..=70 {
        assert_eq!(get_pixel(&fb, x, 60), Some(0x0));
    }
    // Both sloped edges leave ink somewhere above the base.
    assert_eq!(get_pixel(&fb, 60, 40), Some(0x0));
}

#[test]
fn circle_outline_with_zero_radius_shows_the_axis_swap() {
    let before = white_buffer();
    let mut fb = white_buffer();
    draw_circle(&mut fb, 100, 200, 0, 0x0);
    // The four plain symmetric points collapse onto the center; the four
    // axis-swapped points collapse onto the mirrored center.
    let changed = changed_pixels(&before, &fb);
    assert_eq!(changed, vec![(100, 200), (200, 100)]);
}

#[test]
fn circle_outline_radius_three() {
    let before = white_buffer();
    let mut fb = white_buffer();
    draw_circle(&mut fb, 100, 200, 3, 0x0);
    let mut expected = vec![
        (97, 200),
        (98, 199),
        (98, 201),
        (102, 199),
        (102, 201),
        (103, 200),
        (197, 100),
        (198, 99),
        (198, 101),
        (202, 99),
        (202, 101),
        (203, 100),
    ];
    expected.sort();
    let changed = changed_pixels(&before, &fb);
    assert_eq!(changed, expected);
}

#[test]
fn circle_outline_with_negative_radius_is_a_noop() {
    let before = white_buffer();
    let mut fb = white_buffer();
    draw_circle(&mut fb, 100, 200, -2, 0x0);
    assert_eq!(fb, before);
}
