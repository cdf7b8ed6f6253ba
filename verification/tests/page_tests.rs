use epd_gfx::codec::{get_pixel, set_all, FB_LEN};
use epd_gfx::glyph::{Glyph, GlyphPixel};
use epd_gfx::page::{draw_grid, draw_header};

fn white_buffer() -> Vec<u8> {
    let mut fb = vec![0u8; FB_LEN];
    set_all(&mut fb, 0xF);
    fb
}

#[test]
fn grid_rules_every_fiftieth_row_and_column() {
    let mut fb = white_buffer();
    draw_grid(&mut fb, 50, 50, 0xA);
    // Rows at positive multiples of 50, across the whole width.
    assert_eq!(get_pixel(&fb, 0, 50), Some(0xA));
    assert_eq!(get_pixel(&fb, 537, 100), Some(0xA));
    // Columns likewise, across the whole height.
    assert_eq!(get_pixel(&fb, 50, 13), Some(0xA));
    assert_eq!(get_pixel(&fb, 500, 959), Some(0xA));
    // The zero row and column are skipped, and cells stay white inside.
    assert_eq!(get_pixel(&fb, 0, 0), Some(0xF));
    assert_eq!(get_pixel(&fb, 25, 25), Some(0xF));
    assert_eq!(get_pixel(&fb, 49, 49), Some(0xF));
    assert_eq!(get_pixel(&fb, 51, 49), Some(0xF));
}

#[test]
fn header_centers_text_and_underlines_it() {
    let mut fb = white_buffer();
    let glyph = Glyph {
        min_x: 0,
        min_y: 10,
        max_x: 2,
        pixels: vec![GlyphPixel { gx: 0, gy: 0, coverage: 1000 }],
    };
    draw_header(&mut fb, &vec![glyph]);
    // The underline spans the full width on rows 40 and 41.
    assert_eq!(get_pixel(&fb, 5, 40), Some(0x0));
    assert_eq!(get_pixel(&fb, 539, 40), Some(0x0));
    assert_eq!(get_pixel(&fb, 5, 41), Some(0x0));
    assert_eq!(get_pixel(&fb, 5, 42), Some(0xF));
    assert_eq!(get_pixel(&fb, 5, 39), Some(0xF));
    // The glyph run of width 2 is centered on column 270.
    assert_eq!(get_pixel(&fb, 269, 10), Some(0x0));
    assert_eq!(get_pixel(&fb, 268, 10), Some(0xF));
    assert_eq!(get_pixel(&fb, 270, 10), Some(0xF));
}
