use epd_gfx::codec::{get_pixel, set_all, FB_LEN};
use epd_gfx::icons::{clear_day, cloudy, draw_icon, fog, rain, Icons};
use epd_gfx::raster::fill_rect;
use epd_gfx::shapes::{cloud, fog_band, moon, raindrop};

fn white_buffer() -> Vec<u8> {
    let mut fb = vec![0u8; FB_LEN];
    set_all(&mut fb, 0xF);
    fb
}

#[test]
fn page_fill_then_rect() {
    let mut fb = vec![0u8; FB_LEN];
    set_all(&mut fb, 0xF);
    fill_rect(&mut fb, 50, 75, 400, 250, 0x0);
    assert_eq!(get_pixel(&fb, 0, 0), Some(0xF));
    assert_eq!(get_pixel(&fb, 60, 80), Some(0x0));
    // The rectangle's edges, inside and out.
    assert_eq!(get_pixel(&fb, 49, 75), Some(0xF));
    assert_eq!(get_pixel(&fb, 50, 75), Some(0x0));
    assert_eq!(get_pixel(&fb, 449, 324), Some(0x0));
    assert_eq!(get_pixel(&fb, 450, 75), Some(0xF));
    assert_eq!(get_pixel(&fb, 50, 325), Some(0xF));
}

#[test]
fn rain_matches_cloud_plus_five_raindrops() {
    let mut whole = white_buffer();
    rain(&mut whole, 270, 400, 150);

    let mut parts = white_buffer();
    cloud(&mut parts, 270, 400, 150, 0x0, 0xF);
    // The documented offsets: one sixth of the scale apart, a quarter of
    // the scale below the center, each a fifteenth of the scale in size.
    let step = 150 / 6;
    let dy = 400 + 150 / 4;
    let ds = 150 / 15;
    for d in [-2i32, -1, 0, 1, 2] {
        raindrop(&mut parts, 270 - step * d, dy, ds, 0x0);
    }
    assert_eq!(whole, parts);
}

#[test]
fn moon_leaves_a_crescent() {
    let mut fb = white_buffer();
    moon(&mut fb, 100, 100, 60, 0x0, 0xF);
    // The center lies inside the punched-out disk around (110, 100).
    assert_eq!(get_pixel(&fb, 100, 100), Some(0xF));
    // The left rim is inside the moon disk but outside the punch.
    assert_eq!(get_pixel(&fb, 72, 100), Some(0x0));
    // Far outside nothing changes.
    assert_eq!(get_pixel(&fb, 160, 100), Some(0xF));
}

#[test]
fn clear_day_draws_ring_and_rays() {
    let mut fb = white_buffer();
    clear_day(&mut fb, 200, 300, 150);
    // Ring: radius 37 outside a background core of radius 34.
    assert_eq!(get_pixel(&fb, 236, 300), Some(0x0));
    assert_eq!(get_pixel(&fb, 200, 300), Some(0xF));
    assert_eq!(get_pixel(&fb, 230, 300), Some(0xF));
    // The clearing of radius 45 swallows the rays near the ring.
    assert_eq!(get_pixel(&fb, 242, 300), Some(0xF));
    // The horizontal ray runs out to half the scale.
    assert_eq!(get_pixel(&fb, 260, 300), Some(0x0));
    assert_eq!(get_pixel(&fb, 275, 300), Some(0x0));
    assert_eq!(get_pixel(&fb, 276, 300), Some(0xF));
    // The vertical ray likewise.
    assert_eq!(get_pixel(&fb, 200, 360), Some(0x0));
    assert_eq!(get_pixel(&fb, 200, 376), Some(0xF));
}

#[test]
fn fog_band_draws_three_bars() {
    let mut fb = white_buffer();
    fog_band(&mut fb, 100, 500, 100, 0x9);
    // Bars of thickness 10 around rows 480, 500 and 520, from column 50
    // to column 150.
    assert_eq!(get_pixel(&fb, 100, 500), Some(0x9));
    assert_eq!(get_pixel(&fb, 100, 480), Some(0x9));
    assert_eq!(get_pixel(&fb, 100, 520), Some(0x9));
    assert_eq!(get_pixel(&fb, 100, 510), Some(0xF));
    assert_eq!(get_pixel(&fb, 49, 500), Some(0xF));
    assert_eq!(get_pixel(&fb, 50, 500), Some(0x9));
    assert_eq!(get_pixel(&fb, 150, 500), Some(0x9));
    assert_eq!(get_pixel(&fb, 151, 500), Some(0xF));
}

#[test]
fn fog_icon_uses_mid_gray() {
    let mut fb = white_buffer();
    fog(&mut fb, 270, 480, 150);
    assert_eq!(get_pixel(&fb, 270, 480), Some(0x9));
}

#[test]
fn cloudy_icon_has_outline_and_interior() {
    let mut fb = white_buffer();
    cloudy(&mut fb, 270, 400, 150);
    // The center of the body lies in the punched-out interior.
    assert_eq!(get_pixel(&fb, 270, 400), Some(0xF));
    // The bottom edge of the body rectangle keeps the outline shade:
    // the rectangle spans rows 375..425, the interior only 380..420.
    assert_eq!(get_pixel(&fb, 270, 423), Some(0x0));
    // Far away nothing changes.
    assert_eq!(get_pixel(&fb, 100, 100), Some(0xF));
}

#[test]
fn zero_scale_shapes_do_not_paint_outside_their_center() {
    let before = white_buffer();
    let mut fb = white_buffer();
    cloud(&mut fb, 270, 400, 0, 0x0, 0xF);
    moon(&mut fb, 270, 400, 0, 0x0, 0xF);
    fog_band(&mut fb, 270, 400, 0, 0x9);
    // At scale zero every disk has radius zero or less and every bar and
    // rectangle collapses; at most single center pixels change.
    for x in 0..540 {
        for y in 0..960 {
            if (x, y) != (270, 400) {
                assert_eq!(get_pixel(&fb, x, y), get_pixel(&before, x, y));
            }
        }
    }
}

#[test]
fn every_icon_renders() {
    let icons = [
        Icons::ClearDay,
        Icons::ClearNight,
        Icons::PartlyCloudyDay,
        Icons::PartlyCloudyNight,
        Icons::Cloudy,
        Icons::Fog,
        Icons::Rain,
        Icons::Snow,
        Icons::Thunderstorm,
    ];
    for icon in icons {
        let before = white_buffer();
        let mut fb = white_buffer();
        draw_icon(&mut fb, icon, 270, 400, 150);
        assert_ne!(fb, before, "{icon:?} painted nothing");
    }
}
