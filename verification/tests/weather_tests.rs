use epd_gfx::codec::{get_pixel, set_all, FB_LEN};
use epd_gfx::glyph::{blit_glyphs, coverage_to_shade, Glyph, GlyphPixel};
use epd_gfx::icons::Icons;
use epd_gfx::weather::{deg_to_direction, draw_weather_icon, select_icon, wmo_code_from_u8, WMOCode};

fn white_buffer() -> Vec<u8> {
    let mut fb = vec![0u8; FB_LEN];
    set_all(&mut fb, 0xF);
    fb
}

#[test]
fn icon_selection_follows_the_code_groups() {
    assert_eq!(select_icon(&WMOCode::ClearSky), Some(Icons::ClearDay));
    assert_eq!(select_icon(&WMOCode::MainlyClear), Some(Icons::ClearDay));
    assert_eq!(select_icon(&WMOCode::PartyCloudy), Some(Icons::PartlyCloudyDay));
    assert_eq!(select_icon(&WMOCode::Overcast), Some(Icons::Cloudy));
    assert_eq!(select_icon(&WMOCode::Fog), Some(Icons::Fog));
    for rain in [
        WMOCode::LightDrizzle,
        WMOCode::ModerateDrizzle,
        WMOCode::DenseDrizzle,
        WMOCode::LightRain,
        WMOCode::ModerateRain,
        WMOCode::HeavyRain,
        WMOCode::LightFreezingRain,
        WMOCode::HeavyFreezingRain,
        WMOCode::LightRainShowers,
        WMOCode::HeavyRainShowers,
    ] {
        assert_eq!(select_icon(&rain), Some(Icons::Rain), "{rain:?}");
    }
    for snow in [
        WMOCode::LightSnow,
        WMOCode::ModerateSnow,
        WMOCode::HeavySnow,
        WMOCode::SnowGrains,
        WMOCode::LightSnowShowers,
        WMOCode::HeavySnowShowers,
    ] {
        assert_eq!(select_icon(&snow), Some(Icons::Snow), "{snow:?}");
    }
    for storm in [
        WMOCode::Thunderstorm,
        WMOCode::ThunderstormWithLightHail,
        WMOCode::ThunderstormWithHeavyHail,
    ] {
        assert_eq!(select_icon(&storm), Some(Icons::Thunderstorm), "{storm:?}");
    }
    for unmapped in [
        WMOCode::DepositingRimeFog,
        WMOCode::LightFreezingDrizzle,
        WMOCode::DenseFreezingDrizzle,
        WMOCode::ModerateRainShowers,
    ] {
        assert_eq!(select_icon(&unmapped), None, "{unmapped:?}");
    }
}

#[test]
fn numeric_codes_decode_to_their_variants() {
    assert_eq!(wmo_code_from_u8(0), Some(WMOCode::ClearSky));
    assert_eq!(wmo_code_from_u8(2), Some(WMOCode::PartyCloudy));
    assert_eq!(wmo_code_from_u8(45), Some(WMOCode::Fog));
    assert_eq!(wmo_code_from_u8(63), Some(WMOCode::ModerateRain));
    assert_eq!(wmo_code_from_u8(77), Some(WMOCode::SnowGrains));
    assert_eq!(wmo_code_from_u8(99), Some(WMOCode::ThunderstormWithHeavyHail));
    assert_eq!(wmo_code_from_u8(4), None);
    assert_eq!(wmo_code_from_u8(50), None);
    assert_eq!(wmo_code_from_u8(100), None);
    assert_eq!(wmo_code_from_u8(255), None);
}

#[test]
fn mapped_code_draws_and_unmapped_code_leaves_the_buffer() {
    let before = white_buffer();
    let mut fb = white_buffer();
    assert!(draw_weather_icon(&mut fb, &WMOCode::Overcast, 270, 400, 150));
    assert_ne!(fb, before);

    let mut fb2 = white_buffer();
    assert!(!draw_weather_icon(&mut fb2, &WMOCode::DepositingRimeFog, 270, 400, 150));
    assert_eq!(fb2, before);
}

#[test]
fn wind_directions_at_the_sector_boundaries() {
    assert_eq!(deg_to_direction(0), "N");
    assert_eq!(deg_to_direction(1124), "N");
    assert_eq!(deg_to_direction(1125), "NNE");
    assert_eq!(deg_to_direction(3374), "NNE");
    assert_eq!(deg_to_direction(3375), "NE");
    assert_eq!(deg_to_direction(5625), "ENE");
    assert_eq!(deg_to_direction(9000), "E");
    assert_eq!(deg_to_direction(11250), "ESE");
    assert_eq!(deg_to_direction(13500), "SE");
    assert_eq!(deg_to_direction(15750), "SSE");
    assert_eq!(deg_to_direction(18000), "S");
    assert_eq!(deg_to_direction(20250), "SSW");
    assert_eq!(deg_to_direction(22500), "SW");
    assert_eq!(deg_to_direction(24750), "WSW");
    assert_eq!(deg_to_direction(27000), "W");
    assert_eq!(deg_to_direction(29250), "WNW");
    assert_eq!(deg_to_direction(31500), "NW");
    assert_eq!(deg_to_direction(33750), "NNW");
    assert_eq!(deg_to_direction(34874), "NNW");
    assert_eq!(deg_to_direction(34875), "N");
    assert_eq!(deg_to_direction(36000), "N");
    assert_eq!(deg_to_direction(u32::MAX), "N");
}

#[test]
fn coverage_quantizes_by_rounding() {
    assert_eq!(coverage_to_shade(1000), 0);
    assert_eq!(coverage_to_shade(0), 15);
    assert_eq!(coverage_to_shade(500), 8);
    assert_eq!(coverage_to_shade(933), 1);
    assert_eq!(coverage_to_shade(967), 0);
    assert_eq!(coverage_to_shade(33), 15);
    assert_eq!(coverage_to_shade(34), 14);
    assert_eq!(coverage_to_shade(67), 14);
}

#[test]
fn glyph_pixels_land_at_the_offset_position() {
    let mut fb = white_buffer();
    let glyph = Glyph {
        min_x: 2,
        min_y: 3,
        max_x: 4,
        pixels: vec![
            GlyphPixel { gx: 0, gy: 0, coverage: 1000 },
            GlyphPixel { gx: 1, gy: 0, coverage: 1000 },
            GlyphPixel { gx: 0, gy: 1, coverage: 500 },
        ],
    };
    blit_glyphs(&mut fb, 10, 20, &vec![glyph], false);
    assert_eq!(get_pixel(&fb, 12, 23), Some(0x0));
    assert_eq!(get_pixel(&fb, 13, 23), Some(0x0));
    assert_eq!(get_pixel(&fb, 12, 24), Some(0x8));
    assert_eq!(get_pixel(&fb, 11, 23), Some(0xF));
    assert_eq!(get_pixel(&fb, 14, 23), Some(0xF));
}

#[test]
fn centered_run_shifts_left_by_half_the_span() {
    let first = Glyph {
        min_x: 0,
        min_y: 0,
        max_x: 4,
        pixels: vec![GlyphPixel { gx: 0, gy: 0, coverage: 1000 }],
    };
    let last = Glyph {
        min_x: 6,
        min_y: 0,
        max_x: 10,
        pixels: vec![GlyphPixel { gx: 0, gy: 0, coverage: 1000 }],
    };
    let mut fb = white_buffer();
    blit_glyphs(&mut fb, 100, 50, &vec![first, last], true);
    // The span is 10 - 0 = 10, so the run origin is 100 - 5 = 95.
    assert_eq!(get_pixel(&fb, 95, 50), Some(0x0));
    assert_eq!(get_pixel(&fb, 101, 50), Some(0x0));
    assert_eq!(get_pixel(&fb, 100, 50), Some(0xF));
}

#[test]
fn an_empty_glyph_run_writes_nothing() {
    let before = white_buffer();
    let mut fb = white_buffer();
    blit_glyphs(&mut fb, 100, 50, &Vec::new(), false);
    assert_eq!(fb, before);
}

#[test]
fn off_screen_glyph_pixels_are_clipped() {
    let before = white_buffer();
    let mut fb = white_buffer();
    let glyph = Glyph {
        min_x: 0,
        min_y: 0,
        max_x: 1,
        pixels: vec![GlyphPixel { gx: 0, gy: 0, coverage: 1000 }],
    };
    blit_glyphs(&mut fb, -50, -50, &vec![glyph], false);
    assert_eq!(fb, before);
}
