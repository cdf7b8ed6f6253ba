//! Composed weather icons.
//!
//! Every icon is a closed variant of [`Icons`] and is rendered by a fixed
//! stack of shape layers from [`crate::shapes`]; black (0x0) is the
//! foreground shade and white (0xF) the background shade, with the fog
//! band in mid-gray (0x9).  The contract of each icon states the stacked
//! layer it leaves on the framebuffer, so a composed icon is provably the
//! same image as its isolated shapes drawn in sequence at the documented
//! relative offsets.

use vstd::prelude::*;

use crate::codec::{in_screen, pixel_at, FB_LEN};
use crate::shapes::{
    cloud, cloud_layer, fog_band, fog_band_layer, layer_apply, layer_over, lemma_cloud_footprint,
    lemma_fog_band_footprint, lemma_lightning_footprint, lemma_moon_footprint,
    lemma_raindrop_footprint, lemma_snowflake_footprint, lemma_sun_footprint, lightning,
    lightning_layer, moon, moon_layer, raindrop, raindrop_layer, snowflake, snowflake_layer, sun,
    sun_layer,
};

verus! {

/// Foreground (ink) shade of the icons: black.
pub const ICON_FG: u8 = 0x0;

/// Background (paper) shade of the icons: white.
pub const ICON_BG: u8 = 0xF;

/// Shade of the fog band: mid-gray.
pub const FOG_SHADE: u8 = 0x9;

/// The closed set of weather icons.
#[derive(Clone, Copy, Debug, PartialEq, Eq, Structural)]
pub enum Icons {
    ClearDay,
    ClearNight,
    PartlyCloudyDay,
    PartlyCloudyNight,
    Cloudy,
    Fog,
    Rain,
    Snow,
    Thunderstorm,
}

/// Bounds on an icon's center and scale; the derived centers and scales of
/// every sub-shape then meet the shapes' own bounds.
pub open spec fn icon_ok(cx: int, cy: int, scale: int) -> bool {
    -50000 <= cx <= 50000 && -50000 <= cy <= 50000 && 0 <= scale <= 50000
}

/// A rain icon needs enough scale for its raindrops' triangle caps.
pub open spec fn icon_scale_ok(icon: Icons, scale: int) -> bool {
    match icon {
        Icons::Rain => scale >= 30,
        _ => true,
    }
}

/// Layer of the clear-day icon: a sun at full scale.
pub open spec fn clear_day_layer(cx: int, cy: int, scale: int, a: int, b: int) -> Option<u8> {
    sun_layer(cx, cy, scale, ICON_FG, ICON_BG, a, b)
}

/// Layer of the clear-night icon: a moon at two thirds of the scale.
pub open spec fn clear_night_layer(cx: int, cy: int, scale: int, a: int, b: int) -> Option<u8> {
    moon_layer(cx, cy, scale / 3 * 2, ICON_FG, ICON_BG, a, b)
}

/// Layer of the partly-cloudy-day icon: a sun at two thirds of the scale,
/// shifted up and left by a third, over a cloud at full scale.
pub open spec fn partly_cloudy_day_layer(cx: int, cy: int, scale: int, a: int, b: int) -> Option<
    u8,
> {
    layer_over(
        sun_layer(cx - scale / 3, cy - scale / 3, scale * 2 / 3, ICON_FG, ICON_BG, a, b),
        cloud_layer(cx, cy, scale, ICON_FG, ICON_BG, a, b),
    )
}

/// Layer of the partly-cloudy-night icon: a cloud at full scale over a
/// moon at a third of the scale, shifted up and left by a third.
pub open spec fn partly_cloudy_night_layer(cx: int, cy: int, scale: int, a: int, b: int) -> Option<
    u8,
> {
    layer_over(
        cloud_layer(cx, cy, scale, ICON_FG, ICON_BG, a, b),
        moon_layer(cx - scale / 3, cy - scale / 3, scale / 3, ICON_FG, ICON_BG, a, b),
    )
}

/// Layer of the cloudy icon: a cloud at full scale.
pub open spec fn cloudy_layer(cx: int, cy: int, scale: int, a: int, b: int) -> Option<u8> {
    cloud_layer(cx, cy, scale, ICON_FG, ICON_BG, a, b)
}

/// Layer of the fog icon: the fog band in mid-gray.
pub open spec fn fog_layer(cx: int, cy: int, scale: int, a: int, b: int) -> Option<u8> {
    fog_band_layer(cx, cy, scale, FOG_SHADE, a, b)
}

/// Layer of the five raindrops of the rain icon: a row a quarter-scale
/// below the center, one sixth of the scale apart, each a fifteenth of the
/// scale in size.
pub open spec fn rain_drops_layer(cx: int, cy: int, scale: int, a: int, b: int) -> Option<u8> {
    let step = scale / 6;
    let dy = cy + scale / 4;
    let ds = scale / 15;
    layer_over(
        raindrop_layer(cx - 2 * step, dy, ds, ICON_FG, a, b),
        layer_over(
            raindrop_layer(cx - step, dy, ds, ICON_FG, a, b),
            layer_over(
                raindrop_layer(cx, dy, ds, ICON_FG, a, b),
                layer_over(
                    raindrop_layer(cx + step, dy, ds, ICON_FG, a, b),
                    raindrop_layer(cx + 2 * step, dy, ds, ICON_FG, a, b),
                ),
            ),
        ),
    )
}

/// Layer of the rain icon: the five raindrops over a cloud at full scale.
pub open spec fn rain_layer(cx: int, cy: int, scale: int, a: int, b: int) -> Option<u8> {
    layer_over(
        rain_drops_layer(cx, cy, scale, a, b),
        cloud_layer(cx, cy, scale, ICON_FG, ICON_BG, a, b),
    )
}

/// Layer of the five snowflakes of the snow icon, placed like the
/// raindrops of the rain icon.
pub open spec fn snow_flakes_layer(cx: int, cy: int, scale: int, a: int, b: int) -> Option<u8> {
    let step = scale / 6;
    let dy = cy + scale / 4;
    let ds = scale / 15;
    layer_over(
        snowflake_layer(cx - 2 * step, dy, ds, ICON_FG, a, b),
        layer_over(
            snowflake_layer(cx - step, dy, ds, ICON_FG, a, b),
            layer_over(
                snowflake_layer(cx, dy, ds, ICON_FG, a, b),
                layer_over(
                    snowflake_layer(cx + step, dy, ds, ICON_FG, a, b),
                    snowflake_layer(cx + 2 * step, dy, ds, ICON_FG, a, b),
                ),
            ),
        ),
    )
}

/// Layer of the snow icon: the five snowflakes over a cloud at full scale.
pub open spec fn snow_layer(cx: int, cy: int, scale: int, a: int, b: int) -> Option<u8> {
    layer_over(
        snow_flakes_layer(cx, cy, scale, a, b),
        cloud_layer(cx, cy, scale, ICON_FG, ICON_BG, a, b),
    )
}

/// Layer of the three lightning bolts of the thunderstorm icon: a row
/// below the cloud, a quarter of the scale apart, each a sixth of the
/// scale in size.
pub open spec fn storm_bolts_layer(cx: int, cy: int, scale: int, a: int, b: int) -> Option<u8> {
    let step = scale / 4;
    let dy = cy + scale / 15 * 4;
    let ds = scale / 6;
    layer_over(
        lightning_layer(cx - step, dy, ds, ICON_FG, a, b),
        layer_over(
            lightning_layer(cx, dy, ds, ICON_FG, a, b),
            lightning_layer(cx + step, dy, ds, ICON_FG, a, b),
        ),
    )
}

/// Layer of the thunderstorm icon: the three bolts over a cloud at full
/// scale.
pub open spec fn thunderstorm_layer(cx: int, cy: int, scale: int, a: int, b: int) -> Option<u8> {
    layer_over(
        storm_bolts_layer(cx, cy, scale, a, b),
        cloud_layer(cx, cy, scale, ICON_FG, ICON_BG, a, b),
    )
}

/// The drawing layer of an icon at a center and scale.
pub open spec fn icon_layer(icon: Icons, cx: int, cy: int, scale: int, a: int, b: int) -> Option<
    u8,
> {
    match icon {
        Icons::ClearDay => clear_day_layer(cx, cy, scale, a, b),
        Icons::ClearNight => clear_night_layer(cx, cy, scale, a, b),
        Icons::PartlyCloudyDay => partly_cloudy_day_layer(cx, cy, scale, a, b),
        Icons::PartlyCloudyNight => partly_cloudy_night_layer(cx, cy, scale, a, b),
        Icons::Cloudy => cloudy_layer(cx, cy, scale, a, b),
        Icons::Fog => fog_layer(cx, cy, scale, a, b),
        Icons::Rain => rain_layer(cx, cy, scale, a, b),
        Icons::Snow => snow_layer(cx, cy, scale, a, b),
        Icons::Thunderstorm => thunderstorm_layer(cx, cy, scale, a, b),
    }
}

/// An icon writes only within three times its scale of its center: every
/// sub-shape sits within half a scale of the icon center and reaches at
/// most twice its own, smaller, scale beyond that.
pub proof fn lemma_icon_footprint(icon: Icons, cx: int, cy: int, scale: int, a: int, b: int)
    requires
        icon_ok(cx, cy, scale),
        icon_layer(icon, cx, cy, scale, a, b) is Some,
    ensures
        cx - 3 * scale <= a <= cx + 3 * scale,
        cy - 3 * scale <= b <= cy + 3 * scale,
{
    let step = scale / 6;
    let dy = cy + scale / 4;
    let ds = scale / 15;
    let bstep = scale / 4;
    let bdy = cy + scale / 15 * 4;
    let bds = scale / 6;
    match icon {
        Icons::ClearDay => {
            lemma_sun_footprint(cx, cy, scale, ICON_FG, ICON_BG, a, b);
        },
        Icons::ClearNight => {
            lemma_moon_footprint(cx, cy, scale / 3 * 2, ICON_FG, ICON_BG, a, b);
        },
        Icons::PartlyCloudyDay => {
            if sun_layer(cx - scale / 3, cy - scale / 3, scale * 2 / 3, ICON_FG, ICON_BG, a, b)
                is Some {
                lemma_sun_footprint(
                    cx - scale / 3,
                    cy - scale / 3,
                    scale * 2 / 3,
                    ICON_FG,
                    ICON_BG,
                    a,
                    b,
                );
            } else {
                lemma_cloud_footprint(cx, cy, scale, ICON_FG, ICON_BG, a, b);
            }
        },
        Icons::PartlyCloudyNight => {
            if cloud_layer(cx, cy, scale, ICON_FG, ICON_BG, a, b) is Some {
                lemma_cloud_footprint(cx, cy, scale, ICON_FG, ICON_BG, a, b);
            } else {
                lemma_moon_footprint(cx - scale / 3, cy - scale / 3, scale / 3, ICON_FG, ICON_BG, a, b);
            }
        },
        Icons::Cloudy => {
            lemma_cloud_footprint(cx, cy, scale, ICON_FG, ICON_BG, a, b);
        },
        Icons::Fog => {
            lemma_fog_band_footprint(cx, cy, scale, FOG_SHADE, a, b);
        },
        Icons::Rain => {
            if raindrop_layer(cx - 2 * step, dy, ds, ICON_FG, a, b) is Some {
                lemma_raindrop_footprint(cx - 2 * step, dy, ds, ICON_FG, a, b);
            } else if raindrop_layer(cx - step, dy, ds, ICON_FG, a, b) is Some {
                lemma_raindrop_footprint(cx - step, dy, ds, ICON_FG, a, b);
            } else if raindrop_layer(cx, dy, ds, ICON_FG, a, b) is Some {
                lemma_raindrop_footprint(cx, dy, ds, ICON_FG, a, b);
            } else if raindrop_layer(cx + step, dy, ds, ICON_FG, a, b) is Some {
                lemma_raindrop_footprint(cx + step, dy, ds, ICON_FG, a, b);
            } else if raindrop_layer(cx + 2 * step, dy, ds, ICON_FG, a, b) is Some {
                lemma_raindrop_footprint(cx + 2 * step, dy, ds, ICON_FG, a, b);
            } else {
                lemma_cloud_footprint(cx, cy, scale, ICON_FG, ICON_BG, a, b);
            }
        },
        Icons::Snow => {
            if snowflake_layer(cx - 2 * step, dy, ds, ICON_FG, a, b) is Some {
                lemma_snowflake_footprint(cx - 2 * step, dy, ds, ICON_FG, a, b);
            } else if snowflake_layer(cx - step, dy, ds, ICON_FG, a, b) is Some {
                lemma_snowflake_footprint(cx - step, dy, ds, ICON_FG, a, b);
            } else if snowflake_layer(cx, dy, ds, ICON_FG, a, b) is Some {
                lemma_snowflake_footprint(cx, dy, ds, ICON_FG, a, b);
            } else if snowflake_layer(cx + step, dy, ds, ICON_FG, a, b) is Some {
                lemma_snowflake_footprint(cx + step, dy, ds, ICON_FG, a, b);
            } else if snowflake_layer(cx + 2 * step, dy, ds, ICON_FG, a, b) is Some {
                lemma_snowflake_footprint(cx + 2 * step, dy, ds, ICON_FG, a, b);
            } else {
                lemma_cloud_footprint(cx, cy, scale, ICON_FG, ICON_BG, a, b);
            }
        },
        Icons::Thunderstorm => {
            if lightning_layer(cx - bstep, bdy, bds, ICON_FG, a, b) is Some {
                lemma_lightning_footprint(cx - bstep, bdy, bds, ICON_FG, a, b);
            } else if lightning_layer(cx, bdy, bds, ICON_FG, a, b) is Some {
                lemma_lightning_footprint(cx, bdy, bds, ICON_FG, a, b);
            } else if lightning_layer(cx + bstep, bdy, bds, ICON_FG, a, b) is Some {
                lemma_lightning_footprint(cx + bstep, bdy, bds, ICON_FG, a, b);
            } else {
                lemma_cloud_footprint(cx, cy, scale, ICON_FG, ICON_BG, a, b);
            }
        },
    }
}

/// Draw the clear-day icon.
pub fn clear_day(fb: &mut Vec<u8>, cx: i32, cy: i32, scale: u32)
    requires
        old(fb)@.len() == FB_LEN,
        icon_ok(cx as int, cy as int, scale as int),
    ensures
        final(fb)@.len() == FB_LEN,
        forall|a: int, b: int|
            in_screen(a, b) ==> pixel_at(final(fb)@, a, b) == layer_apply(
                clear_day_layer(cx as int, cy as int, scale as int, a, b),
                pixel_at(old(fb)@, a, b),
            ),
{
    sun(fb, cx, cy, scale, ICON_FG, ICON_BG);
}

/// Draw the clear-night icon.
pub fn clear_night(fb: &mut Vec<u8>, cx: i32, cy: i32, scale: u32)
    requires
        old(fb)@.len() == FB_LEN,
        icon_ok(cx as int, cy as int, scale as int),
    ensures
        final(fb)@.len() == FB_LEN,
        forall|a: int, b: int|
            in_screen(a, b) ==> pixel_at(final(fb)@, a, b) == layer_apply(
                clear_night_layer(cx as int, cy as int, scale as int, a, b),
                pixel_at(old(fb)@, a, b),
            ),
{
    moon(fb, cx, cy, scale / 3 * 2, ICON_FG, ICON_BG);
}

/// Draw the partly-cloudy-day icon.
pub fn partly_cloudy_day(fb: &mut Vec<u8>, cx: i32, cy: i32, scale: u32)
    requires
        old(fb)@.len() == FB_LEN,
        icon_ok(cx as int, cy as int, scale as int),
    ensures
        final(fb)@.len() == FB_LEN,
        forall|a: int, b: int|
            in_screen(a, b) ==> pixel_at(final(fb)@, a, b) == layer_apply(
                partly_cloudy_day_layer(cx as int, cy as int, scale as int, a, b),
                pixel_at(old(fb)@, a, b),
            ),
{
    let sc = scale as i32;
    cloud(fb, cx, cy, scale, ICON_FG, ICON_BG);
    sun(fb, cx - sc / 3, cy - sc / 3, scale * 2 / 3, ICON_FG, ICON_BG);
}

/// Draw the partly-cloudy-night icon.
pub fn partly_cloudy_night(fb: &mut Vec<u8>, cx: i32, cy: i32, scale: u32)
    requires
        old(fb)@.len() == FB_LEN,
        icon_ok(cx as int, cy as int, scale as int),
    ensures
        final(fb)@.len() == FB_LEN,
        forall|a: int, b: int|
            in_screen(a, b) ==> pixel_at(final(fb)@, a, b) == layer_apply(
                partly_cloudy_night_layer(cx as int, cy as int, scale as int, a, b),
                pixel_at(old(fb)@, a, b),
            ),
{
    let sc = scale as i32;
    moon(fb, cx - sc / 3, cy - sc / 3, scale / 3, ICON_FG, ICON_BG);
    cloud(fb, cx, cy, scale, ICON_FG, ICON_BG);
}

/// Draw the cloudy icon.
pub fn cloudy(fb: &mut Vec<u8>, cx: i32, cy: i32, scale: u32)
    requires
        old(fb)@.len() == FB_LEN,
        icon_ok(cx as int, cy as int, scale as int),
    ensures
        final(fb)@.len() == FB_LEN,
        forall|a: int, b: int|
            in_screen(a, b) ==> pixel_at(final(fb)@, a, b) == layer_apply(
                cloudy_layer(cx as int, cy as int, scale as int, a, b),
                pixel_at(old(fb)@, a, b),
            ),
{
    cloud(fb, cx, cy, scale, ICON_FG, ICON_BG);
}

/// Draw the fog icon.
pub fn fog(fb: &mut Vec<u8>, cx: i32, cy: i32, scale: u32)
    requires
        old(fb)@.len() == FB_LEN,
        icon_ok(cx as int, cy as int, scale as int),
    ensures
        final(fb)@.len() == FB_LEN,
        forall|a: int, b: int|
            in_screen(a, b) ==> pixel_at(final(fb)@, a, b) == layer_apply(
                fog_layer(cx as int, cy as int, scale as int, a, b),
                pixel_at(old(fb)@, a, b),
            ),
{
    fog_band(fb, cx, cy, scale, FOG_SHADE);
}

/// Draw the rain icon: a cloud with five raindrops beneath it.
pub fn rain(fb: &mut Vec<u8>, cx: i32, cy: i32, scale: u32)
    requires
        old(fb)@.len() == FB_LEN,
        icon_ok(cx as int, cy as int, scale as int),
        scale >= 30,
    ensures
        final(fb)@.len() == FB_LEN,
        forall|a: int, b: int|
            in_screen(a, b) ==> pixel_at(final(fb)@, a, b) == layer_apply(
                rain_layer(cx as int, cy as int, scale as int, a, b),
                pixel_at(old(fb)@, a, b),
            ),
{
    let sc = scale as i32;
    let step = sc / 6;
    let dy = cy + sc / 4;
    let ds = scale / 15;
    cloud(fb, cx, cy, scale, ICON_FG, ICON_BG);
    raindrop(fb, cx + 2 * step, dy, ds, ICON_FG);
    raindrop(fb, cx + step, dy, ds, ICON_FG);
    raindrop(fb, cx, dy, ds, ICON_FG);
    raindrop(fb, cx - step, dy, ds, ICON_FG);
    raindrop(fb, cx - 2 * step, dy, ds, ICON_FG);
}

/// Draw the snow icon: a cloud with five snowflakes beneath it.
pub fn snow(fb: &mut Vec<u8>, cx: i32, cy: i32, scale: u32)
    requires
        old(fb)@.len() == FB_LEN,
        icon_ok(cx as int, cy as int, scale as int),
    ensures
        final(fb)@.len() == FB_LEN,
        forall|a: int, b: int|
            in_screen(a, b) ==> pixel_at(final(fb)@, a, b) == layer_apply(
                snow_layer(cx as int, cy as int, scale as int, a, b),
                pixel_at(old(fb)@, a, b),
            ),
{
    let sc = scale as i32;
    let step = sc / 6;
    let dy = cy + sc / 4;
    let ds = scale / 15;
    cloud(fb, cx, cy, scale, ICON_FG, ICON_BG);
    snowflake(fb, cx + 2 * step, dy, ds, ICON_FG);
    snowflake(fb, cx + step, dy, ds, ICON_FG);
    snowflake(fb, cx, dy, ds, ICON_FG);
    snowflake(fb, cx - step, dy, ds, ICON_FG);
    snowflake(fb, cx - 2 * step, dy, ds, ICON_FG);
}

/// Draw the thunderstorm icon: a cloud with three lightning bolts beneath
/// it.
pub fn thunderstorm(fb: &mut Vec<u8>, cx: i32, cy: i32, scale: u32)
    requires
        old(fb)@.len() == FB_LEN,
        icon_ok(cx as int, cy as int, scale as int),
    ensures
        final(fb)@.len() == FB_LEN,
        forall|a: int, b: int|
            in_screen(a, b) ==> pixel_at(final(fb)@, a, b) == layer_apply(
                thunderstorm_layer(cx as int, cy as int, scale as int, a, b),
                pixel_at(old(fb)@, a, b),
            ),
{
    let sc = scale as i32;
    let step = sc / 4;
    let dy = cy + sc / 15 * 4;
    let ds = scale / 6;
    cloud(fb, cx, cy, scale, ICON_FG, ICON_BG);
    lightning(fb, cx + step, dy, ds, ICON_FG);
    lightning(fb, cx, dy, ds, ICON_FG);
    lightning(fb, cx - step, dy, ds, ICON_FG);
}

/// Render an icon variant: the exhaustive dispatch over the closed icon
/// set.
pub fn draw_icon(fb: &mut Vec<u8>, icon: Icons, cx: i32, cy: i32, scale: u32)
    requires
        old(fb)@.len() == FB_LEN,
        icon_ok(cx as int, cy as int, scale as int),
        icon_scale_ok(icon, scale as int),
    ensures
        final(fb)@.len() == FB_LEN,
        forall|a: int, b: int|
            in_screen(a, b) ==> pixel_at(final(fb)@, a, b) == layer_apply(
                icon_layer(icon, cx as int, cy as int, scale as int, a, b),
                pixel_at(old(fb)@, a, b),
            ),
{
    match icon {
        Icons::ClearDay => clear_day(fb, cx, cy, scale),
        Icons::ClearNight => clear_night(fb, cx, cy, scale),
        Icons::PartlyCloudyDay => partly_cloudy_day(fb, cx, cy, scale),
        Icons::PartlyCloudyNight => partly_cloudy_night(fb, cx, cy, scale),
        Icons::Cloudy => cloudy(fb, cx, cy, scale),
        Icons::Fog => fog(fb, cx, cy, scale),
        Icons::Rain => rain(fb, cx, cy, scale),
        Icons::Snow => snow(fb, cx, cy, scale),
        Icons::Thunderstorm => thunderstorm(fb, cx, cy, scale),
    }
}

} // verus!
