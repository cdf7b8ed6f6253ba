//! Weather-condition codes and their rendering.
//!
//! [`WMOCode`] mirrors the WMO weather interpretation codes the forecast
//! service reports.  [`select_icon`] maps a code to at most one icon;
//! unmapped codes select no icon, and [`draw_weather_icon`] then leaves the
//! framebuffer untouched and reports that a text fallback is needed, so
//! rendering never aborts on an unrecognized condition.

use vstd::prelude::*;

use crate::codec::{in_screen, pixel_at, FB_LEN};
use crate::icons::{draw_icon, icon_layer, icon_ok, icon_scale_ok, Icons};
use crate::shapes::layer_apply;

verus! {

/// WMO weather interpretation codes.
#[derive(Clone, Copy, Debug, PartialEq, Eq, Structural)]
pub enum WMOCode {
    ClearSky,
    MainlyClear,
    PartyCloudy,
    Overcast,
    Fog,
    DepositingRimeFog,
    LightDrizzle,
    ModerateDrizzle,
    DenseDrizzle,
    LightFreezingDrizzle,
    DenseFreezingDrizzle,
    LightRain,
    ModerateRain,
    HeavyRain,
    LightFreezingRain,
    HeavyFreezingRain,
    LightSnow,
    ModerateSnow,
    HeavySnow,
    SnowGrains,
    LightRainShowers,
    ModerateRainShowers,
    HeavyRainShowers,
    LightSnowShowers,
    HeavySnowShowers,
    Thunderstorm,
    ThunderstormWithLightHail,
    ThunderstormWithHeavyHail,
}

/// The numeric WMO code of each variant.
pub open spec fn wmo_code_number(c: WMOCode) -> int {
    match c {
        WMOCode::ClearSky => 0,
        WMOCode::MainlyClear => 1,
        WMOCode::PartyCloudy => 2,
        WMOCode::Overcast => 3,
        WMOCode::Fog => 45,
        WMOCode::DepositingRimeFog => 48,
        WMOCode::LightDrizzle => 51,
        WMOCode::ModerateDrizzle => 53,
        WMOCode::DenseDrizzle => 55,
        WMOCode::LightFreezingDrizzle => 56,
        WMOCode::DenseFreezingDrizzle => 57,
        WMOCode::LightRain => 61,
        WMOCode::ModerateRain => 63,
        WMOCode::HeavyRain => 65,
        WMOCode::LightFreezingRain => 66,
        WMOCode::HeavyFreezingRain => 67,
        WMOCode::LightSnow => 71,
        WMOCode::ModerateSnow => 73,
        WMOCode::HeavySnow => 75,
        WMOCode::SnowGrains => 77,
        WMOCode::LightRainShowers => 80,
        WMOCode::ModerateRainShowers => 81,
        WMOCode::HeavyRainShowers => 82,
        WMOCode::LightSnowShowers => 85,
        WMOCode::HeavySnowShowers => 86,
        WMOCode::Thunderstorm => 95,
        WMOCode::ThunderstormWithLightHail => 96,
        WMOCode::ThunderstormWithHeavyHail => 99,
    }
}

/// The variant carrying a numeric code, if any.
pub open spec fn spec_wmo_code_from(v: int) -> Option<WMOCode> {
    if v == 0 {
        Option::Some(WMOCode::ClearSky)
    } else if v == 1 {
        Option::Some(WMOCode::MainlyClear)
    } else if v == 2 {
        Option::Some(WMOCode::PartyCloudy)
    } else if v == 3 {
        Option::Some(WMOCode::Overcast)
    } else if v == 45 {
        Option::Some(WMOCode::Fog)
    } else if v == 48 {
        Option::Some(WMOCode::DepositingRimeFog)
    } else if v == 51 {
        Option::Some(WMOCode::LightDrizzle)
    } else if v == 53 {
        Option::Some(WMOCode::ModerateDrizzle)
    } else if v == 55 {
        Option::Some(WMOCode::DenseDrizzle)
    } else if v == 56 {
        Option::Some(WMOCode::LightFreezingDrizzle)
    } else if v == 57 {
        Option::Some(WMOCode::DenseFreezingDrizzle)
    } else if v == 61 {
        Option::Some(WMOCode::LightRain)
    } else if v == 63 {
        Option::Some(WMOCode::ModerateRain)
    } else if v == 65 {
        Option::Some(WMOCode::HeavyRain)
    } else if v == 66 {
        Option::Some(WMOCode::LightFreezingRain)
    } else if v == 67 {
        Option::Some(WMOCode::HeavyFreezingRain)
    } else if v == 71 {
        Option::Some(WMOCode::LightSnow)
    } else if v == 73 {
        Option::Some(WMOCode::ModerateSnow)
    } else if v == 75 {
        Option::Some(WMOCode::HeavySnow)
    } else if v == 77 {
        Option::Some(WMOCode::SnowGrains)
    } else if v == 80 {
        Option::Some(WMOCode::LightRainShowers)
    } else if v == 81 {
        Option::Some(WMOCode::ModerateRainShowers)
    } else if v == 82 {
        Option::Some(WMOCode::HeavyRainShowers)
    } else if v == 85 {
        Option::Some(WMOCode::LightSnowShowers)
    } else if v == 86 {
        Option::Some(WMOCode::HeavySnowShowers)
    } else if v == 95 {
        Option::Some(WMOCode::Thunderstorm)
    } else if v == 96 {
        Option::Some(WMOCode::ThunderstormWithLightHail)
    } else if v == 99 {
        Option::Some(WMOCode::ThunderstormWithHeavyHail)
    } else {
        Option::None
    }
}

/// Decode a numeric WMO code; None for numbers that are no known code.
pub fn wmo_code_from_u8(v: u8) -> (r: Option<WMOCode>)
    ensures
        r == spec_wmo_code_from(v as int),
        r matches Some(c) ==> wmo_code_number(c) == v as int,
{
    match v {
        0 => Some(WMOCode::ClearSky),
        1 => Some(WMOCode::MainlyClear),
        2 => Some(WMOCode::PartyCloudy),
        3 => Some(WMOCode::Overcast),
        45 => Some(WMOCode::Fog),
        48 => Some(WMOCode::DepositingRimeFog),
        51 => Some(WMOCode::LightDrizzle),
        53 => Some(WMOCode::ModerateDrizzle),
        55 => Some(WMOCode::DenseDrizzle),
        56 => Some(WMOCode::LightFreezingDrizzle),
        57 => Some(WMOCode::DenseFreezingDrizzle),
        61 => Some(WMOCode::LightRain),
        63 => Some(WMOCode::ModerateRain),
        65 => Some(WMOCode::HeavyRain),
        66 => Some(WMOCode::LightFreezingRain),
        67 => Some(WMOCode::HeavyFreezingRain),
        71 => Some(WMOCode::LightSnow),
        73 => Some(WMOCode::ModerateSnow),
        75 => Some(WMOCode::HeavySnow),
        77 => Some(WMOCode::SnowGrains),
        80 => Some(WMOCode::LightRainShowers),
        81 => Some(WMOCode::ModerateRainShowers),
        82 => Some(WMOCode::HeavyRainShowers),
        85 => Some(WMOCode::LightSnowShowers),
        86 => Some(WMOCode::HeavySnowShowers),
        95 => Some(WMOCode::Thunderstorm),
        96 => Some(WMOCode::ThunderstormWithLightHail),
        99 => Some(WMOCode::ThunderstormWithHeavyHail),
        _ => None,
    }
}

/// The icon a weather code selects, if any.  Clear and mainly clear skies
/// show the sun, the drizzle, rain, freezing-rain and rain-shower codes
/// (except moderate showers) the rain icon, the snow codes the snow icon,
/// and the thunderstorm codes the thunderstorm icon; the remaining codes
/// select no icon and fall back to text.
pub open spec fn spec_select_icon(c: WMOCode) -> Option<Icons> {
    match c {
        WMOCode::MainlyClear | WMOCode::ClearSky => Option::Some(Icons::ClearDay),
        WMOCode::PartyCloudy => Option::Some(Icons::PartlyCloudyDay),
        WMOCode::Overcast => Option::Some(Icons::Cloudy),
        WMOCode::Fog => Option::Some(Icons::Fog),
        WMOCode::HeavyRain | WMOCode::LightRain | WMOCode::LightRainShowers
            | WMOCode::HeavyRainShowers | WMOCode::LightDrizzle | WMOCode::ModerateDrizzle
            | WMOCode::DenseDrizzle | WMOCode::LightFreezingRain | WMOCode::HeavyFreezingRain
            | WMOCode::ModerateRain => Option::Some(Icons::Rain),
        WMOCode::LightSnow | WMOCode::HeavySnow | WMOCode::SnowGrains | WMOCode::ModerateSnow
            | WMOCode::LightSnowShowers | WMOCode::HeavySnowShowers => Option::Some(Icons::Snow),
        WMOCode::Thunderstorm | WMOCode::ThunderstormWithHeavyHail
            | WMOCode::ThunderstormWithLightHail => Option::Some(Icons::Thunderstorm),
        _ => Option::None,
    }
}

/// Map a weather code to its icon, or None where only a text fallback can
/// represent the condition.
pub fn select_icon(code: &WMOCode) -> (r: Option<Icons>)
    ensures
        r == spec_select_icon(*code),
{
    match code {
        WMOCode::MainlyClear | WMOCode::ClearSky => Some(Icons::ClearDay),
        WMOCode::PartyCloudy => Some(Icons::PartlyCloudyDay),
        WMOCode::Overcast => Some(Icons::Cloudy),
        WMOCode::Fog => Some(Icons::Fog),
        WMOCode::HeavyRain | WMOCode::LightRain | WMOCode::LightRainShowers
            | WMOCode::HeavyRainShowers | WMOCode::LightDrizzle | WMOCode::ModerateDrizzle
            | WMOCode::DenseDrizzle | WMOCode::LightFreezingRain | WMOCode::HeavyFreezingRain
            | WMOCode::ModerateRain => Some(Icons::Rain),
        WMOCode::LightSnow | WMOCode::HeavySnow | WMOCode::SnowGrains | WMOCode::ModerateSnow
            | WMOCode::LightSnowShowers | WMOCode::HeavySnowShowers => Some(Icons::Snow),
        WMOCode::Thunderstorm | WMOCode::ThunderstormWithHeavyHail
            | WMOCode::ThunderstormWithLightHail => Some(Icons::Thunderstorm),
        _ => None,
    }
}

/// The layer a weather code draws: its icon's layer, or nothing for codes
/// without an icon.
pub open spec fn weather_icon_layer(c: WMOCode, cx: int, cy: int, scale: int, a: int, b: int) -> Option<
    u8,
> {
    match spec_select_icon(c) {
        Option::Some(icon) => icon_layer(icon, cx, cy, scale, a, b),
        Option::None => Option::None,
    }
}

/// Draw the icon of a weather code, if it has one.  Returns whether an
/// icon was drawn; for codes without an icon the framebuffer is untouched
/// and the caller renders a text fallback instead.
pub fn draw_weather_icon(fb: &mut Vec<u8>, code: &WMOCode, cx: i32, cy: i32, scale: u32) -> (drew:
    bool)
    requires
        old(fb)@.len() == FB_LEN,
        icon_ok(cx as int, cy as int, scale as int),
        spec_select_icon(*code) matches Some(icon) ==> icon_scale_ok(icon, scale as int),
    ensures
        final(fb)@.len() == FB_LEN,
        drew == (spec_select_icon(*code) is Some),
        !drew ==> final(fb)@ == old(fb)@,
        forall|a: int, b: int|
            in_screen(a, b) ==> pixel_at(final(fb)@, a, b) == layer_apply(
                weather_icon_layer(*code, cx as int, cy as int, scale as int, a, b),
                pixel_at(old(fb)@, a, b),
            ),
{
    match select_icon(code) {
        Some(icon) => {
            draw_icon(fb, icon, cx, cy, scale);
            true
        },
        None => false,
    }
}

/// Compass label of a wind direction given in hundredths of a degree.
/// Each of the sixteen compass points covers a 22.5 degree sector; north
/// spans the wrap-around from 348.75 to 11.25 degrees, and values of 360
/// degrees and more also read as north.
pub fn deg_to_direction(centidegrees: u32) -> (r: &'static str)
    ensures
        (centidegrees >= 34875 || centidegrees < 1125) ==> r@ == "N"@,
        (1125 <= centidegrees < 3375) ==> r@ == "NNE"@,
        (3375 <= centidegrees < 5625) ==> r@ == "NE"@,
        (5625 <= centidegrees < 7875) ==> r@ == "ENE"@,
        (7875 <= centidegrees < 10125) ==> r@ == "E"@,
        (10125 <= centidegrees < 12375) ==> r@ == "ESE"@,
        (12375 <= centidegrees < 14625) ==> r@ == "SE"@,
        (14625 <= centidegrees < 16875) ==> r@ == "SSE"@,
        (16875 <= centidegrees < 19125) ==> r@ == "S"@,
        (19125 <= centidegrees < 21375) ==> r@ == "SSW"@,
        (21375 <= centidegrees < 23625) ==> r@ == "SW"@,
        (23625 <= centidegrees < 25875) ==> r@ == "WSW"@,
        (25875 <= centidegrees < 28125) ==> r@ == "W"@,
        (28125 <= centidegrees < 30375) ==> r@ == "WNW"@,
        (30375 <= centidegrees < 32625) ==> r@ == "NW"@,
        (32625 <= centidegrees < 34875) ==> r@ == "NNW"@,
{
    if centidegrees >= 34875 || centidegrees < 1125 {
        return "N";
    }
    if centidegrees < 3375 {
        return "NNE";
    }
    if centidegrees < 5625 {
        return "NE";
    }
    if centidegrees < 7875 {
        return "ENE";
    }
    if centidegrees < 10125 {
        return "E";
    }
    if centidegrees < 12375 {
        return "ESE";
    }
    if centidegrees < 14625 {
        return "SE";
    }
    if centidegrees < 16875 {
        return "SSE";
    }
    if centidegrees < 19125 {
        return "S";
    }
    if centidegrees < 21375 {
        return "SSW";
    }
    if centidegrees < 23625 {
        return "SW";
    }
    if centidegrees < 25875 {
        return "WSW";
    }
    if centidegrees < 28125 {
        return "W";
    }
    if centidegrees < 30375 {
        return "WNW";
    }
    if centidegrees < 32625 {
        return "NW";
    }
    "NNW"
}

} // verus!
