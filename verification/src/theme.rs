//! Title-bar colors: the palette for the light and dark system themes, the
//! inactive palette, and a palette derived from the DWM accent color.
//! Colors are `COLORREF` values, `0x00BBGGRR`.

use vstd::prelude::*;

use crate::geometry::is_i32;

verus! {

/// The colors of the custom title bar.
#[derive(Copy, Clone, Debug, PartialEq, Eq, Structural)]
pub struct TitleBarTheme {
    pub background: u32,
    pub text: u32,
    pub hover: u32,
}

/// The `COLORREF` of red `r`, green `g`, blue `b`.
pub open spec fn colorref(r: int, g: int, b: int) -> int {
    r + 256 * g + 65536 * b
}

/// Packs an RGB color as a `COLORREF` (`0x00BBGGRR`).
pub fn rgb(r: u8, g: u8, b: u8) -> (color: u32)
    ensures
        color == colorref(r as int, g as int, b as int),
{
    let color = (r as u32) | ((g as u32) << 8) | ((b as u32) << 16);
    assert(color == (r as u32) + 256 * (g as u32) + 65536 * (b as u32)) by (bit_vector)
        requires
            color == (r as u32) | ((g as u32) << 8) | ((b as u32) << 16),
            r <= 0xFF,
            g <= 0xFF,
            b <= 0xFF,
    ;
    color
}

/// Splits a DWM colorization color (`0xAARRGGBB`) into its red, green and
/// blue components.
pub fn colorization_rgb(color: u32) -> (components: (u8, u8, u8))
    ensures
        components.0 == (color / 0x1_0000) % 0x100,
        components.1 == (color / 0x100) % 0x100,
        components.2 == color % 0x100,
{
    let r = (color >> 16) & 0xFF;
    let g = (color >> 8) & 0xFF;
    let b = color & 0xFF;
    assert(r == (color / 0x1_0000) % 0x100 && r <= 0xFF) by (bit_vector)
        requires
            r == (color >> 16) & 0xFF,
    ;
    assert(g == (color / 0x100) % 0x100 && g <= 0xFF) by (bit_vector)
        requires
            g == (color >> 8) & 0xFF,
    ;
    assert(b == color % 0x100 && b <= 0xFF) by (bit_vector)
        requires
            b == color & 0xFF,
    ;
    (r as u8, g as u8, b as u8)
}

/// `c + delta` clamped to `0..=255`.
pub open spec fn tint_channel(c: int, delta: int) -> int {
    if c + delta < 0 {
        0
    } else if c + delta > 255 {
        255
    } else {
        c + delta
    }
}

fn tint_component(c: u8, delta: i32) -> (adjusted: u8)
    requires
        is_i32(c + delta),
    ensures
        adjusted == tint_channel(c as int, delta as int),
{
    let v = c as i32 + delta;
    if v < 0 {
        0
    } else if v > 255 {
        255
    } else {
        v as u8
    }
}

/// Lightens (positive `delta`) or darkens (negative `delta`) the given
/// RGB color and returns it as a `COLORREF` (0x00BBGGRR).
pub fn tint_color(r: u8, g: u8, b: u8, delta: i32) -> (color: u32)
    requires
        is_i32(r + delta),
        is_i32(g + delta),
        is_i32(b + delta),
    ensures
        color == colorref(
            tint_channel(r as int, delta as int),
            tint_channel(g as int, delta as int),
            tint_channel(b as int, delta as int),
        ),
{
    let r = tint_component(r, delta);
    let g = tint_component(g, delta);
    let b = tint_component(b, delta);
    rgb(r, g, b)
}

/// The title-bar palette of the light or dark system theme.
pub open spec fn system_palette(dark: bool) -> TitleBarTheme {
    if dark {
        TitleBarTheme { background: 0x00000000, text: 0x00FFFFFF, hover: 0x00333333 }
    } else {
        TitleBarTheme { background: 0x00FFFFFF, text: 0x00000000, hover: 0x00CCCCCC }
    }
}

/// The neutral palette of an inactive window, approximating what DWM paints
/// behind the caption buttons in Windows 10/11.
pub open spec fn inactive_palette(dark: bool) -> TitleBarTheme {
    if dark {
        TitleBarTheme { background: 0x002B2B2B, text: 0x006B6B6B, hover: 0x003F3F3F }
    } else {
        TitleBarTheme { background: 0x00F3F3F3, text: 0x009B9B9B, hover: 0x00DADADA }
    }
}

/// The palette of an active window without accent-colored title bars.
pub fn system_theme(dark: bool) -> (theme: TitleBarTheme)
    ensures
        theme == system_palette(dark),
{
    if dark {
        TitleBarTheme { background: 0x00000000, text: 0x00FFFFFF, hover: 0x00333333 }
    } else {
        TitleBarTheme { background: 0x00FFFFFF, text: 0x00000000, hover: 0x00CCCCCC }
    }
}

/// Title-bar colors used when the window is not the foreground window.
pub fn inactive_theme(dark: bool) -> (theme: TitleBarTheme)
    ensures
        theme == inactive_palette(dark),
{
    if dark {
        TitleBarTheme { background: 0x002B2B2B, text: 0x006B6B6B, hover: 0x003F3F3F }
    } else {
        TitleBarTheme { background: 0x00F3F3F3, text: 0x009B9B9B, hover: 0x00DADADA }
    }
}

/// The palette on an accent-colored title bar of color `(r, g, b)`: black
/// text and a darker hover on a light accent, white text and a lighter
/// hover on a dark one.
pub fn accent_theme(r: u8, g: u8, b: u8, light_accent: bool) -> (theme: TitleBarTheme)
    ensures
        theme.background == colorref(r as int, g as int, b as int),
        theme.text == (if light_accent { 0x00000000int } else { 0x00FFFFFFint }),
        theme.hover == (if light_accent {
            colorref(tint_channel(r as int, -32), tint_channel(g as int, -32), tint_channel(b as int, -32))
        } else {
            colorref(tint_channel(r as int, 32), tint_channel(g as int, 32), tint_channel(b as int, 32))
        }),
{
    let background = rgb(r, g, b);
    if light_accent {
        TitleBarTheme { background, text: 0x00000000, hover: tint_color(r, g, b, -32) }
    } else {
        TitleBarTheme { background, text: 0x00FFFFFF, hover: tint_color(r, g, b, 32) }
    }
}

/// Picks the title-bar palette: the inactive palette for an inactive
/// window, else the accent palette where title bars show the accent color
/// (and it could be read), else the system palette.
pub fn title_bar_theme(active: bool, dark: bool, accent: Option<TitleBarTheme>) -> (theme: TitleBarTheme)
    ensures
        theme == (if !active {
            inactive_palette(dark)
        } else if accent is Some {
            accent->0
        } else {
            system_palette(dark)
        }),
{
    if !active {
        return inactive_theme(dark);
    }
    match accent {
        Some(theme) => theme,
        None => system_theme(dark),
    }
}

/// Whether the `AppsUseLightTheme` setting, where it could be read, selects
/// dark mode. An unreadable setting means light mode, the Windows default.
pub fn is_dark_mode_setting(apps_use_light_theme: Option<u32>) -> (dark: bool)
    ensures
        dark == (apps_use_light_theme == Some(0u32)),
{
    match apps_use_light_theme {
        Some(v) => v == 0,
        None => false,
    }
}

/// Whether the DWM `ColorPrevalence` setting, where it could be read, shows
/// the accent color on title bars.
pub fn color_prevalence_setting(color_prevalence: Option<u32>) -> (prevalent: bool)
    ensures
        prevalent == (color_prevalence == Some(1u32)),
{
    match color_prevalence {
        Some(v) => v == 1,
        None => false,
    }
}

/// The palettes: on a light system theme black text on white with a light
/// gray hover, on a dark one white text on black with a dark gray hover;
/// inactive windows use muted grays. In every palette the text and the
/// hover differ from the background.
pub proof fn lemma_palettes()
    ensures
        system_palette(false) == (TitleBarTheme { background: 0x00FFFFFF, text: 0x00000000, hover: 0x00CCCCCC }),
        system_palette(true) == (TitleBarTheme { background: 0x00000000, text: 0x00FFFFFF, hover: 0x00333333 }),
        inactive_palette(false) == (TitleBarTheme { background: 0x00F3F3F3, text: 0x009B9B9B, hover: 0x00DADADA }),
        inactive_palette(true) == (TitleBarTheme { background: 0x002B2B2B, text: 0x006B6B6B, hover: 0x003F3F3F }),
        forall|dark: bool| #![auto] system_palette(dark).text != system_palette(dark).background
            && system_palette(dark).hover != system_palette(dark).background,
        forall|dark: bool| #![auto] inactive_palette(dark).text != inactive_palette(dark).background
            && inactive_palette(dark).hover != inactive_palette(dark).background,
{
}

/// `colorref` packs red in the low byte, green in the next and blue in
/// the third, and unpacks uniquely.
pub proof fn lemma_colorref_layout(r: int, g: int, b: int)
    requires
        0 <= r <= 255,
        0 <= g <= 255,
        0 <= b <= 255,
    ensures
        colorref(r, g, b) % 256 == r,
        (colorref(r, g, b) / 256) % 256 == g,
        colorref(r, g, b) / 65536 == b,
        0 <= colorref(r, g, b) <= 0x00FF_FFFF,
{
}

/// Tinting moves each channel by `delta`, clamped to `0..=255`: never
/// below 0, never above 255, and unchanged in between.
pub proof fn lemma_tint_clamps(c: int, delta: int)
    ensures
        0 <= tint_channel(c, delta) <= 255,
        0 <= c + delta <= 255 ==> tint_channel(c, delta) == c + delta,
        c + delta < 0 ==> tint_channel(c, delta) == 0,
        c + delta > 255 ==> tint_channel(c, delta) == 255,
{
}

} // verus!
