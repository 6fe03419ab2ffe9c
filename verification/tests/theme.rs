use share_frame::theme::{
    accent_theme, color_prevalence_setting, colorization_rgb, inactive_theme, is_dark_mode_setting,
    rgb, system_theme, tint_color, title_bar_theme, TitleBarTheme,
};

#[test]
fn rgb_packs_bgr() {
    assert_eq!(rgb(0x12, 0x34, 0x56), 0x0056_3412);
    assert_eq!(rgb(255, 255, 255), 0x00FF_FFFF);
}

#[test]
fn colorization_splits_argb() {
    assert_eq!(colorization_rgb(0xC40078D7), (0x00, 0x78, 0xD7));
    assert_eq!(colorization_rgb(0xFF123456), (0x12, 0x34, 0x56));
}

#[test]
fn tint_clamps_each_channel() {
    assert_eq!(tint_color(10, 100, 250, 32), rgb(42, 132, 255));
    assert_eq!(tint_color(10, 100, 250, -32), rgb(0, 68, 218));
}

#[test]
fn accent_theme_picks_legible_text() {
    let light = accent_theme(200, 200, 200, true);
    assert_eq!(light, TitleBarTheme { background: rgb(200, 200, 200), text: 0, hover: rgb(168, 168, 168) });
    let dark = accent_theme(0, 0x78, 0xD7, false);
    assert_eq!(dark.text, 0x00FF_FFFF);
    assert_eq!(dark.hover, rgb(32, 0x98, 0xF7));
}

#[test]
fn theme_selection_order() {
    let accent = TitleBarTheme { background: 1, text: 2, hover: 3 };
    assert_eq!(title_bar_theme(false, true, Some(accent)), inactive_theme(true));
    assert_eq!(title_bar_theme(true, true, Some(accent)), accent);
    assert_eq!(title_bar_theme(true, false, None), system_theme(false));
    assert_eq!(system_theme(true).background, 0);
    assert_eq!(inactive_theme(false).background, 0x00F3F3F3);
}

#[test]
fn registry_settings() {
    assert!(is_dark_mode_setting(Some(0)));
    assert!(!is_dark_mode_setting(Some(1)));
    assert!(!is_dark_mode_setting(None));
    assert!(color_prevalence_setting(Some(1)));
    assert!(!color_prevalence_setting(Some(0)));
    assert!(!color_prevalence_setting(None));
}
