use share_frame::geometry::{
    caption_button_at, caption_button_range, centered_position, default_size, logical_to_physical,
    physical_to_logical, point_in_send_back_button, send_back_button_range, CaptionButton, Rect,
    Size, CAPTION_BUTTON_WIDTH, MIN_WIDTH, SEND_BACK_BUTTON_WIDTH,
};

// --- default_size tests ---

#[test]
fn default_size_large_monitor_caps_at_1920() {
    let size = default_size(3440, 1440);
    assert_eq!(size.width, 1920);
    assert_eq!(size.height, 1920 * 9 / 16); // 1080
}

#[test]
fn default_size_small_monitor_uses_75_percent() {
    let size = default_size(1280, 720);
    assert_eq!(size.width, 1280 * 75 / 100); // 960
    assert_eq!(size.height, 960 * 9 / 16); // 540
}

// --- centered_position tests ---

#[test]
fn centered_position_in_work_area() {
    let size = Size {
        width: 800,
        height: 600,
    };
    let area = Rect {
        left: 0,
        top: 0,
        right: 1920,
        bottom: 1080,
    };
    let pos = centered_position(size, area);
    assert_eq!(pos.x, (1920 - 800) / 2);
    assert_eq!(pos.y, (1080 - 600) / 2);
}

#[test]
fn centered_position_with_offset_work_area() {
    let size = Size {
        width: 400,
        height: 300,
    };
    let area = Rect {
        left: 100,
        top: 50,
        right: 1100,
        bottom: 850,
    };
    let pos = centered_position(size, area);
    assert_eq!(pos.x, 100 + (1000 - 400) / 2);
    assert_eq!(pos.y, 50 + (800 - 300) / 2);
}

// --- DPI conversion tests ---

#[test]
fn logical_to_physical_96dpi() {
    assert_eq!(logical_to_physical(100, 96), 100);
}

#[test]
fn logical_to_physical_120dpi() {
    assert_eq!(logical_to_physical(100, 120), 125);
}

#[test]
fn logical_to_physical_144dpi() {
    assert_eq!(logical_to_physical(100, 144), 150);
}

#[test]
fn physical_to_logical_96dpi() {
    assert_eq!(physical_to_logical(100, 96), 100);
}

#[test]
fn physical_to_logical_120dpi() {
    assert_eq!(physical_to_logical(125, 120), 100);
}

#[test]
fn physical_to_logical_144dpi() {
    assert_eq!(physical_to_logical(150, 144), 100);
}

#[test]
fn dpi_round_trip_96() {
    let v = 123;
    assert_eq!(physical_to_logical(logical_to_physical(v, 96), 96), v);
}

#[test]
fn dpi_round_trip_120() {
    let v = 100;
    assert_eq!(physical_to_logical(logical_to_physical(v, 120), 120), v);
}

#[test]
fn dpi_round_trip_144() {
    let v = 100;
    assert_eq!(physical_to_logical(logical_to_physical(v, 144), 144), v);
}

// --- send-to-back button geometry ---

#[test]
fn send_back_button_range_is_left_of_caption_buttons() {
    let (left, right) = send_back_button_range(800, 138);
    assert_eq!(right, 800 - 138);
    assert_eq!(left, right - SEND_BACK_BUTTON_WIDTH);
}

#[test]
fn point_in_send_back_button_inside() {
    let cw = 800;
    let cap = 138;
    let (left, _) = send_back_button_range(cw, cap);
    assert!(point_in_send_back_button(left + 1, 5, cw, 30, cap));
}

#[test]
fn point_in_send_back_button_negative_y_is_outside() {
    assert!(!point_in_send_back_button(700, -1, 800, 30, 138));
}

#[test]
fn point_in_send_back_button_below_title_bar_is_outside() {
    assert!(!point_in_send_back_button(700, 30, 800, 30, 138));
}

#[test]
fn point_in_send_back_button_inside_caption_buttons_is_outside() {
    let cw = 800;
    let cap = 138;
    assert!(!point_in_send_back_button(cw - 10, 5, cw, 30, cap));
}

// --- caption button geometry ---

#[test]
fn caption_buttons_ordered_close_rightmost() {
    let cw = 800;
    let (min_l, min_r) = caption_button_range(CaptionButton::Minimize, cw, 96);
    let (max_l, max_r) = caption_button_range(CaptionButton::Maximize, cw, 96);
    let (close_l, close_r) = caption_button_range(CaptionButton::Close, cw, 96);
    assert_eq!(close_r, cw);
    assert_eq!(close_l, max_r);
    assert_eq!(max_l, min_r);
    assert_eq!(min_l, cw - 3 * CAPTION_BUTTON_WIDTH);
}

#[test]
fn caption_button_at_maps_each_button() {
    let cw = 800;
    let (close_l, _) = caption_button_range(CaptionButton::Close, cw, 96);
    let (max_l, _) = caption_button_range(CaptionButton::Maximize, cw, 96);
    let (min_l, _) = caption_button_range(CaptionButton::Minimize, cw, 96);
    assert_eq!(caption_button_at(close_l + 1, 5, cw, 30, 96), Some(CaptionButton::Close));
    assert_eq!(caption_button_at(max_l + 1, 5, cw, 30, 96), Some(CaptionButton::Maximize));
    assert_eq!(caption_button_at(min_l + 1, 5, cw, 30, 96), Some(CaptionButton::Minimize));
}

#[test]
fn caption_button_at_outside_strip_is_none() {
    let cw = 800;
    assert_eq!(caption_button_at(10, 5, cw, 30, 96), None);
    assert_eq!(caption_button_at(cw - 1, 30, cw, 30, 96), None);
    assert_eq!(caption_button_at(cw - 1, -1, cw, 30, 96), None);
}

#[test]
fn caption_button_width_scales_with_dpi() {
    let at96 = caption_button_range(CaptionButton::Close, 800, 96);
    let at144 = caption_button_range(CaptionButton::Close, 800, 144);
    assert_eq!(at96.1 - at96.0, CAPTION_BUTTON_WIDTH);
    assert_eq!(at144.1 - at144.0, logical_to_physical(CAPTION_BUTTON_WIDTH, 144));
}

#[test]
fn caption_buttons_stay_in_bounds_when_narrow() {
    // High DPI + a window at MIN_WIDTH: buttons would overflow without
    // the clamp. All ranges must stay within [0, client_width] and not
    // overlap.
    let cw = MIN_WIDTH;
    let dpi = 192; // 200%
    let (min_l, min_r) = caption_button_range(CaptionButton::Minimize, cw, dpi);
    let (max_l, max_r) = caption_button_range(CaptionButton::Maximize, cw, dpi);
    let (close_l, close_r) = caption_button_range(CaptionButton::Close, cw, dpi);
    assert!(min_l >= 0, "minimize left {min_l} should be non-negative");
    assert_eq!(min_r, max_l);
    assert_eq!(max_r, close_l);
    assert_eq!(close_r, cw);
    // caption_button_at must never match outside the client area.
    assert_eq!(caption_button_at(-1, 5, cw, 30, dpi), None);
}
