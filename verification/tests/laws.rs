use share_frame::geometry::{
    caption_button_at, caption_button_range, caption_buttons_width, centered_position, default_size,
    logical_to_physical, physical_to_logical, point_in_send_back_button, work_area_or_fallback,
    CaptionButton, Rect, Size,
};

#[test]
fn default_size_stays_16_by_9_on_tall_monitor() {
    // 1080x1920 portrait: width cap 810, height 455 <= 1440.
    let s = default_size(1080, 1920);
    assert_eq!((s.width, s.height), (810, 455));
    // Very wide but short: height clamps to 75% of 400 = 300, width 533.
    let t = default_size(3000, 400);
    assert_eq!((t.width, t.height), (533, 300));
    assert!((16 * t.height - 9 * t.width).abs() < 16);
}

#[test]
fn centered_window_margins_differ_by_at_most_one() {
    let area = Rect { left: 0, top: 0, right: 1001, bottom: 11 };
    let p = centered_position(Size { width: 100, height: 10 }, area);
    assert_eq!((p.x, p.y), (450, 0));
    assert_eq!((area.right - (p.x + 100)) - (p.x - area.left), 1);
}

#[test]
fn window_larger_than_area_rounds_toward_zero() {
    let area = Rect { left: 0, top: 0, right: 100, bottom: 100 };
    let p = centered_position(Size { width: 201, height: 100 }, area);
    assert_eq!(p.x, -50);
    assert_eq!(p.y, 0);
}

#[test]
fn rounding_is_half_away_from_zero() {
    // 1 * 144 / 96 = 1.5 -> 2; -1.5 -> -2.
    assert_eq!(logical_to_physical(1, 144), 2);
    assert_eq!(logical_to_physical(-1, 144), -2);
    // 1 * 120 / 96 = 1.25 -> 1.
    assert_eq!(logical_to_physical(1, 120), 1);
    assert_eq!(logical_to_physical(-100, 120), -125);
}

#[test]
fn round_trip_at_integral_scale() {
    for v in [-1000, -1, 0, 1, 7, 12345] {
        assert_eq!(physical_to_logical(logical_to_physical(v, 192), 192), v);
        assert_eq!(physical_to_logical(logical_to_physical(v, 288), 288), v);
    }
}

#[test]
fn round_trip_can_lose_a_pixel_at_fractional_scale() {
    // 1 logical pixel at 125% rounds to 1 physical pixel, which is 0.8 logical.
    assert_eq!(physical_to_logical(logical_to_physical(1, 120), 120), 0);
}

#[test]
fn logical_to_physical_truncates_like_its_cast() {
    assert_eq!(logical_to_physical(i32::MAX, 192), (2 * (i32::MAX as i64)) as i32);
}

#[test]
fn send_back_and_caption_buttons_do_not_overlap() {
    for &(cw, dpi) in &[(800, 96), (800, 144), (200, 192), (90, 96)] {
        let cap = caption_buttons_width(cw, dpi);
        let (min_l, _) = caption_button_range(CaptionButton::Minimize, cw, dpi);
        assert_eq!(cw - cap, min_l);
        for x in -10..cw + 10 {
            if point_in_send_back_button(x, 5, cw, 30, cap) {
                assert_eq!(caption_button_at(x, 5, cw, 30, dpi), None);
            }
        }
    }
}

#[test]
fn caption_buttons_width_defaults_to_96_dpi() {
    assert_eq!(caption_buttons_width(800, 0), 138);
    assert_eq!(caption_buttons_width(800, 144), 207);
    assert_eq!(caption_buttons_width(200, 192), 198);
    assert_eq!(caption_buttons_width(-50, 96), 0);
}

#[test]
fn work_area_fallback() {
    let r = Rect { left: 1, top: 2, right: 3, bottom: 4 };
    assert_eq!(work_area_or_fallback(Some(r)), r);
    assert_eq!(work_area_or_fallback(None), Rect { left: 0, top: 0, right: 1920, bottom: 1080 });
}

#[test]
fn default_window_inside_work_area() {
    for &(l, t, r, b) in &[(0, 0, 3440, 1400), (-1920, 40, 0, 1080), (100, 0, 900, 2000), (0, 0, 0, 0)] {
        let area = Rect { left: l, top: t, right: r, bottom: b };
        let size = default_size(r - l, b - t);
        assert!(size.width <= 1920 && size.height <= 1080);
        let p = centered_position(size, area);
        assert!(area.left <= p.x && p.x + size.width <= area.right);
        assert!(area.top <= p.y && p.y + size.height <= area.bottom);
    }
}

#[test]
fn round_trip_loses_at_most_one_pixel() {
    for dpi in [96u32, 120, 144, 168, 192, 240] {
        for v in -300..300 {
            let back = physical_to_logical(logical_to_physical(v, dpi), dpi);
            assert!((back - v).abs() <= 1, "v={v} dpi={dpi} back={back}");
        }
    }
}

#[test]
fn centering_follows_the_work_area() {
    let size = Size { width: 300, height: 200 };
    let a = Rect { left: 0, top: 0, right: 1000, bottom: 700 };
    let b = Rect { left: -1920, top: 40, right: -920, bottom: 740 };
    let pa = centered_position(size, a);
    let pb = centered_position(size, b);
    assert_eq!((pb.x - pa.x, pb.y - pa.y), (-1920, 40));
}

#[test]
fn send_back_test_outside_title_bar_is_false_for_any_widths() {
    assert!(!point_in_send_back_button(0, 100, i32::MIN, 30, i32::MAX));
}
