use share_frame::render::{grid_lines_fit, title_bar_fills, visible_title_bar_height};
use share_frame::theme::TitleBarTheme;
use share_frame::geometry::Rect;
use share_frame::render::{
    frame_decorations, grid_line_positions, grid_lines, paint_plan, ContentPaint, PaintPlan, BORDER_COLOR,
    BORDER_WIDTH, GRIP_SIZE,
};

#[test]
fn paint_plan_chooses_blit() {
    assert_eq!(paint_plan(true, 800, 569, 800, 600, 31), PaintPlan { content: ContentPaint::Copy, grid: true, border: true });
    assert_eq!(paint_plan(true, 800, 600, 800, 600, 31), PaintPlan { content: ContentPaint::Stretch, grid: true, border: true });
    assert_eq!(paint_plan(true, 800, 569, 1000, 600, 31), PaintPlan { content: ContentPaint::Stretch, grid: true, border: true });
    assert_eq!(paint_plan(false, 800, 569, 800, 600, 31), PaintPlan { content: ContentPaint::ErrorFill, grid: true, border: true });
    assert_eq!(paint_plan(true, 1, 1, 0, 600, 31), PaintPlan { content: ContentPaint::Stretch, grid: false, border: false });
    // Only the title bar is visible: border, but no grid.
    assert_eq!(paint_plan(true, 1, 1, 800, 31, 31), PaintPlan { content: ContentPaint::Stretch, grid: false, border: true });
}

#[test]
fn grid_lines_every_48_pixels() {
    assert_eq!(grid_line_positions(200, 48), vec![48, 96, 144, 192]);
    assert_eq!(grid_line_positions(192, 48), vec![48, 96, 144]);
    assert_eq!(grid_line_positions(48, 48), Vec::<i32>::new());
    assert_eq!(grid_line_positions(49, 48), vec![48]);
    assert_eq!(grid_line_positions(-5, 48), Vec::<i32>::new());
    let (xs, ys) = grid_lines(100, 50);
    assert_eq!(xs, vec![48, 96]);
    assert_eq!(ys, vec![48]);
}

#[test]
fn border_and_grips_frame_the_client_area() {
    let (strips, grips) = frame_decorations(800, 600);
    assert_eq!(
        strips,
        vec![
            Rect { left: 0, top: 0, right: 800, bottom: 3 },
            Rect { left: 0, top: 597, right: 800, bottom: 600 },
            Rect { left: 0, top: 0, right: 3, bottom: 600 },
            Rect { left: 797, top: 0, right: 800, bottom: 600 },
        ]
    );
    assert_eq!(
        grips,
        vec![
            Rect { left: 0, top: 0, right: 6, bottom: 6 },
            Rect { left: 794, top: 0, right: 800, bottom: 6 },
            Rect { left: 0, top: 594, right: 6, bottom: 600 },
            Rect { left: 794, top: 594, right: 800, bottom: 600 },
        ]
    );
    assert_eq!((BORDER_WIDTH, GRIP_SIZE), (3, 6));
    assert_eq!(BORDER_COLOR, share_frame::theme::rgb(100, 100, 100));
}

#[test]
fn title_bar_fills_strip_and_hovered_button() {
    let theme = TitleBarTheme { background: 0x00FF_FFFF, text: 0, hover: 0x00CC_CCCC };
    assert_eq!(
        title_bar_fills(800, 600, 31, 138, false, theme),
        vec![(Rect { left: 0, top: 0, right: 800, bottom: 31 }, 0x00FF_FFFF)]
    );
    assert_eq!(
        title_bar_fills(800, 600, 31, 138, true, theme),
        vec![
            (Rect { left: 0, top: 0, right: 800, bottom: 31 }, 0x00FF_FFFF),
            (Rect { left: 616, top: 0, right: 662, bottom: 31 }, 0x00CC_CCCC),
        ]
    );
    // The strip never extends below the client area.
    assert_eq!(title_bar_fills(800, 20, 31, 138, false, theme)[0].0.bottom, 20);
    assert_eq!(visible_title_bar_height(31, 20), 20);
    assert_eq!(visible_title_bar_height(-5, 20), 0);
    assert_eq!(visible_title_bar_height(31, -1), 0);
    assert_eq!(visible_title_bar_height(31, 600), 31);
}

#[test]
fn grid_fit_check() {
    assert!(grid_lines_fit(800, 600));
    assert!(grid_lines_fit(-5, 0));
    assert!(!grid_lines_fit(i32::MAX, 10));
    assert!(grid_lines_fit(i32::MAX - 47, 10) == ((((i32::MAX as i64 - 48) / 48) + 1) * 48 <= i32::MAX as i64));
}
