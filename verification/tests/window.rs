use share_frame::window::hit_test_fits;
use share_frame::geometry::Rect;
use share_frame::messages::{
    HTBOTTOM, HTBOTTOMLEFT, HTBOTTOMRIGHT, HTCAPTION, HTCLIENT, HTLEFT, HTRIGHT, HTTOP, HTTOPLEFT, HTTOPRIGHT,
    SC_CLOSE, WM_CLOSE, WM_CREATE, WM_LBUTTONUP, WM_MOUSEMOVE, WM_NCHITTEST, WM_PAINT,
    WM_QUERYENDSESSION, WM_SYSCOMMAND, WS_EX_TOOLWINDOW,
};
use share_frame::window::{
    capture_on_move, content_rect, content_size_after_resize, min_track_size, initial_capture_size, is_switch_target, lparam_to_size,
    lparam_to_xy, nc_hit_test, route_main_message, title_bar_height, HitTest, MainHandler, MainRoute,
    TitleBarState,
};

#[test]
fn lparam_coordinates_are_sign_extended() {
    assert_eq!(lparam_to_xy(0x0014_000A), (10, 20));
    assert_eq!(lparam_to_xy(0xFFFF_FFFE_u32 as isize), (-2, -1));
    assert_eq!(lparam_to_xy(0x8000_7FFF_u32 as isize), (32767, -32768));
    assert_eq!(lparam_to_xy(-1), (-1, -1));
}

#[test]
fn lparam_sizes_are_unsigned() {
    assert_eq!(lparam_to_size(0x0438_0780), (1920, 1080));
    assert_eq!(lparam_to_size(0xFFFF_FFFF_u32 as isize), (65535, 65535));
}

#[test]
fn registered_messages_take_precedence() {
    assert_eq!(route_main_message(0xC100, 0, 0xC100, 0xC101), MainRoute::ShowWindow);
    assert_eq!(route_main_message(0xC101, 0, 0xC100, 0xC101), MainRoute::ExitApp);
    // An unregistered (0) id matches nothing, not even message 0.
    assert_eq!(
        route_main_message(0, 0, 0, 0),
        MainRoute::Handle { consult_dwm: true, handler: MainHandler::Default }
    );
    assert_eq!(route_main_message(WM_QUERYENDSESSION, 0, 0, 0), MainRoute::ReadyToEndSession);
}

#[test]
fn close_paths_hide_the_window() {
    assert_eq!(
        route_main_message(WM_CLOSE, 0, 0, 0),
        MainRoute::Handle { consult_dwm: false, handler: MainHandler::HideWindow }
    );
    // Low four bits of the system command are reserved.
    assert_eq!(
        route_main_message(WM_SYSCOMMAND, (SC_CLOSE | 0x3) as usize, 0, 0),
        MainRoute::Handle { consult_dwm: false, handler: MainHandler::HideWindow }
    );
    assert_eq!(
        route_main_message(WM_SYSCOMMAND, 0xF020, 0, 0),
        MainRoute::Handle { consult_dwm: false, handler: MainHandler::Default }
    );
}

#[test]
fn dwm_is_consulted_except_for_owned_messages() {
    assert_eq!(
        route_main_message(WM_PAINT, 0, 0, 0),
        MainRoute::Handle { consult_dwm: true, handler: MainHandler::Paint }
    );
    assert_eq!(
        route_main_message(WM_CREATE, 0, 0, 0),
        MainRoute::Handle { consult_dwm: true, handler: MainHandler::Create }
    );
    for msg in [WM_NCHITTEST, WM_MOUSEMOVE, WM_LBUTTONUP] {
        match route_main_message(msg, 0, 0, 0) {
            MainRoute::Handle { consult_dwm, .. } => assert!(!consult_dwm),
            other => panic!("unexpected route {:?}", other),
        }
    }
}

fn window() -> Rect {
    Rect { left: 100, top: 100, right: 900, bottom: 700 }
}

#[test]
fn hit_test_edges_and_corners() {
    let w = window();
    assert_eq!(nc_hit_test(102, 102, w, 8, 138, 30), HitTest::TopLeft);
    assert_eq!(nc_hit_test(500, 102, w, 8, 138, 30), HitTest::Top);
    assert_eq!(nc_hit_test(102, 698, w, 8, 138, 30), HitTest::BottomLeft);
    assert_eq!(nc_hit_test(898, 698, w, 8, 138, 30), HitTest::BottomRight);
    assert_eq!(nc_hit_test(500, 698, w, 8, 138, 30), HitTest::Bottom);
    assert_eq!(nc_hit_test(102, 400, w, 8, 138, 30), HitTest::Left);
    assert_eq!(nc_hit_test(898, 400, w, 8, 138, 30), HitTest::Right);
    assert_eq!(nc_hit_test(500, 400, w, 8, 138, 30), HitTest::Caption);
}

#[test]
fn hit_test_caption_strip_is_not_a_resize_border() {
    let w = window();
    // Top-right corner inside the caption-button strip.
    assert_eq!(nc_hit_test(898, 102, w, 8, 138, 30), HitTest::TitleBar);
    // Right edge within the title bar.
    assert_eq!(nc_hit_test(898, 120, w, 8, 138, 30), HitTest::TitleBar);
}

#[test]
fn hit_test_send_back_button_is_client() {
    let w = window();
    // Button spans client x [800 - 138 - 46, 800 - 138) = [616, 662).
    assert_eq!(nc_hit_test(100 + 616, 115, w, 8, 138, 30), HitTest::Client);
    assert_eq!(nc_hit_test(100 + 661, 115, w, 8, 138, 30), HitTest::Client);
    assert_eq!(nc_hit_test(100 + 662, 115, w, 8, 138, 30), HitTest::TitleBar);
    assert_eq!(nc_hit_test(100 + 615, 115, w, 8, 138, 30), HitTest::TitleBar);
}

#[test]
fn sizes_follow_title_bar() {
    assert_eq!(title_bar_height(4, 23, 4), 31);
    let client = Rect { left: 0, top: 0, right: 800, bottom: 600 };
    assert_eq!(initial_capture_size(client, 31), (800, 569));
    let empty = Rect { left: 0, top: 0, right: 0, bottom: 0 };
    assert_eq!(initial_capture_size(empty, 31), (1, 1));
    assert_eq!(content_size_after_resize(800, 600, 31), Some((800, 569)));
    assert_eq!(content_size_after_resize(800, 31, 31), None);
    assert_eq!(content_size_after_resize(0, 600, 31), None);
    assert_eq!(
        content_rect(client, 31),
        Rect { left: 0, top: 31, right: 800, bottom: 600 }
    );
}

#[test]
fn switch_targets_exclude_tool_and_hidden_windows() {
    assert!(is_switch_target(false, true, false, 0));
    assert!(!is_switch_target(true, true, false, 0));
    assert!(!is_switch_target(false, false, false, 0));
    assert!(!is_switch_target(false, true, true, 0));
    assert!(!is_switch_target(false, true, false, WS_EX_TOOLWINDOW | 0x100));
}

#[test]
fn hover_state_transitions() {
    let mut s = TitleBarState::new(31);
    assert!(s.is_active);
    let first = s.mouse_move(false);
    assert!(first.start_tracking);
    assert!(!first.repaint_button);
    let enter = s.mouse_move(true);
    assert!(!enter.start_tracking);
    assert!(enter.repaint_button);
    let stay = s.mouse_move(true);
    assert!(!stay.repaint_button);
    assert!(s.mouse_leave());
    assert!(!s.send_back_hovered && !s.tracking_mouse);
    assert!(!s.mouse_leave());
    assert!(s.set_active(false));
    assert!(!s.set_active(false));
    assert!(!s.is_active);
}

#[test]
fn dragging_inside_the_frame_moves_it() {
    let w = window();
    for &(x, y) in &[(108, 130), (500, 400), (891, 691), (890, 131)] {
        let hit = nc_hit_test(x, y, w, 8, 138, 30);
        assert_eq!(hit, HitTest::Caption);
        assert_eq!(hit.code(), HTCAPTION);
    }
}

#[test]
fn hit_codes() {
    assert_eq!(HitTest::TopLeft.code(), HTTOPLEFT);
    assert_eq!(HitTest::TopRight.code(), HTTOPRIGHT);
    assert_eq!(HitTest::Top.code(), HTTOP);
    assert_eq!(HitTest::BottomLeft.code(), HTBOTTOMLEFT);
    assert_eq!(HitTest::BottomRight.code(), HTBOTTOMRIGHT);
    assert_eq!(HitTest::Bottom.code(), HTBOTTOM);
    assert_eq!(HitTest::Left.code(), HTLEFT);
    assert_eq!(HitTest::Right.code(), HTRIGHT);
    assert_eq!(HitTest::Client.code(), HTCLIENT);
    assert_eq!(HitTest::TitleBar.code(), HTCAPTION);
    assert_eq!((HTCLIENT, HTCAPTION, HTTOPLEFT, HTBOTTOMRIGHT), (1, 2, 13, 17));
}

#[test]
fn hit_test_far_from_the_title_bar_needs_no_title_bar_arithmetic() {
    // The title-bar button range would overflow, but below the title bar
    // it is never computed.
    let w = Rect { left: i32::MIN, top: 0, right: i32::MAX - 8, bottom: 1000 };
    assert_eq!(nc_hit_test(0, 500, w, 8, 0, 30), HitTest::Caption);
}

#[test]
fn minimum_track_size_and_move_capture() {
    assert_eq!(min_track_size(), (200, 150));
    assert!(capture_on_move(false));
    assert!(!capture_on_move(true));
}

#[test]
fn hit_test_fit_check() {
    let w = window();
    assert!(hit_test_fits(500, 400, w, 8, 138, 30));
    // Below the title bar the button arithmetic is never needed.
    let wide = Rect { left: i32::MIN, top: 0, right: i32::MAX - 8, bottom: 1000 };
    assert!(hit_test_fits(0, 500, wide, 8, 0, 30));
    // In the title bar it is, and it overflows.
    assert!(!hit_test_fits(0, 15, wide, 8, 0, 30));
    // The strip's left edge always has to fit.
    assert!(!hit_test_fits(0, 500, Rect { left: 0, top: 0, right: i32::MIN, bottom: 10 }, 8, 1, 30));
}
