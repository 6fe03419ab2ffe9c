use share_frame::messages::{WM_COMMAND, WM_CONTEXTMENU, WM_DESTROY, WM_ENDSESSION, WM_LBUTTONUP, WM_PAINT, WM_QUERYENDSESSION, WM_RBUTTONUP};
use share_frame::tray::{
    route_tray_message, tooltip_buffer, tray_event, TrayRoute, IDM_EXIT, IDM_OPEN, IDM_SETTINGS,
    TIP_CAPACITY, WM_APP_TRAY,
};

#[test]
fn tray_event_is_low_word() {
    assert_eq!(tray_event(0x0001_0202), 0x0202);
    assert_eq!(tray_event(WM_RBUTTONUP as isize), WM_RBUTTONUP);
}

#[test]
fn tray_routes() {
    let tc = 0xC0DE;
    assert_eq!(route_tray_message(tc, 0, 0, tc), TrayRoute::ReAddIcon);
    assert_eq!(route_tray_message(WM_QUERYENDSESSION, 0, 0, tc), TrayRoute::ReadyToEndSession);
    assert_eq!(route_tray_message(WM_ENDSESSION, 1, 0, tc), TrayRoute::EndSession { remove_icon: true });
    assert_eq!(route_tray_message(WM_ENDSESSION, 0, 0, tc), TrayRoute::EndSession { remove_icon: false });
    assert_eq!(route_tray_message(WM_APP_TRAY, 0, WM_LBUTTONUP as isize, tc), TrayRoute::ShowMain);
    assert_eq!(route_tray_message(WM_APP_TRAY, 0, 0x0005_0000 | WM_RBUTTONUP as isize, tc), TrayRoute::ShowMenu);
    assert_eq!(route_tray_message(WM_APP_TRAY, 0, WM_CONTEXTMENU as isize, tc), TrayRoute::ShowMenu);
    assert_eq!(route_tray_message(WM_APP_TRAY, 0, 0x0200, tc), TrayRoute::Ignore);
    assert_eq!(route_tray_message(WM_COMMAND, IDM_OPEN as usize, 0, tc), TrayRoute::ShowMain);
    assert_eq!(route_tray_message(WM_COMMAND, 0x1_0000 | IDM_SETTINGS as usize, 0, tc), TrayRoute::OpenSettings);
    assert_eq!(route_tray_message(WM_COMMAND, IDM_EXIT as usize, 0, tc), TrayRoute::ExitApp);
    assert_eq!(route_tray_message(WM_COMMAND, 999, 0, tc), TrayRoute::Ignore);
    assert_eq!(route_tray_message(WM_DESTROY, 0, 0, tc), TrayRoute::Destroy);
    assert_eq!(route_tray_message(WM_PAINT, 0, 0, tc), TrayRoute::Default);
    // An unregistered TaskbarCreated id (0) matches nothing.
    assert_eq!(route_tray_message(0, 0, 0, 0), TrayRoute::Default);
}

#[test]
fn tooltip_is_terminated_and_truncated() {
    let tip: Vec<u16> = "Share Frame".encode_utf16().collect();
    let buf = tooltip_buffer(&tip, TIP_CAPACITY);
    assert_eq!(buf.len(), 128);
    assert_eq!(&buf[..tip.len()], &tip[..]);
    assert!(buf[tip.len()..].iter().all(|&c| c == 0));

    let long: Vec<u16> = vec![65; 200];
    let buf = tooltip_buffer(&long, TIP_CAPACITY);
    assert_eq!(buf.len(), 128);
    assert!(buf[..127].iter().all(|&c| c == 65));
    assert_eq!(buf[127], 0);
}
