//! The decisions of the frame window: how each window message is routed,
//! which part of the window a point is over, how the content area follows
//! the window's size, and how the title-bar hover state reacts to the
//! mouse.

use vstd::prelude::*;

use crate::geometry::{
    is_i32, max_int, on_send_back, send_back_button_range, Rect, MIN_HEIGHT, MIN_WIDTH, SEND_BACK_BUTTON_WIDTH,
};
use crate::messages::{
    SC_CLOSE, WM_CLOSE, WM_CREATE, WM_DESTROY, WM_DPICHANGED, WM_DWMCOLORIZATIONCOLORCHANGED,
    WM_ENDSESSION, WM_ENTERSIZEMOVE, WM_ERASEBKGND, WM_EXITSIZEMOVE, WM_GETMINMAXINFO,
    WM_LBUTTONUP, WM_MOUSELEAVE, WM_MOUSEMOVE, WM_MOVE, WM_NCACTIVATE, WM_NCCALCSIZE,
    WM_NCHITTEST, WM_PAINT, WM_QUERYENDSESSION, WM_SETTINGCHANGE, WM_SIZE, WM_SYSCOMMAND,
    WM_TIMER, WS_EX_TOOLWINDOW, HTBOTTOM, HTBOTTOMLEFT, HTBOTTOMRIGHT, HTCAPTION, HTCLIENT,
    HTLEFT, HTRIGHT, HTTOP, HTTOPLEFT, HTTOPRIGHT,
};

verus! {

// --- Message parameters ---

/// A 16-bit word read as a two's-complement signed value.
pub open spec fn sign_extend_16(word: int) -> int {
    if word >= 0x8000 {
        word - 0x1_0000
    } else {
        word
    }
}

/// Reading a 16-bit word as signed keeps it modulo 2^16 and lands in
/// `-32768..=32767`: words below 0x8000 are unchanged, the others are
/// negative.
pub proof fn lemma_sign_extend_16(word: int)
    requires
        0 <= word <= 0xFFFF,
    ensures
        -32768 <= sign_extend_16(word) <= 32767,
        (sign_extend_16(word) - word) % 0x1_0000 == 0,
        word < 0x8000 ==> sign_extend_16(word) == word,
        word >= 0x8000 ==> sign_extend_16(word) < 0,
{
}

/// Decodes an `LPARAM` carrying a packed pair of signed 16-bit coordinates
/// (mouse messages) to `(x, y)` as `i32`.
pub fn lparam_to_xy(lparam: isize) -> (xy: (i32, i32))
    ensures
        xy.0 == sign_extend_16((lparam & 0xFFFF) as int),
        xy.1 == sign_extend_16(((lparam >> 16) & 0xFFFF) as int),
{
    let low = lparam & 0xFFFF;
    let high = (lparam >> 16) & 0xFFFF;
    assert(0 <= low <= 0xFFFF) by (bit_vector)
        requires
            low == lparam & 0xFFFF,
    ;
    assert(0 <= high <= 0xFFFF) by (bit_vector)
        requires
            high == (lparam >> 16) & 0xFFFF,
    ;
    let x = (#[verifier::truncate] (low as i16)) as i32;
    let y = (#[verifier::truncate] (high as i16)) as i32;
    assert(x == sign_extend_16(low as int)) by (bit_vector)
        requires
            0 <= low <= 0xFFFF,
            x == (#[verifier::truncate] (low as i16)) as i32,
    ;
    assert(y == sign_extend_16(high as int)) by (bit_vector)
        requires
            0 <= high <= 0xFFFF,
            y == (#[verifier::truncate] (high as i16)) as i32,
    ;
    (x, y)
}

/// Decodes an `LPARAM` carrying a packed pair of **unsigned** 16-bit
/// dimensions (used by `WM_SIZE`) to `(width, height)` as `i32`.
pub fn lparam_to_size(lparam: isize) -> (size: (i32, i32))
    ensures
        size.0 == (lparam & 0xFFFF) as int,
        size.1 == ((lparam >> 16) & 0xFFFF) as int,
        0 <= size.0 <= 0xFFFF,
        0 <= size.1 <= 0xFFFF,
{
    let low = lparam & 0xFFFF;
    let high = (lparam >> 16) & 0xFFFF;
    assert(0 <= low <= 0xFFFF) by (bit_vector)
        requires
            low == lparam & 0xFFFF,
    ;
    assert(0 <= high <= 0xFFFF) by (bit_vector)
        requires
            high == (lparam >> 16) & 0xFFFF,
    ;
    (low as u16 as i32, high as u16 as i32)
}

// --- Message routing ---

/// How the frame window handles one message (after the checks that
/// `MainRoute` makes first).
#[derive(Copy, Clone, Debug, PartialEq, Eq, Structural)]
pub enum MainHandler {
    Create,
    /// Hide the window instead of closing it (the caption close button and
    /// Alt+F4); the tray icon keeps the process alive.
    HideWindow,
    /// Session ending: return immediately without further work.
    EndSession,
    Destroy,
    Timer,
    Paint,
    Size,
    Move,
    EnterSizeMove,
    ExitSizeMove,
    GetMinMaxInfo,
    /// Answer 0 so the client area covers the whole window.
    NcCalcSize,
    NcHitTest,
    DpiChanged,
    SettingChange,
    ColorizationChanged,
    NcActivate,
    /// Answer 1: the background is never erased.
    EraseBackground,
    MouseMove,
    MouseLeave,
    LButtonUp,
    /// Default window procedure.
    Default,
}

/// What the frame window does with a message.
#[derive(Copy, Clone, Debug, PartialEq, Eq, Structural)]
pub enum MainRoute {
    /// The registered "show window" message: restore and foreground.
    ShowWindow,
    /// The registered "exit" message: destroy the window.
    ExitApp,
    /// Shutdown or logoff query: answer at once that the window is ready.
    ReadyToEndSession,
    /// Handle the message with `handler`; when `consult_dwm`, first offer it
    /// to DWM, whose answer wins where DWM handles it.
    Handle { consult_dwm: bool, handler: MainHandler },
}

/// Messages the window handles itself without offering them to DWM first:
/// frame layout, client-area mouse handling, and the close path.
pub open spec fn bypasses_dwm(msg: u32) -> bool {
    msg == WM_NCHITTEST || msg == WM_NCCALCSIZE || msg == WM_MOUSEMOVE || msg == WM_MOUSELEAVE
        || msg == WM_LBUTTONUP || msg == WM_CLOSE || msg == WM_SYSCOMMAND
}

/// Whether a `WM_SYSCOMMAND` with this `wparam` is the close command.
pub open spec fn is_close_command(wparam: usize) -> bool {
    (#[verifier::truncate] (wparam as u32)) & 0xFFF0 == SC_CLOSE
}

/// The handler of `msg` in the frame window's procedure.
pub open spec fn main_handler(msg: u32, wparam: usize) -> MainHandler {
    if msg == WM_CREATE {
        MainHandler::Create
    } else if msg == WM_SYSCOMMAND {
        if is_close_command(wparam) {
            MainHandler::HideWindow
        } else {
            MainHandler::Default
        }
    } else if msg == WM_CLOSE {
        MainHandler::HideWindow
    } else if msg == WM_ENDSESSION {
        MainHandler::EndSession
    } else if msg == WM_DESTROY {
        MainHandler::Destroy
    } else if msg == WM_TIMER {
        MainHandler::Timer
    } else if msg == WM_PAINT {
        MainHandler::Paint
    } else if msg == WM_SIZE {
        MainHandler::Size
    } else if msg == WM_MOVE {
        MainHandler::Move
    } else if msg == WM_ENTERSIZEMOVE {
        MainHandler::EnterSizeMove
    } else if msg == WM_EXITSIZEMOVE {
        MainHandler::ExitSizeMove
    } else if msg == WM_GETMINMAXINFO {
        MainHandler::GetMinMaxInfo
    } else if msg == WM_NCCALCSIZE {
        MainHandler::NcCalcSize
    } else if msg == WM_NCHITTEST {
        MainHandler::NcHitTest
    } else if msg == WM_DPICHANGED {
        MainHandler::DpiChanged
    } else if msg == WM_SETTINGCHANGE {
        MainHandler::SettingChange
    } else if msg == WM_DWMCOLORIZATIONCOLORCHANGED {
        MainHandler::ColorizationChanged
    } else if msg == WM_NCACTIVATE {
        MainHandler::NcActivate
    } else if msg == WM_ERASEBKGND {
        MainHandler::EraseBackground
    } else if msg == WM_MOUSEMOVE {
        MainHandler::MouseMove
    } else if msg == WM_MOUSELEAVE {
        MainHandler::MouseLeave
    } else if msg == WM_LBUTTONUP {
        MainHandler::LButtonUp
    } else {
        MainHandler::Default
    }
}

/// The route of `msg` given the ids of the registered "show window" and
/// "exit" messages (0 where registration failed, which matches nothing).
pub open spec fn main_route(msg: u32, wparam: usize, show_msg: u32, exit_msg: u32) -> MainRoute {
    if show_msg != 0 && msg == show_msg {
        MainRoute::ShowWindow
    } else if exit_msg != 0 && msg == exit_msg {
        MainRoute::ExitApp
    } else if msg == WM_QUERYENDSESSION {
        MainRoute::ReadyToEndSession
    } else {
        MainRoute::Handle { consult_dwm: !bypasses_dwm(msg), handler: main_handler(msg, wparam) }
    }
}

/// Decides what the frame window's procedure does with `msg`.
pub fn route_main_message(msg: u32, wparam: usize, show_msg: u32, exit_msg: u32) -> (route: MainRoute)
    ensures
        route == main_route(msg, wparam, show_msg, exit_msg),
{
    if show_msg != 0 && msg == show_msg {
        return MainRoute::ShowWindow;
    }
    if exit_msg != 0 && msg == exit_msg {
        return MainRoute::ExitApp;
    }
    if msg == WM_QUERYENDSESSION {
        return MainRoute::ReadyToEndSession;
    }
    let consult_dwm = !(msg == WM_NCHITTEST || msg == WM_NCCALCSIZE || msg == WM_MOUSEMOVE
        || msg == WM_MOUSELEAVE || msg == WM_LBUTTONUP || msg == WM_CLOSE || msg == WM_SYSCOMMAND);
    let handler = if msg == WM_CREATE {
        MainHandler::Create
    } else if msg == WM_SYSCOMMAND {
        let cmd = (#[verifier::truncate] (wparam as u32)) & 0xFFF0;
        if cmd == SC_CLOSE {
            MainHandler::HideWindow
        } else {
            MainHandler::Default
        }
    } else if msg == WM_CLOSE {
        MainHandler::HideWindow
    } else if msg == WM_ENDSESSION {
        MainHandler::EndSession
    } else if msg == WM_DESTROY {
        MainHandler::Destroy
    } else if msg == WM_TIMER {
        MainHandler::Timer
    } else if msg == WM_PAINT {
        MainHandler::Paint
    } else if msg == WM_SIZE {
        MainHandler::Size
    } else if msg == WM_MOVE {
        MainHandler::Move
    } else if msg == WM_ENTERSIZEMOVE {
        MainHandler::EnterSizeMove
    } else if msg == WM_EXITSIZEMOVE {
        MainHandler::ExitSizeMove
    } else if msg == WM_GETMINMAXINFO {
        MainHandler::GetMinMaxInfo
    } else if msg == WM_NCCALCSIZE {
        MainHandler::NcCalcSize
    } else if msg == WM_NCHITTEST {
        MainHandler::NcHitTest
    } else if msg == WM_DPICHANGED {
        MainHandler::DpiChanged
    } else if msg == WM_SETTINGCHANGE {
        MainHandler::SettingChange
    } else if msg == WM_DWMCOLORIZATIONCOLORCHANGED {
        MainHandler::ColorizationChanged
    } else if msg == WM_NCACTIVATE {
        MainHandler::NcActivate
    } else if msg == WM_ERASEBKGND {
        MainHandler::EraseBackground
    } else if msg == WM_MOUSEMOVE {
        MainHandler::MouseMove
    } else if msg == WM_MOUSELEAVE {
        MainHandler::MouseLeave
    } else if msg == WM_LBUTTONUP {
        MainHandler::LButtonUp
    } else {
        MainHandler::Default
    };
    MainRoute::Handle { consult_dwm, handler }
}

// --- Hit testing ---

/// The part of the window a screen point is over.
#[derive(Copy, Clone, Debug, PartialEq, Eq, Structural)]
pub enum HitTest {
    TopLeft,
    TopRight,
    Top,
    BottomLeft,
    BottomRight,
    Bottom,
    Left,
    Right,
    /// Client area: the "Send to Back" button, which takes clicks.
    Client,
    /// The rest of the title bar: DWM is asked first (its caption buttons),
    /// and otherwise the point drags the window.
    TitleBar,
    /// The frame's interior below the title bar: dragging anywhere there
    /// moves the window.
    Caption,
}

/// The Win32 hit-test code of a part. For `TitleBar` it is the code to
/// answer where DWM does not claim the point.
pub open spec fn hit_code(hit: HitTest) -> u32 {
    match hit {
        HitTest::TopLeft => HTTOPLEFT,
        HitTest::TopRight => HTTOPRIGHT,
        HitTest::Top => HTTOP,
        HitTest::BottomLeft => HTBOTTOMLEFT,
        HitTest::BottomRight => HTBOTTOMRIGHT,
        HitTest::Bottom => HTBOTTOM,
        HitTest::Left => HTLEFT,
        HitTest::Right => HTRIGHT,
        HitTest::Client => HTCLIENT,
        HitTest::TitleBar => HTCAPTION,
        HitTest::Caption => HTCAPTION,
    }
}

impl HitTest {
    /// The Win32 hit-test code to answer for this part.
    pub fn code(self) -> (code: u32)
        ensures
            code == hit_code(self),
    {
        match self {
            HitTest::TopLeft => HTTOPLEFT,
            HitTest::TopRight => HTTOPRIGHT,
            HitTest::Top => HTTOP,
            HitTest::BottomLeft => HTBOTTOMLEFT,
            HitTest::BottomRight => HTBOTTOMRIGHT,
            HitTest::Bottom => HTBOTTOM,
            HitTest::Left => HTLEFT,
            HitTest::Right => HTRIGHT,
            HitTest::Client => HTCLIENT,
            HitTest::TitleBar => HTCAPTION,
            HitTest::Caption => HTCAPTION,
        }
    }
}

/// Whether screen point `(x, y)` is in the caption-button strip: the
/// top-right part of the title bar.
pub open spec fn in_caption_strip(x: int, y: int, window: Rect, caption_buttons_width: int, title_bar_height: int) -> bool {
    x >= window.right - caption_buttons_width && y < window.top + title_bar_height
}

/// Whether the sums that decide left/right within a top or bottom border
/// fit in an `i32` (the right edge is only computed left of the left margin).
pub open spec fn sides_in_range(x: int, window: Rect, margin: int) -> bool {
    &&& is_i32(window.left + margin)
    &&& x >= window.left + margin ==> is_i32(window.right - margin)
}

/// Whether every value that `nc_hit_test` computes on the way to its
/// answer for `(x, y)` fits in an `i32`.
pub open spec fn hit_test_in_range(x: int, y: int, window: Rect, margin: int, caption_buttons_width: int, title_bar_height: int) -> bool {
    &&& is_i32(window.right - caption_buttons_width)
    &&& x >= window.right - caption_buttons_width ==> is_i32(window.top + title_bar_height)
    &&& is_i32(window.top + margin)
    &&& if y < window.top + margin && !in_caption_strip(x, y, window, caption_buttons_width, title_bar_height) {
        sides_in_range(x, window, margin)
    } else {
        &&& is_i32(window.bottom - margin)
        &&& sides_in_range(x, window, margin)
        &&& (y < window.bottom - margin && x >= window.left + margin
            && !(x >= window.right - margin && !in_caption_strip(x, y, window, caption_buttons_width, title_bar_height)))
            ==> {
            &&& is_i32(window.top + title_bar_height)
            &&& y < window.top + title_bar_height ==> {
                &&& is_i32(window.right - window.left)
                &&& is_i32(x - window.left)
                &&& is_i32(window.right - window.left - caption_buttons_width)
                &&& is_i32(window.right - window.left - caption_buttons_width - SEND_BACK_BUTTON_WIDTH)
            }
        }
    }
}

/// The part of `window` that screen point `(x, y)` is over: resize borders
/// `margin` wide on every side (none along the top or right edge inside
/// the caption-button strip), the "Send to Back" button, the rest of the
/// title bar, and the interior, which drags the window.
pub open spec fn hit_test(x: int, y: int, window: Rect, margin: int, caption_buttons_width: int, title_bar_height: int) -> HitTest {
    let in_strip = in_caption_strip(x, y, window, caption_buttons_width, title_bar_height);
    if y < window.top + margin && !in_strip {
        if x < window.left + margin {
            HitTest::TopLeft
        } else if x >= window.right - margin {
            HitTest::TopRight
        } else {
            HitTest::Top
        }
    } else if y >= window.bottom - margin {
        if x < window.left + margin {
            HitTest::BottomLeft
        } else if x >= window.right - margin {
            HitTest::BottomRight
        } else {
            HitTest::Bottom
        }
    } else if x < window.left + margin {
        HitTest::Left
    } else if x >= window.right - margin && !in_strip {
        HitTest::Right
    } else if y < window.top + title_bar_height {
        let client_width = window.right - window.left;
        let client_x = x - window.left;
        let button_right = client_width - caption_buttons_width;
        if button_right - SEND_BACK_BUTTON_WIDTH <= client_x < button_right {
            HitTest::Client
        } else {
            HitTest::TitleBar
        }
    } else {
        HitTest::Caption
    }
}

fn fits_i32(v: i64) -> (fits: bool)
    ensures
        fits == is_i32(v as int),
{
    -0x8000_0000 <= v && v <= 0x7fff_ffff
}

/// Tests `hit_test_in_range`: whether `nc_hit_test` can answer for `(x, y)`
/// without overflow. Callers outside the library test this before the call.
pub fn hit_test_fits(x: i32, y: i32, window: Rect, margin: i32, caption_buttons_width: i32, title_bar_height: i32) -> (fits: bool)
    ensures
        fits == hit_test_in_range(x as int, y as int, window, margin as int, caption_buttons_width as int, title_bar_height as int),
{
    let x = x as i64;
    let y = y as i64;
    let left = window.left as i64;
    let top = window.top as i64;
    let right = window.right as i64;
    let bottom = window.bottom as i64;
    let margin = margin as i64;
    let cap = caption_buttons_width as i64;
    let tb = title_bar_height as i64;

    let strip_left = right - cap;
    let in_strip = x >= strip_left && y < top + tb;
    let sides = fits_i32(left + margin) && (x < left + margin || fits_i32(right - margin));
    if !fits_i32(strip_left) {
        return false;
    }
    if x >= strip_left && !fits_i32(top + tb) {
        return false;
    }
    if !fits_i32(top + margin) {
        return false;
    }
    if y < top + margin && !in_strip {
        return sides;
    }
    if !fits_i32(bottom - margin) || !sides {
        return false;
    }
    let reaches_title_bar = y < bottom - margin && x >= left + margin && !(x >= right - margin && !in_strip);
    if !reaches_title_bar {
        return true;
    }
    if !fits_i32(top + tb) {
        return false;
    }
    if y >= top + tb {
        return true;
    }
    fits_i32(right - left) && fits_i32(x - left) && fits_i32(right - left - cap)
        && fits_i32(right - left - cap - 46)
}

/// Non-client hit test of screen point `(x, y)` against the window
/// rectangle `window`.
pub fn nc_hit_test(x: i32, y: i32, window: Rect, margin: i32, caption_buttons_width: i32, title_bar_height: i32) -> (hit: HitTest)
    requires
        hit_test_in_range(x as int, y as int, window, margin as int, caption_buttons_width as int, title_bar_height as int),
    ensures
        hit == hit_test(x as int, y as int, window, margin as int, caption_buttons_width as int, title_bar_height as int),
{
    // The caption buttons live in the top-right strip (within the title bar
    // height). Suppress border resize hits there so they remain clickable;
    // everywhere else the right edge resizes.
    let in_caption_buttons_strip = x >= window.right - caption_buttons_width && y < window.top + title_bar_height;

    if y < window.top + margin && !in_caption_buttons_strip {
        if x < window.left + margin {
            return HitTest::TopLeft;
        }
        if x >= window.right - margin {
            return HitTest::TopRight;
        }
        return HitTest::Top;
    }
    if y >= window.bottom - margin {
        if x < window.left + margin {
            return HitTest::BottomLeft;
        }
        if x >= window.right - margin {
            return HitTest::BottomRight;
        }
        return HitTest::Bottom;
    }
    if x < window.left + margin {
        return HitTest::Left;
    }
    if x >= window.right - margin && !in_caption_buttons_strip {
        return HitTest::Right;
    }
    if y < window.top + title_bar_height {
        // "Send to Back" button, left of the caption buttons.
        let client_width = window.right - window.left;
        let client_x = x - window.left;
        let (button_left, button_right) = send_back_button_range(client_width, caption_buttons_width);
        if client_x >= button_left && client_x < button_right {
            return HitTest::Client;
        }
        return HitTest::TitleBar;
    }
    // Anywhere else inside the frame drags the window.
    HitTest::Caption
}

/// Where every point of the window goes, region by region. With the
/// caption-button strip being the points right of `right - cap` above
/// `top + tb`:
/// - above `top + margin` outside the strip: the top border, its left and
///   right ends being the corners;
/// - elsewhere at or below `bottom - margin`: the bottom border and corners;
/// - elsewhere left of `left + margin`: the left border, along its whole
///   height, title bar included;
/// - elsewhere right of `right - margin` outside the strip: the right border;
/// - elsewhere above `top + tb`: the "Send to Back" button (client x in
///   `[width - cap - 46, width - cap)`) takes clicks, the rest is title bar;
/// - everything else drags the window.
pub proof fn lemma_hit_test_regions(x: int, y: int, window: Rect, margin: int, cap: int, tb: int)
    ensures
        ({
            let l = window.left as int;
            let t = window.top as int;
            let r = window.right as int;
            let b = window.bottom as int;
            let strip = x >= r - cap && y < t + tb;
            let hit = hit_test(x, y, window, margin, cap, tb);
            let below_top = y >= t + margin || strip;
            &&& (y < t + margin && !strip && x < l + margin) ==> hit == HitTest::TopLeft
            &&& (y < t + margin && !strip && l + margin <= x < r - margin) ==> hit == HitTest::Top
            &&& (y < t + margin && !strip && x >= l + margin && x >= r - margin) ==> hit == HitTest::TopRight
            &&& (below_top && y >= b - margin && x < l + margin) ==> hit == HitTest::BottomLeft
            &&& (below_top && y >= b - margin && l + margin <= x < r - margin) ==> hit == HitTest::Bottom
            &&& (below_top && y >= b - margin && x >= l + margin && x >= r - margin) ==> hit == HitTest::BottomRight
            &&& (below_top && y < b - margin && x < l + margin) ==> hit == HitTest::Left
            &&& (below_top && y < b - margin && x >= l + margin && x >= r - margin && !strip) ==> hit == HitTest::Right
            &&& (below_top && y < b - margin && x >= l + margin && (x < r - margin || strip) && y < t + tb
                && r - l - cap - 46 <= x - l < r - l - cap) ==> hit == HitTest::Client
            &&& (below_top && y < b - margin && x >= l + margin && (x < r - margin || strip) && y < t + tb
                && !(r - l - cap - 46 <= x - l < r - l - cap)) ==> hit == HitTest::TitleBar
            &&& (below_top && y < b - margin && x >= l + margin && (x < r - margin || strip) && y >= t + tb)
                ==> hit == HitTest::Caption
        }),
{
}

/// The left border resizes along its whole height between the top and
/// bottom borders, title bar included.
pub proof fn lemma_left_border_resizes(x: int, y: int, window: Rect, margin: int, cap: int, tb: int)
    requires
        window.top + margin <= y < window.bottom - margin,
        x < window.left + margin,
    ensures
        hit_test(x, y, window, margin, cap, tb) == HitTest::Left,
        hit_code(hit_test(x, y, window, margin, cap, tb)) == 10,
{
}

/// The Win32 codes of the parts: HTTOPLEFT 13, HTTOPRIGHT 14, HTTOP 12,
/// HTBOTTOMLEFT 16, HTBOTTOMRIGHT 17, HTBOTTOM 15, HTLEFT 10, HTRIGHT 11,
/// HTCLIENT 1, and HTCAPTION 2 for the title bar and the interior.
pub proof fn lemma_hit_codes()
    ensures
        hit_code(HitTest::TopLeft) == 13,
        hit_code(HitTest::TopRight) == 14,
        hit_code(HitTest::Top) == 12,
        hit_code(HitTest::BottomLeft) == 16,
        hit_code(HitTest::BottomRight) == 17,
        hit_code(HitTest::Bottom) == 15,
        hit_code(HitTest::Left) == 10,
        hit_code(HitTest::Right) == 11,
        hit_code(HitTest::Client) == 1,
        hit_code(HitTest::TitleBar) == 2,
        hit_code(HitTest::Caption) == 2,
{
}

/// Whether `id` can be the id of a registered window message, or 0 where
/// registration failed: registered ids lie in `0xC000..=0xFFFF`.
pub open spec fn registered_or_none(id: u32) -> bool {
    id == 0 || 0xC000 <= id <= 0xFFFF
}

/// With the registered messages in their range, each message the frame
/// window handles reaches its own handler, offered to DWM first except for
/// hit testing, frame layout, client mouse input and the close path:
/// `WM_CREATE` (0x0001) creates, `WM_DESTROY` (0x0002) destroys,
/// `WM_MOVE` (0x0003) moves, `WM_SIZE` (0x0005) sizes, `WM_PAINT` (0x000F)
/// paints, `WM_CLOSE` (0x0010) hides, `WM_ERASEBKGND` (0x0014) skips
/// erasing, `WM_ENDSESSION` (0x0016) ends the session, `WM_SETTINGCHANGE`
/// (0x001A), `WM_GETMINMAXINFO` (0x0024), `WM_NCCALCSIZE` (0x0083),
/// `WM_NCHITTEST` (0x0084), `WM_NCACTIVATE` (0x0086), `WM_SYSCOMMAND`
/// (0x0112; hides on `SC_CLOSE` 0xF060 in any of its low-four-bit forms),
/// `WM_TIMER` (0x0113) captures a frame, `WM_MOUSEMOVE` (0x0200),
/// `WM_LBUTTONUP` (0x0202), `WM_ENTERSIZEMOVE` (0x0231), `WM_EXITSIZEMOVE`
/// (0x0232), `WM_MOUSELEAVE` (0x02A3), `WM_DPICHANGED` (0x02E0) and
/// `WM_DWMCOLORIZATIONCOLORCHANGED` (0x0320). `WM_QUERYENDSESSION` (0x0011)
/// is answered at once; the registered ids show and exit the window.
pub proof fn lemma_main_routes(wparam: usize, show_msg: u32, exit_msg: u32)
    requires
        registered_or_none(show_msg),
        registered_or_none(exit_msg),
    ensures
        main_route(0x0001, wparam, show_msg, exit_msg) == (MainRoute::Handle { consult_dwm: true, handler: MainHandler::Create }),
        main_route(0x0002, wparam, show_msg, exit_msg) == (MainRoute::Handle { consult_dwm: true, handler: MainHandler::Destroy }),
        main_route(0x0003, wparam, show_msg, exit_msg) == (MainRoute::Handle { consult_dwm: true, handler: MainHandler::Move }),
        main_route(0x0005, wparam, show_msg, exit_msg) == (MainRoute::Handle { consult_dwm: true, handler: MainHandler::Size }),
        main_route(0x000F, wparam, show_msg, exit_msg) == (MainRoute::Handle { consult_dwm: true, handler: MainHandler::Paint }),
        main_route(0x0010, wparam, show_msg, exit_msg) == (MainRoute::Handle { consult_dwm: false, handler: MainHandler::HideWindow }),
        main_route(0x0011, wparam, show_msg, exit_msg) == MainRoute::ReadyToEndSession,
        main_route(0x0014, wparam, show_msg, exit_msg) == (MainRoute::Handle { consult_dwm: true, handler: MainHandler::EraseBackground }),
        main_route(0x0016, wparam, show_msg, exit_msg) == (MainRoute::Handle { consult_dwm: true, handler: MainHandler::EndSession }),
        main_route(0x001A, wparam, show_msg, exit_msg) == (MainRoute::Handle { consult_dwm: true, handler: MainHandler::SettingChange }),
        main_route(0x0024, wparam, show_msg, exit_msg) == (MainRoute::Handle { consult_dwm: true, handler: MainHandler::GetMinMaxInfo }),
        main_route(0x0083, wparam, show_msg, exit_msg) == (MainRoute::Handle { consult_dwm: false, handler: MainHandler::NcCalcSize }),
        main_route(0x0084, wparam, show_msg, exit_msg) == (MainRoute::Handle { consult_dwm: false, handler: MainHandler::NcHitTest }),
        main_route(0x0086, wparam, show_msg, exit_msg) == (MainRoute::Handle { consult_dwm: true, handler: MainHandler::NcActivate }),
        main_route(0x0112, wparam, show_msg, exit_msg) == (MainRoute::Handle {
            consult_dwm: false,
            handler: if (#[verifier::truncate] (wparam as u32)) & 0xFFF0 == 0xF060 { MainHandler::HideWindow } else { MainHandler::Default },
        }),
        main_route(0x0113, wparam, show_msg, exit_msg) == (MainRoute::Handle { consult_dwm: true, handler: MainHandler::Timer }),
        main_route(0x0200, wparam, show_msg, exit_msg) == (MainRoute::Handle { consult_dwm: false, handler: MainHandler::MouseMove }),
        main_route(0x0202, wparam, show_msg, exit_msg) == (MainRoute::Handle { consult_dwm: false, handler: MainHandler::LButtonUp }),
        main_route(0x0231, wparam, show_msg, exit_msg) == (MainRoute::Handle { consult_dwm: true, handler: MainHandler::EnterSizeMove }),
        main_route(0x0232, wparam, show_msg, exit_msg) == (MainRoute::Handle { consult_dwm: true, handler: MainHandler::ExitSizeMove }),
        main_route(0x02A3, wparam, show_msg, exit_msg) == (MainRoute::Handle { consult_dwm: false, handler: MainHandler::MouseLeave }),
        main_route(0x02E0, wparam, show_msg, exit_msg) == (MainRoute::Handle { consult_dwm: true, handler: MainHandler::DpiChanged }),
        main_route(0x0320, wparam, show_msg, exit_msg) == (MainRoute::Handle { consult_dwm: true, handler: MainHandler::ColorizationChanged }),
        show_msg != 0 ==> main_route(show_msg, wparam, show_msg, exit_msg) == MainRoute::ShowWindow,
        exit_msg != 0 && exit_msg != show_msg ==> main_route(exit_msg, wparam, show_msg, exit_msg) == MainRoute::ExitApp,
{
}

/// Messages the frame window does not handle go, after DWM, to the
/// default window procedure.
pub proof fn lemma_other_messages_default(msg: u32, wparam: usize, show_msg: u32, exit_msg: u32)
    requires
        !(show_msg != 0 && msg == show_msg),
        !(exit_msg != 0 && msg == exit_msg),
        msg != 0x0001 && msg != 0x0002 && msg != 0x0003 && msg != 0x0005 && msg != 0x000F && msg != 0x0010,
        msg != 0x0011 && msg != 0x0014 && msg != 0x0016 && msg != 0x001A && msg != 0x0024 && msg != 0x0083,
        msg != 0x0084 && msg != 0x0086 && msg != 0x0112 && msg != 0x0113 && msg != 0x0200 && msg != 0x0202,
        msg != 0x0231 && msg != 0x0232 && msg != 0x02A3 && msg != 0x02E0 && msg != 0x0320,
    ensures
        main_route(msg, wparam, show_msg, exit_msg) == (MainRoute::Handle { consult_dwm: true, handler: MainHandler::Default }),
{
}

/// Dragging anywhere inside the frame moves it: every point below the title
/// bar and off the resize borders is a drag region.
pub proof fn lemma_interior_drags_window(x: int, y: int, window: Rect, margin: int, caption_buttons_width: int, title_bar_height: int)
    requires
        window.left + margin <= x < window.right - margin,
        window.top + margin <= y < window.bottom - margin,
        window.top + title_bar_height <= y,
    ensures
        hit_test(x, y, window, margin, caption_buttons_width, title_bar_height) == HitTest::Caption,
        hit_code(hit_test(x, y, window, margin, caption_buttons_width, title_bar_height)) == HTCAPTION,
{
}

/// Inside the caption-button strip the top and right edges never resize,
/// so the caption buttons stay clickable.
pub proof fn lemma_caption_strip_never_resizes_top_or_right(x: int, y: int, window: Rect, margin: int, caption_buttons_width: int, title_bar_height: int)
    requires
        in_caption_strip(x, y, window, caption_buttons_width, title_bar_height),
    ensures
        ({
            let hit = hit_test(x, y, window, margin, caption_buttons_width, title_bar_height);
            hit != HitTest::Top && hit != HitTest::TopLeft && hit != HitTest::TopRight && hit != HitTest::Right
        }),
{
}

/// A point on the "Send to Back" button (in client coordinates relative to
/// the window's top-left corner) that is at least `margin` away from every
/// window edge is client area, so the button receives the click.
pub proof fn lemma_send_back_button_is_client(x: int, y: int, window: Rect, margin: int, caption_buttons_width: int, title_bar_height: int)
    requires
        on_send_back(x - window.left, y - window.top, window.right - window.left, title_bar_height, caption_buttons_width),
        window.left + margin <= x < window.right - margin,
        window.top + margin <= y < window.bottom - margin,
    ensures
        hit_test(x, y, window, margin, caption_buttons_width, title_bar_height) == HitTest::Client,
{
}

/// Points within `margin` of the bottom edge resize the window from the
/// bottom, whatever the title bar and caption buttons.
pub proof fn lemma_bottom_edge_resizes(x: int, y: int, window: Rect, margin: int, caption_buttons_width: int, title_bar_height: int)
    requires
        window.bottom - margin <= y,
        window.top + title_bar_height <= y,
        window.top + margin <= y,
    ensures
        ({
            let hit = hit_test(x, y, window, margin, caption_buttons_width, title_bar_height);
            hit == HitTest::Bottom || hit == HitTest::BottomLeft || hit == HitTest::BottomRight
        }),
{
}

/// Closing the window (Alt+F4, or the caption close button's system
/// command, whatever its reserved low bits) only hides it, and a shutdown
/// query is answered at once; both hold whenever the registered messages
/// are other messages.
pub proof fn lemma_close_hides_and_shutdown_is_answered(wparam: usize, show_msg: u32, exit_msg: u32)
    requires
        show_msg != WM_CLOSE && show_msg != WM_SYSCOMMAND && show_msg != WM_QUERYENDSESSION,
        exit_msg != WM_CLOSE && exit_msg != WM_SYSCOMMAND && exit_msg != WM_QUERYENDSESSION,
    ensures
        main_route(WM_CLOSE, wparam, show_msg, exit_msg) == (MainRoute::Handle { consult_dwm: false, handler: MainHandler::HideWindow }),
        is_close_command(wparam) ==> main_route(WM_SYSCOMMAND, wparam, show_msg, exit_msg)
            == (MainRoute::Handle { consult_dwm: false, handler: MainHandler::HideWindow }),
        main_route(WM_QUERYENDSESSION, wparam, show_msg, exit_msg) == MainRoute::ReadyToEndSession,
{
}

// --- Sizes ---

/// The smallest size the user can resize the window to (`WM_GETMINMAXINFO`):
/// 200 x 150.
pub fn min_track_size() -> (size: (i32, i32))
    ensures
        size == (MIN_WIDTH, MIN_HEIGHT),
        size == (200i32, 150i32),
{
    (MIN_WIDTH, MIN_HEIGHT)
}

/// Whether a move of the window captures a frame at once: only when no
/// earlier captured frame is still waiting to be painted (another capture
/// would overwrite it unseen; the next move or timer tick recaptures).
pub fn capture_on_move(paint_pending: bool) -> (capture: bool)
    ensures
        capture == !paint_pending,
{
    !paint_pending
}


/// Title-bar height from the system metrics for the window's DPI: the
/// sizing frame, the caption and the padded border.
pub fn title_bar_height(frame_y: i32, caption: i32, padding: i32) -> (height: i32)
    requires
        is_i32(frame_y + caption),
        is_i32(frame_y + caption + padding),
    ensures
        height == frame_y + caption + padding,
{
    frame_y + caption + padding
}

/// Whether `initial_capture_size` can be computed without overflow.
pub open spec fn initial_capture_size_in_range(client: Rect, title_bar_height: int) -> bool {
    &&& is_i32(client.right - client.left)
    &&& is_i32(client.bottom - client.top)
    &&& is_i32(max_int(client.bottom - client.top, 1) - title_bar_height)
}

/// Size of the capture buffer when the window is created: the client width
/// and the client height below the title bar, each at least 1.
pub fn initial_capture_size(client: Rect, title_bar_height: i32) -> (size: (i32, i32))
    requires
        initial_capture_size_in_range(client, title_bar_height as int),
    ensures
        size.0 == max_int(client.right - client.left, 1),
        size.1 == max_int(max_int(client.bottom - client.top, 1) - title_bar_height, 1),
{
    let w = client.right - client.left;
    let cw = if w >= 1 {
        w
    } else {
        1
    };
    let h = client.bottom - client.top;
    let ch = if h >= 1 {
        h
    } else {
        1
    };
    let content = ch - title_bar_height;
    let content_height = if content >= 1 {
        content
    } else {
        1
    };
    (cw, content_height)
}

/// New content size after the window was resized to `width` x `height`:
/// the area below the title bar, if it is not empty.
pub fn content_size_after_resize(width: i32, height: i32, title_bar_height: i32) -> (size: Option<(i32, i32)>)
    requires
        is_i32(height - title_bar_height),
    ensures
        size == (if width > 0 && height - title_bar_height > 0 {
            Some((width, (height - title_bar_height) as i32))
        } else {
            None
        }),
{
    let content_height = height - title_bar_height;
    if width > 0 && content_height > 0 {
        Some((width, content_height))
    } else {
        None
    }
}

/// Whether `content_rect` can be computed without overflow.
pub open spec fn content_rect_in_range(client: Rect, title_bar_height: int) -> bool {
    is_i32(client.top + title_bar_height)
}

/// The client area below the title bar: the region a captured frame
/// repaints.
pub fn content_rect(client: Rect, title_bar_height: i32) -> (rect: Rect)
    requires
        content_rect_in_range(client, title_bar_height as int),
    ensures
        rect == (Rect { top: (client.top + title_bar_height) as i32, ..client }),
{
    Rect { left: client.left, top: client.top + title_bar_height, right: client.right, bottom: client.bottom }
}

/// Whether a top-level window is one to activate after the frame window
/// went to the back: not the frame window itself, visible, not minimized,
/// and not a tool window.
pub fn is_switch_target(is_frame_window: bool, visible: bool, minimized: bool, ex_style: u32) -> (target: bool)
    ensures
        target == (!is_frame_window && visible && !minimized && ex_style & WS_EX_TOOLWINDOW == 0),
{
    !is_frame_window && visible && !minimized && (ex_style & WS_EX_TOOLWINDOW) == 0
}

// --- Title-bar state ---

/// The title-bar state of the frame window that the mouse and activation
/// messages change.
#[derive(Copy, Clone, Debug, PartialEq, Eq, Structural)]
pub struct TitleBarState {
    /// Whether the mouse is over the "Send to Back" button.
    pub send_back_hovered: bool,
    /// Whether a mouse-leave notification has been requested.
    pub tracking_mouse: bool,
    /// Title-bar height for the window's current DPI.
    pub title_bar_height: i32,
    /// Whether the window is active (DWM paints inactive caption buttons
    /// differently).
    pub is_active: bool,
}

/// What a mouse move asks of the caller.
#[derive(Copy, Clone, Debug, PartialEq, Eq, Structural)]
pub struct MouseMoveEffects {
    /// Request a mouse-leave notification.
    pub start_tracking: bool,
    /// Repaint the "Send to Back" button: its hover state changed.
    pub repaint_button: bool,
}

/// The state and effects after a mouse move over state `s`, with
/// `hovered` saying whether the mouse is over the "Send to Back" button.
pub open spec fn after_mouse_move(s: TitleBarState, hovered: bool) -> (TitleBarState, MouseMoveEffects) {
    (
        TitleBarState { send_back_hovered: hovered, tracking_mouse: true, ..s },
        MouseMoveEffects { start_tracking: !s.tracking_mouse, repaint_button: hovered != s.send_back_hovered },
    )
}

/// The state after the mouse left, and whether to repaint.
pub open spec fn after_mouse_leave(s: TitleBarState) -> (TitleBarState, bool) {
    (TitleBarState { send_back_hovered: false, tracking_mouse: false, ..s }, s.send_back_hovered)
}

/// A repeated mouse move with the same hover state repaints nothing and
/// requests no second leave notification; after the mouse leaves, the
/// button is not hovered, and the next move requests a leave notification
/// again.
pub proof fn lemma_hover_tracking(s: TitleBarState, hovered: bool)
    ensures
        ({
            let (s1, e1) = after_mouse_move(s, hovered);
            let (s2, e2) = after_mouse_move(s1, hovered);
            &&& !e2.start_tracking && !e2.repaint_button
            &&& s2 == s1
        }),
        ({
            let (left, _) = after_mouse_leave(s);
            &&& !left.send_back_hovered && !left.tracking_mouse
            &&& after_mouse_move(left, hovered).1.start_tracking
            &&& after_mouse_move(left, hovered).1.repaint_button == hovered
        }),
{
}

impl TitleBarState {
    /// The state of a newly created window, which the system activates.
    pub fn new(title_bar_height: i32) -> (state: Self)
        ensures
            state == (TitleBarState { send_back_hovered: false, tracking_mouse: false, title_bar_height, is_active: true }),
    {
        TitleBarState { send_back_hovered: false, tracking_mouse: false, title_bar_height, is_active: true }
    }

    /// The mouse moved; `hovered` says whether it is now over the
    /// "Send to Back" button.
    pub fn mouse_move(&mut self, hovered: bool) -> (effects: MouseMoveEffects)
        ensures
            (*final(self), effects) == after_mouse_move(*old(self), hovered),
    {
        let start_tracking = !self.tracking_mouse;
        self.tracking_mouse = true;
        let repaint_button = hovered != self.send_back_hovered;
        self.send_back_hovered = hovered;
        MouseMoveEffects { start_tracking, repaint_button }
    }

    /// The mouse left the window. Returns whether to repaint (the button
    /// was hovered).
    pub fn mouse_leave(&mut self) -> (repaint: bool)
        ensures
            (*final(self), repaint) == after_mouse_leave(*old(self)),
    {
        self.tracking_mouse = false;
        if self.send_back_hovered {
            self.send_back_hovered = false;
            true
        } else {
            false
        }
    }

    /// The window was activated or deactivated. Returns whether to repaint
    /// (the activation changed).
    pub fn set_active(&mut self, active: bool) -> (repaint: bool)
        ensures
            repaint == (active != old(self).is_active),
            *final(self) == (TitleBarState { is_active: active, ..*old(self) }),
    {
        if self.is_active != active {
            self.is_active = active;
            true
        } else {
            false
        }
    }
}

} // verus!
