//! Coordinate math for the frame window: default size and placement, DPI
//! scaling, and the layout of the self-drawn title-bar buttons.

use vstd::prelude::*;

verus! {

// --- Types ---

#[derive(Copy, Clone, Debug, PartialEq, Eq, Structural)]
pub struct Point {
    pub x: i32,
    pub y: i32,
}

#[derive(Copy, Clone, Debug, PartialEq, Eq, Structural)]
pub struct Size {
    pub width: i32,
    pub height: i32,
}

#[derive(Copy, Clone, Debug, PartialEq, Eq, Structural)]
pub struct Rect {
    pub left: i32,
    pub top: i32,
    pub right: i32,
    pub bottom: i32,
}

// --- Constants ---

pub const MIN_WIDTH: i32 = 200;
pub const MIN_HEIGHT: i32 = 150;

/// Width of the custom "Send to Back" button in the title bar.
pub const SEND_BACK_BUTTON_WIDTH: i32 = 46;
/// Resize border width for hit testing.
pub const RESIZE_MARGIN: i32 = 8;
/// Logical width (at 96 DPI) of each self-drawn caption button
/// (minimize / maximize / close).
pub const CAPTION_BUTTON_WIDTH: i32 = 46;

/// One of the three self-drawn caption buttons, ordered left-to-right as
/// they appear from the right edge of the title bar.
#[derive(Copy, Clone, Debug, PartialEq, Eq, Structural)]
pub enum CaptionButton {
    Minimize,
    Maximize,
    Close,
}

/// Spacing in pixels between grid lines drawn over the captured frame.
pub const GRID_SPACING: i32 = 48;
/// Constant alpha used for the grid overlay (~10%).
pub const GRID_ALPHA: u8 = 25;
/// Title-bar font height in logical pixels (negative = character height).
pub const TITLE_FONT_HEIGHT: i32 = -12;
/// Pixel size of the small window icon shown in the custom title bar.
pub const TITLE_ICON_SIZE: i32 = 16;
/// Horizontal inset for the title-bar icon.
pub const TITLE_ICON_INSET: i32 = 8;

/// The DPI at which one logical pixel is one physical pixel.
pub const BASE_DPI: u32 = 96;

// --- Arithmetic vocabulary ---

/// Whether `v` is representable as an `i32`.
pub open spec fn is_i32(v: int) -> bool {
    i32::MIN <= v <= i32::MAX
}

/// Integer division rounding toward zero, as Rust's `/` does on signed
/// integers (for a positive divisor).
pub open spec fn trunc_div(a: int, b: int) -> int
    recommends
        b > 0,
{
    if a >= 0 {
        a / b
    } else {
        -((-a) / b)
    }
}

pub open spec fn min_int(a: int, b: int) -> int {
    if a <= b {
        a
    } else {
        b
    }
}

pub open spec fn max_int(a: int, b: int) -> int {
    if a >= b {
        a
    } else {
        b
    }
}

// --- Default size and placement ---

/// Width before the height clamp: 75% of the monitor width, at most 1920.
pub open spec fn default_width_cap(monitor_width: int) -> int {
    min_int(1920, trunc_div(monitor_width * 75, 100))
}

/// Largest default height: 75% of the monitor height.
pub open spec fn default_height_cap(monitor_height: int) -> int {
    trunc_div(monitor_height * 75, 100)
}

/// The default window size `(width, height)`: 16:9 from the capped width,
/// or, where that height exceeds the height cap, 16:9 from the capped height.
pub open spec fn default_dims(monitor_width: int, monitor_height: int) -> (int, int) {
    let width = default_width_cap(monitor_width);
    let height = trunc_div(width * 9, 16);
    let max_height = default_height_cap(monitor_height);
    if height > max_height {
        (trunc_div(max_height * 16, 9), max_height)
    } else {
        (width, height)
    }
}

/// Calculates the default window size for the given monitor dimensions (logical pixels).
/// Returns min(1920, monitor_width * 75/100) with a 16:9 aspect ratio. If the
/// 16:9 height would exceed 75% of monitor height (tall/narrow monitors), the
/// width is recomputed from the height-clamped value so the result stays 16:9.
pub fn default_size(monitor_width: i32, monitor_height: i32) -> (size: Size)
    requires
        is_i32(monitor_width * 75),
        is_i32(monitor_height * 75),
    ensures
        size.width == default_dims(monitor_width as int, monitor_height as int).0,
        size.height == default_dims(monitor_width as int, monitor_height as int).1,
{
    let scaled_width = monitor_width * 75 / 100;
    let mut width = if 1920 <= scaled_width {
        1920
    } else {
        scaled_width
    };
    let mut height = width * 9 / 16;
    let max_height = monitor_height * 75 / 100;
    if height > max_height {
        height = max_height;
        width = height * 16 / 9;
    }
    Size { width, height }
}

/// Whether every intermediate value of `centered_position` fits in an `i32`.
pub open spec fn centered_position_in_range(window_size: Size, work_area: Rect) -> bool {
    let area_width = work_area.right - work_area.left;
    let area_height = work_area.bottom - work_area.top;
    &&& is_i32(area_width)
    &&& is_i32(area_height)
    &&& is_i32(area_width - window_size.width)
    &&& is_i32(area_height - window_size.height)
    &&& is_i32(work_area.left + trunc_div(area_width - window_size.width, 2))
    &&& is_i32(work_area.top + trunc_div(area_height - window_size.height, 2))
}

/// Top-left corner that centers a window of `window_size` in `work_area`
/// (the halving rounds toward zero).
pub open spec fn centered_point(window_size: Size, work_area: Rect) -> (int, int) {
    let area_width = work_area.right - work_area.left;
    let area_height = work_area.bottom - work_area.top;
    (
        work_area.left + trunc_div(area_width - window_size.width, 2),
        work_area.top + trunc_div(area_height - window_size.height, 2),
    )
}

/// Calculates centered position for a window within the work area.
pub fn centered_position(window_size: Size, work_area: Rect) -> (pos: Point)
    requires
        centered_position_in_range(window_size, work_area),
    ensures
        pos.x == centered_point(window_size, work_area).0,
        pos.y == centered_point(window_size, work_area).1,
{
    let area_width = work_area.right - work_area.left;
    let area_height = work_area.bottom - work_area.top;
    Point {
        x: work_area.left + (area_width - window_size.width) / 2,
        y: work_area.top + (area_height - window_size.height) / 2,
    }
}

/// The work area to place the window in: the monitor's, where it could be
/// queried, else a 1920x1080 area at the origin.
pub fn work_area_or_fallback(queried: Option<Rect>) -> (area: Rect)
    ensures
        queried is Some ==> area == queried->0,
        queried is None ==> area == (Rect { left: 0, top: 0, right: 1920, bottom: 1080 }),
{
    match queried {
        Some(rect) => rect,
        None => Rect { left: 0, top: 0, right: 1920, bottom: 1080 },
    }
}

// --- DPI conversion ---

/// `scaled / 96`, rounded to the nearest integer with halves rounded away
/// from zero.
pub open spec fn round_div_96(scaled: int) -> int {
    if scaled >= 0 {
        (scaled + 48) / 96
    } else {
        -((48 - scaled) / 96)
    }
}

/// Exact (unbounded) physical size of `logical` pixels at `dpi`.
pub open spec fn physical_of(logical: int, dpi: int) -> int {
    round_div_96(logical * dpi)
}

/// Exact (unbounded) logical size of `physical` pixels at `dpi`.
pub open spec fn logical_of(physical: int, dpi: int) -> int {
    trunc_div(physical * 96, dpi)
}

proof fn lemma_product_fits_i64(a: i32, b: u32)
    ensures
        -0x7fff_ffff_8000_0000 <= a * b < 0x7fff_ffff_0000_0000,
{
    assert(-0x7fff_ffff_8000_0000 <= a * b < 0x7fff_ffff_0000_0000) by (nonlinear_arith)
        requires
            -0x8000_0000 <= a < 0x8000_0000,
            0 <= b < 0x1_0000_0000,
    ;
}

/// Converts logical pixels to physical pixels for the given DPI (rounded).
/// The result is truncated to 32 bits, as the cast in the computation does.
pub fn logical_to_physical(logical: i32, dpi: u32) -> (physical: i32)
    ensures
        physical == #[verifier::truncate] (physical_of(logical as int, dpi as int) as i32),
{
    let dpi = dpi as i64;
    let logical = logical as i64;
    proof {
        lemma_product_fits_i64(logical as i32, dpi as u32);
    }
    // Round to nearest, away from zero, instead of truncating toward zero.
    let scaled = logical * dpi;
    let rounded = if scaled >= 0 {
        (scaled + 48) / 96
    } else {
        (scaled - 48) / 96
    };
    #[verifier::truncate] (rounded as i32)
}

/// Converts physical pixels to logical pixels for the given DPI (rounded
/// toward zero). The result is truncated to 32 bits, as the cast in the
/// computation does.
pub fn physical_to_logical(physical: i32, dpi: u32) -> (logical: i32)
    requires
        dpi > 0,
    ensures
        logical == #[verifier::truncate] (logical_of(physical as int, dpi as int) as i32),
{
    #[verifier::truncate] (((physical as i64 * 96) / dpi as i64) as i32)
}

// --- Caption buttons ---

/// Physical width of one caption button: the DPI-scaled logical width,
/// clamped so that three buttons fit within `client_width`.
pub open spec fn button_width(client_width: int, dpi: int) -> int {
    min_int(physical_of(CAPTION_BUTTON_WIDTH as int, dpi), max_int(trunc_div(client_width, 3), 0))
}

proof fn lemma_scaled_button_width_bounds(dpi: u32)
    ensures
        0 <= physical_of(CAPTION_BUTTON_WIDTH as int, dpi as int) < 0x7fff_ffff,
{
    assert(0 <= 46 * (dpi as int) <= 46 * 0xffff_ffff);
}

/// Physical width of a single caption button, clamped so all three always
/// fit within `client_width`. Without the clamp, high-DPI + very narrow
/// windows would yield negative `left` coordinates and make hit-testing
/// treat the whole title bar as caption buttons, breaking window dragging.
pub fn caption_button_width(client_width: i32, dpi: u32) -> (width: i32)
    ensures
        width == button_width(client_width as int, dpi as int),
        0 <= width,
        3 * width <= max_int(client_width as int, 0),
{
    proof {
        lemma_scaled_button_width_bounds(dpi);
    }
    let ideal = logical_to_physical(CAPTION_BUTTON_WIDTH, dpi);
    let third = client_width / 3;
    let max_fit = if third >= 0 {
        third
    } else {
        0
    };
    if ideal <= max_fit {
        ideal
    } else {
        max_fit
    }
}

/// The client-x range `[left, right)` of `button`: from the right edge,
/// Close, then Maximize, then Minimize, each `button_width` wide.
pub open spec fn button_range(button: CaptionButton, client_width: int, dpi: int) -> (int, int) {
    let bw = button_width(client_width, dpi);
    match button {
        CaptionButton::Close => (client_width - bw, client_width),
        CaptionButton::Maximize => (client_width - 2 * bw, client_width - bw),
        CaptionButton::Minimize => (client_width - 3 * bw, client_width - 2 * bw),
    }
}

/// Returns the inclusive-exclusive client-x range `(left, right)` of one
/// caption button. From the right edge: Close, then Maximize, then Minimize.
pub fn caption_button_range(button: CaptionButton, client_width: i32, dpi: u32) -> (range: (i32, i32))
    ensures
        range.0 == button_range(button, client_width as int, dpi as int).0,
        range.1 == button_range(button, client_width as int, dpi as int).1,
{
    let bw = caption_button_width(client_width, dpi);
    match button {
        CaptionButton::Close => (client_width - bw, client_width),
        CaptionButton::Maximize => (client_width - 2 * bw, client_width - bw),
        CaptionButton::Minimize => (client_width - 3 * bw, client_width - 2 * bw),
    }
}

/// Whether client x-coordinate `x` lies in the range of `button`.
pub open spec fn in_button(button: CaptionButton, x: int, client_width: int, dpi: int) -> bool {
    button_range(button, client_width, dpi).0 <= x < button_range(button, client_width, dpi).1
}

/// The caption button under `(x, y)`: the first of Minimize, Maximize,
/// Close whose range holds `x`, provided `y` lies within the title bar.
pub open spec fn button_at(x: int, y: int, client_width: int, title_bar_height: int, dpi: int) -> Option<CaptionButton> {
    if y < 0 || y >= title_bar_height {
        None
    } else if in_button(CaptionButton::Minimize, x, client_width, dpi) {
        Some(CaptionButton::Minimize)
    } else if in_button(CaptionButton::Maximize, x, client_width, dpi) {
        Some(CaptionButton::Maximize)
    } else if in_button(CaptionButton::Close, x, client_width, dpi) {
        Some(CaptionButton::Close)
    } else {
        None
    }
}

/// Returns which caption button contains `(x, y)` (client coordinates), or
/// `None` if the point is outside the title bar or the caption-button strip.
pub fn caption_button_at(x: i32, y: i32, client_width: i32, title_bar_height: i32, dpi: u32) -> (button: Option<CaptionButton>)
    ensures
        button == button_at(x as int, y as int, client_width as int, title_bar_height as int, dpi as int),
{
    if y < 0 || y >= title_bar_height {
        return None;
    }
    let buttons = [CaptionButton::Minimize, CaptionButton::Maximize, CaptionButton::Close];
    let mut i: usize = 0;
    while i < 3
        invariant
            0 <= i <= 3,
            buttons@ == seq![CaptionButton::Minimize, CaptionButton::Maximize, CaptionButton::Close],
            0 <= y < title_bar_height,
            forall|j: int| 0 <= j < i ==> !in_button(#[trigger] buttons@[j], x as int, client_width as int, dpi as int),
        decreases 3 - i,
    {
        let button = buttons[i];
        let (left, right) = caption_button_range(button, client_width, dpi);
        if x >= left && x < right {
            return Some(button);
        }
        i = i + 1;
    }
    assert(!in_button(buttons@[0], x as int, client_width as int, dpi as int));
    assert(!in_button(buttons@[1], x as int, client_width as int, dpi as int));
    assert(!in_button(buttons@[2], x as int, client_width as int, dpi as int));
    None
}

/// Physical width of the three caption buttons together, for a window of
/// `client_width` at `dpi`; a DPI of 0 (the query failed) counts as 96.
pub open spec fn buttons_strip_width(client_width: int, dpi: int) -> int {
    3 * button_width(client_width, if dpi == 0 { BASE_DPI as int } else { dpi })
}

/// Returns the total width of the three self-drawn caption buttons at the
/// given DPI (0 meaning that the window's DPI could not be read). Used to
/// reserve the right-hand strip of the title bar and to position the
/// "Send to Back" button left of it.
pub fn caption_buttons_width(client_width: i32, dpi: u32) -> (width: i32)
    ensures
        width == buttons_strip_width(client_width as int, dpi as int),
        0 <= width <= max_int(client_width as int, 0),
{
    let dpi = if dpi == 0 {
        BASE_DPI
    } else {
        dpi
    };
    3 * caption_button_width(client_width, dpi)
}

// --- "Send to Back" button ---

/// Whether `send_back_button_range` can be computed without overflow.
pub open spec fn send_back_in_range(client_width: int, caption_buttons_width: int) -> bool {
    is_i32(client_width - caption_buttons_width)
        && is_i32(client_width - caption_buttons_width - SEND_BACK_BUTTON_WIDTH)
}

/// Returns the inclusive-exclusive horizontal range of the "Send to Back"
/// button, expressed as `(left, right)` in client coordinates.
pub fn send_back_button_range(client_width: i32, caption_buttons_width: i32) -> (range: (i32, i32))
    requires
        send_back_in_range(client_width as int, caption_buttons_width as int),
    ensures
        range.1 == client_width - caption_buttons_width,
        range.0 == range.1 - SEND_BACK_BUTTON_WIDTH,
{
    let right = client_width - caption_buttons_width;
    let left = right - SEND_BACK_BUTTON_WIDTH;
    (left, right)
}

/// Whether `(x, y)` lies on the "Send to Back" button.
pub open spec fn on_send_back(x: int, y: int, client_width: int, title_bar_height: int, caption_buttons_width: int) -> bool {
    let right = client_width - caption_buttons_width;
    &&& 0 <= y < title_bar_height
    &&& right - SEND_BACK_BUTTON_WIDTH <= x < right
}

/// Returns true when `(x, y)` (client coordinates) hits the "Send to Back"
/// button drawn left of the caption buttons.
pub fn point_in_send_back_button(
    x: i32,
    y: i32,
    client_width: i32,
    title_bar_height: i32,
    caption_buttons_width: i32,
) -> (hit: bool)
    requires
        0 <= y < title_bar_height ==> send_back_in_range(client_width as int, caption_buttons_width as int),
    ensures
        hit == on_send_back(x as int, y as int, client_width as int, title_bar_height as int, caption_buttons_width as int),
{
    if y < 0 || y >= title_bar_height {
        return false;
    }
    let (left, right) = send_back_button_range(client_width, caption_buttons_width);
    x >= left && x < right
}

// --- Laws ---

/// The default size never exceeds 1920 pixels of width, 75% of the monitor
/// width or 75% of the monitor height, and is never negative.
pub proof fn lemma_default_size_within_limits(monitor_width: int, monitor_height: int)
    requires
        0 <= monitor_width,
        0 <= monitor_height,
    ensures
        0 <= default_dims(monitor_width, monitor_height).0 <= 1920,
        default_dims(monitor_width, monitor_height).0 <= monitor_width * 75 / 100,
        0 <= default_dims(monitor_width, monitor_height).1 <= monitor_height * 75 / 100,
        default_dims(monitor_width, monitor_height).1 <= 1080,
{
}

/// The default size is 16:9 up to the rounding of one division:
/// `16 * height` and `9 * width` differ by less than 16.
pub proof fn lemma_default_size_is_16_by_9(monitor_width: int, monitor_height: int)
    requires
        0 <= monitor_width,
        0 <= monitor_height,
    ensures
        -16 < 16 * default_dims(monitor_width, monitor_height).1 - 9 * default_dims(monitor_width, monitor_height).0 < 16,
{
}

/// A window that fits in the work area is placed inside it, with the
/// space to its right (below it) equal to or one pixel more than the space
/// to its left (above it).
pub proof fn lemma_centered_position_centers(window_size: Size, work_area: Rect)
    requires
        0 <= window_size.width <= work_area.right - work_area.left,
        0 <= window_size.height <= work_area.bottom - work_area.top,
    ensures
        ({
            let (x, y) = centered_point(window_size, work_area);
            &&& work_area.left <= x
            &&& x + window_size.width <= work_area.right
            &&& 0 <= (work_area.right - (x + window_size.width)) - (x - work_area.left) <= 1
            &&& work_area.top <= y
            &&& y + window_size.height <= work_area.bottom
            &&& 0 <= (work_area.bottom - (y + window_size.height)) - (y - work_area.top) <= 1
        }),
{
}

/// At launch the window, at its default size for the work area and
/// centered in it, lies entirely inside the work area.
pub proof fn lemma_default_window_inside_work_area(work_area: Rect)
    requires
        0 <= work_area.right - work_area.left,
        0 <= work_area.bottom - work_area.top,
        is_i32((work_area.right - work_area.left) * 75),
        is_i32((work_area.bottom - work_area.top) * 75),
    ensures
        ({
            let (w, h) = default_dims(work_area.right - work_area.left, work_area.bottom - work_area.top);
            let size = Size { width: w as i32, height: h as i32 };
            let (x, y) = centered_point(size, work_area);
            &&& work_area.left <= x && x + w <= work_area.right
            &&& work_area.top <= y && y + h <= work_area.bottom
        }),
{
    let aw = work_area.right - work_area.left;
    let ah = work_area.bottom - work_area.top;
    lemma_default_size_within_limits(aw, ah);
    let (w, h) = default_dims(aw, ah);
    let size = Size { width: w as i32, height: h as i32 };
    assert(size.width == w && size.height == h);
    lemma_centered_position_centers(size, work_area);
}

/// At 96 DPI logical and physical pixels coincide.
pub proof fn lemma_base_dpi_is_identity(v: int)
    ensures
        physical_of(v, BASE_DPI as int) == v,
        logical_of(v, BASE_DPI as int) == v,
{
    if v >= 0 {
        assert((v * 96 + 48) / 96 == v) by (nonlinear_arith)
            requires v >= 0;
        assert((v * 96) / 96 == v) by (nonlinear_arith)
            requires v >= 0;
    } else {
        assert((48 - v * 96) / 96 == -v) by (nonlinear_arith)
            requires v < 0;
        assert(((-v) * 96) / 96 == -v) by (nonlinear_arith)
            requires v < 0;
        assert(v * 96 < 0) by (nonlinear_arith)
            requires v < 0;
        assert(-(v * 96) == (-v) * 96) by (nonlinear_arith);
    }
}

/// Logical-to-physical conversion rounds to the nearest physical pixel:
/// the result times 96 is within 48 of the exact product.
pub proof fn lemma_physical_is_nearest(logical: int, dpi: int)
    requires
        0 <= dpi,
    ensures
        -48 <= 96 * physical_of(logical, dpi) - logical * dpi <= 48,
{
    let s = logical * dpi;
    if s >= 0 {
        assert(-48 <= 96 * ((s + 48) / 96) - s <= 48) by (nonlinear_arith)
            requires s >= 0;
    } else {
        assert(-48 <= 96 * (-((48 - s) / 96)) - s <= 48) by (nonlinear_arith)
            requires s < 0;
    }
}

/// Rounding is symmetric about zero: negating the logical size negates
/// the physical size.
pub proof fn lemma_physical_is_odd(logical: int, dpi: int)
    ensures
        physical_of(-logical, dpi) == -physical_of(logical, dpi),
{
    assert((-logical) * dpi == -(logical * dpi)) by (nonlinear_arith);
}

/// A larger logical size never gives a smaller physical size.
pub proof fn lemma_physical_is_monotonic(a: int, b: int, dpi: int)
    requires
        a <= b,
        0 <= dpi,
    ensures
        physical_of(a, dpi) <= physical_of(b, dpi),
{
    assert(a * dpi <= b * dpi) by (nonlinear_arith)
        requires a <= b, 0 <= dpi;
    let sa = a * dpi;
    let sb = b * dpi;
    if sa >= 0 {
        assert((sa + 48) / 96 <= (sb + 48) / 96) by (nonlinear_arith)
            requires 0 <= sa <= sb;
    } else if sb >= 0 {
        assert(-((48 - sa) / 96) <= 0);
        assert(0 <= (sb + 48) / 96);
    } else {
        assert((48 - sb) / 96 <= (48 - sa) / 96) by (nonlinear_arith)
            requires sa <= sb < 0;
    }
}

/// At a DPI that is a whole multiple of 96, converting to physical pixels
/// and back gives the logical size it started from.
pub proof fn lemma_round_trip_at_integral_scale(logical: int, scale: int)
    requires
        1 <= scale,
    ensures
        physical_of(logical, 96 * scale) == logical * scale,
        logical_of(physical_of(logical, 96 * scale), 96 * scale) == logical,
{
    let s = logical * (96 * scale);
    assert(s == 96 * (logical * scale)) by (nonlinear_arith)
        requires s == logical * (96 * scale);
    let p = logical * scale;
    if p >= 0 {
        assert((96 * p + 48) / 96 == p) by (nonlinear_arith)
            requires p >= 0;
    } else {
        assert((48 - 96 * p) / 96 == -p) by (nonlinear_arith)
            requires p < 0;
    }
    assert(p * 96 == logical * (96 * scale)) by (nonlinear_arith)
        requires p == logical * scale;
    if logical >= 0 {
        assert(p >= 0) by (nonlinear_arith)
            requires logical >= 0, scale >= 1, p == logical * scale;
        assert((logical * (96 * scale)) / (96 * scale) == logical) by (nonlinear_arith)
            requires logical >= 0, scale >= 1;
    } else {
        assert(p < 0) by (nonlinear_arith)
            requires logical < 0, scale >= 1, p == logical * scale;
        assert(((-logical) * (96 * scale)) / (96 * scale) == -logical) by (nonlinear_arith)
            requires logical < 0, scale >= 1;
        assert(-(p * 96) == (-logical) * (96 * scale)) by (nonlinear_arith)
            requires p * 96 == logical * (96 * scale);
    }
}

/// At any DPI of at least 96, converting to physical pixels and back loses
/// at most one logical pixel.
pub proof fn lemma_round_trip_within_one_pixel(logical: int, dpi: int)
    requires
        96 <= dpi,
    ensures
        -1 <= logical_of(physical_of(logical, dpi), dpi) - logical <= 1,
{
    lemma_physical_is_nearest(logical, dpi);
    let p = physical_of(logical, dpi);
    let s = logical * dpi;
    if p >= 0 {
        assert(96 * p >= 0);
        let q = (p * 96) / dpi;
        assert(logical - 1 <= q <= logical + 1) by (nonlinear_arith)
            requires
                q == (p * 96) / dpi,
                -48 <= 96 * p - s <= 48,
                s == logical * dpi,
                dpi >= 96,
                p >= 0,
        ;
    } else {
        assert(p * 96 < 0) by (nonlinear_arith)
            requires p < 0;
        let q = ((-p) * 96) / dpi;
        assert(-(p * 96) == (-p) * 96) by (nonlinear_arith);
        assert(logical - 1 <= -q <= logical + 1) by (nonlinear_arith)
            requires
                q == ((-p) * 96) / dpi,
                -48 <= 96 * p - s <= 48,
                s == logical * dpi,
                dpi >= 96,
                p < 0,
        ;
    }
}

/// Moving the work area moves the centered position by the same amount.
pub proof fn lemma_centering_follows_work_area(window_size: Size, work_area: Rect, shifted: Rect, dx: int, dy: int)
    requires
        shifted.left == work_area.left + dx,
        shifted.right == work_area.right + dx,
        shifted.top == work_area.top + dy,
        shifted.bottom == work_area.bottom + dy,
    ensures
        centered_point(window_size, shifted).0 == centered_point(window_size, work_area).0 + dx,
        centered_point(window_size, shifted).1 == centered_point(window_size, work_area).1 + dy,
{
}

/// The "Send to Back" button is hit exactly on the title bar's rows
/// (`0 <= y < title_bar_height`) across its full 46-pixel range
/// `[cw - cap - 46, cw - cap)`, the range `send_back_button_range` returns.
pub proof fn lemma_send_back_hit_region(x: int, y: int, cw: int, tb: int, cap: int)
    ensures
        on_send_back(x, y, cw, tb, cap) == (0 <= y < tb && cw - cap - 46 <= x < cw - cap),
{
}

/// Ties round away from zero: an exact half pixel rounds up for positive
/// products and down for negative ones.
pub proof fn lemma_halves_round_away_from_zero(logical: int, dpi: int)
    requires
        0 <= dpi,
    ensures
        logical * dpi >= 0 ==> -48 < 96 * physical_of(logical, dpi) - logical * dpi <= 48,
        logical * dpi < 0 ==> -48 <= 96 * physical_of(logical, dpi) - logical * dpi < 48,
{
    let s = logical * dpi;
    if s >= 0 {
        assert(-48 < 96 * ((s + 48) / 96) - s <= 48) by (nonlinear_arith)
            requires s >= 0;
    } else {
        assert(-48 <= 96 * (-((48 - s) / 96)) - s < 48) by (nonlinear_arith)
            requires s < 0;
    }
}

/// The three caption buttons tile the right end of the client area:
/// Close ends at the right edge, each button starts where the next one
/// ends, all three are `button_width` wide, and together they are the
/// caption-button strip.
pub proof fn lemma_caption_buttons_tile_strip(client_width: int, dpi: int)
    requires
        0 < dpi,
    ensures
        ({
            let bw = button_width(client_width, dpi);
            let (min_l, min_r) = button_range(CaptionButton::Minimize, client_width, dpi);
            let (max_l, max_r) = button_range(CaptionButton::Maximize, client_width, dpi);
            let (close_l, close_r) = button_range(CaptionButton::Close, client_width, dpi);
            &&& close_r == client_width
            &&& close_l == max_r
            &&& max_l == min_r
            &&& close_r - close_l == bw && max_r - max_l == bw && min_r - min_l == bw
            &&& min_l == client_width - buttons_strip_width(client_width, dpi)
        }),
{
}

/// However narrow the window and however high the DPI, the caption buttons
/// stay inside the client area and never overlap.
pub proof fn lemma_caption_buttons_stay_in_bounds(client_width: int, dpi: int)
    requires
        0 <= client_width,
        0 <= dpi,
    ensures
        0 <= button_range(CaptionButton::Minimize, client_width, dpi).0,
        button_range(CaptionButton::Minimize, client_width, dpi).0 <= button_range(CaptionButton::Minimize, client_width, dpi).1,
        button_range(CaptionButton::Maximize, client_width, dpi).0 <= button_range(CaptionButton::Maximize, client_width, dpi).1,
        button_range(CaptionButton::Close, client_width, dpi).0 <= button_range(CaptionButton::Close, client_width, dpi).1,
        button_range(CaptionButton::Close, client_width, dpi).1 <= client_width,
{
    assert(0 <= 46 * dpi);
}

/// Where the window is wide enough, a caption button is exactly
/// `CAPTION_BUTTON_WIDTH` physical pixels at 96 DPI.
pub proof fn lemma_caption_button_width_at_base_dpi(client_width: int)
    requires
        3 * CAPTION_BUTTON_WIDTH <= client_width,
    ensures
        button_width(client_width, BASE_DPI as int) == CAPTION_BUTTON_WIDTH,
{
}

/// `caption_button_at` reports a button exactly when the point is in the
/// title bar and in that button's range; a point in the title bar and in
/// the caption-button strip always hits a button, and no button is ever
/// reported outside the client area.
pub proof fn lemma_button_at_matches_ranges(x: int, y: int, client_width: int, title_bar_height: int, dpi: int, button: CaptionButton)
    requires
        0 <= dpi,
    ensures
        button_at(x, y, client_width, title_bar_height, dpi) == Some(button) ==> {
            &&& 0 <= y < title_bar_height
            &&& in_button(button, x, client_width, dpi)
        },
        (0 <= y < title_bar_height && in_button(button, x, client_width, dpi))
            ==> button_at(x, y, client_width, title_bar_height, dpi) == Some(button),
        (0 <= y < title_bar_height && client_width - 3 * button_width(client_width, dpi) <= x < client_width)
            ==> button_at(x, y, client_width, title_bar_height, dpi) is Some,
        (0 <= client_width && button_at(x, y, client_width, title_bar_height, dpi) is Some)
            ==> 0 <= x < client_width,
{
    assert(0 <= 46 * dpi);
}

/// The "Send to Back" button sits directly left of the caption buttons:
/// its right edge is the Minimize button's left edge, and no point is on
/// both the "Send to Back" button and a caption button.
pub proof fn lemma_send_back_left_of_caption_buttons(x: int, y: int, client_width: int, title_bar_height: int, dpi: int)
    requires
        0 < dpi,
    ensures
        client_width - buttons_strip_width(client_width, dpi) == button_range(CaptionButton::Minimize, client_width, dpi).0,
        on_send_back(x, y, client_width, title_bar_height, buttons_strip_width(client_width, dpi))
            ==> button_at(x, y, client_width, title_bar_height, dpi) is None,
{
    assert(0 <= 46 * dpi);
}

} // verus!
