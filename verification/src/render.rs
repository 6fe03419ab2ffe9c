//! The decisions of painting: how the captured frame fills the client
//! area, and where the grid overlay's lines go. Drawing is the caller's.

use vstd::prelude::*;

use crate::geometry::{is_i32, send_back_button_range, send_back_in_range, Rect, GRID_SPACING, SEND_BACK_BUTTON_WIDTH};
use crate::theme::TitleBarTheme;

verus! {

/// Fill color of the content area while capture fails: dark red
/// (`COLORREF` 0x00BBGGRR).
pub const ERROR_FILL_COLOR: u32 = 139;

/// How the captured frame reaches the client area.
#[derive(Copy, Clone, Debug, PartialEq, Eq, Structural)]
pub enum ContentPaint {
    /// The capture failed: fill with `ERROR_FILL_COLOR`.
    ErrorFill,
    /// Same size as the client area: copy it.
    Copy,
    /// Another size (e.g. during an interactive resize): stretch it.
    Stretch,
}

/// What a paint draws.
#[derive(Copy, Clone, Debug, PartialEq, Eq, Structural)]
pub struct PaintPlan {
    pub content: ContentPaint,
    /// Whether the grid overlay is drawn (the content area is not empty).
    pub grid: bool,
    /// Whether the border and corner grips are drawn over everything else
    /// (the client area is not empty).
    pub border: bool,
}

/// Plans a paint of a `client_width` x `client_height` client area whose
/// top `title_bar_height` pixels are the title bar, from a capture of
/// `capture_width` x `capture_height` whose last attempt succeeded when
/// `capture_ok`. The captured frame and the grid fill the content area
/// below the title bar; the border frames the whole client area.
pub fn paint_plan(
    capture_ok: bool,
    capture_width: i32,
    capture_height: i32,
    client_width: i32,
    client_height: i32,
    title_bar_height: i32,
) -> (plan: PaintPlan)
    requires
        is_i32(client_height - title_bar_height),
    ensures
        ({
            let content_height = client_height - title_bar_height;
            &&& plan.content == (if !capture_ok {
                ContentPaint::ErrorFill
            } else if capture_width != client_width || capture_height != content_height {
                ContentPaint::Stretch
            } else {
                ContentPaint::Copy
            })
            &&& plan.grid == (content_height > 0 && client_width > 0)
            &&& plan.border == (client_height > 0 && client_width > 0)
        }),
{
    let content_height = client_height - title_bar_height;
    let content = if !capture_ok {
        ContentPaint::ErrorFill
    } else if capture_width != client_width || capture_height != content_height {
        ContentPaint::Stretch
    } else {
        ContentPaint::Copy
    };
    PaintPlan {
        content,
        grid: content_height > 0 && client_width > 0,
        border: client_height > 0 && client_width > 0,
    }
}

/// Number of grid lines across an extent: the positive multiples of
/// `spacing` below `extent`.
pub open spec fn grid_line_count(extent: int, spacing: int) -> int {
    if extent > 0 {
        (extent - 1) / spacing
    } else {
        0
    }
}

/// Positions of the grid lines across an `extent`-pixel-wide area: every
/// `spacing` pixels, starting at `spacing` and stopping before `extent`.
pub fn grid_line_positions(extent: i32, spacing: i32) -> (positions: Vec<i32>)
    requires
        spacing > 0,
        (grid_line_count(extent as int, spacing as int) + 1) * spacing <= i32::MAX,
    ensures
        positions@.len() == grid_line_count(extent as int, spacing as int),
        forall|i: int| 0 <= i < positions@.len() ==> #[trigger] positions@[i] == (i + 1) * spacing,
{
    let ghost n = grid_line_count(extent as int, spacing as int);
    proof {
        if extent > 0 {
            assert(n * spacing <= extent - 1 < (n + 1) * spacing) by (nonlinear_arith)
                requires
                    extent > 0,
                    spacing > 0,
                    n == (extent - 1) / (spacing as int),
            ;
        }
    }
    let mut positions: Vec<i32> = Vec::new();
    let mut x = spacing;
    assert(positions@.len() == 0);
    assert(x == (0 + 1) * spacing) by (nonlinear_arith)
        requires
            x == spacing,
    ;
    while x < extent
        invariant
            spacing > 0,
            (n + 1) * spacing <= i32::MAX,
            extent > 0 ==> n * spacing < extent <= (n + 1) * spacing,
            extent <= 0 ==> n == 0,
            0 <= positions@.len() <= n,
            x == (positions@.len() + 1) * spacing,
            forall|i: int| 0 <= i < positions@.len() ==> #[trigger] positions@[i] == (i + 1) * spacing,
        decreases extent - x + spacing,
    {
        let ghost k = positions@.len() as int;
        assert(k + 1 <= n) by (nonlinear_arith)
            requires
                x == (k + 1) * spacing,
                x < extent,
                extent <= (n + 1) * spacing,
                spacing > 0,
        ;
        positions.push(x);
        assert((k + 2) * spacing == x + spacing) by (nonlinear_arith)
            requires
                x == (k + 1) * spacing,
        ;
        assert((k + 2) * spacing <= (n + 1) * spacing) by (nonlinear_arith)
            requires
                k + 1 <= n,
                spacing > 0,
        ;
        x = x + spacing;
        assert(x == (positions@.len() + 1) * spacing);
    }
    assert(positions@.len() == n) by (nonlinear_arith)
        requires
            x == (positions@.len() + 1) * spacing,
            x >= extent,
            extent > 0 ==> n * spacing < extent,
            extent <= 0 ==> n == 0,
            positions@.len() <= n,
            spacing > 0,
    ;
    positions
}

/// The grid lines are exactly the positive multiples of the spacing below
/// the extent: `n` lines with the last below `extent` and the next one at
/// or beyond it.
pub proof fn lemma_grid_covers_extent(extent: int, spacing: int)
    requires
        spacing > 0,
        extent > 0,
    ensures
        grid_line_count(extent, spacing) * spacing < extent <= (grid_line_count(extent, spacing) + 1) * spacing,
{
    let n = grid_line_count(extent, spacing);
    assert(n * spacing <= extent - 1 < (n + 1) * spacing) by (nonlinear_arith)
        requires
            extent > 0,
            spacing > 0,
            n == (extent - 1) / spacing,
    ;
}

/// The grid overlay over a `client_width` x `client_height` client area:
/// the x-positions of the vertical lines and the y-positions of the
/// horizontal lines, every `GRID_SPACING` pixels.
pub fn grid_lines(client_width: i32, client_height: i32) -> (lines: (Vec<i32>, Vec<i32>))
    requires
        (grid_line_count(client_width as int, GRID_SPACING as int) + 1) * GRID_SPACING <= i32::MAX,
        (grid_line_count(client_height as int, GRID_SPACING as int) + 1) * GRID_SPACING <= i32::MAX,
    ensures
        lines.0@.len() == grid_line_count(client_width as int, GRID_SPACING as int),
        lines.1@.len() == grid_line_count(client_height as int, GRID_SPACING as int),
        forall|i: int| 0 <= i < lines.0@.len() ==> #[trigger] lines.0@[i] == (i + 1) * GRID_SPACING,
        forall|i: int| 0 <= i < lines.1@.len() ==> #[trigger] lines.1@[i] == (i + 1) * GRID_SPACING,
{
    (grid_line_positions(client_width, GRID_SPACING), grid_line_positions(client_height, GRID_SPACING))
}

/// Thickness of the frame border, in pixels.
pub const BORDER_WIDTH: i32 = 3;
/// Side of the square corner grips, in pixels.
pub const GRIP_SIZE: i32 = 6;
/// Color of the border and grips: neutral dark gray, RGB(100, 100, 100)
/// (`COLORREF` 0x00BBGGRR).
pub const BORDER_COLOR: u32 = 0x0064_6464;

/// The four border strips `BORDER_WIDTH` thick along the edges of a
/// `w` x `h` client area: top, bottom, left, right.
pub open spec fn border_strips(w: int, h: int) -> Seq<Rect> {
    let bottom_top = (h - BORDER_WIDTH) as i32;
    let right_left = (w - BORDER_WIDTH) as i32;
    seq![
        Rect { left: 0, top: 0, right: w as i32, bottom: BORDER_WIDTH },
        Rect { left: 0, top: bottom_top, right: w as i32, bottom: h as i32 },
        Rect { left: 0, top: 0, right: BORDER_WIDTH, bottom: h as i32 },
        Rect { left: right_left, top: 0, right: w as i32, bottom: h as i32 },
    ]
}

/// The four `GRIP_SIZE` squares in the corners of a `w` x `h` client area:
/// top-left, top-right, bottom-left, bottom-right.
pub open spec fn grip_squares(w: int, h: int) -> Seq<Rect> {
    let grip_left = (w - GRIP_SIZE) as i32;
    let grip_top = (h - GRIP_SIZE) as i32;
    seq![
        Rect { left: 0, top: 0, right: GRIP_SIZE, bottom: GRIP_SIZE },
        Rect { left: grip_left, top: 0, right: w as i32, bottom: GRIP_SIZE },
        Rect { left: 0, top: grip_top, right: GRIP_SIZE, bottom: h as i32 },
        Rect { left: grip_left, top: grip_top, right: w as i32, bottom: h as i32 },
    ]
}

/// The rectangles to fill with `BORDER_COLOR` around a non-empty client
/// area: the border strips, then the corner grips.
pub fn frame_decorations(client_width: i32, client_height: i32) -> (rects: (Vec<Rect>, Vec<Rect>))
    requires
        client_width > 0,
        client_height > 0,
    ensures
        rects.0@ == border_strips(client_width as int, client_height as int),
        rects.1@ == grip_squares(client_width as int, client_height as int),
{
    let w = client_width;
    let h = client_height;
    let bottom_top = h - BORDER_WIDTH;
    let right_left = w - BORDER_WIDTH;
    let grip_left = w - GRIP_SIZE;
    let grip_top = h - GRIP_SIZE;
    let border = vec![
        Rect { left: 0, top: 0, right: w, bottom: BORDER_WIDTH },
        Rect { left: 0, top: bottom_top, right: w, bottom: h },
        Rect { left: 0, top: 0, right: BORDER_WIDTH, bottom: h },
        Rect { left: right_left, top: 0, right: w, bottom: h },
    ];
    let grips = vec![
        Rect { left: 0, top: 0, right: GRIP_SIZE, bottom: GRIP_SIZE },
        Rect { left: grip_left, top: 0, right: w, bottom: GRIP_SIZE },
        Rect { left: 0, top: grip_top, right: GRIP_SIZE, bottom: h },
        Rect { left: grip_left, top: grip_top, right: w, bottom: h },
    ];
    assert(border@ == border_strips(w as int, h as int));
    assert(grips@ == grip_squares(w as int, h as int));
    (border, grips)
}

/// Each border strip runs along a whole edge of the client area,
/// `BORDER_WIDTH` thick, and each grip is a `GRIP_SIZE` square in a corner,
/// where the area is large enough to hold them.
pub proof fn lemma_border_frames_client_area(w: int, h: int)
    requires
        GRIP_SIZE <= w <= i32::MAX,
        GRIP_SIZE <= h <= i32::MAX,
    ensures
        forall|i: int| 0 <= i < 4 ==> {
            let r = #[trigger] border_strips(w, h)[i];
            &&& 0 <= r.left && r.right <= w && 0 <= r.top && r.bottom <= h
            &&& (r.right - r.left == BORDER_WIDTH && r.bottom - r.top == h)
                || (r.bottom - r.top == BORDER_WIDTH && r.right - r.left == w)
        },
        forall|i: int| 0 <= i < 4 ==> {
            let g = #[trigger] grip_squares(w, h)[i];
            &&& g.right - g.left == GRIP_SIZE && g.bottom - g.top == GRIP_SIZE
            &&& (g.left == 0 || g.right == w) && (g.top == 0 || g.bottom == h)
        },
{
    assert forall|i: int| 0 <= i < 4 implies {
        let r = #[trigger] border_strips(w, h)[i];
        &&& 0 <= r.left && r.right <= w && 0 <= r.top && r.bottom <= h
        &&& (r.right - r.left == BORDER_WIDTH && r.bottom - r.top == h)
            || (r.bottom - r.top == BORDER_WIDTH && r.right - r.left == w)
    } by {
        if i == 0 {} else if i == 1 {} else if i == 2 {} else {}
    }
    assert forall|i: int| 0 <= i < 4 implies {
        let g = #[trigger] grip_squares(w, h)[i];
        &&& g.right - g.left == GRIP_SIZE && g.bottom - g.top == GRIP_SIZE
        &&& (g.left == 0 || g.right == w) && (g.top == 0 || g.bottom == h)
    } by {
        if i == 0 {} else if i == 1 {} else if i == 2 {} else {}
    }
}

/// The title-bar height clamped to the client area: `0..=client_height`
/// (nothing where the client area is empty).
pub open spec fn visible_title_bar(title_bar_height: int, client_height: int) -> int {
    if title_bar_height < 0 {
        0
    } else if title_bar_height > client_height {
        if client_height > 0 { client_height } else { 0 }
    } else {
        title_bar_height
    }
}

/// The title-bar height clamped to the client area; the content area is
/// the rest of the client height.
pub fn visible_title_bar_height(title_bar_height: i32, client_height: i32) -> (tb: i32)
    ensures
        tb == visible_title_bar(title_bar_height as int, client_height as int),
        0 <= tb,
        client_height >= 0 ==> tb <= client_height,
{
    if title_bar_height < 0 {
        0
    } else if title_bar_height > client_height {
        if client_height > 0 {
            client_height
        } else {
            0
        }
    } else {
        title_bar_height
    }
}

/// The title-bar fills: the strip across the top in the theme's background
/// and, while the "Send to Back" button is hovered, the button's range
/// across the strip in the hover color.
pub open spec fn title_bar_fill_list(
    client_width: int,
    client_height: int,
    title_bar_height: int,
    caption_buttons_width: int,
    hovered: bool,
    theme: TitleBarTheme,
) -> Seq<(Rect, u32)> {
    let tb = visible_title_bar(title_bar_height, client_height) as i32;
    let strip = (Rect { left: 0, top: 0, right: client_width as i32, bottom: tb }, theme.background);
    let right = (client_width - caption_buttons_width) as i32;
    let left = (client_width - caption_buttons_width - SEND_BACK_BUTTON_WIDTH) as i32;
    if hovered {
        seq![strip, (Rect { left: left, top: 0, right: right, bottom: tb }, theme.hover)]
    } else {
        seq![strip]
    }
}

/// Plans the title bar of a `client_width` x `client_height` client area:
/// the rectangles to fill, in order, each with its color.
pub fn title_bar_fills(
    client_width: i32,
    client_height: i32,
    title_bar_height: i32,
    caption_buttons_width: i32,
    hovered: bool,
    theme: TitleBarTheme,
) -> (fills: Vec<(Rect, u32)>)
    requires
        hovered ==> send_back_in_range(client_width as int, caption_buttons_width as int),
    ensures
        fills@ == title_bar_fill_list(
            client_width as int,
            client_height as int,
            title_bar_height as int,
            caption_buttons_width as int,
            hovered,
            theme,
        ),
{
    let tb = visible_title_bar_height(title_bar_height, client_height);
    let mut fills: Vec<(Rect, u32)> = Vec::new();
    fills.push((Rect { left: 0, top: 0, right: client_width, bottom: tb }, theme.background));
    if hovered {
        let (left, right) = send_back_button_range(client_width, caption_buttons_width);
        fills.push((Rect { left, top: 0, right, bottom: tb }, theme.hover));
    }
    assert(fills@ == title_bar_fill_list(
        client_width as int,
        client_height as int,
        title_bar_height as int,
        caption_buttons_width as int,
        hovered,
        theme,
    ));
    fills
}

/// The title bar is one strip `(0, 0, cw, h)` in the theme's background,
/// `h` being the title-bar height clamped to `0..=client_height`; while the
/// "Send to Back" button is hovered a second fill in the hover color covers
/// exactly the button's hit region across the strip:
/// `[cw - cap - 46, cw - cap)` by `[0, h)`.
pub proof fn lemma_title_bar_fills(cw: i32, ch: i32, tb: i32, cap: i32, hovered: bool, theme: TitleBarTheme)
    requires
        hovered ==> send_back_in_range(cw as int, cap as int),
    ensures
        ({
            let fills = title_bar_fill_list(cw as int, ch as int, tb as int, cap as int, hovered, theme);
            let h: int = if tb < 0 { 0 } else if tb > ch { if ch > 0 { ch as int } else { 0 } } else { tb as int };
            &&& fills.len() == if hovered { 2int } else { 1int }
            &&& fills[0].0 == (Rect { left: 0, top: 0, right: cw, bottom: h as i32 })
            &&& fills[0].1 == theme.background
            &&& hovered ==> {
                &&& fills[1].0.left == cw - cap - 46
                &&& fills[1].0.right == cw - cap
                &&& fills[1].0.top == 0
                &&& fills[1].0.bottom == h
                &&& fills[1].1 == theme.hover
            }
        }),
{
}

/// Tests the precondition of `grid_lines`: whether the grid over a
/// `client_width` x `client_height` area can be laid out without overflow.
pub fn grid_lines_fit(client_width: i32, client_height: i32) -> (fits: bool)
    ensures
        fits == ((grid_line_count(client_width as int, GRID_SPACING as int) + 1) * GRID_SPACING <= i32::MAX
            && (grid_line_count(client_height as int, GRID_SPACING as int) + 1) * GRID_SPACING <= i32::MAX),
{
    let w = client_width as i64;
    let h = client_height as i64;
    let nw: i64 = if w > 0 { (w - 1) / 48 } else { 0 };
    let nh: i64 = if h > 0 { (h - 1) / 48 } else { 0 };
    (nw + 1) * 48 <= 0x7fff_ffff && (nh + 1) * 48 <= 0x7fff_ffff
}

} // verus!
