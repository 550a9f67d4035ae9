use vstd::prelude::*;

use crate::browser::UIBrowser;

verus! {

/// Width of the window border, in logical pixels.
pub const WINDOW_BORDER_WIDTH: i64 = 1;
/// Horizontal padding inside the window.
pub const PADDING_X: i64 = 5;
/// Vertical padding inside the window.
pub const PADDING_Y: i64 = 10;
/// Width of one row.
pub const ITEM_WIDTH: i64 = 210;
/// Height of one row.
pub const ITEM_HEIGHT: i64 = 32;
/// Most rows shown without scrolling.
pub const MAX_VISIBLE_ROWS: usize = 6;
/// Height of everything but the rows: spacer, bottom row, padding and rounding.
pub const CHROME_HEIGHT: i64 = 5 + 12 + PADDING_Y * 2 + 10;

/// A point in screen coordinates, in logical pixels.
#[derive(Clone, Copy, Debug, PartialEq, Eq, Structural)]
pub struct Point {
    pub x: i64,
    pub y: i64,
}

/// A rectangle from its near corner `(x0, y0)` to its far corner `(x1, y1)`.
#[derive(Clone, Copy, Debug, PartialEq, Eq, Structural)]
pub struct Rect {
    pub x0: i64,
    pub y0: i64,
    pub x1: i64,
    pub y1: i64,
}

/// A width and a height.
#[derive(Clone, Copy, Debug, PartialEq, Eq, Structural)]
pub struct Size {
    pub width: i64,
    pub height: i64,
}

/// `total` held to between one row and [`MAX_VISIBLE_ROWS`].
pub open spec fn visible_count(total: nat) -> nat {
    if total < 1 {
        1
    } else if total > MAX_VISIBLE_ROWS {
        MAX_VISIBLE_ROWS as nat
    } else {
        total
    }
}

pub open spec fn window_width() -> int {
    ITEM_WIDTH + PADDING_X * 2 + WINDOW_BORDER_WIDTH * 2
}

pub open spec fn window_height(item_count: nat) -> int {
    item_count * ITEM_HEIGHT + CHROME_HEIGHT
}

/// Where a window of length `len` starts on one axis when anchored at `p` on a screen from
/// `lo` to `hi`: moved onto the screen at the near edge, then back so that its far edge
/// does not pass `hi`; a window longer than the screen stays at the near edge.
pub open spec fn place_on_axis(p: int, lo: int, hi: int, len: int) -> int {
    let q = if p < lo { lo } else { p };
    if q + len > hi {
        if hi - len < lo { lo } else { hi - len }
    } else {
        q
    }
}

pub open spec fn window_position(mouse: Point, screen: Rect, size: Size) -> Point {
    Point {
        x: place_on_axis(mouse.x as int, screen.x0 as int, screen.x1 as int, size.width as int) as i64,
        y: place_on_axis(mouse.y as int, screen.y0 as int, screen.y1 as int, size.height as int) as i64,
    }
}

/// How many rows the window shows for `browsers_total` rows: at least one, at most six.
pub fn calculate_visible_browser_count(browsers_total: usize) -> (r: usize)
    ensures
        r == visible_count(browsers_total as nat),
{
    let item_count = if browsers_total < MAX_VISIBLE_ROWS { browsers_total } else { MAX_VISIBLE_ROWS };
    if item_count < 1 { 1 } else { item_count }
}

/// Height of the scrolled area that shows `item_count` rows.
pub fn visible_scroll_area_height(item_count: usize) -> (r: i64)
    requires
        item_count * ITEM_HEIGHT <= i64::MAX,
    ensures
        r == item_count * ITEM_HEIGHT,
{
    item_count as i64 * ITEM_HEIGHT
}

/// Size of a window that shows `item_count` rows.
pub fn calculate_window_size(item_count: usize) -> (r: Size)
    requires
        window_height(item_count as nat) <= i64::MAX,
    ensures
        r.width == window_width(),
        r.height == window_height(item_count as nat),
{
    let window_width = ITEM_WIDTH + PADDING_X * 2 + WINDOW_BORDER_WIDTH * 2;
    let scroll_height = visible_scroll_area_height(item_count);
    Size { width: window_width, height: scroll_height + CHROME_HEIGHT }
}

/// Size of the window for a filtered view.
pub fn recalculate_window_size(filtered_browsers: &Vec<UIBrowser>) -> (r: Size)
    ensures
        r.width == window_width(),
        r.height == window_height(visible_count(filtered_browsers@.len())),
{
    let item_count = calculate_visible_browser_count(filtered_browsers.len());
    calculate_window_size(item_count)
}

fn place_on_axis_exec(p: i64, lo: i64, hi: i64, len: i64) -> (r: i64)
    ensures
        r == place_on_axis(p as int, lo as int, hi as int, len as int),
{
    let q: i128 = if p < lo { lo as i128 } else { p as i128 };
    if q + len as i128 > hi as i128 {
        let back: i128 = hi as i128 - len as i128;
        if back < lo as i128 { lo } else { back as i64 }
    } else {
        q as i64
    }
}

/// Top-left corner of a window of `window_size` anchored at the mouse and kept on `screen_rect`,
/// each axis on its own.
pub fn calculate_window_position(mouse_position: &Point, screen_rect: &Rect, window_size: &Size) -> (r: Point)
    ensures
        r == window_position(*mouse_position, *screen_rect, *window_size),
{
    let x = place_on_axis_exec(mouse_position.x, screen_rect.x0, screen_rect.x1, window_size.width);
    let y = place_on_axis_exec(mouse_position.y, screen_rect.y0, screen_rect.y1, window_size.height);
    Point { x, y }
}

/// A window that fits on the screen is placed wholly on it; one that does not fit on an
/// axis lies flush with the screen's near edge on that axis.
pub proof fn lemma_window_on_screen(mouse: Point, screen: Rect, size: Size)
    requires
        size.width >= 0,
        size.height >= 0,
    ensures
        ({
            let r = window_position(mouse, screen, size);
            &&& size.width <= screen.x1 - screen.x0 ==> screen.x0 <= r.x && r.x + size.width <= screen.x1
            &&& size.width > screen.x1 - screen.x0 ==> r.x == screen.x0
            &&& size.height <= screen.y1 - screen.y0 ==> screen.y0 <= r.y && r.y + size.height <= screen.y1
            &&& size.height > screen.y1 - screen.y0 ==> r.y == screen.y0
        }),
{
}

/// The row count is held to between one and six.
pub proof fn lemma_visible_count_clamped(total: nat)
    ensures
        1 <= visible_count(total) <= MAX_VISIBLE_ROWS,
        1 <= total <= MAX_VISIBLE_ROWS ==> visible_count(total) == total,
        total == 0 ==> visible_count(total) == 1,
        total > MAX_VISIBLE_ROWS ==> visible_count(total) == MAX_VISIBLE_ROWS,
{
}

} // verus!
