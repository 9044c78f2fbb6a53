use vstd::prelude::*;
use crate::arith::{fits_i32, fits_in_i32, lemma_affine_fits, min_int, trunc_div};

verus! {

/// Largest icon edge at 96 dpi, in pixels.
pub const ICON_SIZE_BASE: i32 = 64;
/// Margin between the window edge and the icon strip at 96 dpi.
pub const WINDOW_BORDER_SIZE_BASE: i32 = 10;
/// Padding between an icon and its selection box at 96 dpi.
pub const ICON_BORDER_SIZE_BASE: i32 = 4;
/// Horizontal gap between two icon cells at 96 dpi.
pub const ICON_GAP_BASE: i32 = 12;
/// Label font size at 96 dpi.
pub const LABEL_FONT_SIZE_BASE: i32 = 13;
/// Height of one label line at 96 dpi.
pub const LABEL_LINE_HEIGHT_BASE: i32 = 16;
/// Number of lines reserved for the app name under the icons.
pub const LABEL_LINES: i32 = 2;
/// Gap between the icon cells and the label at 96 dpi.
pub const LABEL_TOP_GAP_BASE: i32 = 2;

/// A rectangle in screen pixels, edges inclusive on the left/top and
/// exclusive on the right/bottom.
#[derive(Clone, Copy, Debug)]
pub struct Rect {
    pub left: i32,
    pub top: i32,
    pub right: i32,
    pub bottom: i32,
}

/// The DPI-scaled sizes that the overlay layout is built from.
#[derive(Clone, Copy, Debug)]
pub struct Metrics {
    /// Largest allowed icon edge.
    pub icon_size_max: i32,
    /// Margin around the icon strip.
    pub border_size: i32,
    /// Padding between an icon and its selection box.
    pub icon_border: i32,
    /// Gap between two icon cells.
    pub icon_gap: i32,
    /// Height reserved for the label under the icons.
    pub label_height: i32,
}

/// The metrics value made of the given sizes.
pub open spec fn layout_metrics(
    icon_size_max: i32,
    border_size: i32,
    icon_border: i32,
    icon_gap: i32,
    label_height: i32,
) -> Metrics {
    Metrics { icon_size_max, border_size, icon_border, icon_gap, label_height }
}

/// Height reserved for the label: the gap above it plus `LABEL_LINES` lines.
/// `None` when that does not fit in an `i32`.
pub fn label_height(label_line_height: i32, label_top_gap: i32) -> (h: Option<i32>)
    ensures
        fits_i32(label_line_height * LABEL_LINES) && fits_i32(
            label_top_gap + label_line_height * LABEL_LINES,
        ) <==> h is Some,
        h matches Some(v) ==> v == label_top_gap + label_line_height * LABEL_LINES,
{
    match label_line_height.checked_mul(LABEL_LINES) {
        Some(lines) => label_top_gap.checked_add(lines),
        None => None,
    }
}

pub open spec fn monitor_width(r: Rect) -> int {
    r.right - r.left
}

pub open spec fn monitor_height(r: Rect) -> int {
    r.bottom - r.top
}

/// The width that each of the `n` columns may take on the monitor, less the
/// padding and the gap: `(monitor width - 2 * border) / n - 2 * icon border - gap`.
pub open spec fn icon_room(n: int, m: Metrics, r: Rect) -> int {
    trunc_div(monitor_width(r) - 2 * m.border_size, n) - m.icon_border * 2 - m.icon_gap
}

/// Icon edge: the room per column, but no more than `icon_size_max`.
pub open spec fn icon_size_for(n: int, m: Metrics, r: Rect) -> int {
    min_int(icon_room(n, m, r), m.icon_size_max as int)
}

/// Edge of the square that holds an icon and its selection box.
pub open spec fn icon_cell_for(n: int, m: Metrics, r: Rect) -> int {
    icon_size_for(n, m, r) + m.icon_border * 2
}

/// Column pitch: the icon cell plus the gap.
pub open spec fn item_size_for(n: int, m: Metrics, r: Rect) -> int {
    icon_cell_for(n, m, r) + m.icon_gap
}

pub open spec fn width_for(n: int, m: Metrics, r: Rect) -> int {
    item_size_for(n, m, r) * n + m.border_size * 2
}

pub open spec fn height_for(n: int, m: Metrics, r: Rect) -> int {
    icon_cell_for(n, m, r) + m.label_height + m.border_size * 2
}

/// Left edge of the window: the window centred on the monitor.
pub open spec fn x_for(n: int, m: Metrics, r: Rect) -> int {
    r.left + trunc_div(monitor_width(r) - width_for(n, m, r), 2)
}

/// Top edge of the window: the window centred on the monitor.
pub open spec fn y_for(n: int, m: Metrics, r: Rect) -> int {
    r.top + trunc_div(monitor_height(r) - height_for(n, m, r), 2)
}

/// Every value that the layout computation goes through fits in an `i32`,
/// and there is at least one app to divide the monitor among.
pub open spec fn coordinate_fits(n: int, m: Metrics, r: Rect) -> bool {
    let mw = monitor_width(r);
    let mh = monitor_height(r);
    let b = m.border_size as int;
    &&& n > 0
    &&& fits_i32(mw)
    &&& fits_i32(mh)
    &&& fits_i32(2 * b)
    &&& fits_i32(mw - 2 * b)
    &&& fits_i32(m.icon_border * 2)
    &&& fits_i32(trunc_div(mw - 2 * b, n) - m.icon_border * 2)
    &&& fits_i32(icon_room(n, m, r))
    &&& fits_i32(icon_cell_for(n, m, r))
    &&& fits_i32(item_size_for(n, m, r))
    &&& fits_i32(item_size_for(n, m, r) * n)
    &&& fits_i32(width_for(n, m, r))
    &&& fits_i32(icon_cell_for(n, m, r) + m.label_height)
    &&& fits_i32(height_for(n, m, r))
    &&& fits_i32(mw - width_for(n, m, r))
    &&& fits_i32(x_for(n, m, r))
    &&& fits_i32(mh - height_for(n, m, r))
    &&& fits_i32(y_for(n, m, r))
}

/// Position and sizes of the overlay window and of its icon columns.
#[derive(Clone, Copy, Debug)]
pub struct Coordinate {
    pub x: i32,
    pub y: i32,
    pub width: i32,
    pub height: i32,
    pub icon_size: i32,
    /// Column pitch: icon cell plus the inter-icon gap.
    pub item_size: i32,
    /// Square that holds the icon and its selection highlight (no gap).
    pub icon_cell: i32,
}

impl Coordinate {
    /// This is the layout of `n` apps with metrics `m` on monitor `r`.
    pub open spec fn is_for(self, n: int, m: Metrics, r: Rect) -> bool {
        &&& self.icon_size == icon_size_for(n, m, r)
        &&& self.icon_cell == icon_cell_for(n, m, r)
        &&& self.item_size == item_size_for(n, m, r)
        &&& self.width == width_for(n, m, r)
        &&& self.height == height_for(n, m, r)
        &&& self.x == x_for(n, m, r)
        &&& self.y == y_for(n, m, r)
    }

    /// Lays out `num_apps` icons in one row centred on `monitor_rect`: each
    /// icon as large as the monitor width allows, up to `icon_size_max`,
    /// padded by `icon_border`, separated by `icon_gap`, with the label band
    /// below and `border_size` all around.
    pub fn new(
        num_apps: i32,
        icon_size_max: i32,
        border_size: i32,
        icon_border: i32,
        icon_gap: i32,
        label_height: i32,
        monitor_rect: Rect,
    ) -> (c: Self)
        requires
            coordinate_fits(
                num_apps as int,
                layout_metrics(icon_size_max, border_size, icon_border, icon_gap, label_height),
                monitor_rect,
            ),
        ensures
            c.is_for(
                num_apps as int,
                layout_metrics(icon_size_max, border_size, icon_border, icon_gap, label_height),
                monitor_rect,
            ),
    {
        let monitor_width = monitor_rect.right - monitor_rect.left;
        let monitor_height = monitor_rect.bottom - monitor_rect.top;

        let icon_size = ((monitor_width - 2 * border_size) / num_apps - icon_border * 2
            - icon_gap).min(icon_size_max);

        let icon_cell = icon_size + icon_border * 2;
        let item_size = icon_cell + icon_gap;
        let width = item_size * num_apps + border_size * 2;
        let height = icon_cell + label_height + border_size * 2;
        let x = monitor_rect.left + (monitor_width - width) / 2;
        let y = monitor_rect.top + (monitor_height - height) / 2;

        Coordinate { x, y, width, height, icon_size, item_size, icon_cell }
    }
}

/// The point `(xpos, ypos)`, relative to the window's top-left corner, lies
/// on column `i` of the icon strip: within its pitch horizontally and within
/// the icon cell and label band vertically.
pub open spec fn item_hit(
    xpos: int,
    ypos: int,
    border_size: int,
    item_size: int,
    item_height: int,
    i: int,
) -> bool {
    let cx = border_size + item_size * i;
    &&& xpos >= cx
    &&& xpos < cx + item_size
    &&& ypos >= border_size
    &&& ypos < border_size + item_height
}

/// The cursor at screen position `(cursor_x, cursor_y)` lies on app `i` of
/// the overlay that shows `n` apps with metrics `m` on monitor `r`.
pub open spec fn cursor_on_app(n: int, m: Metrics, r: Rect, cursor_x: int, cursor_y: int, i: int) -> bool {
    item_hit(
        cursor_x - x_for(n, m, r),
        cursor_y - y_for(n, m, r),
        m.border_size as int,
        item_size_for(n, m, r),
        icon_cell_for(n, m, r) + m.label_height,
        i,
    )
}

/// The values that the click test computes fit in an `i32`: the layout
/// itself, the app count as an `i32`, and the cursor relative to the window.
pub open spec fn click_fits(n: int, m: Metrics, r: Rect, cursor_x: int, cursor_y: int) -> bool {
    &&& n <= i32::MAX
    &&& coordinate_fits(n, m, r)
    &&& fits_i32(cursor_x - x_for(n, m, r))
    &&& fits_i32(cursor_y - y_for(n, m, r))
}

/// The app whose column lies under the cursor: the first `i < num_apps` with
/// `cursor_on_app`, or `None` when the cursor is on none of them.
pub fn find_clicked_app_index(
    metrics: &Metrics,
    monitor_rect: &Rect,
    num_apps: usize,
    cursor_x: i32,
    cursor_y: i32,
) -> (found: Option<usize>)
    requires
        click_fits(num_apps as int, *metrics, *monitor_rect, cursor_x as int, cursor_y as int),
    ensures
        match found {
            Some(i) => {
                &&& i < num_apps
                &&& cursor_on_app(num_apps as int, *metrics, *monitor_rect, cursor_x as int, cursor_y as int, i as int)
                &&& forall|j: int|
                    0 <= j < i ==> !cursor_on_app(
                        num_apps as int,
                        *metrics,
                        *monitor_rect,
                        cursor_x as int,
                        cursor_y as int,
                        j,
                    )
            },
            None => forall|j: int|
                0 <= j < num_apps ==> !cursor_on_app(
                    num_apps as int,
                    *metrics,
                    *monitor_rect,
                    cursor_x as int,
                    cursor_y as int,
                    j,
                ),
        },
{
    let ghost n = num_apps as int;
    let ghost m = *metrics;
    let ghost r = *monitor_rect;
    let c = Coordinate::new(
        num_apps as i32,
        metrics.icon_size_max,
        metrics.border_size,
        metrics.icon_border,
        metrics.icon_gap,
        metrics.label_height,
        *monitor_rect,
    );
    let border_size = metrics.border_size;
    let item_size = c.item_size;

    let xpos = cursor_x - c.x;
    let ypos = cursor_y - c.y;

    let cy = border_size;
    let item_height = c.icon_cell + metrics.label_height;
    proof {
        // `border + item_size * n` lies between `item_size * n` and the window width.
        assert(fits_i32(border_size + item_size * n));
    }
    let mut i: usize = 0;
    while i < num_apps
        invariant
            i <= num_apps,
            n == num_apps as int,
            n <= i32::MAX,
            m == *metrics,
            r == *monitor_rect,
            c.is_for(n, m, r),
            item_size == c.item_size,
            border_size == m.border_size,
            cy == border_size,
            xpos == cursor_x - c.x,
            ypos == cursor_y - c.y,
            item_height == c.icon_cell + m.label_height,
            fits_i32(border_size + item_size * n),
            fits_i32(item_size * n),
            fits_i32(border_size + item_height),
            forall|j: int| 0 <= j < i ==> !cursor_on_app(n, m, r, cursor_x as int, cursor_y as int, j),
        decreases num_apps - i,
    {
        proof {
            lemma_affine_fits(0, item_size as int, n, i as int);
            lemma_affine_fits(border_size as int, item_size as int, n, i as int);
            lemma_affine_fits(border_size as int, item_size as int, n, i as int + 1);
            assert(border_size + item_size * (i as int + 1) == border_size + item_size * i + item_size)
                by (nonlinear_arith);
        }
        let cx = border_size + item_size * (i as i32);
        if xpos >= cx && xpos < cx + item_size && ypos >= cy && ypos < cy + item_height {
            return Some(i);
        }
        i = i + 1;
    }
    None
}

/// Tests whether `num_apps` apps can be laid out on `monitor_rect` with
/// `metrics` without leaving the range of `i32`.
pub fn layout_in_range(num_apps: usize, metrics: &Metrics, monitor_rect: &Rect) -> (ok: bool)
    ensures
        ok == (num_apps <= i32::MAX && coordinate_fits(num_apps as int, *metrics, *monitor_rect)),
{
    if num_apps == 0 || num_apps > i32::MAX as usize {
        return false;
    }
    let n = num_apps as i64;
    let mw = monitor_rect.right as i64 - monitor_rect.left as i64;
    let mh = monitor_rect.bottom as i64 - monitor_rect.top as i64;
    let b2 = 2 * (metrics.border_size as i64);
    if !(fits_in_i32(mw) && fits_in_i32(mh) && fits_in_i32(b2)) {
        return false;
    }
    let avail = mw - b2;
    let ib2 = metrics.icon_border as i64 * 2;
    if !(fits_in_i32(avail) && fits_in_i32(ib2)) {
        return false;
    }
    let t = avail / n - ib2;
    if !fits_in_i32(t) {
        return false;
    }
    let room = t - metrics.icon_gap as i64;
    if !fits_in_i32(room) {
        return false;
    }
    let icon_size = if room <= metrics.icon_size_max as i64 {
        room
    } else {
        metrics.icon_size_max as i64
    };
    let cell = icon_size + ib2;
    if !fits_in_i32(cell) {
        return false;
    }
    let item = cell + metrics.icon_gap as i64;
    if !fits_in_i32(item) {
        return false;
    }
    assert(-0x8000_0000_0000_0000 <= item * n <= 0x7fff_ffff_ffff_ffff) by (nonlinear_arith)
        requires
            fits_i32(item as int),
            0 < n <= i32::MAX,
    ;
    let item_n = item * n;
    if !fits_in_i32(item_n) {
        return false;
    }
    let width = item_n + b2;
    let cell_label = cell + metrics.label_height as i64;
    if !(fits_in_i32(width) && fits_in_i32(cell_label)) {
        return false;
    }
    let height = cell_label + b2;
    if !fits_in_i32(height) {
        return false;
    }
    let dw = mw - width;
    if !fits_in_i32(dw) {
        return false;
    }
    let x = monitor_rect.left as i64 + dw / 2;
    if !fits_in_i32(x) {
        return false;
    }
    let dh = mh - height;
    if !fits_in_i32(dh) {
        return false;
    }
    let y = monitor_rect.top as i64 + dh / 2;
    fits_in_i32(y)
}

/// Tests whether the click test of `find_clicked_app_index` stays within the
/// range of `i32` for these arguments.
pub fn click_in_range(
    metrics: &Metrics,
    monitor_rect: &Rect,
    num_apps: usize,
    cursor_x: i32,
    cursor_y: i32,
) -> (ok: bool)
    ensures
        ok == click_fits(num_apps as int, *metrics, *monitor_rect, cursor_x as int, cursor_y as int),
{
    if !layout_in_range(num_apps, metrics, monitor_rect) {
        return false;
    }
    let c = Coordinate::new(
        num_apps as i32,
        metrics.icon_size_max,
        metrics.border_size,
        metrics.icon_border,
        metrics.icon_gap,
        metrics.label_height,
        *monitor_rect,
    );
    fits_in_i32(cursor_x as i64 - c.x as i64) && fits_in_i32(cursor_y as i64 - c.y as i64)
}

/// When the monitor is at least as wide as the two borders, the overlay is
/// never wider than the monitor and lies within it horizontally.
pub proof fn lemma_overlay_within_monitor(n: int, m: Metrics, r: Rect)
    requires
        coordinate_fits(n, m, r),
        monitor_width(r) >= 2 * m.border_size,
    ensures
        width_for(n, m, r) <= monitor_width(r),
        r.left <= x_for(n, m, r),
        x_for(n, m, r) + width_for(n, m, r) <= r.right,
{
    let a = monitor_width(r) - 2 * m.border_size;
    let q = a / n;
    let item = item_size_for(n, m, r);
    assert(item <= q);
    assert(q * n <= a) by (nonlinear_arith)
        requires
            a >= 0,
            n > 0,
            q == a / n,
    ;
    assert(item * n <= q * n) by (nonlinear_arith)
        requires
            item <= q,
            n > 0,
    ;
}

/// Icons are never drawn larger than `icon_size_max`, and are exactly that
/// large whenever each column has room for it.
pub proof fn lemma_icon_size_capped(n: int, m: Metrics, r: Rect)
    ensures
        icon_size_for(n, m, r) <= m.icon_size_max,
        icon_room(n, m, r) >= m.icon_size_max ==> icon_size_for(n, m, r) == m.icon_size_max,
{
}

/// The overlay is centred on the monitor: the margins on the left and on
/// the right differ by at most one pixel, and so do those above and below.
pub proof fn lemma_overlay_centered(n: int, m: Metrics, r: Rect)
    requires
        coordinate_fits(n, m, r),
    ensures
        -1 <= (x_for(n, m, r) - r.left) - (r.right - (x_for(n, m, r) + width_for(n, m, r))) <= 1,
        -1 <= (y_for(n, m, r) - r.top) - (r.bottom - (y_for(n, m, r) + height_for(n, m, r))) <= 1,
{
}

/// Columns of the icon strip do not overlap: a point lies on at most one app.
pub proof fn lemma_click_hits_one_app(
    n: int,
    m: Metrics,
    r: Rect,
    cursor_x: int,
    cursor_y: int,
    i: int,
    j: int,
)
    requires
        item_size_for(n, m, r) > 0,
        cursor_on_app(n, m, r, cursor_x, cursor_y, i),
        cursor_on_app(n, m, r, cursor_x, cursor_y, j),
    ensures
        i == j,
{
    let item = item_size_for(n, m, r);
    let d = cursor_x - x_for(n, m, r) - m.border_size;
    assert(i == j) by (nonlinear_arith)
        requires
            item > 0,
            item * i <= d < item * i + item,
            item * j <= d < item * j + item,
    ;
}

/// A click anywhere on the icon strip (the `n` columns below the top border,
/// as tall as the icon cell plus the label band) lands on some app, and a
/// click outside it lands on none.
pub proof fn lemma_strip_is_clickable(n: int, m: Metrics, r: Rect, cursor_x: int, cursor_y: int)
    requires
        n >= 0,
        item_size_for(n, m, r) > 0,
    ensures
        (exists|i: int| 0 <= i < n && #[trigger] cursor_on_app(n, m, r, cursor_x, cursor_y, i)) <==> {
            let xpos = cursor_x - x_for(n, m, r);
            let ypos = cursor_y - y_for(n, m, r);
            &&& m.border_size <= xpos < m.border_size + item_size_for(n, m, r) * n
            &&& m.border_size <= ypos < m.border_size + icon_cell_for(n, m, r) + m.label_height
        },
{
    let item = item_size_for(n, m, r);
    let xpos = cursor_x - x_for(n, m, r);
    let ypos = cursor_y - y_for(n, m, r);
    let b = m.border_size as int;
    let d = xpos - b;
    if b <= xpos < b + item * n && b <= ypos < b + icon_cell_for(n, m, r) + m.label_height {
        let i = d / item;
        assert(0 <= i < n && item * i <= d < item * i + item) by (nonlinear_arith)
            requires
                item > 0,
                0 <= d < item * n,
                i == d / item,
        ;
        assert(cursor_on_app(n, m, r, cursor_x, cursor_y, i));
    }
    if exists|i: int| 0 <= i < n && #[trigger] cursor_on_app(n, m, r, cursor_x, cursor_y, i) {
        let i = choose|i: int| 0 <= i < n && #[trigger] cursor_on_app(n, m, r, cursor_x, cursor_y, i);
        assert(0 <= d < item * n) by (nonlinear_arith)
            requires
                item > 0,
                0 <= i < n,
                item * i <= d < item * i + item,
        ;
    }
}

} // verus!
