use vstd::prelude::*;
use crate::arith::{fits_i32, trunc_div};
use crate::icons::{
    lemma_label_for_every_named_selection, cell_left_of, cell_offset_of, icons_fit, icons_in_range, scaled_cell_of, IconsLayout,
    SwitchAppsView, SCALE_FACTOR,
};
use crate::layout::{
    coordinate_fits, cursor_on_app, height_for, icon_cell_for, icon_room, icon_size_for,
    item_size_for, layout_in_range, monitor_height, monitor_width, width_for, x_for, y_for,
    Coordinate, Metrics, Rect,
};
use crate::theme::{
    text_color_spec, theme_color, theme_color_spec, ALPHA_MASK, TEXT_DARK_COLOR, TEXT_LIGHT_COLOR,
};

verus! {

/// Radius of the rounded corners of the window and of the selection box:
/// a quarter of the icon cell on systems that round window corners, else
/// square corners.
pub open spec fn corner_radius_for(rounded_corner: bool, icon_cell: int) -> int {
    if rounded_corner {
        trunc_div(icon_cell, 4)
    } else {
        0
    }
}

/// Painting the overlay for `apps` stays within the range of `i32`, and
/// there is at least one app.
pub open spec fn paint_fits(
    apps: SwitchAppsView,
    m: Metrics,
    label_font_size: int,
    r: Rect,
    rounded_corner: bool,
) -> bool {
    let n = apps.num_apps();
    &&& n <= i32::MAX
    &&& coordinate_fits(n, m, r)
    &&& icons_fit(
        icon_size_for(n, m, r),
        m.icon_border as int,
        item_size_for(n, m, r) * n,
        icon_cell_for(n, m, r) + m.label_height,
        corner_radius_for(rounded_corner, icon_cell_for(n, m, r)),
        item_size_for(n, m, r),
        label_font_size,
        n,
        apps.index as int,
        apps.selected_has_name(),
    )
}

/// Everything one paint of the overlay draws, and whether the window has to
/// be shown and focused afterwards.
#[derive(Debug)]
pub struct PaintPlan {
    /// Window position and size, and the icon column sizes.
    pub coordinate: Coordinate,
    pub corner_radius: i32,
    /// Fill the window background as a rounded rectangle (else a plain one).
    pub rounded_background: bool,
    /// Selection box colour.
    pub fg_color: u32,
    /// Window background colour.
    pub bg_color: u32,
    /// Label text colour.
    pub text_color: u32,
    /// Opaque ARGB colour of the background pen.
    pub background_argb: u32,
    /// Size of the icon strip, drawn at `(border, border)` in the window.
    pub icons_width: i32,
    pub icons_height: i32,
    /// The icon strip, at `SCALE_FACTOR` times that size.
    pub icons: IconsLayout,
    /// The window is hidden and must be shown and focused.
    pub reveal: bool,
}

impl PaintPlan {
    /// This is the plan for painting `apps` with the given sizes, monitor and
    /// theme, from a painter that was `shown` and rounds corners or not.
    pub open spec fn is_for(
        self,
        shown: bool,
        rounded_corner: bool,
        apps: SwitchAppsView,
        m: Metrics,
        label_font_size: int,
        r: Rect,
        light_theme: bool,
    ) -> bool {
        let n = apps.num_apps();
        &&& self.coordinate.is_for(n, m, r)
        &&& self.corner_radius == corner_radius_for(rounded_corner, icon_cell_for(n, m, r))
        &&& self.rounded_background == rounded_corner
        &&& (self.fg_color, self.bg_color) == theme_color_spec(light_theme)
        &&& self.text_color == text_color_spec(light_theme)
        &&& self.background_argb == ALPHA_MASK | self.bg_color
        &&& self.icons_width == item_size_for(n, m, r) * n
        &&& self.icons_height == icon_cell_for(n, m, r) + m.label_height
        &&& self.icons.is_for(
            apps,
            icon_size_for(n, m, r),
            m.icon_border as int,
            self.icons_width as int,
            self.icons_height as int,
            self.corner_radius as int,
            item_size_for(n, m, r),
            label_font_size,
        )
        &&& self.reveal == !shown
    }
}

/// What the painter remembers between paints: whether corners are rounded
/// (decided once, when it is made) and whether the overlay is on screen.
#[derive(Debug)]
pub struct PainterState {
    pub rounded_corner: bool,
    pub show: bool,
}

impl PainterState {
    /// The state after a successful paint: on screen.
    pub open spec fn after_paint(self) -> Self {
        PainterState { rounded_corner: self.rounded_corner, show: true }
    }

    /// The state after the overlay is hidden.
    pub open spec fn after_unpaint(self) -> Self {
        PainterState { rounded_corner: self.rounded_corner, show: false }
    }

    /// A painter for a system that rounds window corners or not; the overlay
    /// starts hidden.
    pub fn new(rounded_corner: bool) -> (s: Self)
        ensures
            s.rounded_corner == rounded_corner,
            !s.show,
    {
        PainterState { rounded_corner, show: false }
    }

    /// Plans one paint of the overlay for `apps` and records that the overlay
    /// is on screen.  The plan says to show and focus the window only when it
    /// was hidden.  `None`, with the state unchanged, when there is no app or
    /// the layout would leave the range of `i32`.
    pub fn paint(
        &mut self,
        apps: &SwitchAppsView,
        metrics: &Metrics,
        label_font_size: i32,
        monitor_rect: &Rect,
        light_theme: bool,
    ) -> (plan: Option<PaintPlan>)
        ensures
            plan is Some <==> paint_fits(
                *apps,
                *metrics,
                label_font_size as int,
                *monitor_rect,
                old(self).rounded_corner,
            ),
            plan matches Some(p) ==> p.is_for(
                old(self).show,
                old(self).rounded_corner,
                *apps,
                *metrics,
                label_font_size as int,
                *monitor_rect,
                light_theme,
            ),
            plan is Some ==> *final(self) == old(self).after_paint(),
            plan is None ==> *final(self) == *old(self),
    {
        let ghost m = *metrics;
        let ghost r = *monitor_rect;
        let num_apps = apps.names.len();
        if !layout_in_range(num_apps, metrics, monitor_rect) {
            return None;
        }
        let ghost n = num_apps as int;
        let coordinate = Coordinate::new(
            num_apps as i32,
            metrics.icon_size_max,
            metrics.border_size,
            metrics.icon_border,
            metrics.icon_gap,
            metrics.label_height,
            *monitor_rect,
        );

        let corner_radius = if self.rounded_corner {
            coordinate.icon_cell / 4
        } else {
            0
        };

        let icons_width = coordinate.item_size * (num_apps as i32);
        let icons_height = coordinate.icon_cell + metrics.label_height;
        if !icons_in_range(
            apps,
            coordinate.icon_size,
            metrics.icon_border,
            icons_width,
            icons_height,
            corner_radius,
            coordinate.item_size,
            label_font_size,
        ) {
            return None;
        }

        let (fg_color, bg_color) = theme_color(light_theme);
        let text_color = if light_theme {
            TEXT_DARK_COLOR
        } else {
            TEXT_LIGHT_COLOR
        };

        let icons = IconsLayout::new(
            apps,
            coordinate.icon_size,
            metrics.icon_border,
            icons_width,
            icons_height,
            corner_radius,
            coordinate.item_size,
            label_font_size,
        );

        let reveal = !self.show;
        self.show = true;
        Some(
            PaintPlan {
                coordinate,
                corner_radius,
                rounded_background: self.rounded_corner,
                fg_color,
                bg_color,
                text_color,
                background_argb: ALPHA_MASK | bg_color,
                icons_width,
                icons_height,
                icons,
                reveal,
            },
        )
    }

    /// Records that the overlay has been hidden.
    pub fn unpaint(&mut self)
        ensures
            *final(self) == old(self).after_unpaint(),
    {
        self.show = false;
    }
}

/// The window is shown and focused once per appearance: painting again while
/// it is on screen does not show it again, hiding it makes the next paint
/// show it, and no paint or hide changes whether corners are rounded.
pub proof fn lemma_reveal_once_per_appearance(s: PainterState)
    ensures
        s.after_paint().show,
        s.after_paint().after_paint() == s.after_paint(),
        !s.after_unpaint().show,
        s.after_unpaint().after_paint().show,
        s.after_paint().rounded_corner == s.rounded_corner,
        s.after_unpaint().rounded_corner == s.rounded_corner,
{
}

/// The icon strip is drawn inside the window with the border on every side:
/// `border + strip + border` is exactly the window's width and height.
pub proof fn lemma_strip_inside_window(n: int, m: Metrics, r: Rect)
    ensures
        m.border_size + item_size_for(n, m, r) * n + m.border_size == width_for(n, m, r),
        m.border_size + (icon_cell_for(n, m, r) + m.label_height) + m.border_size == height_for(n, m, r),
{
}

/// Each icon cell sits in the middle of its column: the spare width of the
/// column (the gap) is split into two equal halves, one on each side.
pub proof fn lemma_gap_split_evenly(n: int, m: Metrics, r: Rect)
    ensures
        2 * cell_offset_of(icon_size_for(n, m, r), m.icon_border as int, item_size_for(n, m, r))
            == item_size_for(n, m, r) * SCALE_FACTOR - scaled_cell_of(
            icon_size_for(n, m, r),
            m.icon_border as int,
        ),
{
    let s = icon_size_for(n, m, r);
    let ib = m.icon_border as int;
    let item = item_size_for(n, m, r);
    let g = m.icon_gap as int;
    assert(item * SCALE_FACTOR - scaled_cell_of(s, ib) == 6 * g) by (nonlinear_arith)
        requires
            item == s + ib * 2 + g,
    ;
    if g >= 0 {
        assert((6 * g) / 2 == 3 * g);
    } else {
        assert((-(6 * g)) / 2 == -3 * g);
    }
    assert(trunc_div(6 * g, 2) == 3 * g);
}

/// Every icon cell, and so the selection box and the label under the
/// selected icon, which share its edges, stays within its own column of the
/// scaled strip, and every column lies within the strip.
pub proof fn lemma_cell_within_column(n: int, m: Metrics, r: Rect, i: int)
    requires
        m.icon_gap >= 0,
        0 <= i < n,
    ensures
        item_size_for(n, m, r) * SCALE_FACTOR * i <= cell_left_of(
            icon_size_for(n, m, r),
            m.icon_border as int,
            item_size_for(n, m, r),
            i,
        ),
        cell_left_of(icon_size_for(n, m, r), m.icon_border as int, item_size_for(n, m, r), i)
            + scaled_cell_of(icon_size_for(n, m, r), m.icon_border as int)
            <= item_size_for(n, m, r) * SCALE_FACTOR * (i + 1),
        icon_cell_for(n, m, r) >= 0 ==> item_size_for(n, m, r) * SCALE_FACTOR * (i + 1)
            <= item_size_for(n, m, r) * n * SCALE_FACTOR,
{
    let s = icon_size_for(n, m, r);
    let ib = m.icon_border as int;
    let g = m.icon_gap as int;
    let item = item_size_for(n, m, r);
    let cell = icon_cell_for(n, m, r);
    assert(scaled_cell_of(s, ib) == 6 * cell) by (nonlinear_arith)
        requires
            cell == s + ib * 2,
    ;
    assert(item * SCALE_FACTOR - scaled_cell_of(s, ib) == 6 * g) by (nonlinear_arith)
        requires
            item == cell + g,
            cell == s + ib * 2,
    ;
    assert(cell_offset_of(s, ib, item) == 3 * g);
    assert(item * SCALE_FACTOR * (i + 1) == item * SCALE_FACTOR * i + 6 * item) by (nonlinear_arith);
    if cell >= 0 {
        assert(item * SCALE_FACTOR * (i + 1) <= item * n * SCALE_FACTOR) by (nonlinear_arith)
            requires
                item >= 0,
                0 <= i < n,
        ;
    }
}

/// Where the monitor lies on the virtual screen does not decide whether the
/// overlay is planned: moving the monitor by `(dx, dy)` (for instance onto
/// negative coordinates, left of or above the primary monitor) keeps every
/// size of the layout and moves the window by the same `(dx, dy)`; a plan
/// that exists for one position exists for the other, as long as the moved
/// window position itself is an `i32`.
pub proof fn lemma_plan_ignores_monitor_position(
    apps: SwitchAppsView,
    m: Metrics,
    label_font_size: int,
    r: Rect,
    moved: Rect,
    dx: int,
    dy: int,
    rounded_corner: bool,
)
    requires
        moved.left == r.left + dx,
        moved.right == r.right + dx,
        moved.top == r.top + dy,
        moved.bottom == r.bottom + dy,
        fits_i32(x_for(apps.num_apps(), m, r) + dx),
        fits_i32(y_for(apps.num_apps(), m, r) + dy),
    ensures
        paint_fits(apps, m, label_font_size, r, rounded_corner) ==> paint_fits(
            apps,
            m,
            label_font_size,
            moved,
            rounded_corner,
        ),
        x_for(apps.num_apps(), m, moved) == x_for(apps.num_apps(), m, r) + dx,
        y_for(apps.num_apps(), m, moved) == y_for(apps.num_apps(), m, r) + dy,
        icon_size_for(apps.num_apps(), m, moved) == icon_size_for(apps.num_apps(), m, r),
        icon_cell_for(apps.num_apps(), m, moved) == icon_cell_for(apps.num_apps(), m, r),
        item_size_for(apps.num_apps(), m, moved) == item_size_for(apps.num_apps(), m, r),
        width_for(apps.num_apps(), m, moved) == width_for(apps.num_apps(), m, r),
        height_for(apps.num_apps(), m, moved) == height_for(apps.num_apps(), m, r),
{
    assert(monitor_width(moved) == monitor_width(r));
    assert(monitor_height(moved) == monitor_height(r));
}

/// Every realistic overlay is planned: with between one and 1024 apps, sizes
/// and a font between 0 and 1024 pixels, and a monitor anywhere within a
/// million pixels of the origin (negative coordinates included), painting
/// always yields a plan.
pub proof fn lemma_realistic_overlays_are_planned(
    apps: SwitchAppsView,
    m: Metrics,
    label_font_size: int,
    r: Rect,
    rounded_corner: bool,
)
    requires
        1 <= apps.num_apps() <= 1024,
        0 <= m.icon_size_max <= 1024,
        0 <= m.border_size <= 1024,
        0 <= m.icon_border <= 1024,
        0 <= m.icon_gap <= 1024,
        0 <= m.label_height <= 1024,
        0 <= label_font_size <= 1024,
        -0x10_0000 <= r.left <= r.right <= 0x10_0000,
        -0x10_0000 <= r.top <= r.bottom <= 0x10_0000,
    ensures
        paint_fits(apps, m, label_font_size, r, rounded_corner),
{
    let n = apps.num_apps();
    let mw = monitor_width(r);
    let b = m.border_size as int;
    let a = mw - 2 * b;
    let q = trunc_div(a, n);
    if a >= 0 {
        assert(0 <= a / n <= a) by (nonlinear_arith)
            requires
                a >= 0,
                n >= 1,
        ;
    } else {
        assert(0 <= (-a) / n <= -a) by (nonlinear_arith)
            requires
                a < 0,
                n >= 1,
        ;
    }
    assert(-2048 <= q <= 0x20_0000);
    let room = icon_room(n, m, r);
    assert(-5120 <= room <= 0x20_0000);
    let size = icon_size_for(n, m, r);
    assert(-5120 <= size <= 1024);
    let cell = icon_cell_for(n, m, r);
    let item = item_size_for(n, m, r);
    assert(-5120 <= item <= 4096);
    assert(-5120 * 1024 <= item * n <= 4096 * 1024) by (nonlinear_arith)
        requires
            -5120 <= item <= 4096,
            1 <= n <= 1024,
    ;
    let pitch = item * SCALE_FACTOR;
    assert(-30720 <= pitch <= 24576);
    assert(-30720 * 1024 <= pitch * (n - 1) <= 24576 * 1024) by (nonlinear_arith)
        requires
            -30720 <= pitch <= 24576,
            1 <= n <= 1024,
    ;
    if apps.index < n {
        let k = apps.index as int;
        assert(-30720 * 1024 <= pitch * k <= 24576 * 1024) by (nonlinear_arith)
            requires
                -30720 <= pitch <= 24576,
                0 <= k < n <= 1024,
        ;
    }
    assert(scaled_cell_of(size, m.icon_border as int) == 6 * cell) by (nonlinear_arith)
        requires
            cell == size + m.icon_border * 2,
    ;
    assert((item * n) * SCALE_FACTOR == 6 * (item * n));
    assert(((cell + m.label_height) * SCALE_FACTOR) == 6 * (cell + m.label_height));
}

/// A paint draws the selected app's name exactly when the layout reserves a
/// label band, the selection names an app and that app's name is not empty,
/// whatever the name's length.
pub proof fn lemma_plan_labels_every_named_selection(
    p: PaintPlan,
    shown: bool,
    rounded_corner: bool,
    apps: SwitchAppsView,
    m: Metrics,
    label_font_size: int,
    r: Rect,
    light_theme: bool,
)
    requires
        p.is_for(shown, rounded_corner, apps, m, label_font_size, r, light_theme),
    ensures
        p.icons.label is Some <==> {
            &&& m.label_height > 0
            &&& apps.index < apps.names@.len()
            &&& apps.names@[apps.index as int]@.len() >= 1
        },
{
    let n = apps.num_apps();
    let cell = icon_cell_for(n, m, r);
    lemma_label_for_every_named_selection(
        p.icons,
        apps,
        icon_size_for(n, m, r),
        m.icon_border as int,
        p.icons_width as int,
        p.icons_height as int,
        p.corner_radius as int,
        item_size_for(n, m, r),
        label_font_size,
    );
    assert(scaled_cell_of(icon_size_for(n, m, r), m.icon_border as int) == 6 * cell) by (nonlinear_arith)
        requires
            cell == icon_size_for(n, m, r) + m.icon_border * 2,
    ;
}

/// What is drawn for an app is where a click selects it: every pixel of the
/// scaled column of app `i` (its cell, and the label band under it), once the
/// strip is shrunk by `SCALE_FACTOR` and placed at `(border, border)` in the
/// window, lies where `find_clicked_app_index` reports app `i`.
pub proof fn lemma_drawn_column_is_clickable(n: int, m: Metrics, r: Rect, i: int, sx: int, sy: int)
    requires
        coordinate_fits(n, m, r),
        m.icon_gap >= 0,
        0 <= i < n,
        cell_left_of(icon_size_for(n, m, r), m.icon_border as int, item_size_for(n, m, r), i) <= sx,
        sx < cell_left_of(icon_size_for(n, m, r), m.icon_border as int, item_size_for(n, m, r), i)
            + scaled_cell_of(icon_size_for(n, m, r), m.icon_border as int),
        0 <= sy < (icon_cell_for(n, m, r) + m.label_height) * SCALE_FACTOR,
    ensures
        cursor_on_app(
            n,
            m,
            r,
            x_for(n, m, r) + m.border_size + sx / (SCALE_FACTOR as int),
            y_for(n, m, r) + m.border_size + sy / (SCALE_FACTOR as int),
            i,
        ),
{
    let s = icon_size_for(n, m, r);
    let ib = m.icon_border as int;
    let g = m.icon_gap as int;
    let item = item_size_for(n, m, r);
    let cell = icon_cell_for(n, m, r);
    let t = item * i;
    assert(item * SCALE_FACTOR * i == 6 * t) by (nonlinear_arith)
        requires
            t == item * i,
    ;
    assert(scaled_cell_of(s, ib) == 6 * cell) by (nonlinear_arith)
        requires
            cell == s + ib * 2,
    ;
    assert(item * SCALE_FACTOR - scaled_cell_of(s, ib) == 6 * g) by (nonlinear_arith)
        requires
            item == cell + g,
            cell == s + ib * 2,
    ;
    assert(cell_offset_of(s, ib, item) == 3 * g);
    assert(t <= sx / 6 < t + item);
    assert(0 <= sy / 6 < cell + m.label_height);
}

} // verus!
