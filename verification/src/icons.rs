use vstd::prelude::*;
use crate::arith::{fits_i32, fits_in_i32, lemma_affine_fits, trunc_div};
use crate::layout::Rect;

verus! {

/// The icon strip is drawn this many times larger than shown and then scaled
/// down, which smooths the rounded selection box and the label.
pub const SCALE_FACTOR: i32 = 6;

/// What the overlay reads of the app-switching state: the display name of
/// each app, in the order the icons are shown, and the position of the
/// selected app.
#[derive(Debug)]
pub struct SwitchAppsView {
    pub names: Vec<String>,
    pub index: usize,
}

impl SwitchAppsView {
    pub open spec fn num_apps(&self) -> int {
        self.names@.len() as int
    }

    /// The selected position names an app whose name is not empty.
    pub open spec fn selected_has_name(&self) -> bool {
        &&& self.index < self.names@.len()
        &&& self.names@[self.index as int]@.len() > 0
    }
}

/// One column of the scaled icon strip.
#[derive(Clone, Copy, Debug)]
pub struct IconCell {
    /// Left edge of the icon cell (the square of the selection box).
    pub left: i32,
    /// Left edge of the icon inside the cell.
    pub icon_x: i32,
}

/// The rounded selection box, drawn under the icon at `index`.
#[derive(Clone, Copy, Debug)]
pub struct Highlight {
    pub index: usize,
    pub rect: Rect,
}

/// The selected app's name: the font height to create (negative: a
/// character height) and the box to centre the text in.
#[derive(Clone, Copy, Debug)]
pub struct LabelBox {
    pub font_height: i32,
    pub rect: Rect,
}

/// Everything that is drawn on the scaled icon strip, in scaled pixels.
#[derive(Debug)]
pub struct IconsLayout {
    pub scaled_width: i32,
    pub scaled_height: i32,
    pub scaled_corner_radius: i32,
    pub scaled_border_size: i32,
    pub scaled_icon_inner_size: i32,
    pub scaled_icon_cell: i32,
    pub scaled_pitch: i32,
    /// Offset of each icon cell within its (wider) column, so that the gap
    /// is split evenly on both sides.
    pub cell_offset: i32,
    /// One cell per app, left to right.
    pub cells: Vec<IconCell>,
    pub highlight: Option<Highlight>,
    pub label: Option<LabelBox>,
}

pub open spec fn rect_is(r: Rect, left: int, top: int, right: int, bottom: int) -> bool {
    r.left == left && r.top == top && r.right == right && r.bottom == bottom
}

/// Scaled edge of the icon cell: the icon plus its padding on both sides.
pub open spec fn scaled_cell_of(icon_size: int, icon_border: int) -> int {
    icon_size * SCALE_FACTOR + icon_border * SCALE_FACTOR * 2
}

/// Scaled offset of the icon cell within its column.
pub open spec fn cell_offset_of(icon_size: int, icon_border: int, item_size: int) -> int {
    trunc_div(item_size * SCALE_FACTOR - scaled_cell_of(icon_size, icon_border), 2)
}

/// Scaled left edge of the icon cell of column `i`.
pub open spec fn cell_left_of(icon_size: int, icon_border: int, item_size: int, i: int) -> int {
    item_size * SCALE_FACTOR * i + cell_offset_of(icon_size, icon_border, item_size)
}

/// Every value that the strip layout computes fits in an `i32`.
pub open spec fn icons_fit(
    icon_size: int,
    icon_border: int,
    width: int,
    height: int,
    corner_radius: int,
    item_size: int,
    label_font_size: int,
    n: int,
    index: int,
    has_name: bool,
) -> bool {
    let b6 = icon_border * SCALE_FACTOR;
    let cell = scaled_cell_of(icon_size, icon_border);
    let pitch = item_size * SCALE_FACTOR;
    let off = cell_offset_of(icon_size, icon_border, item_size);
    &&& fits_i32(width * SCALE_FACTOR)
    &&& fits_i32(height * SCALE_FACTOR)
    &&& fits_i32(corner_radius * SCALE_FACTOR)
    &&& fits_i32(b6)
    &&& fits_i32(icon_size * SCALE_FACTOR)
    &&& fits_i32(b6 * 2)
    &&& fits_i32(cell)
    &&& fits_i32(pitch)
    &&& fits_i32(pitch - cell)
    &&& n > 0 ==> {
        &&& fits_i32(off + b6)
        &&& fits_i32(pitch * (n - 1))
        &&& fits_i32(pitch * (n - 1) + off)
        &&& fits_i32(pitch * (n - 1) + off + b6)
    }
    &&& 0 <= index < n ==> fits_i32(pitch * index + off + cell)
    &&& (height * SCALE_FACTOR > cell && has_name) ==> {
        &&& fits_i32(label_font_size * SCALE_FACTOR)
        &&& fits_i32(-(label_font_size * SCALE_FACTOR))
    }
}

/// Tests whether laying out the strip of `apps` with these sizes stays within
/// the range of `i32`.
pub fn icons_in_range(
    apps: &SwitchAppsView,
    icon_size: i32,
    icon_border: i32,
    width: i32,
    height: i32,
    corner_radius: i32,
    item_size: i32,
    label_font_size: i32,
) -> (ok: bool)
    requires
        apps.names@.len() <= i32::MAX,
    ensures
        ok == icons_fit(
            icon_size as int,
            icon_border as int,
            width as int,
            height as int,
            corner_radius as int,
            item_size as int,
            label_font_size as int,
            apps.num_apps(),
            apps.index as int,
            apps.selected_has_name(),
        ),
{
    let sf = SCALE_FACTOR as i64;
    let w6 = width as i64 * sf;
    let h6 = height as i64 * sf;
    let c6 = corner_radius as i64 * sf;
    let b6 = icon_border as i64 * sf;
    let s6 = icon_size as i64 * sf;
    if !(fits_in_i32(w6) && fits_in_i32(h6) && fits_in_i32(c6) && fits_in_i32(b6) && fits_in_i32(s6)) {
        return false;
    }
    let b12 = b6 * 2;
    if !fits_in_i32(b12) {
        return false;
    }
    let cell = s6 + b12;
    let pitch = item_size as i64 * sf;
    if !(fits_in_i32(cell) && fits_in_i32(pitch)) {
        return false;
    }
    let spare = pitch - cell;
    if !fits_in_i32(spare) {
        return false;
    }
    let off = spare / 2;
    let n = apps.names.len();
    if n > 0 {
        let last = (n - 1) as i64;
        assert(-0x8000_0000_0000_0000 <= pitch * last <= 0x7fff_ffff_ffff_ffff) by (nonlinear_arith)
            requires
                fits_i32(pitch as int),
                0 <= last < i32::MAX,
        ;
        let far = pitch * last;
        if !(fits_in_i32(off + b6) && fits_in_i32(far)) {
            return false;
        }
        if !(fits_in_i32(far + off) && fits_in_i32(far + off + b6)) {
            return false;
        }
    }
    if apps.index < n {
        let sel = apps.index as i64;
        assert(-0x4000_0000_0000_0000 <= pitch * sel <= 0x4000_0000_0000_0000) by (nonlinear_arith)
            requires
                fits_i32(pitch as int),
                0 <= sel < i32::MAX,
        ;
        if !fits_in_i32(pitch * sel + off + cell) {
            return false;
        }
        if h6 > cell && !apps.names[apps.index].as_str().is_empty() {
            let font6 = label_font_size as i64 * sf;
            return fits_in_i32(font6) && fits_in_i32(-font6);
        }
    }
    true
}

impl IconsLayout {
    /// This is the strip of `apps` for the given (unscaled) sizes.
    pub open spec fn is_for(
        self,
        apps: SwitchAppsView,
        icon_size: int,
        icon_border: int,
        width: int,
        height: int,
        corner_radius: int,
        item_size: int,
        label_font_size: int,
    ) -> bool {
        let n = apps.num_apps();
        let index = apps.index as int;
        let cell = scaled_cell_of(icon_size, icon_border);
        &&& self.scaled_width == width * SCALE_FACTOR
        &&& self.scaled_height == height * SCALE_FACTOR
        &&& self.scaled_corner_radius == corner_radius * SCALE_FACTOR
        &&& self.scaled_border_size == icon_border * SCALE_FACTOR
        &&& self.scaled_icon_inner_size == icon_size * SCALE_FACTOR
        &&& self.scaled_icon_cell == cell
        &&& self.scaled_pitch == item_size * SCALE_FACTOR
        &&& self.cell_offset == cell_offset_of(icon_size, icon_border, item_size)
        &&& self.cells@.len() == n
        &&& forall|i: int|
            0 <= i < n ==> {
                &&& (#[trigger] self.cells@[i]).left == cell_left_of(icon_size, icon_border, item_size, i)
                &&& self.cells@[i].icon_x == self.cells@[i].left + icon_border * SCALE_FACTOR
            }
        &&& (self.highlight is Some <==> index < n)
        &&& self.highlight matches Some(h) ==> {
            &&& h.index == apps.index
            &&& rect_is(
                h.rect,
                cell_left_of(icon_size, icon_border, item_size, index),
                0,
                cell_left_of(icon_size, icon_border, item_size, index) + cell,
                cell,
            )
        }
        &&& (self.label is Some <==> height * SCALE_FACTOR > cell && apps.selected_has_name())
        &&& self.label matches Some(l) ==> {
            &&& l.font_height == -(label_font_size * SCALE_FACTOR)
            &&& rect_is(
                l.rect,
                cell_left_of(icon_size, icon_border, item_size, index),
                cell,
                cell_left_of(icon_size, icon_border, item_size, index) + cell,
                height * SCALE_FACTOR,
            )
        }
    }

    /// Lays out the scaled icon strip of `width` x `height` pixels: one cell
    /// per app every `item_size` pixels, centred in its column; the selection
    /// box on the selected cell; and, when there is room below the cells and
    /// the selected app has a name, a label box under the selected cell, as
    /// wide as that cell, reaching the bottom of the strip.
    pub fn new(
        apps: &SwitchAppsView,
        icon_size: i32,
        icon_border: i32,
        width: i32,
        height: i32,
        corner_radius: i32,
        item_size: i32,
        label_font_size: i32,
    ) -> (layout: Self)
        requires
            apps.names@.len() <= i32::MAX,
            icons_fit(
                icon_size as int,
                icon_border as int,
                width as int,
                height as int,
                corner_radius as int,
                item_size as int,
                label_font_size as int,
                apps.num_apps(),
                apps.index as int,
                apps.selected_has_name(),
            ),
        ensures
            layout.is_for(
                *apps,
                icon_size as int,
                icon_border as int,
                width as int,
                height as int,
                corner_radius as int,
                item_size as int,
                label_font_size as int,
            ),
    {
        let scaled_width = width * SCALE_FACTOR;
        let scaled_height = height * SCALE_FACTOR;
        let scaled_corner_radius = corner_radius * SCALE_FACTOR;
        let scaled_border_size = icon_border * SCALE_FACTOR;
        let scaled_icon_inner_size = icon_size * SCALE_FACTOR;
        let scaled_icon_cell = scaled_icon_inner_size + scaled_border_size * 2;
        let scaled_pitch = item_size * SCALE_FACTOR;
        // center the icon cell within its (wider) column pitch so the gap is even
        let cell_offset = (scaled_pitch - scaled_icon_cell) / 2;

        let n = apps.names.len();
        let ghost nn = n as int;
        let ghost b6 = scaled_border_size as int;
        let mut cells: Vec<IconCell> = Vec::new();
        let mut highlight: Option<Highlight> = None;
        let mut i: usize = 0;
        while i < n
            invariant
                i <= n,
                n == apps.names@.len(),
                n <= i32::MAX,
                nn == n as int,
                b6 == scaled_border_size as int,
                scaled_pitch == item_size * SCALE_FACTOR,
                scaled_icon_cell == scaled_cell_of(icon_size as int, icon_border as int),
                cell_offset == cell_offset_of(icon_size as int, icon_border as int, item_size as int),
                scaled_border_size == icon_border * SCALE_FACTOR,
                icons_fit(
                    icon_size as int,
                    icon_border as int,
                    width as int,
                    height as int,
                    corner_radius as int,
                    item_size as int,
                    label_font_size as int,
                    apps.num_apps(),
                    apps.index as int,
                    apps.selected_has_name(),
                ),
                cells@.len() == i,
                forall|j: int|
                    0 <= j < i ==> {
                        &&& (#[trigger] cells@[j]).left == cell_left_of(
                            icon_size as int,
                            icon_border as int,
                            item_size as int,
                            j,
                        )
                        &&& cells@[j].icon_x == cells@[j].left + icon_border * SCALE_FACTOR
                    },
                (highlight is Some <==> apps.index < i),
                highlight matches Some(h) ==> {
                    &&& h.index == apps.index
                    &&& rect_is(
                        h.rect,
                        cell_left_of(icon_size as int, icon_border as int, item_size as int, apps.index as int),
                        0,
                        cell_left_of(icon_size as int, icon_border as int, item_size as int, apps.index as int)
                            + scaled_icon_cell,
                        scaled_icon_cell as int,
                    )
                },
            decreases n - i,
        {
            proof {
                lemma_affine_fits(0, scaled_pitch as int, nn - 1, i as int);
                lemma_affine_fits(cell_offset as int, scaled_pitch as int, nn - 1, i as int);
                lemma_affine_fits(cell_offset + b6, scaled_pitch as int, nn - 1, i as int);
            }
            let cell_left = scaled_pitch * (i as i32) + cell_offset;

            // the box for the selected icon
            if i == apps.index {
                highlight = Some(
                    Highlight {
                        index: i,
                        rect: Rect {
                            left: cell_left,
                            top: 0,
                            right: cell_left + scaled_icon_cell,
                            bottom: scaled_icon_cell,
                        },
                    },
                );
            }

            let cx = cell_left + scaled_border_size;
            cells.push(IconCell { left: cell_left, icon_x: cx });
            i = i + 1;
        }

        // the focused app's name goes under its own icon, within that icon's column
        let label_top = scaled_icon_cell;
        let mut label: Option<LabelBox> = None;
        if scaled_height > label_top {
            if apps.index < n {
                if !apps.names[apps.index].as_str().is_empty() {
                    proof {
                        lemma_affine_fits(0, scaled_pitch as int, nn - 1, apps.index as int);
                        lemma_affine_fits(cell_offset as int, scaled_pitch as int, nn - 1, apps.index as int);
                    }
                    let font_height = -(label_font_size * SCALE_FACTOR);
                    let cell_left = scaled_pitch * (apps.index as i32) + cell_offset;
                    label = Some(
                        LabelBox {
                            font_height,
                            rect: Rect {
                                left: cell_left,
                                top: label_top,
                                right: cell_left + scaled_icon_cell,
                                bottom: scaled_height,
                            },
                        },
                    );
                }
            }
        }

        IconsLayout {
            scaled_width,
            scaled_height,
            scaled_corner_radius,
            scaled_border_size,
            scaled_icon_inner_size,
            scaled_icon_cell,
            scaled_pitch,
            cell_offset,
            cells,
            highlight,
            label,
        }
    }
}

/// The selected app's name is drawn whenever there is room below the cells,
/// the selection names an app and that name is not empty, however long the
/// name is (a long name is wrapped and cut when it is drawn, never dropped);
/// and it is then drawn in a box under the selected icon, as wide as its
/// cell, reaching the bottom of the strip.
pub proof fn lemma_label_for_every_named_selection(
    layout: IconsLayout,
    apps: SwitchAppsView,
    icon_size: int,
    icon_border: int,
    width: int,
    height: int,
    corner_radius: int,
    item_size: int,
    label_font_size: int,
)
    requires
        layout.is_for(apps, icon_size, icon_border, width, height, corner_radius, item_size, label_font_size),
    ensures
        layout.label is Some <==> {
            &&& layout.scaled_height > layout.scaled_icon_cell
            &&& apps.index < apps.names@.len()
            &&& apps.names@[apps.index as int]@.len() >= 1
        },
        layout.label matches Some(b) ==> {
            &&& b.rect.left == layout.cells@[apps.index as int].left
            &&& b.rect.right == b.rect.left + layout.scaled_icon_cell
            &&& b.rect.top == layout.scaled_icon_cell
            &&& b.rect.bottom == layout.scaled_height
        },
{
}

} // verus!
