use window_switcher::icons::{IconsLayout, SwitchAppsView, SCALE_FACTOR};
use window_switcher::layout::{
    click_in_range, find_clicked_app_index, label_height, layout_in_range, Coordinate, Metrics,
    Rect, ICON_BORDER_SIZE_BASE, ICON_GAP_BASE, ICON_SIZE_BASE, LABEL_LINES,
    LABEL_LINE_HEIGHT_BASE, LABEL_TOP_GAP_BASE, WINDOW_BORDER_SIZE_BASE,
};
use window_switcher::painter::PainterState;
use window_switcher::theme::{
    theme_color, ALPHA_MASK, BG_DARK_COLOR, BG_LIGHT_COLOR, FG_DARK_COLOR, FG_LIGHT_COLOR,
    TEXT_DARK_COLOR, TEXT_LIGHT_COLOR,
};

fn full_hd() -> Rect {
    Rect { left: 0, top: 0, right: 1920, bottom: 1080 }
}

/// The sizes at 96 dpi.
fn metrics_96dpi() -> Metrics {
    Metrics {
        icon_size_max: ICON_SIZE_BASE,
        border_size: WINDOW_BORDER_SIZE_BASE,
        icon_border: ICON_BORDER_SIZE_BASE,
        icon_gap: ICON_GAP_BASE,
        label_height: LABEL_TOP_GAP_BASE + LABEL_LINE_HEIGHT_BASE * LABEL_LINES,
    }
}

fn apps(names: &[&str], index: usize) -> SwitchAppsView {
    SwitchAppsView { names: names.iter().map(|s| s.to_string()).collect(), index }
}

#[test]
fn theme_color_light_and_dark() {
    assert_eq!(theme_color(true), (FG_LIGHT_COLOR, BG_LIGHT_COLOR));
    assert_eq!(theme_color(false), (FG_DARK_COLOR, BG_DARK_COLOR));
    assert_eq!(theme_color(true), (0xf2f2f2, 0xe0e0e0));
    assert_eq!(theme_color(false), (0x3b3b3b, 0x4c4c4c));
}

#[test]
fn text_is_darker_on_light_and_lighter_on_dark() {
    for shift in [0, 8, 16] {
        let ch = |c: u32| (c >> shift) & 0xff;
        assert!(ch(TEXT_DARK_COLOR) < ch(BG_LIGHT_COLOR));
        assert!(ch(TEXT_DARK_COLOR) < ch(FG_LIGHT_COLOR));
        assert!(ch(TEXT_LIGHT_COLOR) > ch(BG_DARK_COLOR));
        assert!(ch(TEXT_LIGHT_COLOR) > ch(FG_DARK_COLOR));
    }
}

#[test]
fn label_height_is_gap_plus_two_lines() {
    assert_eq!(label_height(16, 2), Some(34));
    assert_eq!(label_height(24, 3), Some(51));
    assert_eq!(label_height(0, 0), Some(0));
}

#[test]
fn label_height_overflow_is_none() {
    assert_eq!(label_height(i32::MAX, 0), None);
    assert_eq!(label_height(1, i32::MAX), None);
}

#[test]
fn coordinate_five_apps_full_hd() {
    let c = Coordinate::new(5, 64, 10, 4, 12, 34, full_hd());
    assert_eq!(c.icon_size, 64);
    assert_eq!(c.icon_cell, 72);
    assert_eq!(c.item_size, 84);
    assert_eq!(c.width, 440);
    assert_eq!(c.height, 126);
    assert_eq!(c.x, 740);
    assert_eq!(c.y, 477);
}

#[test]
fn coordinate_many_apps_shrinks_icons() {
    let c = Coordinate::new(40, 64, 10, 4, 12, 34, full_hd());
    assert_eq!(c.icon_size, 27);
    assert_eq!(c.icon_cell, 35);
    assert_eq!(c.item_size, 47);
    assert_eq!(c.width, 1900);
    assert!(c.width <= 1920);
    assert_eq!(c.x, 10);
}

#[test]
fn coordinate_on_second_monitor() {
    let r = Rect { left: 1920, top: 100, right: 3840, bottom: 1180 };
    let c = Coordinate::new(5, 64, 10, 4, 12, 34, r);
    assert_eq!(c.x, 1920 + 740);
    assert_eq!(c.y, 100 + 477);
}

#[test]
fn coordinate_divides_toward_zero() {
    // (5 - 20) / 10 rounds toward zero to -1, and (5 - 10) / 2 to -2.
    let r = Rect { left: 0, top: 0, right: 5, bottom: 1000 };
    let c = Coordinate::new(10, 64, 10, 4, 12, 34, r);
    assert_eq!(c.icon_size, -1 - 8 - 12);
    assert_eq!(c.item_size, -1);
    assert_eq!(c.width, 10);
    assert_eq!(c.x, -2);
}

#[test]
fn coordinate_is_centered() {
    let r = Rect { left: 0, top: 0, right: 1921, bottom: 1081 };
    let c = Coordinate::new(5, 64, 10, 4, 12, 34, r);
    let left_margin = c.x - r.left;
    let right_margin = r.right - (c.x + c.width);
    assert!((left_margin - right_margin).abs() <= 1);
    let top_margin = c.y - r.top;
    let bottom_margin = r.bottom - (c.y + c.height);
    assert!((top_margin - bottom_margin).abs() <= 1);
}

#[test]
fn layout_needs_an_app_and_i32_room() {
    let m = metrics_96dpi();
    assert!(layout_in_range(5, &m, &full_hd()));
    assert!(!layout_in_range(0, &m, &full_hd()));
    let huge = Rect { left: i32::MIN, top: 0, right: i32::MAX, bottom: 1080 };
    assert!(!layout_in_range(5, &m, &huge));
    assert!(!layout_in_range(i32::MAX as usize + 1, &m, &full_hd()));
}

#[test]
fn click_on_third_icon() {
    let m = metrics_96dpi();
    let r = full_hd();
    // window at (740, 477), strip at border 10, columns 84 wide
    assert!(click_in_range(&m, &r, 5, 740 + 10 + 168 + 5, 477 + 15));
    assert_eq!(find_clicked_app_index(&m, &r, 5, 740 + 10 + 168 + 5, 477 + 15), Some(2));
}

#[test]
fn click_on_column_edges() {
    let m = metrics_96dpi();
    let r = full_hd();
    let y = 477 + 10;
    assert_eq!(find_clicked_app_index(&m, &r, 5, 750, y), Some(0));
    assert_eq!(find_clicked_app_index(&m, &r, 5, 750 + 83, y), Some(0));
    assert_eq!(find_clicked_app_index(&m, &r, 5, 750 + 84, y), Some(1));
    assert_eq!(find_clicked_app_index(&m, &r, 5, 750 + 84 * 5 - 1, y), Some(4));
    // bottom row of the label band
    assert_eq!(find_clicked_app_index(&m, &r, 5, 750, 477 + 10 + 72 + 34 - 1), Some(0));
}

#[test]
fn click_outside_strip_is_none() {
    let m = metrics_96dpi();
    let r = full_hd();
    assert_eq!(find_clicked_app_index(&m, &r, 5, 749, 490), None);
    assert_eq!(find_clicked_app_index(&m, &r, 5, 750 + 84 * 5, 490), None);
    assert_eq!(find_clicked_app_index(&m, &r, 5, 800, 477 + 9), None);
    assert_eq!(find_clicked_app_index(&m, &r, 5, 800, 477 + 10 + 106), None);
    assert_eq!(find_clicked_app_index(&m, &r, 5, 0, 0), None);
}

#[test]
fn click_range_rejects_overflowing_cursor() {
    let m = metrics_96dpi();
    let r = full_hd();
    assert!(!click_in_range(&m, &r, 5, i32::MIN, 490));
    assert!(!click_in_range(&m, &r, 5, 800, i32::MIN));
    assert!(!click_in_range(&m, &r, 0, 800, 490));
}

#[test]
fn icons_layout_with_selected_name() {
    let a = apps(&["Alpha", "", "Gamma"], 0);
    let l = IconsLayout::new(&a, 64, 4, 252, 106, 18, 84, 13);
    assert_eq!(l.scaled_width, 252 * SCALE_FACTOR);
    assert_eq!(l.scaled_height, 636);
    assert_eq!(l.scaled_corner_radius, 108);
    assert_eq!(l.scaled_border_size, 24);
    assert_eq!(l.scaled_icon_inner_size, 384);
    assert_eq!(l.scaled_icon_cell, 432);
    assert_eq!(l.scaled_pitch, 504);
    assert_eq!(l.cell_offset, 36);
    let lefts: Vec<i32> = l.cells.iter().map(|c| c.left).collect();
    assert_eq!(lefts, vec![36, 540, 1044]);
    let xs: Vec<i32> = l.cells.iter().map(|c| c.icon_x).collect();
    assert_eq!(xs, vec![60, 564, 1068]);
    let h = l.highlight.unwrap();
    assert_eq!(h.index, 0);
    assert_eq!((h.rect.left, h.rect.top, h.rect.right, h.rect.bottom), (36, 0, 468, 432));
    let label = l.label.unwrap();
    assert_eq!(label.font_height, -78);
    assert_eq!((label.rect.left, label.rect.top, label.rect.right, label.rect.bottom), (36, 432, 468, 636));
}

#[test]
fn icons_layout_label_under_selected_column() {
    let a = apps(&["Alpha", "", "Gamma"], 2);
    let l = IconsLayout::new(&a, 64, 4, 252, 106, 18, 84, 13);
    let label = l.label.unwrap();
    let h = l.highlight.unwrap();
    assert_eq!(h.index, 2);
    assert_eq!(label.rect.left, l.cells[2].left);
    assert_eq!(label.rect.left, h.rect.left);
    assert_eq!(label.rect.right, h.rect.right);
}

#[test]
fn icons_layout_empty_name_has_no_label() {
    let a = apps(&["Alpha", "", "Gamma"], 1);
    let l = IconsLayout::new(&a, 64, 4, 252, 106, 18, 84, 13);
    assert!(l.label.is_none());
    assert_eq!(l.highlight.unwrap().index, 1);
}

#[test]
fn icons_layout_no_label_without_room() {
    let a = apps(&["Alpha", "Beta"], 0);
    let l = IconsLayout::new(&a, 64, 4, 168, 72, 18, 84, 13);
    assert!(l.label.is_none());
    assert!(l.highlight.is_some());
}

#[test]
fn icons_layout_selection_out_of_range() {
    let a = apps(&["Alpha", "Beta"], 7);
    let l = IconsLayout::new(&a, 64, 4, 168, 106, 18, 84, 13);
    assert!(l.highlight.is_none());
    assert!(l.label.is_none());
    assert_eq!(l.cells.len(), 2);
}

#[test]
fn paint_shows_window_once() {
    let a = apps(&["Alpha", "Beta", "Gamma"], 1);
    let m = metrics_96dpi();
    let mut st = PainterState::new(true);
    assert!(!st.show);
    let first = st.paint(&a, &m, 13, &full_hd(), false).unwrap();
    assert!(first.reveal);
    assert!(st.show);
    let second = st.paint(&a, &m, 13, &full_hd(), false).unwrap();
    assert!(!second.reveal);
    st.unpaint();
    assert!(!st.show);
    let third = st.paint(&a, &m, 13, &full_hd(), false).unwrap();
    assert!(third.reveal);
    assert!(st.rounded_corner);
}

#[test]
fn paint_without_apps_is_refused() {
    let a = apps(&[], 0);
    let m = metrics_96dpi();
    let mut st = PainterState::new(false);
    assert!(st.paint(&a, &m, 13, &full_hd(), true).is_none());
    assert!(!st.show);
}

#[test]
fn paint_overflow_is_refused() {
    let a = apps(&["Alpha"], 0);
    let m = metrics_96dpi();
    let mut st = PainterState::new(false);
    // a 1000-wide icon column times SCALE_FACTOR stays in range, but a
    // font size of i32::MAX / 2 does not once scaled
    assert!(st.paint(&a, &m, i32::MAX / 2, &full_hd(), true).is_none());
    assert!(!st.show);
    assert!(st.paint(&a, &m, 13, &full_hd(), true).is_some());
}

#[test]
fn paint_plan_light_theme() {
    let a = apps(&["Alpha", "Beta", "Gamma"], 1);
    let m = metrics_96dpi();
    let mut st = PainterState::new(true);
    let p = st.paint(&a, &m, 13, &full_hd(), true).unwrap();
    assert_eq!(p.fg_color, FG_LIGHT_COLOR);
    assert_eq!(p.bg_color, BG_LIGHT_COLOR);
    assert_eq!(p.text_color, TEXT_DARK_COLOR);
    assert_eq!(p.background_argb, 0xffe0e0e0);
    assert_eq!(p.background_argb, ALPHA_MASK | BG_LIGHT_COLOR);
    assert_eq!(p.corner_radius, 18);
    assert!(p.rounded_background);
    assert_eq!(p.icons_width, 84 * 3);
    assert_eq!(p.icons_height, 72 + 34);
    assert_eq!(p.coordinate.width, p.icons_width + 2 * m.border_size);
    assert_eq!(p.coordinate.height, p.icons_height + 2 * m.border_size);
    assert_eq!(p.icons.scaled_corner_radius, 108);
    assert_eq!(p.icons.label.unwrap().font_height, -78);
}

#[test]
fn paint_plan_dark_square_corners() {
    let a = apps(&["Alpha"], 0);
    let m = metrics_96dpi();
    let mut st = PainterState::new(false);
    let p = st.paint(&a, &m, 13, &full_hd(), false).unwrap();
    assert_eq!(p.text_color, TEXT_LIGHT_COLOR);
    assert_eq!(p.background_argb, 0xff4c4c4c);
    assert_eq!(p.corner_radius, 0);
    assert!(!p.rounded_background);
    assert_eq!(p.icons.scaled_corner_radius, 0);
}

#[test]
fn drawn_cells_and_label_are_clickable() {
    let a = apps(&["Alpha", "Beta", "Gamma", "Delta"], 2);
    let m = metrics_96dpi();
    let r = full_hd();
    let mut st = PainterState::new(true);
    let p = st.paint(&a, &m, 13, &r, false).unwrap();
    let cell = p.icons.scaled_icon_cell;
    let origin_x = p.coordinate.x + m.border_size;
    let origin_y = p.coordinate.y + m.border_size;
    for (i, c) in p.icons.cells.iter().enumerate() {
        for sx in [c.left, c.left + cell / 2, c.left + cell - 1] {
            for sy in [0, cell / 2, cell - 1] {
                let x = origin_x + sx / SCALE_FACTOR;
                let y = origin_y + sy / SCALE_FACTOR;
                assert_eq!(find_clicked_app_index(&m, &r, 4, x, y), Some(i));
            }
        }
    }
    let label = p.icons.label.unwrap();
    let x = origin_x + (label.rect.left + label.rect.right) / 2 / SCALE_FACTOR;
    let y = origin_y + (label.rect.bottom - 1) / SCALE_FACTOR;
    assert_eq!(find_clicked_app_index(&m, &r, 4, x, y), Some(2));
}

#[test]
fn cells_centered_in_their_columns() {
    let a = apps(&["Alpha", "Beta", "Gamma", "Delta"], 0);
    let m = metrics_96dpi();
    let mut st = PainterState::new(true);
    let p = st.paint(&a, &m, 13, &full_hd(), true).unwrap();
    let pitch = p.icons.scaled_pitch;
    let cell = p.icons.scaled_icon_cell;
    for (i, c) in p.icons.cells.iter().enumerate() {
        let column_left = pitch * i as i32;
        let column_right = pitch * (i as i32 + 1);
        assert_eq!(c.left - column_left, column_right - (c.left + cell));
        assert!(column_left <= c.left && c.left + cell <= column_right);
        assert!(column_right <= p.icons.scaled_width);
    }
    let label = p.icons.label.unwrap();
    assert!(label.rect.left >= 0 && label.rect.right <= pitch);
}
