use vstd::prelude::*;

verus! {

/// Window background in the dark theme (`0x00BBGGRR`).
pub const BG_DARK_COLOR: u32 = 0x4c4c4c;
/// Selection box in the dark theme.
pub const FG_DARK_COLOR: u32 = 0x3b3b3b;
/// Window background in the light theme.
pub const BG_LIGHT_COLOR: u32 = 0xe0e0e0;
/// Selection box in the light theme.
pub const FG_LIGHT_COLOR: u32 = 0xf2f2f2;
/// Opaque alpha channel of an ARGB colour.
pub const ALPHA_MASK: u32 = 0xff000000;
/// Label text on a light background.
pub const TEXT_DARK_COLOR: u32 = 0x202020;
/// Label text on a dark background.
pub const TEXT_LIGHT_COLOR: u32 = 0xf0f0f0;

/// `(foreground, background)` of the overlay for the given theme.
pub open spec fn theme_color_spec(light_theme: bool) -> (u32, u32) {
    if light_theme {
        (FG_LIGHT_COLOR, BG_LIGHT_COLOR)
    } else {
        (FG_DARK_COLOR, BG_DARK_COLOR)
    }
}

/// Colour of the app name drawn under the selected icon.
pub open spec fn text_color_spec(light_theme: bool) -> u32 {
    if light_theme {
        TEXT_DARK_COLOR
    } else {
        TEXT_LIGHT_COLOR
    }
}

/// Returns `(foreground, background)`: the selection-box colour and the window
/// background colour of the light or the dark theme.
pub fn theme_color(light_theme: bool) -> (colors: (u32, u32))
    ensures
        colors == theme_color_spec(light_theme),
{
    match light_theme {
        true => (FG_LIGHT_COLOR, BG_LIGHT_COLOR),
        false => (FG_DARK_COLOR, BG_DARK_COLOR),
    }
}

/// Channel `k` (0 = red, 1 = green, 2 = blue) of a `0x00BBGGRR` colour.
pub open spec fn channel(color: u32, k: int) -> int {
    if k == 0 {
        color as int % 0x100
    } else if k == 1 {
        (color as int / 0x100) % 0x100
    } else {
        (color as int / 0x10000) % 0x100
    }
}

/// Every channel of `a` is strictly darker than every channel of `b`.
pub open spec fn darker_than(a: u32, b: u32) -> bool {
    forall|i: int, j: int| 0 <= i < 3 && 0 <= j < 3 ==> #[trigger] channel(a, i) < #[trigger] channel(b, j)
}

/// The label text contrasts with the window background in both themes: on
/// the light theme it is darker than the background and the selection box, on
/// the dark theme it is lighter than both.
pub proof fn lemma_text_contrasts(light_theme: bool)
    ensures
        light_theme ==> darker_than(text_color_spec(light_theme), theme_color_spec(light_theme).1)
            && darker_than(text_color_spec(light_theme), theme_color_spec(light_theme).0),
        !light_theme ==> darker_than(theme_color_spec(light_theme).1, text_color_spec(light_theme))
            && darker_than(theme_color_spec(light_theme).0, text_color_spec(light_theme)),
{
    assert(channel(TEXT_DARK_COLOR, 0) == 0x20 && channel(TEXT_DARK_COLOR, 1) == 0x20 && channel(TEXT_DARK_COLOR, 2) == 0x20);
    assert(channel(TEXT_LIGHT_COLOR, 0) == 0xf0 && channel(TEXT_LIGHT_COLOR, 1) == 0xf0 && channel(TEXT_LIGHT_COLOR, 2) == 0xf0);
    assert(channel(BG_LIGHT_COLOR, 0) == 0xe0 && channel(BG_LIGHT_COLOR, 1) == 0xe0 && channel(BG_LIGHT_COLOR, 2) == 0xe0);
    assert(channel(FG_LIGHT_COLOR, 0) == 0xf2 && channel(FG_LIGHT_COLOR, 1) == 0xf2 && channel(FG_LIGHT_COLOR, 2) == 0xf2);
    assert(channel(BG_DARK_COLOR, 0) == 0x4c && channel(BG_DARK_COLOR, 1) == 0x4c && channel(BG_DARK_COLOR, 2) == 0x4c);
    assert(channel(FG_DARK_COLOR, 0) == 0x3b && channel(FG_DARK_COLOR, 1) == 0x3b && channel(FG_DARK_COLOR, 2) == 0x3b);
}

/// The background brush colour: the theme background with a fully opaque
/// alpha channel.
pub proof fn lemma_background_is_opaque(bg: u32)
    requires
        bg < 0x1000000,
    ensures
        (ALPHA_MASK | bg) >> 24u32 == 0xffu32,
        (ALPHA_MASK | bg) & 0xffffffu32 == bg,
{
    assert((0xff000000u32 | bg) >> 24u32 == 0xffu32) by (bit_vector)
        requires
            bg < 0x1000000u32,
    ;
    assert((0xff000000u32 | bg) & 0xffffffu32 == bg) by (bit_vector)
        requires
            bg < 0x1000000u32,
    ;
}

} // verus!
