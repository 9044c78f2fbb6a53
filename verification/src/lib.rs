//! Layout, hit-testing, colouring and visibility logic of the app-switcher
//! overlay: the part of the painter that decides where every icon, highlight
//! and label goes, which app a click lands on, and when the window must be
//! shown.  Drawing itself is done by the caller with the values computed here.

pub mod arith;
pub mod theme;
pub mod layout;
pub mod icons;
pub mod painter;
