//! Widgets: their state, the transitions that keys and actions cause, and
//! the cell plans that rendering writes out.
pub mod loading_indicator;
pub mod masked_input;
pub mod screen;
pub mod scroll_region;
pub mod tabs;
