//! Screen geometry shared by the widgets' layout and render plans.
use vstd::prelude::*;

verus! {

/// A rectangle of terminal cells: `x`, `y` of the top-left corner, then size.
#[derive(Clone, Copy, Debug, PartialEq, Eq, Structural)]
pub struct Rect {
    pub x: u16,
    pub y: u16,
    pub width: u16,
    pub height: u16,
}

/// A 24-bit colour: red, green and blue.
#[derive(Clone, Copy, Debug, PartialEq, Eq, Structural)]
pub struct Rgb {
    pub red: u8,
    pub green: u8,
    pub blue: u8,
}

/// How a planned cell is styled relative to the widget's base text style.
#[derive(Clone, Copy, Debug, PartialEq, Eq, Structural)]
pub enum CellStyle {
    /// The widget's base style, unchanged.
    Plain,
    /// The base style with foreground and background swapped.
    Reversed,
    /// The base style, dimmed.
    Dim,
}

/// One cell that a render plan asks to be written.
#[derive(Clone, Copy, Debug, PartialEq, Eq, Structural)]
pub struct PlannedCell {
    pub x: u16,
    pub y: u16,
    pub symbol: char,
    pub style: CellStyle,
}

} // verus!
