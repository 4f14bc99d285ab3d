//! Core CSS value types and the application of declarations to a style.
//!
//! Sizes, opacity and flex factors are numbers of a type `F` chosen by the
//! host (a float in practice); the cascade only stores and copies them, so
//! everything here is stated and proved for every such `F`.
use vstd::prelude::*;
use vstd::std_specs::convert::FromSpec;

use crate::text::str_eq;

verus! {

/// Controls how a widget participates in layout.
#[derive(Clone, Copy, Debug, PartialEq, Eq, Structural)]
pub enum TcssDisplay {
    /// Flexbox layout (the default).
    Flex,
    /// CSS grid layout.
    Grid,
    /// Block layout (stacked vertically).
    Block,
    /// Widget is not rendered and takes no space (`display: none`).
    NoDisplay,
}

/// A CSS dimension value for sizing properties.
#[derive(Clone, Copy, Debug, PartialEq)]
pub enum TcssDimension<F> {
    /// Size is determined by the layout algorithm.
    Auto,
    /// Fixed cell-count size.
    Length(F),
    /// Size as a percentage of the parent container.
    Percent(F),
    /// Fractional unit for proportional flex sizing.
    Fraction(F),
}

/// Layout flow direction for flex containers.
#[derive(Clone, Copy, Debug, PartialEq, Eq, Structural)]
pub enum LayoutDirection {
    /// Children are stacked top-to-bottom.
    Vertical,
    /// Children are arranged left-to-right.
    Horizontal,
}

/// Border rendering style for widgets.
#[derive(Clone, Copy, Debug, PartialEq, Eq, Structural)]
pub enum BorderStyle {
    /// No border is drawn (`border: none`).
    NoBorder,
    /// Standard single-line box-drawing border.
    Solid,
    /// Rounded corners using arc box-drawing characters.
    Rounded,
    /// Heavy box-drawing border.
    Heavy,
    /// Double-line box-drawing border.
    Double,
    /// ASCII-art border using `+`, `-`, and `|` characters.
    Ascii,
    /// Half-block border: thin frames of half-block characters.
    Tall,
    /// One-eighth-cell-thick border lines with independent inside and
    /// outside colors.
    McguganBox,
}

/// A color value in the styling engine.
#[derive(Clone, Copy, Debug, PartialEq)]
pub enum TcssColor {
    /// Use the terminal's default color (transparent).
    Reset,
    /// An opaque RGB color.
    Rgb(u8, u8, u8),
    /// An RGBA color with an alpha channel (0-255).
    Rgba(u8, u8, u8, u8),
    /// A named color string (e.g., `"red"`).
    Named(&'static str),
}

/// A CSS pseudo-class state flag for a widget.
#[derive(Clone, Copy, Debug, PartialEq, Eq, Hash, Structural)]
pub enum PseudoClass {
    /// The widget currently holds keyboard focus.
    Focus,
    /// The mouse cursor is positioned over the widget.
    Hover,
    /// The widget is disabled and not interactable.
    Disabled,
}

/// A set of active pseudo-classes for a widget: one membership flag for
/// each pseudo-class.
#[derive(Clone, Debug, PartialEq, Eq, Structural)]
pub struct PseudoClassSet {
    focus: bool,
    hover: bool,
    disabled: bool,
}

impl View for PseudoClassSet {
    type V = Set<PseudoClass>;

    closed spec fn view(&self) -> Set<PseudoClass> {
        Set::new(
            |c: PseudoClass|
                match c {
                    PseudoClass::Focus => self.focus,
                    PseudoClass::Hover => self.hover,
                    PseudoClass::Disabled => self.disabled,
                },
        )
    }
}

impl Default for PseudoClassSet {
    /// The empty set.
    fn default() -> (r: Self)
        ensures
            r@ == Set::<PseudoClass>::empty(),
    {
        let r = PseudoClassSet { focus: false, hover: false, disabled: false };
        assert(r@ =~= Set::<PseudoClass>::empty());
        r
    }
}

impl PseudoClassSet {
    /// Add a pseudo-class to the set.
    pub fn insert(&mut self, cls: PseudoClass)
        ensures
            final(self)@ == old(self)@.insert(cls),
    {
        match cls {
            PseudoClass::Focus => self.focus = true,
            PseudoClass::Hover => self.hover = true,
            PseudoClass::Disabled => self.disabled = true,
        }
        assert(self@ =~= old(self)@.insert(cls));
    }

    /// Remove a pseudo-class from the set.
    pub fn remove(&mut self, cls: &PseudoClass)
        ensures
            final(self)@ == old(self)@.remove(*cls),
    {
        match cls {
            PseudoClass::Focus => self.focus = false,
            PseudoClass::Hover => self.hover = false,
            PseudoClass::Disabled => self.disabled = false,
        }
        assert(self@ =~= old(self)@.remove(*cls));
    }

    /// Whether the given pseudo-class is active.
    pub fn contains(&self, cls: &PseudoClass) -> (r: bool)
        ensures
            r == self@.contains(*cls),
    {
        match cls {
            PseudoClass::Focus => self.focus,
            PseudoClass::Hover => self.hover,
            PseudoClass::Disabled => self.disabled,
        }
    }
}

/// Horizontal text alignment within a widget.
#[derive(Clone, Copy, Debug, PartialEq, Eq, Structural)]
pub enum TextAlign {
    /// Align text to the left edge.
    Left,
    /// Center text horizontally.
    Center,
    /// Align text to the right edge.
    Right,
}

/// Controls how content overflowing a widget's bounds is handled.
#[derive(Clone, Copy, Debug, PartialEq, Eq, Structural)]
pub enum Overflow {
    /// Overflowing content is visible outside the widget bounds.
    Visible,
    /// Overflowing content is clipped.
    Hidden,
    /// A scrollbar is always shown.
    Scroll,
    /// A scrollbar appears only when content overflows.
    Auto,
}

/// Controls whether a widget is rendered.
#[derive(Clone, Copy, Debug, PartialEq, Eq, Structural)]
pub enum Visibility {
    /// The widget is rendered normally.
    Visible,
    /// The widget is hidden but still occupies layout space.
    Hidden,
}

/// Inset amounts for the four sides of a widget (padding or margin).
#[derive(Clone, Copy, Debug, PartialEq)]
pub struct Sides<T> {
    /// Top inset value.
    pub top: T,
    /// Right inset value.
    pub right: T,
    /// Bottom inset value.
    pub bottom: T,
    /// Left inset value.
    pub left: T,
}

impl<T: Default> Default for Sides<T> {
    /// Every side at `T`'s default.
    fn default() -> (r: Self)
        ensures
            call_ensures(T::default, (), r.top),
            call_ensures(T::default, (), r.right),
            call_ensures(T::default, (), r.bottom),
            call_ensures(T::default, (), r.left),
    {
        Sides { top: T::default(), right: T::default(), bottom: T::default(), left: T::default() }
    }
}

/// An edge of the screen where a docked widget is anchored.
#[derive(Clone, Copy, Debug, PartialEq, Eq, Structural)]
pub enum DockEdge {
    /// Widget is docked to the top of its container.
    Top,
    /// Widget is docked to the bottom of its container.
    Bottom,
    /// Widget is docked to the left of its container.
    Left,
    /// Widget is docked to the right of its container.
    Right,
}

/// Hatch pattern style for background fills using Unicode characters.
#[derive(Clone, Copy, Debug, PartialEq, Eq, Structural)]
pub enum HatchStyle {
    /// Cross-hatch pattern (using braille dots).
    Cross,
    /// Horizontal lines.
    Horizontal,
    /// Vertical lines.
    Vertical,
    /// Diagonal lines going left (top-right to bottom-left).
    Left,
    /// Diagonal lines going right (top-left to bottom-right).
    Right,
}

/// The resolved set of CSS properties for a widget after the cascade.
#[derive(Clone, Debug, PartialEq)]
pub struct ComputedStyle<F> {
    /// Layout mode for this widget's children.
    pub display: TcssDisplay,
    /// Flow direction for flex layout children.
    pub layout_direction: LayoutDirection,
    /// Explicit width constraint.
    pub width: TcssDimension<F>,
    /// Explicit height constraint.
    pub height: TcssDimension<F>,
    /// Minimum width constraint.
    pub min_width: TcssDimension<F>,
    /// Minimum height constraint.
    pub min_height: TcssDimension<F>,
    /// Maximum width constraint.
    pub max_width: TcssDimension<F>,
    /// Maximum height constraint.
    pub max_height: TcssDimension<F>,
    /// Inner spacing between border and content.
    pub padding: Sides<F>,
    /// Outer spacing between this widget and siblings.
    pub margin: Sides<F>,
    /// Border drawing style.
    pub border: BorderStyle,
    /// Optional title text shown in the border.
    pub border_title: Option<String>,
    /// Foreground text color.
    pub color: TcssColor,
    /// Background fill color.
    pub background: TcssColor,
    /// Horizontal text alignment.
    pub text_align: TextAlign,
    /// Content overflow behavior.
    pub overflow: Overflow,
    /// Whether to reserve space for a scrollbar even when not scrolling.
    pub scrollbar_gutter: bool,
    /// Whether the widget is rendered or hidden.
    pub visibility: Visibility,
    /// Transparency multiplier (0 = fully transparent, 1 = opaque).
    pub opacity: F,
    /// Edge this widget is docked to, if any.
    pub dock: Option<DockEdge>,
    /// Flex grow factor for proportional size allocation.
    pub flex_grow: F,
    /// Grid column track definitions.
    pub grid_columns: Option<Vec<TcssDimension<F>>>,
    /// Grid row track definitions.
    pub grid_rows: Option<Vec<TcssDimension<F>>>,
    /// Hatch pattern background fill.
    pub hatch: Option<HatchStyle>,
    /// Keyline color for grid separators.
    pub keyline: Option<TcssColor>,
}

/// A parsed CSS property value before or after theme variable resolution.
#[derive(Clone, Debug, PartialEq)]
pub enum TcssValue<F> {
    /// A sizing dimension (length, percent, fraction, or auto).
    Dimension(TcssDimension<F>),
    /// A resolved RGB/RGBA color.
    Color(TcssColor),
    /// A border style without an explicit color.
    Border(BorderStyle),
    /// Border style and color shorthand (e.g. `border: solid #4a4a5a`).
    BorderWithColor(BorderStyle, TcssColor),
    /// A display mode value.
    Display(TcssDisplay),
    /// A text alignment value.
    TextAlign(TextAlign),
    /// An overflow behavior value.
    Overflow(Overflow),
    /// A visibility value.
    Visibility(Visibility),
    /// A bare number (opacity, flex-grow, padding cell count).
    Float(F),
    /// A quoted string value.
    String(String),
    /// A boolean flag value.
    Bool(bool),
    /// A dock-edge placement value.
    DockEdge(DockEdge),
    /// A layout direction value.
    LayoutDirection(LayoutDirection),
    /// Shorthand with all four sides (padding/margin with 2+ values).
    Sides(Sides<F>),
    /// List of dimensions (grid-template-columns/rows).
    Dimensions(Vec<TcssDimension<F>>),
    /// Border style and an unresolved theme variable (e.g. `border: tall $primary`).
    BorderWithVariable(BorderStyle, String),
    /// Unresolved theme variable reference (e.g., `primary`, `accent-darken-1`).
    Variable(String),
    /// Hatch pattern fill (e.g., `hatch: cross`).
    Hatch(HatchStyle),
    /// Keyline separator color between grid children.
    Keyline(TcssColor),
    /// Keyline with an unresolved theme variable.
    KeylineVariable(String),
}

/// A single parsed CSS property-value pair.
#[derive(Clone, Debug, PartialEq)]
pub struct Declaration<F> {
    /// The CSS property name (e.g., `"color"`, `"width"`).
    pub property: String,
    /// The parsed value for this property.
    pub value: TcssValue<F>,
}

/// The abstract content of a computed style: strings as character
/// sequences, lists as sequences.
pub struct ComputedStyleView<F> {
    pub display: TcssDisplay,
    pub layout_direction: LayoutDirection,
    pub width: TcssDimension<F>,
    pub height: TcssDimension<F>,
    pub min_width: TcssDimension<F>,
    pub min_height: TcssDimension<F>,
    pub max_width: TcssDimension<F>,
    pub max_height: TcssDimension<F>,
    pub padding: Sides<F>,
    pub margin: Sides<F>,
    pub border: BorderStyle,
    pub border_title: Option<Seq<char>>,
    pub color: TcssColor,
    pub background: TcssColor,
    pub text_align: TextAlign,
    pub overflow: Overflow,
    pub scrollbar_gutter: bool,
    pub visibility: Visibility,
    pub opacity: F,
    pub dock: Option<DockEdge>,
    pub flex_grow: F,
    pub grid_columns: Option<Seq<TcssDimension<F>>>,
    pub grid_rows: Option<Seq<TcssDimension<F>>>,
    pub hatch: Option<HatchStyle>,
    pub keyline: Option<TcssColor>,
}

pub open spec fn opt_string_view(s: Option<String>) -> Option<Seq<char>> {
    match s {
        Some(t) => Some(t@),
        None => None,
    }
}

pub open spec fn opt_vec_view<T>(v: Option<Vec<T>>) -> Option<Seq<T>> {
    match v {
        Some(w) => Some(w@),
        None => None,
    }
}

impl<F> View for ComputedStyle<F> {
    type V = ComputedStyleView<F>;

    open spec fn view(&self) -> ComputedStyleView<F> {
        ComputedStyleView {
            display: self.display,
            layout_direction: self.layout_direction,
            width: self.width,
            height: self.height,
            min_width: self.min_width,
            min_height: self.min_height,
            max_width: self.max_width,
            max_height: self.max_height,
            padding: self.padding,
            margin: self.margin,
            border: self.border,
            border_title: opt_string_view(self.border_title),
            color: self.color,
            background: self.background,
            text_align: self.text_align,
            overflow: self.overflow,
            scrollbar_gutter: self.scrollbar_gutter,
            visibility: self.visibility,
            opacity: self.opacity,
            dock: self.dock,
            flex_grow: self.flex_grow,
            grid_columns: opt_vec_view(self.grid_columns),
            grid_rows: opt_vec_view(self.grid_rows),
            hatch: self.hatch,
            keyline: self.keyline,
        }
    }
}

/// The style properties that declarations can set.
#[derive(Clone, Copy, Debug, PartialEq, Eq, Structural)]
pub enum CssProperty {
    /// `color`
    Color,
    /// `background`
    Background,
    /// `border`
    Border,
    /// `border-title`
    BorderTitle,
    /// `padding`
    Padding,
    /// `margin`
    Margin,
    /// `width`
    Width,
    /// `height`
    Height,
    /// `min-width`
    MinWidth,
    /// `min-height`
    MinHeight,
    /// `max-width`
    MaxWidth,
    /// `max-height`
    MaxHeight,
    /// `display`
    Display,
    /// `visibility`
    Visibility,
    /// `opacity`
    Opacity,
    /// `text-align`
    TextAlign,
    /// `overflow`
    Overflow,
    /// `scrollbar-gutter`
    ScrollbarGutter,
    /// `dock`
    Dock,
    /// `flex-grow`
    FlexGrow,
    /// `grid-template-columns`
    GridTemplateColumns,
    /// `grid-template-rows`
    GridTemplateRows,
    /// `layout-direction`
    LayoutDirection,
    /// `hatch`
    Hatch,
    /// `keyline`
    Keyline,
    /// Any other property name: ignored.
    Unknown,
}

/// The property that a property name denotes.
pub open spec fn property_of(p: Seq<char>) -> CssProperty {
    if p == "color"@ {
        CssProperty::Color
    } else if p == "background"@ {
        CssProperty::Background
    } else if p == "border"@ {
        CssProperty::Border
    } else if p == "border-title"@ {
        CssProperty::BorderTitle
    } else if p == "padding"@ {
        CssProperty::Padding
    } else if p == "margin"@ {
        CssProperty::Margin
    } else if p == "width"@ {
        CssProperty::Width
    } else if p == "height"@ {
        CssProperty::Height
    } else if p == "min-width"@ {
        CssProperty::MinWidth
    } else if p == "min-height"@ {
        CssProperty::MinHeight
    } else if p == "max-width"@ {
        CssProperty::MaxWidth
    } else if p == "max-height"@ {
        CssProperty::MaxHeight
    } else if p == "display"@ {
        CssProperty::Display
    } else if p == "visibility"@ {
        CssProperty::Visibility
    } else if p == "opacity"@ {
        CssProperty::Opacity
    } else if p == "text-align"@ {
        CssProperty::TextAlign
    } else if p == "overflow"@ {
        CssProperty::Overflow
    } else if p == "scrollbar-gutter"@ {
        CssProperty::ScrollbarGutter
    } else if p == "dock"@ {
        CssProperty::Dock
    } else if p == "flex-grow"@ {
        CssProperty::FlexGrow
    } else if p == "grid-template-columns"@ {
        CssProperty::GridTemplateColumns
    } else if p == "grid-template-rows"@ {
        CssProperty::GridTemplateRows
    } else if p == "layout-direction"@ {
        CssProperty::LayoutDirection
    } else if p == "hatch"@ {
        CssProperty::Hatch
    } else if p == "keyline"@ {
        CssProperty::Keyline
    } else {
        CssProperty::Unknown
    }
}

/// The property that a property name denotes.
pub fn parse_property(p: &str) -> (r: CssProperty)
    ensures
        r == property_of(p@),
{
    if str_eq(p, "color") {
        CssProperty::Color
    } else if str_eq(p, "background") {
        CssProperty::Background
    } else if str_eq(p, "border") {
        CssProperty::Border
    } else if str_eq(p, "border-title") {
        CssProperty::BorderTitle
    } else if str_eq(p, "padding") {
        CssProperty::Padding
    } else if str_eq(p, "margin") {
        CssProperty::Margin
    } else if str_eq(p, "width") {
        CssProperty::Width
    } else if str_eq(p, "height") {
        CssProperty::Height
    } else if str_eq(p, "min-width") {
        CssProperty::MinWidth
    } else if str_eq(p, "min-height") {
        CssProperty::MinHeight
    } else if str_eq(p, "max-width") {
        CssProperty::MaxWidth
    } else if str_eq(p, "max-height") {
        CssProperty::MaxHeight
    } else if str_eq(p, "display") {
        CssProperty::Display
    } else if str_eq(p, "visibility") {
        CssProperty::Visibility
    } else if str_eq(p, "opacity") {
        CssProperty::Opacity
    } else if str_eq(p, "text-align") {
        CssProperty::TextAlign
    } else if str_eq(p, "overflow") {
        CssProperty::Overflow
    } else if str_eq(p, "scrollbar-gutter") {
        CssProperty::ScrollbarGutter
    } else if str_eq(p, "dock") {
        CssProperty::Dock
    } else if str_eq(p, "flex-grow") {
        CssProperty::FlexGrow
    } else if str_eq(p, "grid-template-columns") {
        CssProperty::GridTemplateColumns
    } else if str_eq(p, "grid-template-rows") {
        CssProperty::GridTemplateRows
    } else if str_eq(p, "layout-direction") {
        CssProperty::LayoutDirection
    } else if str_eq(p, "hatch") {
        CssProperty::Hatch
    } else if str_eq(p, "keyline") {
        CssProperty::Keyline
    } else {
        CssProperty::Unknown
    }
}

/// Whether the cascade knows a property name.
pub open spec fn is_known_property(p: Seq<char>) -> bool {
    property_of(p) != CssProperty::Unknown
}

/// One declaration applied to a style: a known property whose value has the
/// kind the property takes overwrites that property; anything else changes
/// nothing.
pub open spec fn apply_decl<F>(s: ComputedStyleView<F>, d: Declaration<F>) -> ComputedStyleView<F> {
    match property_of(d.property@) {
    CssProperty::Color => {
        match d.value {
            TcssValue::Color(c) => ComputedStyleView { color: c, ..s },
            _ => s,
        }
    },
    CssProperty::Background => {
        match d.value {
            TcssValue::Color(c) => ComputedStyleView { background: c, ..s },
            _ => s,
        }
    },
    CssProperty::Border => {
        match d.value {
            TcssValue::Border(b) => ComputedStyleView { border: b, ..s },
            TcssValue::BorderWithColor(b, c) => ComputedStyleView { border: b, color: c, ..s },
            _ => s,
        }
    },
    CssProperty::BorderTitle => {
        match d.value {
            TcssValue::String(t) => ComputedStyleView { border_title: Some(t@), ..s },
            _ => s,
        }
    },
    CssProperty::Padding => {
        match d.value {
            TcssValue::Float(v) => ComputedStyleView {
                padding: Sides { top: v, right: v, bottom: v, left: v },
                ..s
            },
            TcssValue::Sides(x) => ComputedStyleView { padding: x, ..s },
            _ => s,
        }
    },
    CssProperty::Margin => {
        match d.value {
            TcssValue::Float(v) => ComputedStyleView {
                margin: Sides { top: v, right: v, bottom: v, left: v },
                ..s
            },
            TcssValue::Sides(x) => ComputedStyleView { margin: x, ..s },
            _ => s,
        }
    },
    CssProperty::Width => {
        match d.value {
            TcssValue::Dimension(x) => ComputedStyleView { width: x, ..s },
            _ => s,
        }
    },
    CssProperty::Height => {
        match d.value {
            TcssValue::Dimension(x) => ComputedStyleView { height: x, ..s },
            _ => s,
        }
    },
    CssProperty::MinWidth => {
        match d.value {
            TcssValue::Dimension(x) => ComputedStyleView { min_width: x, ..s },
            _ => s,
        }
    },
    CssProperty::MinHeight => {
        match d.value {
            TcssValue::Dimension(x) => ComputedStyleView { min_height: x, ..s },
            _ => s,
        }
    },
    CssProperty::MaxWidth => {
        match d.value {
            TcssValue::Dimension(x) => ComputedStyleView { max_width: x, ..s },
            _ => s,
        }
    },
    CssProperty::MaxHeight => {
        match d.value {
            TcssValue::Dimension(x) => ComputedStyleView { max_height: x, ..s },
            _ => s,
        }
    },
    CssProperty::Display => {
        match d.value {
            TcssValue::Display(x) => ComputedStyleView { display: x, ..s },
            _ => s,
        }
    },
    CssProperty::Visibility => {
        match d.value {
            TcssValue::Visibility(x) => ComputedStyleView { visibility: x, ..s },
            _ => s,
        }
    },
    CssProperty::Opacity => {
        match d.value {
            TcssValue::Float(v) => ComputedStyleView { opacity: v, ..s },
            _ => s,
        }
    },
    CssProperty::TextAlign => {
        match d.value {
            TcssValue::TextAlign(x) => ComputedStyleView { text_align: x, ..s },
            _ => s,
        }
    },
    CssProperty::Overflow => {
        match d.value {
            TcssValue::Overflow(x) => ComputedStyleView { overflow: x, ..s },
            _ => s,
        }
    },
    CssProperty::ScrollbarGutter => {
        match d.value {
            TcssValue::Bool(b) => ComputedStyleView { scrollbar_gutter: b, ..s },
            _ => s,
        }
    },
    CssProperty::Dock => {
        match d.value {
            TcssValue::DockEdge(e) => ComputedStyleView { dock: Some(e), ..s },
            _ => s,
        }
    },
    CssProperty::FlexGrow => {
        match d.value {
            TcssValue::Float(v) => ComputedStyleView { flex_grow: v, ..s },
            _ => s,
        }
    },
    CssProperty::GridTemplateColumns => {
        match d.value {
            TcssValue::Dimensions(dims) => ComputedStyleView { grid_columns: Some(dims@), ..s },
            _ => s,
        }
    },
    CssProperty::GridTemplateRows => {
        match d.value {
            TcssValue::Dimensions(dims) => ComputedStyleView { grid_rows: Some(dims@), ..s },
            _ => s,
        }
    },
    CssProperty::LayoutDirection => {
        match d.value {
            TcssValue::LayoutDirection(x) => ComputedStyleView { layout_direction: x, ..s },
            _ => s,
        }
    },
    CssProperty::Hatch => {
        match d.value {
            TcssValue::Hatch(h) => ComputedStyleView { hatch: Some(h), ..s },
            _ => s,
        }
    },
    CssProperty::Keyline => {
        match d.value {
            TcssValue::Keyline(c) => ComputedStyleView { keyline: Some(c), ..s },
            TcssValue::Color(c) => ComputedStyleView { keyline: Some(c), ..s },
            _ => s,
        }
    },
    CssProperty::Unknown => s,
    }
}

/// Declarations applied in order, each on the result of the ones before.
pub open spec fn apply_decls<F>(s: ComputedStyleView<F>, ds: Seq<Declaration<F>>) -> ComputedStyleView<F>
    decreases ds.len(),
{
    if ds.len() == 0 {
        s
    } else {
        apply_decl(apply_decls(s, ds.drop_last()), ds.last())
    }
}

/// A copy of a list of dimensions.
fn copy_dimensions<F: Copy>(v: &Vec<TcssDimension<F>>) -> (r: Vec<TcssDimension<F>>)
    ensures
        r@ == v@,
{
    let mut r: Vec<TcssDimension<F>> = Vec::new();
    let mut i: usize = 0;
    while i < v.len()
        invariant
            i <= v@.len(),
            r@ == v@.take(i as int),
        decreases v@.len() - i,
    {
        let d: TcssDimension<F> = v[i];
        r.push(d);
        i = i + 1;
        assert(r@ =~= v@.take(i as int));
    }
    assert(v@.take(i as int) =~= v@);
    r
}

impl<F: Copy> ComputedStyle<F> {
    /// Apply one declaration.
    fn apply_declaration(&mut self, decl: &Declaration<F>)
        ensures
            final(self)@ == apply_decl(old(self)@, *decl),
    {
        let prop = parse_property(decl.property.as_str());
        match prop {
        CssProperty::Color => {
            if let TcssValue::Color(c) = &decl.value {
                self.color = *c;
            }
        },
        CssProperty::Background => {
            if let TcssValue::Color(c) = &decl.value {
                self.background = *c;
            }
        },
        CssProperty::Border => {
            match &decl.value {
                TcssValue::Border(b) => self.border = *b,
                TcssValue::BorderWithColor(b, c) => {
                    self.border = *b;
                    self.color = *c;
                },
                _ => {},
            }
        },
        CssProperty::BorderTitle => {
            if let TcssValue::String(t) = &decl.value {
                self.border_title = Some(t.clone());
            }
        },
        CssProperty::Padding => {
            match &decl.value {
                TcssValue::Float(v) => {
                    self.padding = Sides { top: *v, right: *v, bottom: *v, left: *v };
                },
                TcssValue::Sides(x) => {
                    self.padding = *x;
                },
                _ => {},
            }
        },
        CssProperty::Margin => {
            match &decl.value {
                TcssValue::Float(v) => {
                    self.margin = Sides { top: *v, right: *v, bottom: *v, left: *v };
                },
                TcssValue::Sides(x) => {
                    self.margin = *x;
                },
                _ => {},
            }
        },
        CssProperty::Width => {
            if let TcssValue::Dimension(x) = &decl.value {
                self.width = *x;
            }
        },
        CssProperty::Height => {
            if let TcssValue::Dimension(x) = &decl.value {
                self.height = *x;
            }
        },
        CssProperty::MinWidth => {
            if let TcssValue::Dimension(x) = &decl.value {
                self.min_width = *x;
            }
        },
        CssProperty::MinHeight => {
            if let TcssValue::Dimension(x) = &decl.value {
                self.min_height = *x;
            }
        },
        CssProperty::MaxWidth => {
            if let TcssValue::Dimension(x) = &decl.value {
                self.max_width = *x;
            }
        },
        CssProperty::MaxHeight => {
            if let TcssValue::Dimension(x) = &decl.value {
                self.max_height = *x;
            }
        },
        _ => self.apply_layout_declaration(decl, prop),
        }
    }

    /// Apply one declaration of a display, visibility, layout or grid property.
    fn apply_layout_declaration(&mut self, decl: &Declaration<F>, prop: CssProperty)
        requires
            prop == property_of(decl.property@),
            !(prop is Color || prop is Background || prop is Border || prop is BorderTitle
                || prop is Padding || prop is Margin || prop is Width || prop is Height
                || prop is MinWidth || prop is MinHeight || prop is MaxWidth || prop is MaxHeight),
        ensures
            final(self)@ == apply_decl(old(self)@, *decl),
    {
        match prop {
        CssProperty::Color => {},
        CssProperty::Background => {},
        CssProperty::Border => {},
        CssProperty::BorderTitle => {},
        CssProperty::Padding => {},
        CssProperty::Margin => {},
        CssProperty::Width => {},
        CssProperty::Height => {},
        CssProperty::MinWidth => {},
        CssProperty::MinHeight => {},
        CssProperty::MaxWidth => {},
        CssProperty::MaxHeight => {},
        CssProperty::Display => {
            if let TcssValue::Display(x) = &decl.value {
                self.display = *x;
            }
        },
        CssProperty::Visibility => {
            if let TcssValue::Visibility(x) = &decl.value {
                self.visibility = *x;
            }
        },
        CssProperty::Opacity => {
            if let TcssValue::Float(v) = &decl.value {
                self.opacity = *v;
            }
        },
        CssProperty::TextAlign => {
            if let TcssValue::TextAlign(x) = &decl.value {
                self.text_align = *x;
            }
        },
        CssProperty::Overflow => {
            if let TcssValue::Overflow(x) = &decl.value {
                self.overflow = *x;
            }
        },
        CssProperty::ScrollbarGutter => {
            if let TcssValue::Bool(b) = &decl.value {
                self.scrollbar_gutter = *b;
            }
        },
        CssProperty::Dock => {
            if let TcssValue::DockEdge(e) = &decl.value {
                self.dock = Some(*e);
            }
        },
        CssProperty::FlexGrow => {
            if let TcssValue::Float(v) = &decl.value {
                self.flex_grow = *v;
            }
        },
        CssProperty::GridTemplateColumns => {
            if let TcssValue::Dimensions(dims) = &decl.value {
                self.grid_columns = Some(copy_dimensions(dims));
            }
        },
        CssProperty::GridTemplateRows => {
            if let TcssValue::Dimensions(dims) = &decl.value {
                self.grid_rows = Some(copy_dimensions(dims));
            }
        },
        CssProperty::LayoutDirection => {
            if let TcssValue::LayoutDirection(x) = &decl.value {
                self.layout_direction = *x;
            }
        },
        CssProperty::Hatch => {
            if let TcssValue::Hatch(h) = &decl.value {
                self.hatch = Some(*h);
            }
        },
        CssProperty::Keyline => {
            match &decl.value {
                TcssValue::Keyline(c) => self.keyline = Some(*c),
                TcssValue::Color(c) => self.keyline = Some(*c),
                _ => {},
            }
        },
        CssProperty::Unknown => {},
        }
    }

    /// Apply a list of CSS declarations to this style, in order, each
    /// overwriting what the ones before it set.
    pub fn apply_declarations(&mut self, decls: &[Declaration<F>])
        ensures
            final(self)@ == apply_decls(old(self)@, decls@),
    {
        let mut i: usize = 0;
        while i < decls.len()
            invariant
                i <= decls@.len(),
                self@ == apply_decls(old(self)@, decls@.take(i as int)),
            decreases decls@.len() - i,
        {
            let decl = &decls[i];
            self.apply_declaration(decl);
            i = i + 1;
            assert(decls@.take(i as int).drop_last() =~= decls@.take(i - 1));
        }
        assert(decls@.take(i as int) =~= decls@);
    }
}

impl<F: Copy + Default + From<u8>> Default for ComputedStyle<F> {
    /// The initial style: flex layout flowing vertically, every size `Auto`,
    /// no border, default colors, left-aligned, visible, opacity one, flex
    /// grow zero, nothing docked, no grid tracks, hatch or keyline.
    fn default() -> (s: Self)
        ensures
            s.display == TcssDisplay::Flex,
            s.layout_direction == LayoutDirection::Vertical,
            s.width == TcssDimension::<F>::Auto,
            s.height == TcssDimension::<F>::Auto,
            s.min_width == TcssDimension::<F>::Auto,
            s.min_height == TcssDimension::<F>::Auto,
            s.max_width == TcssDimension::<F>::Auto,
            s.max_height == TcssDimension::<F>::Auto,
            call_ensures(F::default, (), s.padding.top),
            call_ensures(F::default, (), s.padding.right),
            call_ensures(F::default, (), s.padding.bottom),
            call_ensures(F::default, (), s.padding.left),
            call_ensures(F::default, (), s.margin.top),
            call_ensures(F::default, (), s.margin.right),
            call_ensures(F::default, (), s.margin.bottom),
            call_ensures(F::default, (), s.margin.left),
            s.border == BorderStyle::NoBorder,
            s.border_title is None,
            s.color == TcssColor::Reset,
            s.background == TcssColor::Reset,
            s.text_align == TextAlign::Left,
            s.overflow == Overflow::Visible,
            !s.scrollbar_gutter,
            s.visibility == Visibility::Visible,
            F::obeys_from_spec() ==> s.opacity == F::from_spec(1u8),
            s.dock is None,
            F::obeys_from_spec() ==> s.flex_grow == F::from_spec(0u8),
            s.grid_columns is None,
            s.grid_rows is None,
            s.hatch is None,
            s.keyline is None,
    {
        ComputedStyle {
            display: TcssDisplay::Flex,
            layout_direction: LayoutDirection::Vertical,
            width: TcssDimension::Auto,
            height: TcssDimension::Auto,
            min_width: TcssDimension::Auto,
            min_height: TcssDimension::Auto,
            max_width: TcssDimension::Auto,
            max_height: TcssDimension::Auto,
            padding: Sides::default(),
            margin: Sides::default(),
            border: BorderStyle::NoBorder,
            border_title: None,
            color: TcssColor::Reset,
            background: TcssColor::Reset,
            text_align: TextAlign::Left,
            overflow: Overflow::Visible,
            scrollbar_gutter: false,
            visibility: Visibility::Visible,
            opacity: F::from(1u8),
            dock: None,
            flex_grow: F::from(0u8),
            grid_columns: None,
            grid_rows: None,
            hatch: None,
            keyline: None,
        }
    }
}

// ---------------------------------------------------------------------------
// Laws of the cascade
// ---------------------------------------------------------------------------

/// Whether a declaration's value has the kind its property takes, so that
/// applying it sets the property.
pub open spec fn declaration_applies<F>(d: Declaration<F>) -> bool {
    match property_of(d.property@) {
        CssProperty::Color => d.value is Color,
        CssProperty::Background => d.value is Color,
        CssProperty::Border => d.value is Border || d.value is BorderWithColor,
        CssProperty::BorderTitle => d.value is String,
        CssProperty::Padding => d.value is Float || d.value is Sides,
        CssProperty::Margin => d.value is Float || d.value is Sides,
        CssProperty::Width => d.value is Dimension,
        CssProperty::Height => d.value is Dimension,
        CssProperty::MinWidth => d.value is Dimension,
        CssProperty::MinHeight => d.value is Dimension,
        CssProperty::MaxWidth => d.value is Dimension,
        CssProperty::MaxHeight => d.value is Dimension,
        CssProperty::Display => d.value is Display,
        CssProperty::Visibility => d.value is Visibility,
        CssProperty::Opacity => d.value is Float,
        CssProperty::TextAlign => d.value is TextAlign,
        CssProperty::Overflow => d.value is Overflow,
        CssProperty::ScrollbarGutter => d.value is Bool,
        CssProperty::Dock => d.value is DockEdge,
        CssProperty::FlexGrow => d.value is Float,
        CssProperty::GridTemplateColumns => d.value is Dimensions,
        CssProperty::GridTemplateRows => d.value is Dimensions,
        CssProperty::LayoutDirection => d.value is LayoutDirection,
        CssProperty::Hatch => d.value is Hatch,
        CssProperty::Keyline => d.value is Keyline || d.value is Color,
        CssProperty::Unknown => false,
    }
}

/// Applying two lists of declarations one after the other is applying
/// their concatenation.
pub proof fn lemma_apply_concat<F>(
    s: ComputedStyleView<F>,
    a: Seq<Declaration<F>>,
    b: Seq<Declaration<F>>,
)
    ensures
        apply_decls(s, a + b) == apply_decls(apply_decls(s, a), b),
    decreases b.len(),
{
    if b.len() == 0 {
        assert(a + b =~= a);
    } else {
        lemma_apply_concat(s, a, b.drop_last());
        assert((a + b).drop_last() =~= a + b.drop_last());
        assert((a + b).last() == b.last());
    }
}

/// A declaration of an unknown property, or one whose value does not fit
/// its property, leaves the style as it was.
pub proof fn lemma_inapplicable_ignored<F>(s: ComputedStyleView<F>, d: Declaration<F>)
    requires
        !declaration_applies(d),
    ensures
        apply_decl(s, d) == s,
{
}

/// A later declaration of a property overwrites an earlier one of the same
/// property: the earlier one leaves no trace, except that a plain `border`
/// keeps the color that an earlier `border` with color set.
pub proof fn lemma_later_declaration_wins<F>(
    s: ComputedStyleView<F>,
    d1: Declaration<F>,
    d2: Declaration<F>,
)
    requires
        d1.property@ == d2.property@,
        declaration_applies(d2),
        !(property_of(d2.property@) == CssProperty::Border && d2.value is Border),
    ensures
        apply_decl(apply_decl(s, d1), d2) == apply_decl(s, d2),
{
    let p = property_of(d2.property@);
    let t = apply_decl(s, d1);
    match p {
        CssProperty::Color => {},
        CssProperty::Background => {},
        CssProperty::Border => {},
        CssProperty::BorderTitle => {},
        CssProperty::Padding => {},
        CssProperty::Margin => {},
        CssProperty::Width => {},
        CssProperty::Height => {},
        CssProperty::MinWidth => {},
        CssProperty::MinHeight => {},
        CssProperty::MaxWidth => {},
        CssProperty::MaxHeight => {},
        CssProperty::Display => {},
        CssProperty::Visibility => {},
        CssProperty::Opacity => {},
        CssProperty::TextAlign => {},
        CssProperty::Overflow => {},
        CssProperty::ScrollbarGutter => {},
        CssProperty::Dock => {},
        CssProperty::FlexGrow => {},
        CssProperty::GridTemplateColumns => {},
        CssProperty::GridTemplateRows => {},
        CssProperty::LayoutDirection => {},
        CssProperty::Hatch => {},
        CssProperty::Keyline => {},
        CssProperty::Unknown => {},
    }
}

} // verus!
