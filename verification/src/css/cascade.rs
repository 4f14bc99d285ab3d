//! What a list of declarations does to a style, field by field.
//!
//! Each declaration writes some fields of the style (most one, a `border`
//! with a color two) and leaves the others alone. Collecting what a list
//! writes into a patch shows that applying a list is overlaying one patch:
//! each field ends with the value of the last declaration that writes it,
//! and applying the same list twice is applying it once.
use vstd::prelude::*;

use crate::css::types::{
    apply_decl, apply_decls, property_of, BorderStyle, ComputedStyleView, CssProperty,
    Declaration, DockEdge, HatchStyle, LayoutDirection, Overflow, Sides, TcssColor,
    TcssDimension, TcssDisplay, TcssValue, TextAlign, Visibility,
};

verus! {

/// The fields that declarations write, each `None` where nothing is written.
pub struct StylePatch<F> {
    pub display: Option<TcssDisplay>,
    pub layout_direction: Option<LayoutDirection>,
    pub width: Option<TcssDimension<F>>,
    pub height: Option<TcssDimension<F>>,
    pub min_width: Option<TcssDimension<F>>,
    pub min_height: Option<TcssDimension<F>>,
    pub max_width: Option<TcssDimension<F>>,
    pub max_height: Option<TcssDimension<F>>,
    pub padding: Option<Sides<F>>,
    pub margin: Option<Sides<F>>,
    pub border: Option<BorderStyle>,
    pub border_title: Option<Option<Seq<char>>>,
    pub color: Option<TcssColor>,
    pub background: Option<TcssColor>,
    pub text_align: Option<TextAlign>,
    pub overflow: Option<Overflow>,
    pub scrollbar_gutter: Option<bool>,
    pub visibility: Option<Visibility>,
    pub opacity: Option<F>,
    pub dock: Option<Option<DockEdge>>,
    pub flex_grow: Option<F>,
    pub grid_columns: Option<Option<Seq<TcssDimension<F>>>>,
    pub grid_rows: Option<Option<Seq<TcssDimension<F>>>>,
    pub hatch: Option<Option<HatchStyle>>,
    pub keyline: Option<Option<TcssColor>>,
}

/// The patch that writes nothing.
pub open spec fn empty_patch<F>() -> StylePatch<F> {
    StylePatch {
        display: None,
        layout_direction: None,
        width: None,
        height: None,
        min_width: None,
        min_height: None,
        max_width: None,
        max_height: None,
        padding: None,
        margin: None,
        border: None,
        border_title: None,
        color: None,
        background: None,
        text_align: None,
        overflow: None,
        scrollbar_gutter: None,
        visibility: None,
        opacity: None,
        dock: None,
        flex_grow: None,
        grid_columns: None,
        grid_rows: None,
        hatch: None,
        keyline: None,
    }
}

/// The written value if there is one, else the value already there.
pub open spec fn pick<T>(written: Option<T>, current: T) -> T {
    match written {
        Some(v) => v,
        None => current,
    }
}

/// Of two writes of a field, the later one where it exists.
pub open spec fn later<T>(first: Option<T>, second: Option<T>) -> Option<T> {
    match second {
        Some(v) => Some(v),
        None => first,
    }
}

/// The style with the patch's written fields put in.
pub open spec fn overlay<F>(s: ComputedStyleView<F>, p: StylePatch<F>) -> ComputedStyleView<F> {
    ComputedStyleView {
        display: pick(p.display, s.display),
        layout_direction: pick(p.layout_direction, s.layout_direction),
        width: pick(p.width, s.width),
        height: pick(p.height, s.height),
        min_width: pick(p.min_width, s.min_width),
        min_height: pick(p.min_height, s.min_height),
        max_width: pick(p.max_width, s.max_width),
        max_height: pick(p.max_height, s.max_height),
        padding: pick(p.padding, s.padding),
        margin: pick(p.margin, s.margin),
        border: pick(p.border, s.border),
        border_title: pick(p.border_title, s.border_title),
        color: pick(p.color, s.color),
        background: pick(p.background, s.background),
        text_align: pick(p.text_align, s.text_align),
        overflow: pick(p.overflow, s.overflow),
        scrollbar_gutter: pick(p.scrollbar_gutter, s.scrollbar_gutter),
        visibility: pick(p.visibility, s.visibility),
        opacity: pick(p.opacity, s.opacity),
        dock: pick(p.dock, s.dock),
        flex_grow: pick(p.flex_grow, s.flex_grow),
        grid_columns: pick(p.grid_columns, s.grid_columns),
        grid_rows: pick(p.grid_rows, s.grid_rows),
        hatch: pick(p.hatch, s.hatch),
        keyline: pick(p.keyline, s.keyline),
    }
}

/// Patch `p` followed by patch `q`: each field as `q` writes it, or else
/// as `p` does.
pub open spec fn compose<F>(p: StylePatch<F>, q: StylePatch<F>) -> StylePatch<F> {
    StylePatch {
        display: later(p.display, q.display),
        layout_direction: later(p.layout_direction, q.layout_direction),
        width: later(p.width, q.width),
        height: later(p.height, q.height),
        min_width: later(p.min_width, q.min_width),
        min_height: later(p.min_height, q.min_height),
        max_width: later(p.max_width, q.max_width),
        max_height: later(p.max_height, q.max_height),
        padding: later(p.padding, q.padding),
        margin: later(p.margin, q.margin),
        border: later(p.border, q.border),
        border_title: later(p.border_title, q.border_title),
        color: later(p.color, q.color),
        background: later(p.background, q.background),
        text_align: later(p.text_align, q.text_align),
        overflow: later(p.overflow, q.overflow),
        scrollbar_gutter: later(p.scrollbar_gutter, q.scrollbar_gutter),
        visibility: later(p.visibility, q.visibility),
        opacity: later(p.opacity, q.opacity),
        dock: later(p.dock, q.dock),
        flex_grow: later(p.flex_grow, q.flex_grow),
        grid_columns: later(p.grid_columns, q.grid_columns),
        grid_rows: later(p.grid_rows, q.grid_rows),
        hatch: later(p.hatch, q.hatch),
        keyline: later(p.keyline, q.keyline),
    }
}

/// The patch that one declaration writes: the field (or, for a `border`
/// with a color, the two fields) of its property when its value has the
/// kind the property takes; nothing otherwise.
pub open spec fn patch_of<F>(d: Declaration<F>) -> StylePatch<F> {
    let e = empty_patch::<F>();
    match property_of(d.property@) {
        CssProperty::Color => match d.value {
            TcssValue::Color(c) => StylePatch { color: Some(c), ..e },
            _ => e,
        },
        CssProperty::Background => match d.value {
            TcssValue::Color(c) => StylePatch { background: Some(c), ..e },
            _ => e,
        },
        CssProperty::Border => match d.value {
            TcssValue::Border(b) => StylePatch { border: Some(b), ..e },
            TcssValue::BorderWithColor(b, c) => StylePatch { border: Some(b), color: Some(c), ..e },
            _ => e,
        },
        CssProperty::BorderTitle => match d.value {
            TcssValue::String(t) => StylePatch { border_title: Some(Some(t@)), ..e },
            _ => e,
        },
        CssProperty::Padding => match d.value {
            TcssValue::Float(v) => StylePatch {
                padding: Some(Sides { top: v, right: v, bottom: v, left: v }),
                ..e
            },
            TcssValue::Sides(x) => StylePatch { padding: Some(x), ..e },
            _ => e,
        },
        CssProperty::Margin => match d.value {
            TcssValue::Float(v) => StylePatch {
                margin: Some(Sides { top: v, right: v, bottom: v, left: v }),
                ..e
            },
            TcssValue::Sides(x) => StylePatch { margin: Some(x), ..e },
            _ => e,
        },
        CssProperty::Width => match d.value {
            TcssValue::Dimension(x) => StylePatch { width: Some(x), ..e },
            _ => e,
        },
        CssProperty::Height => match d.value {
            TcssValue::Dimension(x) => StylePatch { height: Some(x), ..e },
            _ => e,
        },
        CssProperty::MinWidth => match d.value {
            TcssValue::Dimension(x) => StylePatch { min_width: Some(x), ..e },
            _ => e,
        },
        CssProperty::MinHeight => match d.value {
            TcssValue::Dimension(x) => StylePatch { min_height: Some(x), ..e },
            _ => e,
        },
        CssProperty::MaxWidth => match d.value {
            TcssValue::Dimension(x) => StylePatch { max_width: Some(x), ..e },
            _ => e,
        },
        CssProperty::MaxHeight => match d.value {
            TcssValue::Dimension(x) => StylePatch { max_height: Some(x), ..e },
            _ => e,
        },
        CssProperty::Display => match d.value {
            TcssValue::Display(x) => StylePatch { display: Some(x), ..e },
            _ => e,
        },
        CssProperty::Visibility => match d.value {
            TcssValue::Visibility(x) => StylePatch { visibility: Some(x), ..e },
            _ => e,
        },
        CssProperty::Opacity => match d.value {
            TcssValue::Float(v) => StylePatch { opacity: Some(v), ..e },
            _ => e,
        },
        CssProperty::TextAlign => match d.value {
            TcssValue::TextAlign(x) => StylePatch { text_align: Some(x), ..e },
            _ => e,
        },
        CssProperty::Overflow => match d.value {
            TcssValue::Overflow(x) => StylePatch { overflow: Some(x), ..e },
            _ => e,
        },
        CssProperty::ScrollbarGutter => match d.value {
            TcssValue::Bool(b) => StylePatch { scrollbar_gutter: Some(b), ..e },
            _ => e,
        },
        CssProperty::Dock => match d.value {
            TcssValue::DockEdge(x) => StylePatch { dock: Some(Some(x)), ..e },
            _ => e,
        },
        CssProperty::FlexGrow => match d.value {
            TcssValue::Float(v) => StylePatch { flex_grow: Some(v), ..e },
            _ => e,
        },
        CssProperty::GridTemplateColumns => match d.value {
            TcssValue::Dimensions(dims) => StylePatch { grid_columns: Some(Some(dims@)), ..e },
            _ => e,
        },
        CssProperty::GridTemplateRows => match d.value {
            TcssValue::Dimensions(dims) => StylePatch { grid_rows: Some(Some(dims@)), ..e },
            _ => e,
        },
        CssProperty::LayoutDirection => match d.value {
            TcssValue::LayoutDirection(x) => StylePatch { layout_direction: Some(x), ..e },
            _ => e,
        },
        CssProperty::Hatch => match d.value {
            TcssValue::Hatch(h) => StylePatch { hatch: Some(Some(h)), ..e },
            _ => e,
        },
        CssProperty::Keyline => match d.value {
            TcssValue::Keyline(c) => StylePatch { keyline: Some(Some(c)), ..e },
            TcssValue::Color(c) => StylePatch { keyline: Some(Some(c)), ..e },
            _ => e,
        },
        CssProperty::Unknown => e,
    }
}

/// The patch that a list of declarations writes, later ones over earlier.
pub open spec fn patch_of_list<F>(ds: Seq<Declaration<F>>) -> StylePatch<F>
    decreases ds.len(),
{
    if ds.len() == 0 {
        empty_patch()
    } else {
        compose(patch_of_list(ds.drop_last()), patch_of(ds.last()))
    }
}

/// The fields of a style.
#[derive(Clone, Copy, Debug, PartialEq, Eq, Structural)]
pub enum StyleField {
    Display,
    LayoutDirection,
    Width,
    Height,
    MinWidth,
    MinHeight,
    MaxWidth,
    MaxHeight,
    Padding,
    Margin,
    Border,
    BorderTitle,
    Color,
    Background,
    TextAlign,
    Overflow,
    ScrollbarGutter,
    Visibility,
    Opacity,
    Dock,
    FlexGrow,
    GridColumns,
    GridRows,
    Hatch,
    Keyline,
}

/// The value of one field of a style.
pub enum FieldValue<F> {
    Display(TcssDisplay),
    LayoutDirection(LayoutDirection),
    Dimension(TcssDimension<F>),
    Sides(Sides<F>),
    Border(BorderStyle),
    Title(Option<Seq<char>>),
    Color(TcssColor),
    TextAlign(TextAlign),
    Overflow(Overflow),
    Flag(bool),
    Visibility(Visibility),
    Number(F),
    Dock(Option<DockEdge>),
    Tracks(Option<Seq<TcssDimension<F>>>),
    Hatch(Option<HatchStyle>),
    Keyline(Option<TcssColor>),
}

/// Field `f` of style `s`.
pub open spec fn field_of<F>(s: ComputedStyleView<F>, f: StyleField) -> FieldValue<F> {
    match f {
        StyleField::Display => FieldValue::Display(s.display),
        StyleField::LayoutDirection => FieldValue::LayoutDirection(s.layout_direction),
        StyleField::Width => FieldValue::Dimension(s.width),
        StyleField::Height => FieldValue::Dimension(s.height),
        StyleField::MinWidth => FieldValue::Dimension(s.min_width),
        StyleField::MinHeight => FieldValue::Dimension(s.min_height),
        StyleField::MaxWidth => FieldValue::Dimension(s.max_width),
        StyleField::MaxHeight => FieldValue::Dimension(s.max_height),
        StyleField::Padding => FieldValue::Sides(s.padding),
        StyleField::Margin => FieldValue::Sides(s.margin),
        StyleField::Border => FieldValue::Border(s.border),
        StyleField::BorderTitle => FieldValue::Title(s.border_title),
        StyleField::Color => FieldValue::Color(s.color),
        StyleField::Background => FieldValue::Color(s.background),
        StyleField::TextAlign => FieldValue::TextAlign(s.text_align),
        StyleField::Overflow => FieldValue::Overflow(s.overflow),
        StyleField::ScrollbarGutter => FieldValue::Flag(s.scrollbar_gutter),
        StyleField::Visibility => FieldValue::Visibility(s.visibility),
        StyleField::Opacity => FieldValue::Number(s.opacity),
        StyleField::Dock => FieldValue::Dock(s.dock),
        StyleField::FlexGrow => FieldValue::Number(s.flex_grow),
        StyleField::GridColumns => FieldValue::Tracks(s.grid_columns),
        StyleField::GridRows => FieldValue::Tracks(s.grid_rows),
        StyleField::Hatch => FieldValue::Hatch(s.hatch),
        StyleField::Keyline => FieldValue::Keyline(s.keyline),
    }
}

/// What patch `p` writes to field `f`, if anything.
pub open spec fn patch_field<F>(p: StylePatch<F>, f: StyleField) -> Option<FieldValue<F>> {
    match f {
        StyleField::Display => match p.display {
            Some(v) => Some(FieldValue::Display(v)),
            None => None,
        },
        StyleField::LayoutDirection => match p.layout_direction {
            Some(v) => Some(FieldValue::LayoutDirection(v)),
            None => None,
        },
        StyleField::Width => match p.width {
            Some(v) => Some(FieldValue::Dimension(v)),
            None => None,
        },
        StyleField::Height => match p.height {
            Some(v) => Some(FieldValue::Dimension(v)),
            None => None,
        },
        StyleField::MinWidth => match p.min_width {
            Some(v) => Some(FieldValue::Dimension(v)),
            None => None,
        },
        StyleField::MinHeight => match p.min_height {
            Some(v) => Some(FieldValue::Dimension(v)),
            None => None,
        },
        StyleField::MaxWidth => match p.max_width {
            Some(v) => Some(FieldValue::Dimension(v)),
            None => None,
        },
        StyleField::MaxHeight => match p.max_height {
            Some(v) => Some(FieldValue::Dimension(v)),
            None => None,
        },
        StyleField::Padding => match p.padding {
            Some(v) => Some(FieldValue::Sides(v)),
            None => None,
        },
        StyleField::Margin => match p.margin {
            Some(v) => Some(FieldValue::Sides(v)),
            None => None,
        },
        StyleField::Border => match p.border {
            Some(v) => Some(FieldValue::Border(v)),
            None => None,
        },
        StyleField::BorderTitle => match p.border_title {
            Some(v) => Some(FieldValue::Title(v)),
            None => None,
        },
        StyleField::Color => match p.color {
            Some(v) => Some(FieldValue::Color(v)),
            None => None,
        },
        StyleField::Background => match p.background {
            Some(v) => Some(FieldValue::Color(v)),
            None => None,
        },
        StyleField::TextAlign => match p.text_align {
            Some(v) => Some(FieldValue::TextAlign(v)),
            None => None,
        },
        StyleField::Overflow => match p.overflow {
            Some(v) => Some(FieldValue::Overflow(v)),
            None => None,
        },
        StyleField::ScrollbarGutter => match p.scrollbar_gutter {
            Some(v) => Some(FieldValue::Flag(v)),
            None => None,
        },
        StyleField::Visibility => match p.visibility {
            Some(v) => Some(FieldValue::Visibility(v)),
            None => None,
        },
        StyleField::Opacity => match p.opacity {
            Some(v) => Some(FieldValue::Number(v)),
            None => None,
        },
        StyleField::Dock => match p.dock {
            Some(v) => Some(FieldValue::Dock(v)),
            None => None,
        },
        StyleField::FlexGrow => match p.flex_grow {
            Some(v) => Some(FieldValue::Number(v)),
            None => None,
        },
        StyleField::GridColumns => match p.grid_columns {
            Some(v) => Some(FieldValue::Tracks(v)),
            None => None,
        },
        StyleField::GridRows => match p.grid_rows {
            Some(v) => Some(FieldValue::Tracks(v)),
            None => None,
        },
        StyleField::Hatch => match p.hatch {
            Some(v) => Some(FieldValue::Hatch(v)),
            None => None,
        },
        StyleField::Keyline => match p.keyline {
            Some(v) => Some(FieldValue::Keyline(v)),
            None => None,
        },
    }
}

/// What declaration `d` writes to field `f`, if anything.
pub open spec fn writes<F>(d: Declaration<F>, f: StyleField) -> Option<FieldValue<F>> {
    patch_field(patch_of(d), f)
}

/// The value that the last declaration of `ds` writing field `f` writes
/// there, if any declaration does.
pub open spec fn last_write<F>(ds: Seq<Declaration<F>>, f: StyleField) -> Option<FieldValue<F>>
    decreases ds.len(),
{
    if ds.len() == 0 {
        None
    } else {
        later(last_write(ds.drop_last(), f), writes(ds.last(), f))
    }
}

/// One declaration overlays the patch it writes.
proof fn lemma_apply_decl_is_overlay<F>(s: ComputedStyleView<F>, d: Declaration<F>)
    ensures
        apply_decl(s, d) == overlay(s, patch_of(d)),
{
    match property_of(d.property@) {
        CssProperty::Color => {},
        CssProperty::Background => {},
        CssProperty::Border => {},
        CssProperty::BorderTitle => {},
        CssProperty::Padding => {},
        CssProperty::Margin => {},
        CssProperty::Width => {},
        CssProperty::Height => {},
        CssProperty::MinWidth => {},
        CssProperty::MinHeight => {},
        CssProperty::MaxWidth => {},
        CssProperty::MaxHeight => {},
        CssProperty::Display => {},
        CssProperty::Visibility => {},
        CssProperty::Opacity => {},
        CssProperty::TextAlign => {},
        CssProperty::Overflow => {},
        CssProperty::ScrollbarGutter => {},
        CssProperty::Dock => {},
        CssProperty::FlexGrow => {},
        CssProperty::GridTemplateColumns => {},
        CssProperty::GridTemplateRows => {},
        CssProperty::LayoutDirection => {},
        CssProperty::Hatch => {},
        CssProperty::Keyline => {},
        CssProperty::Unknown => {},
    }
}

/// Applying a list of declarations overlays the patch that the list
/// writes.
pub proof fn lemma_apply_is_overlay<F>(s: ComputedStyleView<F>, ds: Seq<Declaration<F>>)
    ensures
        apply_decls(s, ds) == overlay(s, patch_of_list(ds)),
    decreases ds.len(),
{
    if ds.len() > 0 {
        lemma_apply_is_overlay(s, ds.drop_last());
        lemma_apply_decl_is_overlay(apply_decls(s, ds.drop_last()), ds.last());
    }
}

/// What a composed patch writes to a field is what the second writes
/// there, or else what the first does.
proof fn lemma_compose_field<F>(p: StylePatch<F>, q: StylePatch<F>, f: StyleField)
    ensures
        patch_field(compose(p, q), f) == later(patch_field(p, f), patch_field(q, f)),
{
    match f {
        StyleField::Display => {},
        StyleField::LayoutDirection => {},
        StyleField::Width => {},
        StyleField::Height => {},
        StyleField::MinWidth => {},
        StyleField::MinHeight => {},
        StyleField::MaxWidth => {},
        StyleField::MaxHeight => {},
        StyleField::Padding => {},
        StyleField::Margin => {},
        StyleField::Border => {},
        StyleField::BorderTitle => {},
        StyleField::Color => {},
        StyleField::Background => {},
        StyleField::TextAlign => {},
        StyleField::Overflow => {},
        StyleField::ScrollbarGutter => {},
        StyleField::Visibility => {},
        StyleField::Opacity => {},
        StyleField::Dock => {},
        StyleField::FlexGrow => {},
        StyleField::GridColumns => {},
        StyleField::GridRows => {},
        StyleField::Hatch => {},
        StyleField::Keyline => {},
    }
}

/// Field `f` of a list's patch is the last write of `f` in the list.
proof fn lemma_patch_field_is_last_write<F>(ds: Seq<Declaration<F>>, f: StyleField)
    ensures
        patch_field(patch_of_list(ds), f) == last_write(ds, f),
    decreases ds.len(),
{
    if ds.len() > 0 {
        lemma_patch_field_is_last_write(ds.drop_last(), f);
        lemma_compose_field(patch_of_list(ds.drop_last()), patch_of(ds.last()), f);
    }
}

/// Last writer wins: after a list of declarations, each field of the style
/// holds the value that the last declaration writing it wrote, and a field
/// that no declaration writes keeps its value.
pub proof fn lemma_last_write_wins<F>(s: ComputedStyleView<F>, ds: Seq<Declaration<F>>, f: StyleField)
    ensures
        field_of(apply_decls(s, ds), f) == pick(last_write(ds, f), field_of(s, f)),
{
    lemma_apply_is_overlay(s, ds);
    lemma_patch_field_is_last_write(ds, f);
}

/// Applying a list of declarations a second time changes nothing.
pub proof fn lemma_apply_idempotent<F>(s: ComputedStyleView<F>, ds: Seq<Declaration<F>>)
    ensures
        apply_decls(apply_decls(s, ds), ds) == apply_decls(s, ds),
{
    lemma_apply_is_overlay(s, ds);
    lemma_apply_is_overlay(apply_decls(s, ds), ds);
}

/// The empty list of declarations leaves every style as it is.
pub proof fn lemma_apply_empty<F>(s: ComputedStyleView<F>)
    ensures
        apply_decls(s, Seq::<Declaration<F>>::empty()) == s,
{
}

/// The property name of each field.
pub open spec fn field_name(f: StyleField) -> Seq<char> {
    match f {
        StyleField::Display => "display"@,
        StyleField::LayoutDirection => "layout-direction"@,
        StyleField::Width => "width"@,
        StyleField::Height => "height"@,
        StyleField::MinWidth => "min-width"@,
        StyleField::MinHeight => "min-height"@,
        StyleField::MaxWidth => "max-width"@,
        StyleField::MaxHeight => "max-height"@,
        StyleField::Padding => "padding"@,
        StyleField::Margin => "margin"@,
        StyleField::Border => "border"@,
        StyleField::BorderTitle => "border-title"@,
        StyleField::Color => "color"@,
        StyleField::Background => "background"@,
        StyleField::TextAlign => "text-align"@,
        StyleField::Overflow => "overflow"@,
        StyleField::ScrollbarGutter => "scrollbar-gutter"@,
        StyleField::Visibility => "visibility"@,
        StyleField::Opacity => "opacity"@,
        StyleField::Dock => "dock"@,
        StyleField::FlexGrow => "flex-grow"@,
        StyleField::GridColumns => "grid-template-columns"@,
        StyleField::GridRows => "grid-template-rows"@,
        StyleField::Hatch => "hatch"@,
        StyleField::Keyline => "keyline"@,
    }
}

/// The field value that a declared value is stored as, for the kinds of
/// value that a field holds as they are.
pub open spec fn stored_value<F>(v: TcssValue<F>) -> Option<FieldValue<F>> {
    match v {
        TcssValue::Dimension(x) => Some(FieldValue::Dimension(x)),
        TcssValue::Color(c) => Some(FieldValue::Color(c)),
        TcssValue::Border(b) => Some(FieldValue::Border(b)),
        TcssValue::Display(x) => Some(FieldValue::Display(x)),
        TcssValue::TextAlign(x) => Some(FieldValue::TextAlign(x)),
        TcssValue::Overflow(x) => Some(FieldValue::Overflow(x)),
        TcssValue::Visibility(x) => Some(FieldValue::Visibility(x)),
        TcssValue::Float(x) => Some(FieldValue::Number(x)),
        TcssValue::String(t) => Some(FieldValue::Title(Some(t@))),
        TcssValue::Bool(b) => Some(FieldValue::Flag(b)),
        TcssValue::DockEdge(e) => Some(FieldValue::Dock(Some(e))),
        TcssValue::LayoutDirection(x) => Some(FieldValue::LayoutDirection(x)),
        TcssValue::Sides(x) => Some(FieldValue::Sides(x)),
        TcssValue::Dimensions(ds) => Some(FieldValue::Tracks(Some(ds@))),
        TcssValue::Hatch(h) => Some(FieldValue::Hatch(Some(h))),
        TcssValue::Keyline(c) => Some(FieldValue::Keyline(Some(c))),
        _ => None,
    }
}

/// Whether field `f` holds values of the kind of `w`.
pub open spec fn holds_kind<F>(f: StyleField, w: FieldValue<F>) -> bool {
    match f {
        StyleField::Display => w is Display,
        StyleField::LayoutDirection => w is LayoutDirection,
        StyleField::Width => w is Dimension,
        StyleField::Height => w is Dimension,
        StyleField::MinWidth => w is Dimension,
        StyleField::MinHeight => w is Dimension,
        StyleField::MaxWidth => w is Dimension,
        StyleField::MaxHeight => w is Dimension,
        StyleField::Padding => w is Sides,
        StyleField::Margin => w is Sides,
        StyleField::Border => w is Border,
        StyleField::BorderTitle => w is Title,
        StyleField::Color => w is Color,
        StyleField::Background => w is Color,
        StyleField::TextAlign => w is TextAlign,
        StyleField::Overflow => w is Overflow,
        StyleField::ScrollbarGutter => w is Flag,
        StyleField::Visibility => w is Visibility,
        StyleField::Opacity => w is Number,
        StyleField::Dock => w is Dock,
        StyleField::FlexGrow => w is Number,
        StyleField::GridColumns => w is Tracks,
        StyleField::GridRows => w is Tracks,
        StyleField::Hatch => w is Hatch,
        StyleField::Keyline => w is Keyline,
    }
}

/// A declaration changes no field but the one named by its property, and
/// for a `border` the color as well: every other field keeps its value.
pub proof fn lemma_declaration_touches_its_own_field<F>(
    s: ComputedStyleView<F>,
    d: Declaration<F>,
    f: StyleField,
)
    ensures
        field_of(apply_decl(s, d), f) != field_of(s, f) ==> d.property@ == field_name(f) || (f
            == StyleField::Color && d.property@ == "border"@),
{
    lemma_apply_decl_is_overlay(s, d);
    let p = property_of(d.property@);
    match p {
        CssProperty::Color => {},
        CssProperty::Background => {},
        CssProperty::Border => {},
        CssProperty::BorderTitle => {},
        CssProperty::Padding => {},
        CssProperty::Margin => {},
        CssProperty::Width => {},
        CssProperty::Height => {},
        CssProperty::MinWidth => {},
        CssProperty::MinHeight => {},
        CssProperty::MaxWidth => {},
        CssProperty::MaxHeight => {},
        CssProperty::Display => {},
        CssProperty::Visibility => {},
        CssProperty::Opacity => {},
        CssProperty::TextAlign => {},
        CssProperty::Overflow => {},
        CssProperty::ScrollbarGutter => {},
        CssProperty::Dock => {},
        CssProperty::FlexGrow => {},
        CssProperty::GridTemplateColumns => {},
        CssProperty::GridTemplateRows => {},
        CssProperty::LayoutDirection => {},
        CssProperty::Hatch => {},
        CssProperty::Keyline => {},
        CssProperty::Unknown => {},
    }
}

/// The property that a field's name denotes.
proof fn lemma_field_name_property<F>(s: ComputedStyleView<F>, d: Declaration<F>, f: StyleField)
    requires
        d.property@ == field_name(f),
    ensures
        property_of(d.property@) == match f {
            StyleField::Display => CssProperty::Display,
            StyleField::LayoutDirection => CssProperty::LayoutDirection,
            StyleField::Width => CssProperty::Width,
            StyleField::Height => CssProperty::Height,
            StyleField::MinWidth => CssProperty::MinWidth,
            StyleField::MinHeight => CssProperty::MinHeight,
            StyleField::MaxWidth => CssProperty::MaxWidth,
            StyleField::MaxHeight => CssProperty::MaxHeight,
            StyleField::Padding => CssProperty::Padding,
            StyleField::Margin => CssProperty::Margin,
            StyleField::Border => CssProperty::Border,
            StyleField::BorderTitle => CssProperty::BorderTitle,
            StyleField::Color => CssProperty::Color,
            StyleField::Background => CssProperty::Background,
            StyleField::TextAlign => CssProperty::TextAlign,
            StyleField::Overflow => CssProperty::Overflow,
            StyleField::ScrollbarGutter => CssProperty::ScrollbarGutter,
            StyleField::Visibility => CssProperty::Visibility,
            StyleField::Opacity => CssProperty::Opacity,
            StyleField::Dock => CssProperty::Dock,
            StyleField::FlexGrow => CssProperty::FlexGrow,
            StyleField::GridColumns => CssProperty::GridTemplateColumns,
            StyleField::GridRows => CssProperty::GridTemplateRows,
            StyleField::Hatch => CssProperty::Hatch,
            StyleField::Keyline => CssProperty::Keyline,
        },
{
    match f {
        StyleField::Display => {
            reveal_strlit("color");
            reveal_strlit("background");
            reveal_strlit("border");
            reveal_strlit("border-title");
            reveal_strlit("padding");
            reveal_strlit("margin");
            reveal_strlit("width");
            reveal_strlit("height");
            reveal_strlit("min-width");
            reveal_strlit("min-height");
            reveal_strlit("max-width");
            reveal_strlit("max-height");
            reveal_strlit("display");
            assert("display"@.len() != "color"@.len());
            assert("display"@.len() != "background"@.len());
            assert("display"@.len() != "border"@.len());
            assert("display"@.len() != "border-title"@.len());
            assert("display"@[0] != "padding"@[0]);
            assert("display"@.len() != "margin"@.len());
            assert("display"@.len() != "width"@.len());
            assert("display"@.len() != "height"@.len());
            assert("display"@.len() != "min-width"@.len());
            assert("display"@.len() != "min-height"@.len());
            assert("display"@.len() != "max-width"@.len());
            assert("display"@.len() != "max-height"@.len());
        },
        StyleField::LayoutDirection => {
            reveal_strlit("color");
            reveal_strlit("background");
            reveal_strlit("border");
            reveal_strlit("border-title");
            reveal_strlit("padding");
            reveal_strlit("margin");
            reveal_strlit("width");
            reveal_strlit("height");
            reveal_strlit("min-width");
            reveal_strlit("min-height");
            reveal_strlit("max-width");
            reveal_strlit("max-height");
            reveal_strlit("display");
            reveal_strlit("visibility");
            reveal_strlit("opacity");
            reveal_strlit("text-align");
            reveal_strlit("overflow");
            reveal_strlit("scrollbar-gutter");
            reveal_strlit("dock");
            reveal_strlit("flex-grow");
            reveal_strlit("grid-template-columns");
            reveal_strlit("grid-template-rows");
            reveal_strlit("layout-direction");
            assert("layout-direction"@.len() != "color"@.len());
            assert("layout-direction"@.len() != "background"@.len());
            assert("layout-direction"@.len() != "border"@.len());
            assert("layout-direction"@.len() != "border-title"@.len());
            assert("layout-direction"@.len() != "padding"@.len());
            assert("layout-direction"@.len() != "margin"@.len());
            assert("layout-direction"@.len() != "width"@.len());
            assert("layout-direction"@.len() != "height"@.len());
            assert("layout-direction"@.len() != "min-width"@.len());
            assert("layout-direction"@.len() != "min-height"@.len());
            assert("layout-direction"@.len() != "max-width"@.len());
            assert("layout-direction"@.len() != "max-height"@.len());
            assert("layout-direction"@.len() != "display"@.len());
            assert("layout-direction"@.len() != "visibility"@.len());
            assert("layout-direction"@.len() != "opacity"@.len());
            assert("layout-direction"@.len() != "text-align"@.len());
            assert("layout-direction"@.len() != "overflow"@.len());
            assert("layout-direction"@[0] != "scrollbar-gutter"@[0]);
            assert("layout-direction"@.len() != "dock"@.len());
            assert("layout-direction"@.len() != "flex-grow"@.len());
            assert("layout-direction"@.len() != "grid-template-columns"@.len());
            assert("layout-direction"@.len() != "grid-template-rows"@.len());
        },
        StyleField::Width => {
            reveal_strlit("color");
            reveal_strlit("background");
            reveal_strlit("border");
            reveal_strlit("border-title");
            reveal_strlit("padding");
            reveal_strlit("margin");
            reveal_strlit("width");
            assert("width"@[0] != "color"@[0]);
            assert("width"@.len() != "background"@.len());
            assert("width"@.len() != "border"@.len());
            assert("width"@.len() != "border-title"@.len());
            assert("width"@.len() != "padding"@.len());
            assert("width"@.len() != "margin"@.len());
        },
        StyleField::Height => {
            reveal_strlit("color");
            reveal_strlit("background");
            reveal_strlit("border");
            reveal_strlit("border-title");
            reveal_strlit("padding");
            reveal_strlit("margin");
            reveal_strlit("width");
            reveal_strlit("height");
            assert("height"@.len() != "color"@.len());
            assert("height"@.len() != "background"@.len());
            assert("height"@[0] != "border"@[0]);
            assert("height"@.len() != "border-title"@.len());
            assert("height"@.len() != "padding"@.len());
            assert("height"@[0] != "margin"@[0]);
            assert("height"@.len() != "width"@.len());
        },
        StyleField::MinWidth => {
            reveal_strlit("color");
            reveal_strlit("background");
            reveal_strlit("border");
            reveal_strlit("border-title");
            reveal_strlit("padding");
            reveal_strlit("margin");
            reveal_strlit("width");
            reveal_strlit("height");
            reveal_strlit("min-width");
            assert("min-width"@.len() != "color"@.len());
            assert("min-width"@.len() != "background"@.len());
            assert("min-width"@.len() != "border"@.len());
            assert("min-width"@.len() != "border-title"@.len());
            assert("min-width"@.len() != "padding"@.len());
            assert("min-width"@.len() != "margin"@.len());
            assert("min-width"@.len() != "width"@.len());
            assert("min-width"@.len() != "height"@.len());
        },
        StyleField::MinHeight => {
            reveal_strlit("color");
            reveal_strlit("background");
            reveal_strlit("border");
            reveal_strlit("border-title");
            reveal_strlit("padding");
            reveal_strlit("margin");
            reveal_strlit("width");
            reveal_strlit("height");
            reveal_strlit("min-width");
            reveal_strlit("min-height");
            assert("min-height"@.len() != "color"@.len());
            assert("min-height"@[0] != "background"@[0]);
            assert("min-height"@.len() != "border"@.len());
            assert("min-height"@.len() != "border-title"@.len());
            assert("min-height"@.len() != "padding"@.len());
            assert("min-height"@.len() != "margin"@.len());
            assert("min-height"@.len() != "width"@.len());
            assert("min-height"@.len() != "height"@.len());
            assert("min-height"@.len() != "min-width"@.len());
        },
        StyleField::MaxWidth => {
            reveal_strlit("color");
            reveal_strlit("background");
            reveal_strlit("border");
            reveal_strlit("border-title");
            reveal_strlit("padding");
            reveal_strlit("margin");
            reveal_strlit("width");
            reveal_strlit("height");
            reveal_strlit("min-width");
            reveal_strlit("min-height");
            reveal_strlit("max-width");
            assert("max-width"@.len() != "color"@.len());
            assert("max-width"@.len() != "background"@.len());
            assert("max-width"@.len() != "border"@.len());
            assert("max-width"@.len() != "border-title"@.len());
            assert("max-width"@.len() != "padding"@.len());
            assert("max-width"@.len() != "margin"@.len());
            assert("max-width"@.len() != "width"@.len());
            assert("max-width"@.len() != "height"@.len());
            assert("max-width"@[1] != "min-width"@[1]);
            assert("max-width"@.len() != "min-height"@.len());
        },
        StyleField::MaxHeight => {
            reveal_strlit("color");
            reveal_strlit("background");
            reveal_strlit("border");
            reveal_strlit("border-title");
            reveal_strlit("padding");
            reveal_strlit("margin");
            reveal_strlit("width");
            reveal_strlit("height");
            reveal_strlit("min-width");
            reveal_strlit("min-height");
            reveal_strlit("max-width");
            reveal_strlit("max-height");
            assert("max-height"@.len() != "color"@.len());
            assert("max-height"@[0] != "background"@[0]);
            assert("max-height"@.len() != "border"@.len());
            assert("max-height"@.len() != "border-title"@.len());
            assert("max-height"@.len() != "padding"@.len());
            assert("max-height"@.len() != "margin"@.len());
            assert("max-height"@.len() != "width"@.len());
            assert("max-height"@.len() != "height"@.len());
            assert("max-height"@.len() != "min-width"@.len());
            assert("max-height"@[1] != "min-height"@[1]);
            assert("max-height"@.len() != "max-width"@.len());
        },
        StyleField::Padding => {
            reveal_strlit("color");
            reveal_strlit("background");
            reveal_strlit("border");
            reveal_strlit("border-title");
            reveal_strlit("padding");
            assert("padding"@.len() != "color"@.len());
            assert("padding"@.len() != "background"@.len());
            assert("padding"@.len() != "border"@.len());
            assert("padding"@.len() != "border-title"@.len());
        },
        StyleField::Margin => {
            reveal_strlit("color");
            reveal_strlit("background");
            reveal_strlit("border");
            reveal_strlit("border-title");
            reveal_strlit("padding");
            reveal_strlit("margin");
            assert("margin"@.len() != "color"@.len());
            assert("margin"@.len() != "background"@.len());
            assert("margin"@[0] != "border"@[0]);
            assert("margin"@.len() != "border-title"@.len());
            assert("margin"@.len() != "padding"@.len());
        },
        StyleField::Border => {
            reveal_strlit("color");
            reveal_strlit("background");
            reveal_strlit("border");
            assert("border"@.len() != "color"@.len());
            assert("border"@.len() != "background"@.len());
        },
        StyleField::BorderTitle => {
            reveal_strlit("color");
            reveal_strlit("background");
            reveal_strlit("border");
            reveal_strlit("border-title");
            assert("border-title"@.len() != "color"@.len());
            assert("border-title"@.len() != "background"@.len());
            assert("border-title"@.len() != "border"@.len());
        },
        StyleField::Color => {
            reveal_strlit("color");
        },
        StyleField::Background => {
            reveal_strlit("color");
            reveal_strlit("background");
            assert("background"@.len() != "color"@.len());
        },
        StyleField::TextAlign => {
            reveal_strlit("color");
            reveal_strlit("background");
            reveal_strlit("border");
            reveal_strlit("border-title");
            reveal_strlit("padding");
            reveal_strlit("margin");
            reveal_strlit("width");
            reveal_strlit("height");
            reveal_strlit("min-width");
            reveal_strlit("min-height");
            reveal_strlit("max-width");
            reveal_strlit("max-height");
            reveal_strlit("display");
            reveal_strlit("visibility");
            reveal_strlit("opacity");
            reveal_strlit("text-align");
            assert("text-align"@.len() != "color"@.len());
            assert("text-align"@[0] != "background"@[0]);
            assert("text-align"@.len() != "border"@.len());
            assert("text-align"@.len() != "border-title"@.len());
            assert("text-align"@.len() != "padding"@.len());
            assert("text-align"@.len() != "margin"@.len());
            assert("text-align"@.len() != "width"@.len());
            assert("text-align"@.len() != "height"@.len());
            assert("text-align"@.len() != "min-width"@.len());
            assert("text-align"@[0] != "min-height"@[0]);
            assert("text-align"@.len() != "max-width"@.len());
            assert("text-align"@[0] != "max-height"@[0]);
            assert("text-align"@.len() != "display"@.len());
            assert("text-align"@[0] != "visibility"@[0]);
            assert("text-align"@.len() != "opacity"@.len());
        },
        StyleField::Overflow => {
            reveal_strlit("color");
            reveal_strlit("background");
            reveal_strlit("border");
            reveal_strlit("border-title");
            reveal_strlit("padding");
            reveal_strlit("margin");
            reveal_strlit("width");
            reveal_strlit("height");
            reveal_strlit("min-width");
            reveal_strlit("min-height");
            reveal_strlit("max-width");
            reveal_strlit("max-height");
            reveal_strlit("display");
            reveal_strlit("visibility");
            reveal_strlit("opacity");
            reveal_strlit("text-align");
            reveal_strlit("overflow");
            assert("overflow"@.len() != "color"@.len());
            assert("overflow"@.len() != "background"@.len());
            assert("overflow"@.len() != "border"@.len());
            assert("overflow"@.len() != "border-title"@.len());
            assert("overflow"@.len() != "padding"@.len());
            assert("overflow"@.len() != "margin"@.len());
            assert("overflow"@.len() != "width"@.len());
            assert("overflow"@.len() != "height"@.len());
            assert("overflow"@.len() != "min-width"@.len());
            assert("overflow"@.len() != "min-height"@.len());
            assert("overflow"@.len() != "max-width"@.len());
            assert("overflow"@.len() != "max-height"@.len());
            assert("overflow"@.len() != "display"@.len());
            assert("overflow"@.len() != "visibility"@.len());
            assert("overflow"@.len() != "opacity"@.len());
            assert("overflow"@.len() != "text-align"@.len());
        },
        StyleField::ScrollbarGutter => {
            reveal_strlit("color");
            reveal_strlit("background");
            reveal_strlit("border");
            reveal_strlit("border-title");
            reveal_strlit("padding");
            reveal_strlit("margin");
            reveal_strlit("width");
            reveal_strlit("height");
            reveal_strlit("min-width");
            reveal_strlit("min-height");
            reveal_strlit("max-width");
            reveal_strlit("max-height");
            reveal_strlit("display");
            reveal_strlit("visibility");
            reveal_strlit("opacity");
            reveal_strlit("text-align");
            reveal_strlit("overflow");
            reveal_strlit("scrollbar-gutter");
            assert("scrollbar-gutter"@.len() != "color"@.len());
            assert("scrollbar-gutter"@.len() != "background"@.len());
            assert("scrollbar-gutter"@.len() != "border"@.len());
            assert("scrollbar-gutter"@.len() != "border-title"@.len());
            assert("scrollbar-gutter"@.len() != "padding"@.len());
            assert("scrollbar-gutter"@.len() != "margin"@.len());
            assert("scrollbar-gutter"@.len() != "width"@.len());
            assert("scrollbar-gutter"@.len() != "height"@.len());
            assert("scrollbar-gutter"@.len() != "min-width"@.len());
            assert("scrollbar-gutter"@.len() != "min-height"@.len());
            assert("scrollbar-gutter"@.len() != "max-width"@.len());
            assert("scrollbar-gutter"@.len() != "max-height"@.len());
            assert("scrollbar-gutter"@.len() != "display"@.len());
            assert("scrollbar-gutter"@.len() != "visibility"@.len());
            assert("scrollbar-gutter"@.len() != "opacity"@.len());
            assert("scrollbar-gutter"@.len() != "text-align"@.len());
            assert("scrollbar-gutter"@.len() != "overflow"@.len());
        },
        StyleField::Visibility => {
            reveal_strlit("color");
            reveal_strlit("background");
            reveal_strlit("border");
            reveal_strlit("border-title");
            reveal_strlit("padding");
            reveal_strlit("margin");
            reveal_strlit("width");
            reveal_strlit("height");
            reveal_strlit("min-width");
            reveal_strlit("min-height");
            reveal_strlit("max-width");
            reveal_strlit("max-height");
            reveal_strlit("display");
            reveal_strlit("visibility");
            assert("visibility"@.len() != "color"@.len());
            assert("visibility"@[0] != "background"@[0]);
            assert("visibility"@.len() != "border"@.len());
            assert("visibility"@.len() != "border-title"@.len());
            assert("visibility"@.len() != "padding"@.len());
            assert("visibility"@.len() != "margin"@.len());
            assert("visibility"@.len() != "width"@.len());
            assert("visibility"@.len() != "height"@.len());
            assert("visibility"@.len() != "min-width"@.len());
            assert("visibility"@[0] != "min-height"@[0]);
            assert("visibility"@.len() != "max-width"@.len());
            assert("visibility"@[0] != "max-height"@[0]);
            assert("visibility"@.len() != "display"@.len());
        },
        StyleField::Opacity => {
            reveal_strlit("color");
            reveal_strlit("background");
            reveal_strlit("border");
            reveal_strlit("border-title");
            reveal_strlit("padding");
            reveal_strlit("margin");
            reveal_strlit("width");
            reveal_strlit("height");
            reveal_strlit("min-width");
            reveal_strlit("min-height");
            reveal_strlit("max-width");
            reveal_strlit("max-height");
            reveal_strlit("display");
            reveal_strlit("visibility");
            reveal_strlit("opacity");
            assert("opacity"@.len() != "color"@.len());
            assert("opacity"@.len() != "background"@.len());
            assert("opacity"@.len() != "border"@.len());
            assert("opacity"@.len() != "border-title"@.len());
            assert("opacity"@[0] != "padding"@[0]);
            assert("opacity"@.len() != "margin"@.len());
            assert("opacity"@.len() != "width"@.len());
            assert("opacity"@.len() != "height"@.len());
            assert("opacity"@.len() != "min-width"@.len());
            assert("opacity"@.len() != "min-height"@.len());
            assert("opacity"@.len() != "max-width"@.len());
            assert("opacity"@.len() != "max-height"@.len());
            assert("opacity"@[0] != "display"@[0]);
            assert("opacity"@.len() != "visibility"@.len());
        },
        StyleField::Dock => {
            reveal_strlit("color");
            reveal_strlit("background");
            reveal_strlit("border");
            reveal_strlit("border-title");
            reveal_strlit("padding");
            reveal_strlit("margin");
            reveal_strlit("width");
            reveal_strlit("height");
            reveal_strlit("min-width");
            reveal_strlit("min-height");
            reveal_strlit("max-width");
            reveal_strlit("max-height");
            reveal_strlit("display");
            reveal_strlit("visibility");
            reveal_strlit("opacity");
            reveal_strlit("text-align");
            reveal_strlit("overflow");
            reveal_strlit("scrollbar-gutter");
            reveal_strlit("dock");
            assert("dock"@.len() != "color"@.len());
            assert("dock"@.len() != "background"@.len());
            assert("dock"@.len() != "border"@.len());
            assert("dock"@.len() != "border-title"@.len());
            assert("dock"@.len() != "padding"@.len());
            assert("dock"@.len() != "margin"@.len());
            assert("dock"@.len() != "width"@.len());
            assert("dock"@.len() != "height"@.len());
            assert("dock"@.len() != "min-width"@.len());
            assert("dock"@.len() != "min-height"@.len());
            assert("dock"@.len() != "max-width"@.len());
            assert("dock"@.len() != "max-height"@.len());
            assert("dock"@.len() != "display"@.len());
            assert("dock"@.len() != "visibility"@.len());
            assert("dock"@.len() != "opacity"@.len());
            assert("dock"@.len() != "text-align"@.len());
            assert("dock"@.len() != "overflow"@.len());
            assert("dock"@.len() != "scrollbar-gutter"@.len());
        },
        StyleField::FlexGrow => {
            reveal_strlit("color");
            reveal_strlit("background");
            reveal_strlit("border");
            reveal_strlit("border-title");
            reveal_strlit("padding");
            reveal_strlit("margin");
            reveal_strlit("width");
            reveal_strlit("height");
            reveal_strlit("min-width");
            reveal_strlit("min-height");
            reveal_strlit("max-width");
            reveal_strlit("max-height");
            reveal_strlit("display");
            reveal_strlit("visibility");
            reveal_strlit("opacity");
            reveal_strlit("text-align");
            reveal_strlit("overflow");
            reveal_strlit("scrollbar-gutter");
            reveal_strlit("dock");
            reveal_strlit("flex-grow");
            assert("flex-grow"@.len() != "color"@.len());
            assert("flex-grow"@.len() != "background"@.len());
            assert("flex-grow"@.len() != "border"@.len());
            assert("flex-grow"@.len() != "border-title"@.len());
            assert("flex-grow"@.len() != "padding"@.len());
            assert("flex-grow"@.len() != "margin"@.len());
            assert("flex-grow"@.len() != "width"@.len());
            assert("flex-grow"@.len() != "height"@.len());
            assert("flex-grow"@[0] != "min-width"@[0]);
            assert("flex-grow"@.len() != "min-height"@.len());
            assert("flex-grow"@[0] != "max-width"@[0]);
            assert("flex-grow"@.len() != "max-height"@.len());
            assert("flex-grow"@.len() != "display"@.len());
            assert("flex-grow"@.len() != "visibility"@.len());
            assert("flex-grow"@.len() != "opacity"@.len());
            assert("flex-grow"@.len() != "text-align"@.len());
            assert("flex-grow"@.len() != "overflow"@.len());
            assert("flex-grow"@.len() != "scrollbar-gutter"@.len());
            assert("flex-grow"@.len() != "dock"@.len());
        },
        StyleField::GridColumns => {
            reveal_strlit("color");
            reveal_strlit("background");
            reveal_strlit("border");
            reveal_strlit("border-title");
            reveal_strlit("padding");
            reveal_strlit("margin");
            reveal_strlit("width");
            reveal_strlit("height");
            reveal_strlit("min-width");
            reveal_strlit("min-height");
            reveal_strlit("max-width");
            reveal_strlit("max-height");
            reveal_strlit("display");
            reveal_strlit("visibility");
            reveal_strlit("opacity");
            reveal_strlit("text-align");
            reveal_strlit("overflow");
            reveal_strlit("scrollbar-gutter");
            reveal_strlit("dock");
            reveal_strlit("flex-grow");
            reveal_strlit("grid-template-columns");
            assert("grid-template-columns"@.len() != "color"@.len());
            assert("grid-template-columns"@.len() != "background"@.len());
            assert("grid-template-columns"@.len() != "border"@.len());
            assert("grid-template-columns"@.len() != "border-title"@.len());
            assert("grid-template-columns"@.len() != "padding"@.len());
            assert("grid-template-columns"@.len() != "margin"@.len());
            assert("grid-template-columns"@.len() != "width"@.len());
            assert("grid-template-columns"@.len() != "height"@.len());
            assert("grid-template-columns"@.len() != "min-width"@.len());
            assert("grid-template-columns"@.len() != "min-height"@.len());
            assert("grid-template-columns"@.len() != "max-width"@.len());
            assert("grid-template-columns"@.len() != "max-height"@.len());
            assert("grid-template-columns"@.len() != "display"@.len());
            assert("grid-template-columns"@.len() != "visibility"@.len());
            assert("grid-template-columns"@.len() != "opacity"@.len());
            assert("grid-template-columns"@.len() != "text-align"@.len());
            assert("grid-template-columns"@.len() != "overflow"@.len());
            assert("grid-template-columns"@.len() != "scrollbar-gutter"@.len());
            assert("grid-template-columns"@.len() != "dock"@.len());
            assert("grid-template-columns"@.len() != "flex-grow"@.len());
        },
        StyleField::GridRows => {
            reveal_strlit("color");
            reveal_strlit("background");
            reveal_strlit("border");
            reveal_strlit("border-title");
            reveal_strlit("padding");
            reveal_strlit("margin");
            reveal_strlit("width");
            reveal_strlit("height");
            reveal_strlit("min-width");
            reveal_strlit("min-height");
            reveal_strlit("max-width");
            reveal_strlit("max-height");
            reveal_strlit("display");
            reveal_strlit("visibility");
            reveal_strlit("opacity");
            reveal_strlit("text-align");
            reveal_strlit("overflow");
            reveal_strlit("scrollbar-gutter");
            reveal_strlit("dock");
            reveal_strlit("flex-grow");
            reveal_strlit("grid-template-columns");
            reveal_strlit("grid-template-rows");
            assert("grid-template-rows"@.len() != "color"@.len());
            assert("grid-template-rows"@.len() != "background"@.len());
            assert("grid-template-rows"@.len() != "border"@.len());
            assert("grid-template-rows"@.len() != "border-title"@.len());
            assert("grid-template-rows"@.len() != "padding"@.len());
            assert("grid-template-rows"@.len() != "margin"@.len());
            assert("grid-template-rows"@.len() != "width"@.len());
            assert("grid-template-rows"@.len() != "height"@.len());
            assert("grid-template-rows"@.len() != "min-width"@.len());
            assert("grid-template-rows"@.len() != "min-height"@.len());
            assert("grid-template-rows"@.len() != "max-width"@.len());
            assert("grid-template-rows"@.len() != "max-height"@.len());
            assert("grid-template-rows"@.len() != "display"@.len());
            assert("grid-template-rows"@.len() != "visibility"@.len());
            assert("grid-template-rows"@.len() != "opacity"@.len());
            assert("grid-template-rows"@.len() != "text-align"@.len());
            assert("grid-template-rows"@.len() != "overflow"@.len());
            assert("grid-template-rows"@.len() != "scrollbar-gutter"@.len());
            assert("grid-template-rows"@.len() != "dock"@.len());
            assert("grid-template-rows"@.len() != "flex-grow"@.len());
            assert("grid-template-rows"@.len() != "grid-template-columns"@.len());
        },
        StyleField::Hatch => {
            reveal_strlit("color");
            reveal_strlit("background");
            reveal_strlit("border");
            reveal_strlit("border-title");
            reveal_strlit("padding");
            reveal_strlit("margin");
            reveal_strlit("width");
            reveal_strlit("height");
            reveal_strlit("min-width");
            reveal_strlit("min-height");
            reveal_strlit("max-width");
            reveal_strlit("max-height");
            reveal_strlit("display");
            reveal_strlit("visibility");
            reveal_strlit("opacity");
            reveal_strlit("text-align");
            reveal_strlit("overflow");
            reveal_strlit("scrollbar-gutter");
            reveal_strlit("dock");
            reveal_strlit("flex-grow");
            reveal_strlit("grid-template-columns");
            reveal_strlit("grid-template-rows");
            reveal_strlit("layout-direction");
            reveal_strlit("hatch");
            assert("hatch"@[0] != "color"@[0]);
            assert("hatch"@.len() != "background"@.len());
            assert("hatch"@.len() != "border"@.len());
            assert("hatch"@.len() != "border-title"@.len());
            assert("hatch"@.len() != "padding"@.len());
            assert("hatch"@.len() != "margin"@.len());
            assert("hatch"@[0] != "width"@[0]);
            assert("hatch"@.len() != "height"@.len());
            assert("hatch"@.len() != "min-width"@.len());
            assert("hatch"@.len() != "min-height"@.len());
            assert("hatch"@.len() != "max-width"@.len());
            assert("hatch"@.len() != "max-height"@.len());
            assert("hatch"@.len() != "display"@.len());
            assert("hatch"@.len() != "visibility"@.len());
            assert("hatch"@.len() != "opacity"@.len());
            assert("hatch"@.len() != "text-align"@.len());
            assert("hatch"@.len() != "overflow"@.len());
            assert("hatch"@.len() != "scrollbar-gutter"@.len());
            assert("hatch"@.len() != "dock"@.len());
            assert("hatch"@.len() != "flex-grow"@.len());
            assert("hatch"@.len() != "grid-template-columns"@.len());
            assert("hatch"@.len() != "grid-template-rows"@.len());
            assert("hatch"@.len() != "layout-direction"@.len());
        },
        StyleField::Keyline => {
            reveal_strlit("color");
            reveal_strlit("background");
            reveal_strlit("border");
            reveal_strlit("border-title");
            reveal_strlit("padding");
            reveal_strlit("margin");
            reveal_strlit("width");
            reveal_strlit("height");
            reveal_strlit("min-width");
            reveal_strlit("min-height");
            reveal_strlit("max-width");
            reveal_strlit("max-height");
            reveal_strlit("display");
            reveal_strlit("visibility");
            reveal_strlit("opacity");
            reveal_strlit("text-align");
            reveal_strlit("overflow");
            reveal_strlit("scrollbar-gutter");
            reveal_strlit("dock");
            reveal_strlit("flex-grow");
            reveal_strlit("grid-template-columns");
            reveal_strlit("grid-template-rows");
            reveal_strlit("layout-direction");
            reveal_strlit("hatch");
            reveal_strlit("keyline");
            assert("keyline"@.len() != "color"@.len());
            assert("keyline"@.len() != "background"@.len());
            assert("keyline"@.len() != "border"@.len());
            assert("keyline"@.len() != "border-title"@.len());
            assert("keyline"@[0] != "padding"@[0]);
            assert("keyline"@.len() != "margin"@.len());
            assert("keyline"@.len() != "width"@.len());
            assert("keyline"@.len() != "height"@.len());
            assert("keyline"@.len() != "min-width"@.len());
            assert("keyline"@.len() != "min-height"@.len());
            assert("keyline"@.len() != "max-width"@.len());
            assert("keyline"@.len() != "max-height"@.len());
            assert("keyline"@[0] != "display"@[0]);
            assert("keyline"@.len() != "visibility"@.len());
            assert("keyline"@[0] != "opacity"@[0]);
            assert("keyline"@.len() != "text-align"@.len());
            assert("keyline"@.len() != "overflow"@.len());
            assert("keyline"@.len() != "scrollbar-gutter"@.len());
            assert("keyline"@.len() != "dock"@.len());
            assert("keyline"@.len() != "flex-grow"@.len());
            assert("keyline"@.len() != "grid-template-columns"@.len());
            assert("keyline"@.len() != "grid-template-rows"@.len());
            assert("keyline"@.len() != "layout-direction"@.len());
            assert("keyline"@.len() != "hatch"@.len());
        },
    }
}

/// A declaration named after a field, whose value is of the kind the field
/// holds, sets that field to its value, whatever the field held before
/// (so `max-width` sets `max_width`, `color` sets `color`, and so on).
pub proof fn lemma_declaration_sets_its_field<F>(
    s: ComputedStyleView<F>,
    d: Declaration<F>,
    f: StyleField,
    w: FieldValue<F>,
)
    requires
        d.property@ == field_name(f),
        stored_value(d.value) == Some(w),
        holds_kind(f, w),
    ensures
        field_of(apply_decl(s, d), f) == w,
{
    lemma_field_name_property(s, d, f);
}

} // verus!
