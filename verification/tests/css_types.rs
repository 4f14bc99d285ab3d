use textual_rs::css::types::{
    BorderStyle, ComputedStyle, Declaration, DockEdge, LayoutDirection, PseudoClass, PseudoClassSet,
    Sides, TcssColor, TcssDimension, TcssDisplay, TcssValue,
};

#[test]
fn computed_style_default_values() {
    let style: ComputedStyle<f32> = ComputedStyle::default();
    assert_eq!(style.display, TcssDisplay::Flex);
    assert_eq!(style.width, TcssDimension::Auto);
    assert_eq!(style.height, TcssDimension::Auto);
    assert_eq!(style.border, BorderStyle::NoBorder);
    assert_eq!(style.color, TcssColor::Reset);
    assert_eq!(style.background, TcssColor::Reset);
    assert_eq!(style.layout_direction, LayoutDirection::Vertical);
    assert_eq!(style.opacity, 1.0);
    assert_eq!(style.flex_grow, 0.0);
    assert!(!style.scrollbar_gutter);
    assert!(style.dock.is_none());
    assert!(style.grid_columns.is_none());
    assert!(style.grid_rows.is_none());
}

#[test]
fn pseudo_class_set_insert_contains_remove() {
    let mut set = PseudoClassSet::default();
    assert!(!set.contains(&PseudoClass::Focus));
    set.insert(PseudoClass::Focus);
    assert!(set.contains(&PseudoClass::Focus));
    set.insert(PseudoClass::Hover);
    assert!(set.contains(&PseudoClass::Hover));
    set.remove(&PseudoClass::Focus);
    assert!(!set.contains(&PseudoClass::Focus));
    assert!(set.contains(&PseudoClass::Hover));
    set.insert(PseudoClass::Disabled);
    assert!(set.contains(&PseudoClass::Disabled));
}

#[test]
fn apply_declarations_modifies_style() {
    let mut style: ComputedStyle<f32> = ComputedStyle::default();
    let decls = vec![
        Declaration {
            property: "color".to_string(),
            value: TcssValue::Color(TcssColor::Rgb(255, 0, 0)),
        },
        Declaration {
            property: "display".to_string(),
            value: TcssValue::Display(TcssDisplay::Block),
        },
        Declaration {
            property: "opacity".to_string(),
            value: TcssValue::Float(0.5),
        },
    ];
    style.apply_declarations(&decls);
    assert_eq!(style.color, TcssColor::Rgb(255, 0, 0));
    assert_eq!(style.display, TcssDisplay::Block);
    assert_eq!(style.opacity, 0.5);
}

#[test]
fn unknown_property_does_not_panic() {
    // Unknown properties are ignored.
    let mut style: ComputedStyle<f32> = ComputedStyle::default();
    let decls = vec![
        Declaration {
            property: "nonexistent-prop".to_string(),
            value: TcssValue::Float(1.0),
        },
        Declaration {
            property: "color".to_string(),
            value: TcssValue::Color(TcssColor::Rgb(0, 255, 0)),
        },
    ];
    style.apply_declarations(&decls);
    // Known property should still be applied after the unknown one
    assert_eq!(style.color, TcssColor::Rgb(0, 255, 0));
}

fn decl(p: &str, v: TcssValue<f32>) -> Declaration<f32> {
    Declaration { property: p.to_string(), value: v }
}

#[test]
fn later_declaration_overwrites_earlier() {
    let mut style: ComputedStyle<f32> = ComputedStyle::default();
    style.apply_declarations(&[
        decl("color", TcssValue::Color(TcssColor::Rgb(1, 2, 3))),
        decl("color", TcssValue::Color(TcssColor::Named("red"))),
    ]);
    assert_eq!(style.color, TcssColor::Named("red"));
}

#[test]
fn applying_in_two_steps_equals_applying_concatenation() {
    let a = vec![decl("padding", TcssValue::Float(2.0)), decl("dock", TcssValue::DockEdge(DockEdge::Top))];
    let b = vec![decl("padding", TcssValue::Sides(Sides { top: 1.0, right: 2.0, bottom: 3.0, left: 4.0 }))];
    let mut one: ComputedStyle<f32> = ComputedStyle::default();
    one.apply_declarations(&a);
    one.apply_declarations(&b);
    let mut both: ComputedStyle<f32> = ComputedStyle::default();
    let all: Vec<_> = a.iter().chain(b.iter()).cloned().collect();
    both.apply_declarations(&all);
    assert_eq!(one, both);
    assert_eq!(one.padding, Sides { top: 1.0, right: 2.0, bottom: 3.0, left: 4.0 });
    assert_eq!(one.dock, Some(DockEdge::Top));
}

#[test]
fn mismatched_value_kind_is_ignored() {
    let mut style: ComputedStyle<f32> = ComputedStyle::default();
    let before = style.clone();
    style.apply_declarations(&[
        decl("width", TcssValue::Float(3.0)),
        decl("color", TcssValue::Bool(true)),
        decl("hatch", TcssValue::Variable("primary".to_string())),
    ]);
    assert_eq!(style, before);
}

#[test]
fn border_with_color_sets_both_and_plain_border_keeps_color() {
    let mut style: ComputedStyle<f32> = ComputedStyle::default();
    style.apply_declarations(&[
        decl("border", TcssValue::BorderWithColor(BorderStyle::Tall, TcssColor::Rgb(9, 9, 9))),
        decl("border", TcssValue::Border(BorderStyle::Rounded)),
    ]);
    assert_eq!(style.border, BorderStyle::Rounded);
    assert_eq!(style.color, TcssColor::Rgb(9, 9, 9));
}

#[test]
fn every_property_kind_applies() {
    let mut style: ComputedStyle<f32> = ComputedStyle::default();
    style.apply_declarations(&[
        decl("background", TcssValue::Color(TcssColor::Rgba(1, 2, 3, 4))),
        decl("border-title", TcssValue::String("Title".to_string())),
        decl("margin", TcssValue::Float(1.5)),
        decl("width", TcssValue::Dimension(TcssDimension::Length(10.0))),
        decl("height", TcssValue::Dimension(TcssDimension::Percent(50.0))),
        decl("min-width", TcssValue::Dimension(TcssDimension::Fraction(1.0))),
        decl("max-height", TcssValue::Dimension(TcssDimension::Length(7.0))),
        decl("scrollbar-gutter", TcssValue::Bool(true)),
        decl("flex-grow", TcssValue::Float(2.0)),
        decl("grid-template-columns", TcssValue::Dimensions(vec![TcssDimension::Fraction(1.0), TcssDimension::Auto])),
        decl("layout-direction", TcssValue::LayoutDirection(LayoutDirection::Horizontal)),
        decl("keyline", TcssValue::Color(TcssColor::Reset)),
    ]);
    assert_eq!(style.background, TcssColor::Rgba(1, 2, 3, 4));
    assert_eq!(style.border_title.as_deref(), Some("Title"));
    assert_eq!(style.margin, Sides { top: 1.5, right: 1.5, bottom: 1.5, left: 1.5 });
    assert_eq!(style.width, TcssDimension::Length(10.0));
    assert_eq!(style.height, TcssDimension::Percent(50.0));
    assert_eq!(style.min_width, TcssDimension::Fraction(1.0));
    assert_eq!(style.max_height, TcssDimension::Length(7.0));
    assert!(style.scrollbar_gutter);
    assert_eq!(style.flex_grow, 2.0);
    assert_eq!(style.grid_columns, Some(vec![TcssDimension::Fraction(1.0), TcssDimension::Auto]));
    assert_eq!(style.layout_direction, LayoutDirection::Horizontal);
    assert_eq!(style.keyline, Some(TcssColor::Reset));
}

#[test]
fn pseudo_class_set_default_is_empty_and_equality_is_by_members() {
    let mut a = PseudoClassSet::default();
    let mut b = PseudoClassSet::default();
    a.insert(PseudoClass::Hover);
    a.insert(PseudoClass::Focus);
    b.insert(PseudoClass::Focus);
    b.insert(PseudoClass::Hover);
    assert_eq!(a, b);
    a.remove(&PseudoClass::Disabled);
    assert_eq!(a, b);
}

#[test]
fn each_field_keeps_its_last_write() {
    let mut style: ComputedStyle<f32> = ComputedStyle::default();
    style.apply_declarations(&[
        decl("color", TcssValue::Color(TcssColor::Rgb(1, 2, 3))),
        decl("border", TcssValue::BorderWithColor(BorderStyle::NoBorder, TcssColor::Rgb(7, 7, 7))),
        decl("color", TcssValue::Color(TcssColor::Rgb(4, 5, 6))),
        decl("border", TcssValue::Border(BorderStyle::NoBorder)),
        decl("display", TcssValue::Color(TcssColor::Rgb(9, 9, 9))),
    ]);
    assert_eq!(style.color, TcssColor::Rgb(4, 5, 6));
    assert_eq!(style.border, BorderStyle::NoBorder);
    assert_eq!(style.display, TcssDisplay::Flex);
}

#[test]
fn applying_the_same_list_twice_changes_nothing() {
    let decls = vec![
        decl("padding", TcssValue::Float(2.0)),
        decl("color", TcssValue::Color(TcssColor::Rgb(1, 2, 3))),
        decl("keyline", TcssValue::Color(TcssColor::Rgb(3, 2, 1))),
        decl("dock", TcssValue::DockEdge(DockEdge::Top)),
    ];
    let mut once: ComputedStyle<f32> = ComputedStyle::default();
    once.apply_declarations(&decls);
    let mut twice = once.clone();
    twice.apply_declarations(&decls);
    assert_eq!(twice, once);
}
