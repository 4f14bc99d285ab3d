use textual_rs::css::theme::{
    blend, dark_palette, dark_theme_name, lookup_theme_variable, lookup_variable, parse_shade, parse_slot,
    ThemeLookup, ThemeSlot,
};
use textual_rs::css::types::TcssColor;

fn resolve(name: &str, vars: &Vec<(String, TcssColor)>) -> Option<ThemeLookup> {
    lookup_theme_variable(&dark_palette(), vars, name)
}

#[test]
fn default_dark_theme_primary() {
    assert_eq!(dark_palette().primary, (1, 120, 212));
}

#[test]
fn resolve_primary_returns_rgb() {
    assert_eq!(resolve("primary", &Vec::new()), Some(ThemeLookup::Color(TcssColor::Rgb(1, 120, 212))));
}

#[test]
fn variables_override_computed_shades() {
    let vars = vec![("primary".to_string(), TcssColor::Rgb(99, 99, 99))];
    assert_eq!(resolve("primary", &vars), Some(ThemeLookup::Color(TcssColor::Rgb(99, 99, 99))));
}

#[test]
fn variables_override_shade_variant() {
    let vars = vec![("primary-lighten-1".to_string(), TcssColor::Rgb(42, 42, 42))];
    assert_eq!(resolve("primary-lighten-1", &vars), Some(ThemeLookup::Color(TcssColor::Rgb(42, 42, 42))));
}

#[test]
fn dark_palette_colors() {
    let p = dark_palette();
    assert_eq!(dark_theme_name(), "textual-dark");
    assert_eq!(p.primary, (1, 120, 212));
    assert_eq!(p.secondary, (0, 69, 120));
    assert_eq!(p.accent, (255, 166, 43));
    assert_eq!(p.warning, (255, 166, 43));
    assert_eq!(p.error, (186, 60, 91));
    assert_eq!(p.success, (78, 191, 113));
    assert_eq!(p.foreground, (224, 224, 224));
    assert_eq!(p.background, (18, 18, 18));
    assert_eq!(p.surface, (30, 30, 30));
}

#[test]
fn default_dark_theme_panel_blend() {
    // panel = surface * 0.9 + primary * 0.1, rounded down
    assert_eq!(dark_palette().panel, (27, 39, 48));
    assert_eq!(blend((255, 255, 255), (255, 0, 10)), (255, 229, 230));
}

#[test]
fn resolve_all_base_names() {
    let none = Vec::new();
    assert_eq!(resolve("primary", &none), Some(ThemeLookup::Color(TcssColor::Rgb(1, 120, 212))));
    assert_eq!(resolve("secondary", &none), Some(ThemeLookup::Color(TcssColor::Rgb(0, 69, 120))));
    assert_eq!(resolve("accent", &none), Some(ThemeLookup::Color(TcssColor::Rgb(255, 166, 43))));
    assert_eq!(resolve("surface", &none), Some(ThemeLookup::Color(TcssColor::Rgb(30, 30, 30))));
    assert_eq!(resolve("panel", &none), Some(ThemeLookup::Color(TcssColor::Rgb(27, 39, 48))));
    assert_eq!(resolve("background", &none), Some(ThemeLookup::Color(TcssColor::Rgb(18, 18, 18))));
    assert_eq!(resolve("foreground", &none), Some(ThemeLookup::Color(TcssColor::Rgb(224, 224, 224))));
    assert_eq!(resolve("success", &none), Some(ThemeLookup::Color(TcssColor::Rgb(78, 191, 113))));
    assert_eq!(resolve("warning", &none), Some(ThemeLookup::Color(TcssColor::Rgb(255, 166, 43))));
    assert_eq!(resolve("error", &none), Some(ThemeLookup::Color(TcssColor::Rgb(186, 60, 91))));
}

#[test]
fn resolve_unknown_returns_none() {
    let none = Vec::new();
    assert_eq!(resolve("nonexistent", &none), None);
    assert_eq!(resolve("", &none), None);
    assert_eq!(resolve("primary-lighten-99", &none), None);
    assert_eq!(resolve("primary-lighten-4", &none), None);
    assert_eq!(resolve("-lighten-1", &none), None);
    assert_eq!(resolve("purple-darken-1", &none), None);
}

#[test]
fn shade_names_give_slot_and_steps() {
    assert_eq!(parse_shade("primary-lighten-1"), Some((ThemeSlot::Primary, 1)));
    assert_eq!(parse_shade("accent-lighten-2"), Some((ThemeSlot::Accent, 2)));
    assert_eq!(parse_shade("primary-darken-3"), Some((ThemeSlot::Primary, -3)));
    assert_eq!(parse_shade("error-darken-1"), Some((ThemeSlot::Error, -1)));
    assert_eq!(parse_shade("primary"), None);
    assert_eq!(parse_slot("panel"), Some(ThemeSlot::Panel));
    assert_eq!(
        resolve("accent-lighten-2", &Vec::new()),
        Some(ThemeLookup::Shade((255, 166, 43), 2))
    );
}

#[test]
fn later_variable_settings_win() {
    let mut vars = vec![("primary".to_string(), TcssColor::Rgb(99, 99, 99))];
    assert_eq!(resolve("primary", &vars), Some(ThemeLookup::Color(TcssColor::Rgb(99, 99, 99))));
    vars.push(("primary-lighten-1".to_string(), TcssColor::Rgb(42, 42, 42)));
    assert_eq!(resolve("primary-lighten-1", &vars), Some(ThemeLookup::Color(TcssColor::Rgb(42, 42, 42))));
    vars.push(("primary".to_string(), TcssColor::Rgb(1, 1, 1)));
    assert_eq!(lookup_variable(&vars, "primary"), Some(TcssColor::Rgb(1, 1, 1)));
    assert_eq!(lookup_variable(&vars, "accent"), None);
}
