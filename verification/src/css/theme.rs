//! Theme palettes and the meaning of theme variable names.
//!
//! A theme names ten colour slots (`primary`, `accent`, ...). A variable
//! name is a user variable of the theme, a slot's name, or a slot's name
//! with a shade suffix (`primary-lighten-2`, `accent-darken-1`, one to
//! three steps). User variables come first; the shade of a slot is
//! computed by the host from the slot's colour and the number of steps.
use vstd::prelude::*;

use crate::css::types::TcssColor;
use crate::text::{chars_of, str_eq, string_from_chars};

verus! {

/// The named colour slots of a theme.
#[derive(Clone, Copy, Debug, PartialEq, Eq, Structural)]
pub enum ThemeSlot {
    Primary,
    Secondary,
    Accent,
    Surface,
    Panel,
    Background,
    Foreground,
    Success,
    Warning,
    Error,
}

/// The colours of a theme's slots, each as red, green and blue.
#[derive(Clone, Copy, Debug, PartialEq, Eq)]
pub struct ThemePalette {
    pub primary: (u8, u8, u8),
    pub secondary: (u8, u8, u8),
    pub accent: (u8, u8, u8),
    pub surface: (u8, u8, u8),
    pub panel: (u8, u8, u8),
    pub background: (u8, u8, u8),
    pub foreground: (u8, u8, u8),
    pub success: (u8, u8, u8),
    pub warning: (u8, u8, u8),
    pub error: (u8, u8, u8),
}

impl ThemePalette {
    /// The colour of slot `s`.
    pub open spec fn slot_color(self, s: ThemeSlot) -> (u8, u8, u8) {
        match s {
            ThemeSlot::Primary => self.primary,
            ThemeSlot::Secondary => self.secondary,
            ThemeSlot::Accent => self.accent,
            ThemeSlot::Surface => self.surface,
            ThemeSlot::Panel => self.panel,
            ThemeSlot::Background => self.background,
            ThemeSlot::Foreground => self.foreground,
            ThemeSlot::Success => self.success,
            ThemeSlot::Warning => self.warning,
            ThemeSlot::Error => self.error,
        }
    }

    /// The colour of slot `s`.
    pub fn color_of(&self, s: ThemeSlot) -> (r: (u8, u8, u8))
        ensures
            r == self.slot_color(s),
    {
        match s {
            ThemeSlot::Primary => self.primary,
            ThemeSlot::Secondary => self.secondary,
            ThemeSlot::Accent => self.accent,
            ThemeSlot::Surface => self.surface,
            ThemeSlot::Panel => self.panel,
            ThemeSlot::Background => self.background,
            ThemeSlot::Foreground => self.foreground,
            ThemeSlot::Success => self.success,
            ThemeSlot::Warning => self.warning,
            ThemeSlot::Error => self.error,
        }
    }
}

/// One channel of a colour that is nine tenths `a` and one tenth `b`,
/// rounded down.
pub open spec fn blend_channel_spec(a: u8, b: u8) -> u8 {
    ((9 * a + b) / 10) as u8
}

/// Nine tenths of colour `a` and one tenth of colour `b`, channel by
/// channel, rounded down.
pub open spec fn blend_spec(a: (u8, u8, u8), b: (u8, u8, u8)) -> (u8, u8, u8) {
    (blend_channel_spec(a.0, b.0), blend_channel_spec(a.1, b.1), blend_channel_spec(a.2, b.2))
}

fn blend_channel(a: u8, b: u8) -> (r: u8)
    ensures
        r == blend_channel_spec(a, b),
{
    let s: u16 = 9 * (a as u16) + b as u16;
    (s / 10) as u8
}

/// Nine tenths of colour `a` and one tenth of colour `b`.
pub fn blend(a: (u8, u8, u8), b: (u8, u8, u8)) -> (r: (u8, u8, u8))
    ensures
        r == blend_spec(a, b),
{
    (blend_channel(a.0, b.0), blend_channel(a.1, b.1), blend_channel(a.2, b.2))
}

/// The dark palette: the panel is the surface with a tenth of the primary
/// colour mixed in.
pub open spec fn dark_palette_spec() -> ThemePalette {
    ThemePalette {
        primary: (1, 120, 212),
        secondary: (0, 69, 120),
        accent: (255, 166, 43),
        surface: (30, 30, 30),
        panel: blend_spec((30, 30, 30), (1, 120, 212)),
        background: (18, 18, 18),
        foreground: (224, 224, 224),
        success: (78, 191, 113),
        warning: (255, 166, 43),
        error: (186, 60, 91),
    }
}

/// The dark palette.
pub fn dark_palette() -> (r: ThemePalette)
    ensures
        r == dark_palette_spec(),
{
    let surface: (u8, u8, u8) = (30, 30, 30);
    let primary: (u8, u8, u8) = (1, 120, 212);
    ThemePalette {
        primary,
        secondary: (0, 69, 120),
        accent: (255, 166, 43),
        surface,
        panel: blend(surface, primary),
        background: (18, 18, 18),
        foreground: (224, 224, 224),
        success: (78, 191, 113),
        warning: (255, 166, 43),
        error: (186, 60, 91),
    }
}

/// The dark theme's name.
pub fn dark_theme_name() -> (r: &'static str)
    ensures
        r@ == "textual-dark"@,
{
    "textual-dark"
}

/// The slot that a name denotes, if any.
pub open spec fn slot_named(n: Seq<char>) -> Option<ThemeSlot> {
    if n == "primary"@ {
        Some(ThemeSlot::Primary)
    } else if n == "secondary"@ {
        Some(ThemeSlot::Secondary)
    } else if n == "accent"@ {
        Some(ThemeSlot::Accent)
    } else if n == "surface"@ {
        Some(ThemeSlot::Surface)
    } else if n == "panel"@ {
        Some(ThemeSlot::Panel)
    } else if n == "background"@ {
        Some(ThemeSlot::Background)
    } else if n == "foreground"@ {
        Some(ThemeSlot::Foreground)
    } else if n == "success"@ {
        Some(ThemeSlot::Success)
    } else if n == "warning"@ {
        Some(ThemeSlot::Warning)
    } else if n == "error"@ {
        Some(ThemeSlot::Error)
    } else {
        None
    }
}

/// The slot that a name denotes, if any.
pub fn parse_slot(n: &str) -> (r: Option<ThemeSlot>)
    ensures
        r == slot_named(n@),
{
    if str_eq(n, "primary") {
        Some(ThemeSlot::Primary)
    } else if str_eq(n, "secondary") {
        Some(ThemeSlot::Secondary)
    } else if str_eq(n, "accent") {
        Some(ThemeSlot::Accent)
    } else if str_eq(n, "surface") {
        Some(ThemeSlot::Surface)
    } else if str_eq(n, "panel") {
        Some(ThemeSlot::Panel)
    } else if str_eq(n, "background") {
        Some(ThemeSlot::Background)
    } else if str_eq(n, "foreground") {
        Some(ThemeSlot::Foreground)
    } else if str_eq(n, "success") {
        Some(ThemeSlot::Success)
    } else if str_eq(n, "warning") {
        Some(ThemeSlot::Warning)
    } else if str_eq(n, "error") {
        Some(ThemeSlot::Error)
    } else {
        None
    }
}

/// The number of shade steps a digit stands for: one to three.
pub open spec fn step_digit(c: char) -> Option<i8> {
    if c == '1' {
        Some(1i8)
    } else if c == '2' {
        Some(2i8)
    } else if c == '3' {
        Some(3i8)
    } else {
        None
    }
}

/// Whether `cs` holds `m` from index `start` on.
pub open spec fn holds_at(cs: Seq<char>, start: int, m: Seq<char>) -> bool {
    0 <= start && start + m.len() <= cs.len() && cs.subrange(start, start + m.len()) == m
}

/// The slot and signed number of steps of a shade name: the slot's name,
/// then `-lighten-` (lighter, positive steps) or `-darken-` (darker,
/// negative steps), then one digit from 1 to 3.
pub open spec fn shade_named(n: Seq<char>) -> Option<(ThemeSlot, i8)> {
    if n.len() < 1 || step_digit(n.last()) is None {
        None
    } else {
        let k = step_digit(n.last())->0;
        let body = n.drop_last();
        if holds_at(body, body.len() - 9, "-lighten-"@) && slot_named(
            body.take(body.len() - 9),
        ) is Some {
            Some((slot_named(body.take(body.len() - 9))->0, k))
        } else if holds_at(body, body.len() - 8, "-darken-"@) && slot_named(
            body.take(body.len() - 8),
        ) is Some {
            Some((slot_named(body.take(body.len() - 8))->0, (-k) as i8))
        } else {
            None
        }
    }
}

fn step_of(c: char) -> (r: Option<i8>)
    ensures
        r == step_digit(c),
{
    if c == '1' {
        Some(1)
    } else if c == '2' {
        Some(2)
    } else if c == '3' {
        Some(3)
    } else {
        None
    }
}

/// Whether `cs` holds `m` from index `start` on.
fn chars_hold_at(cs: &Vec<char>, start: usize, m: &str) -> (r: bool)
    ensures
        r == holds_at(cs@, start as int, m@),
{
    let ms = chars_of(m);
    if start > cs.len() || ms.len() > cs.len() - start {
        return false;
    }
    let cl = cs.len();
    let mut i: usize = 0;
    while i < ms.len()
        invariant
            cl == cs@.len(),
            ms@ == m@,
            start + ms@.len() <= cs@.len(),
            i <= ms@.len(),
            forall|j: int| 0 <= j < i ==> cs@[start + j] == ms@[j],
        decreases ms@.len() - i,
    {
        if cs[start + i] != ms[i] {
            assert(cs@.subrange(start as int, start + ms@.len())[i as int] != m@[i as int]);
            return false;
        }
        i = i + 1;
    }
    assert(cs@.subrange(start as int, start + ms@.len()) =~= m@);
    true
}

/// The first `k` characters of `cs`, as a string.
fn prefix_string(cs: &Vec<char>, k: usize) -> (s: String)
    requires
        k <= cs@.len(),
    ensures
        s@ == cs@.take(k as int),
{
    let mut p: Vec<char> = Vec::new();
    let mut i: usize = 0;
    while i < k
        invariant
            k <= cs@.len(),
            i <= k,
            p@ == cs@.take(i as int),
        decreases k - i,
    {
        p.push(cs[i]);
        i = i + 1;
        assert(p@ =~= cs@.take(i as int));
    }
    string_from_chars(&p)
}

/// The slot and signed number of steps of a shade name, if it is one.
pub fn parse_shade(n: &str) -> (r: Option<(ThemeSlot, i8)>)
    ensures
        r == shade_named(n@),
{
    let cs = chars_of(n);
    let len = cs.len();
    if len < 1 {
        return None;
    }
    let k = match step_of(cs[len - 1]) {
        Some(k) => k,
        None => return None,
    };
    let body_len = len - 1;
    let ghost body = n@.drop_last();
    assert(cs@.take(body_len as int) =~= body);
    if body_len >= 9 && chars_hold_at(&cs, body_len - 9, "-lighten-") {
        assert(holds_at(body, body.len() - 9, "-lighten-"@)) by {
            reveal_strlit("-lighten-");
            assert(cs@.subrange(body_len - 9, body_len as int) =~= body.subrange(
                body_len - 9,
                body_len as int,
            ));
        }
        assert(cs@.take(body_len - 9) =~= body.take(body.len() - 9));
        let prefix = prefix_string(&cs, body_len - 9);
        if let Some(slot) = parse_slot(prefix.as_str()) {
            return Some((slot, k));
        }
    } else {
        proof {
            reveal_strlit("-lighten-");
            if body_len >= 9 && holds_at(body, body.len() - 9, "-lighten-"@) {
                assert(cs@.subrange(body_len - 9, body_len as int) =~= body.subrange(
                    body_len - 9,
                    body_len as int,
                ));
            }
        }
    }
    if body_len >= 8 && chars_hold_at(&cs, body_len - 8, "-darken-") {
        assert(holds_at(body, body.len() - 8, "-darken-"@)) by {
            reveal_strlit("-darken-");
            assert(cs@.subrange(body_len - 8, body_len as int) =~= body.subrange(
                body_len - 8,
                body_len as int,
            ));
        }
        assert(cs@.take(body_len - 8) =~= body.take(body.len() - 8));
        let prefix = prefix_string(&cs, body_len - 8);
        if let Some(slot) = parse_slot(prefix.as_str()) {
            return Some((slot, -k));
        }
    } else {
        proof {
            reveal_strlit("-darken-");
            if body_len >= 8 && holds_at(body, body.len() - 8, "-darken-"@) {
                assert(cs@.subrange(body_len - 8, body_len as int) =~= body.subrange(
                    body_len - 8,
                    body_len as int,
                ));
            }
        }
    }
    None
}

/// The colour that user variable `n` is set to: the last setting of that
/// name in `vars`, so that a later setting overrides an earlier one.
pub open spec fn variable_lookup(vars: Seq<(String, TcssColor)>, n: Seq<char>) -> Option<TcssColor>
    decreases vars.len(),
{
    if vars.len() == 0 {
        None
    } else if vars.last().0@ == n {
        Some(vars.last().1)
    } else {
        variable_lookup(vars.drop_last(), n)
    }
}

/// The colour that user variable `name` is set to, if it is set.
pub fn lookup_variable(vars: &Vec<(String, TcssColor)>, name: &str) -> (r: Option<TcssColor>)
    ensures
        r == variable_lookup(vars@, name@),
{
    let mut i: usize = vars.len();
    assert(vars@.take(i as int) =~= vars@);
    while i > 0
        invariant
            i <= vars@.len(),
            variable_lookup(vars@, name@) == variable_lookup(vars@.take(i as int), name@),
        decreases i,
    {
        let ghost before = vars@.take(i as int);
        assert(before.drop_last() =~= vars@.take(i - 1));
        assert(before.last() == vars@[i - 1]);
        if str_eq(vars[i - 1].0.as_str(), name) {
            return Some(vars[i - 1].1);
        }
        i = i - 1;
    }
    None
}

/// What a theme variable name stands for before any shade is computed.
#[derive(Clone, Copy, Debug, PartialEq)]
pub enum ThemeLookup {
    /// A colour as it is.
    Color(TcssColor),
    /// A slot's colour taken lighter (positive) or darker (negative) by a
    /// number of steps.
    Shade((u8, u8, u8), i8),
}

/// The meaning of variable `n` in a theme with `palette` and user
/// variables `vars`: a user variable first, then a slot's colour, then a
/// shade of a slot's colour; nothing for any other name.
pub open spec fn lookup_spec(palette: ThemePalette, vars: Seq<(String, TcssColor)>, n: Seq<char>) -> Option<
    ThemeLookup,
> {
    match variable_lookup(vars, n) {
        Some(c) => Some(ThemeLookup::Color(c)),
        None => match slot_named(n) {
            Some(s) => {
                let c = palette.slot_color(s);
                Some(ThemeLookup::Color(TcssColor::Rgb(c.0, c.1, c.2)))
            },
            None => match shade_named(n) {
                Some((s, k)) => Some(ThemeLookup::Shade(palette.slot_color(s), k)),
                None => None,
            },
        },
    }
}

/// The meaning of variable `name` in a theme.
pub fn lookup_theme_variable(palette: &ThemePalette, vars: &Vec<(String, TcssColor)>, name: &str) -> (r:
    Option<ThemeLookup>)
    ensures
        r == lookup_spec(*palette, vars@, name@),
{
    if let Some(c) = lookup_variable(vars, name) {
        return Some(ThemeLookup::Color(c));
    }
    if let Some(s) = parse_slot(name) {
        let c = palette.color_of(s);
        return Some(ThemeLookup::Color(TcssColor::Rgb(c.0, c.1, c.2)));
    }
    match parse_shade(name) {
        Some((s, k)) => Some(ThemeLookup::Shade(palette.color_of(s), k)),
        None => None,
    }
}

/// Setting a user variable overrides whatever the name meant before:
/// a slot, a shade or an earlier setting.
pub proof fn lemma_variable_overrides(
    palette: ThemePalette,
    vars: Seq<(String, TcssColor)>,
    name: String,
    c: TcssColor,
)
    ensures
        lookup_spec(palette, vars.push((name, c)), name@) == Some(ThemeLookup::Color(c)),
{
    assert(vars.push((name, c)).drop_last() =~= vars);
}

} // verus!
