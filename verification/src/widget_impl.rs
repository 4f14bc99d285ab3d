//! The decisions behind the `#[widget_impl]` attribute: parsing key-combo
//! strings, sorting a widget impl's method attributes into event handlers,
//! key bindings and errors, and choosing which methods to generate.
use vstd::prelude::*;

use crate::keys::{Key, Modifiers};
use crate::text::{chars_of, str_eq, string_from_chars};

verus! {

// ---------------------------------------------------------------------------
// Key combos
// ---------------------------------------------------------------------------

/// A key combo that could not be parsed.
#[derive(Clone, Debug, PartialEq, Eq)]
pub enum KeyComboError {
    /// The key part (after the last `+`, lower-cased) names no key.
    UnknownKey(String),
    /// A modifier part (lower-cased) names no modifier.
    UnknownModifier(String),
}

/// The outcome of parsing a key combo, strings as character sequences.
pub enum ComboOutcome {
    Parsed(Key, Modifiers),
    UnknownKey(Seq<char>),
    UnknownModifier(Seq<char>),
}

/// The outcome that a parse result stands for.
pub open spec fn combo_outcome(r: Result<(Key, Modifiers), KeyComboError>) -> ComboOutcome {
    match r {
        Ok((k, m)) => ComboOutcome::Parsed(k, m),
        Err(KeyComboError::UnknownKey(s)) => ComboOutcome::UnknownKey(s@),
        Err(KeyComboError::UnknownModifier(s)) => ComboOutcome::UnknownModifier(s@),
    }
}

/// ASCII lower-casing of one character; every other character is kept.
pub open spec fn ascii_lower(c: char) -> char {
    if 'A' <= c && c <= 'Z' {
        ((c as u32) + 32) as char
    } else {
        c
    }
}

/// ASCII lower-casing of a string.
pub open spec fn ascii_lower_seq(s: Seq<char>) -> Seq<char> {
    s.map_values(|c: char| ascii_lower(c))
}

/// The pieces of `s` between `+` signs, in order (always at least one).
pub open spec fn split_plus(s: Seq<char>) -> Seq<Seq<char>>
    decreases s.len(),
{
    if s.len() == 0 {
        seq![Seq::<char>::empty()]
    } else {
        let p = split_plus(s.drop_last());
        if s.last() == '+' {
            p.push(Seq::<char>::empty())
        } else {
            p.update(p.len() - 1, p.last().push(s.last()))
        }
    }
}

/// The key that a lower-cased key name denotes: a named key, `f1`..`f12`,
/// `space`, or a single ASCII character for itself.
pub open spec fn key_of(p: Seq<char>) -> Option<Key> {
    if p == "enter"@ {
        Some(Key::Enter)
    } else if p == "tab"@ {
        Some(Key::Tab)
    } else if p == "up"@ {
        Some(Key::Up)
    } else if p == "down"@ {
        Some(Key::Down)
    } else if p == "left"@ {
        Some(Key::Left)
    } else if p == "right"@ {
        Some(Key::Right)
    } else if p == "esc"@ || p == "escape"@ {
        Some(Key::Esc)
    } else if p == "backspace"@ {
        Some(Key::Backspace)
    } else if p == "delete"@ || p == "del"@ {
        Some(Key::Delete)
    } else if p == "home"@ {
        Some(Key::Home)
    } else if p == "end"@ {
        Some(Key::End)
    } else if p == "pageup"@ {
        Some(Key::PageUp)
    } else if p == "pagedown"@ {
        Some(Key::PageDown)
    } else if p == "insert"@ || p == "ins"@ {
        Some(Key::Insert)
    } else if p == "space"@ {
        Some(Key::Char(' '))
    } else if p == "f1"@ {
        Some(Key::F(1))
    } else if p == "f2"@ {
        Some(Key::F(2))
    } else if p == "f3"@ {
        Some(Key::F(3))
    } else if p == "f4"@ {
        Some(Key::F(4))
    } else if p == "f5"@ {
        Some(Key::F(5))
    } else if p == "f6"@ {
        Some(Key::F(6))
    } else if p == "f7"@ {
        Some(Key::F(7))
    } else if p == "f8"@ {
        Some(Key::F(8))
    } else if p == "f9"@ {
        Some(Key::F(9))
    } else if p == "f10"@ {
        Some(Key::F(10))
    } else if p == "f11"@ {
        Some(Key::F(11))
    } else if p == "f12"@ {
        Some(Key::F(12))
    } else if p.len() == 1 && (p[0] as u32) < 128 {
        Some(Key::Char(p[0]))
    } else {
        None
    }
}

/// A modifier name's flag: 0 control, 1 shift, 2 alt; `None` if unknown.
pub open spec fn modifier_of(m: Seq<char>) -> Option<u8> {
    if m == "ctrl"@ || m == "control"@ {
        Some(0)
    } else if m == "shift"@ {
        Some(1)
    } else if m == "alt"@ {
        Some(2)
    } else {
        None
    }
}

/// The first modifier name in `ms` that names no modifier.
pub open spec fn first_unknown_modifier(ms: Seq<Seq<char>>) -> Option<Seq<char>>
    decreases ms.len(),
{
    if ms.len() == 0 {
        None
    } else {
        match first_unknown_modifier(ms.drop_last()) {
            Some(m) => Some(m),
            None => if modifier_of(ms.last()) is None {
                Some(ms.last())
            } else {
                None
            },
        }
    }
}

/// Whether some name in `ms` names the modifier `flag`.
pub open spec fn names_modifier(ms: Seq<Seq<char>>, flag: u8) -> bool {
    exists|i: int| 0 <= i < ms.len() && modifier_of(#[trigger] ms[i]) == Some(flag)
}

/// What a key combo such as `ctrl+s`, `shift+tab`, `a` or `f1` means.
/// Case is ignored (ASCII); the part after the last `+` is the key, the
/// parts before it are modifiers; an unknown key is reported before any
/// unknown modifier, and among modifiers the first unknown one.
pub open spec fn parse_combo_spec(combo: Seq<char>) -> ComboOutcome {
    let parts = split_plus(ascii_lower_seq(combo));
    let key_part = parts.last();
    let mods = parts.drop_last();
    match key_of(key_part) {
        None => ComboOutcome::UnknownKey(key_part),
        Some(k) => match first_unknown_modifier(mods) {
            Some(m) => ComboOutcome::UnknownModifier(m),
            None => ComboOutcome::Parsed(
                k,
                Modifiers {
                    shift: names_modifier(mods, 1),
                    control: names_modifier(mods, 0),
                    alt: names_modifier(mods, 2),
                    other: false,
                },
            ),
        },
    }
}

/// Once a prefix holds an unknown modifier, every extension reports that one.
proof fn lemma_first_unknown_prefix(ms: Seq<Seq<char>>, k: int)
    requires
        0 <= k <= ms.len(),
        first_unknown_modifier(ms.take(k)) is Some,
    ensures
        first_unknown_modifier(ms) == first_unknown_modifier(ms.take(k)),
    decreases ms.len() - k,
{
    if k < ms.len() {
        assert(ms.take(k + 1).drop_last() =~= ms.take(k));
        assert(first_unknown_modifier(ms.take(k + 1)) == first_unknown_modifier(ms.take(k)));
        lemma_first_unknown_prefix(ms, k + 1);
    } else {
        assert(ms.take(k) =~= ms);
    }
}

proof fn lemma_split_nonempty(s: Seq<char>)
    ensures
        split_plus(s).len() >= 1,
    decreases s.len(),
{
    if s.len() > 0 {
        lemma_split_nonempty(s.drop_last());
    }
}

/// The lower-cased characters of a combo.
fn lower_chars(combo: &str) -> (r: Vec<char>)
    ensures
        r@ == ascii_lower_seq(combo@),
{
    let cs = chars_of(combo);
    let mut r: Vec<char> = Vec::new();
    let mut i: usize = 0;
    while i < cs.len()
        invariant
            cs@ == combo@,
            i <= cs@.len(),
            r@ == ascii_lower_seq(cs@.take(i as int)),
        decreases cs@.len() - i,
    {
        let c = cs[i];
        let l = if 'A' <= c && c <= 'Z' {
            ((c as u8) + 32) as char
        } else {
            c
        };
        assert(l == ascii_lower(c));
        r.push(l);
        i = i + 1;
        assert(r@ =~= ascii_lower_seq(cs@.take(i as int)));
    }
    assert(cs@.take(i as int) =~= cs@);
    r
}

/// The pieces of `s` between `+` signs.
fn split_on_plus(s: &Vec<char>) -> (r: Vec<Vec<char>>)
    ensures
        r@.len() == split_plus(s@).len(),
        forall|i: int| 0 <= i < r@.len() ==> (#[trigger] r@[i])@ == split_plus(s@)[i],
{
    let mut r: Vec<Vec<char>> = Vec::new();
    let mut cur: Vec<char> = Vec::new();
    let mut i: usize = 0;
    while i < s.len()
        invariant
            i <= s@.len(),
            r@.len() + 1 == split_plus(s@.take(i as int)).len(),
            forall|k: int| 0 <= k < r@.len() ==> (#[trigger] r@[k])@ == split_plus(
                s@.take(i as int),
            )[k],
            cur@ == split_plus(s@.take(i as int)).last(),
        decreases s@.len() - i,
    {
        let ghost before = s@.take(i as int);
        proof {
            lemma_split_nonempty(before);
        }
        let c = s[i];
        assert(s@.take(i + 1).drop_last() =~= before);
        if c == '+' {
            let done = cur;
            r.push(done);
            cur = Vec::new();
        } else {
            cur.push(c);
        }
        i = i + 1;
        assert(cur@ =~= split_plus(s@.take(i as int)).last());
    }
    r.push(cur);
    assert(s@.take(i as int) =~= s@);
    r
}

/// The key that a lower-cased key name denotes.
fn key_named(part: &Vec<char>) -> (r: Option<Key>)
    ensures
        r == key_of(part@),
{
    let s = string_from_chars(part);
    let p: &str = s.as_str();
    if str_eq(p, "enter") {
        Some(Key::Enter)
    } else if str_eq(p, "tab") {
        Some(Key::Tab)
    } else if str_eq(p, "up") {
        Some(Key::Up)
    } else if str_eq(p, "down") {
        Some(Key::Down)
    } else if str_eq(p, "left") {
        Some(Key::Left)
    } else if str_eq(p, "right") {
        Some(Key::Right)
    } else if str_eq(p, "esc") || str_eq(p, "escape") {
        Some(Key::Esc)
    } else if str_eq(p, "backspace") {
        Some(Key::Backspace)
    } else if str_eq(p, "delete") || str_eq(p, "del") {
        Some(Key::Delete)
    } else if str_eq(p, "home") {
        Some(Key::Home)
    } else if str_eq(p, "end") {
        Some(Key::End)
    } else if str_eq(p, "pageup") {
        Some(Key::PageUp)
    } else if str_eq(p, "pagedown") {
        Some(Key::PageDown)
    } else if str_eq(p, "insert") || str_eq(p, "ins") {
        Some(Key::Insert)
    } else if str_eq(p, "space") {
        Some(Key::Char(' '))
    } else if str_eq(p, "f1") {
        Some(Key::F(1))
    } else if str_eq(p, "f2") {
        Some(Key::F(2))
    } else if str_eq(p, "f3") {
        Some(Key::F(3))
    } else if str_eq(p, "f4") {
        Some(Key::F(4))
    } else if str_eq(p, "f5") {
        Some(Key::F(5))
    } else if str_eq(p, "f6") {
        Some(Key::F(6))
    } else if str_eq(p, "f7") {
        Some(Key::F(7))
    } else if str_eq(p, "f8") {
        Some(Key::F(8))
    } else if str_eq(p, "f9") {
        Some(Key::F(9))
    } else if str_eq(p, "f10") {
        Some(Key::F(10))
    } else if str_eq(p, "f11") {
        Some(Key::F(11))
    } else if str_eq(p, "f12") {
        Some(Key::F(12))
    } else if part.len() == 1 && (part[0] as u32) < 128 {
        Some(Key::Char(part[0]))
    } else {
        None
    }
}

/// The flag of a modifier name: 0 control, 1 shift, 2 alt.
fn modifier_named(part: &Vec<char>) -> (r: Option<u8>)
    ensures
        r == modifier_of(part@),
{
    let s = string_from_chars(part);
    let p: &str = s.as_str();
    if str_eq(p, "ctrl") || str_eq(p, "control") {
        Some(0)
    } else if str_eq(p, "shift") {
        Some(1)
    } else if str_eq(p, "alt") {
        Some(2)
    } else {
        None
    }
}

/// Parse a key combo string like `"ctrl+s"`, `"enter"`, `"shift+tab"`,
/// `"a"` or `"f1"` into the key and the set of modifiers.
pub fn parse_key_combo(combo: &str) -> (r: Result<(Key, Modifiers), KeyComboError>)
    ensures
        combo_outcome(r) == parse_combo_spec(combo@),
{
    let lowered = lower_chars(combo);
    let parts = split_on_plus(&lowered);
    proof {
        lemma_split_nonempty(lowered@);
    }
    let n = parts.len();
    let key_part = &parts[n - 1];
    let ghost spec_parts = split_plus(ascii_lower_seq(combo@));
    let ghost mods = spec_parts.drop_last();
    assert(key_part@ == spec_parts.last());
    let key = match key_named(key_part) {
        Some(k) => k,
        None => {
            return Err(KeyComboError::UnknownKey(string_from_chars(key_part)));
        },
    };
    let mut control = false;
    let mut shift = false;
    let mut alt = false;
    let mut i: usize = 0;
    while i < n - 1
        invariant
            n == parts@.len(),
            n == spec_parts.len(),
            n >= 1,
            mods == spec_parts.drop_last(),
            spec_parts == split_plus(ascii_lower_seq(combo@)),
            key_of(spec_parts.last()) == Some(key),
            forall|k: int| 0 <= k < n ==> (#[trigger] parts@[k])@ == spec_parts[k],
            i <= n - 1,
            first_unknown_modifier(mods.take(i as int)) is None,
            control == names_modifier(mods.take(i as int), 0),
            shift == names_modifier(mods.take(i as int), 1),
            alt == names_modifier(mods.take(i as int), 2),
        decreases n - 1 - i,
    {
        let m = &parts[i];
        let ghost prefix = mods.take(i as int);
        let ghost next = mods.take(i + 1);
        assert(next.drop_last() =~= prefix);
        assert(next.last() == m@);
        match modifier_named(m) {
            Some(0) => {
                control = true;
            },
            Some(1) => {
                shift = true;
            },
            Some(2) => {
                alt = true;
            },
            _ => {
                proof {
                    assert(modifier_of(m@) is None);
                    assert(first_unknown_modifier(next) == Some(m@));
                    lemma_first_unknown_prefix(mods, i + 1);
                }
                return Err(KeyComboError::UnknownModifier(string_from_chars(m)));
            },
        }
        proof {
            assert forall|flag: u8| #![auto] names_modifier(next, flag) == (names_modifier(prefix, flag) || modifier_of(m@) == Some(flag)) by {
                if names_modifier(next, flag) {
                    let w = choose|w: int| 0 <= w < next.len() && modifier_of(#[trigger] next[w]) == Some(flag);
                    if w < prefix.len() {
                        assert(prefix[w] == next[w]);
                    }
                }
                if names_modifier(prefix, flag) {
                    let w = choose|w: int| 0 <= w < prefix.len() && modifier_of(#[trigger] prefix[w]) == Some(flag);
                    assert(next[w] == prefix[w]);
                }
                if modifier_of(m@) == Some(flag) {
                    assert(next[next.len() - 1] == m@);
                }
            }
        }
        i = i + 1;
    }
    assert(mods.take(i as int) =~= mods);
    Ok((key, Modifiers { shift, control, alt, other: false }))
}

// ---------------------------------------------------------------------------
// The `#[widget_impl]` transform
// ---------------------------------------------------------------------------

/// An attribute on a method of a widget impl, as the transform sees it.
#[derive(Clone, Debug, PartialEq, Eq)]
pub enum AttrKind {
    /// `#[on(Type)]` whose argument parsed as a type path.
    On,
    /// `#[keybinding("combo", "action")]` with exactly two string literals.
    Keybinding(String, String),
    /// Any other attribute: it stays on the method.
    Other,
}

/// One attribute of one method: the method's position among the impl's
/// methods, the attribute's position among that method's attributes, and
/// its kind. A transform receives these in source order.
#[derive(Clone, Debug, PartialEq, Eq)]
pub struct MethodAttr {
    pub method: usize,
    pub index: usize,
    pub kind: AttrKind,
}

/// A key binding generated from a `#[keybinding]` attribute.
#[derive(Clone, Debug, PartialEq, Eq)]
pub struct KeybindingEntry {
    pub method: usize,
    pub index: usize,
    pub key: Key,
    pub modifiers: Modifiers,
    pub action: String,
}

/// A key-combo error at a given attribute.
#[derive(Clone, Debug, PartialEq, Eq)]
pub struct AttrError {
    pub method: usize,
    pub index: usize,
    pub error: KeyComboError,
}

/// What the transform does to a widget impl.
#[derive(Clone, Debug, PartialEq, Eq)]
pub struct WidgetImplPlan {
    /// The attributes that stay, as (method, index), in source order.
    pub retained: Vec<(usize, usize)>,
    /// The `#[on]` handlers, as (method, index), in source order.
    pub on_handlers: Vec<(usize, usize)>,
    /// The key bindings, in source order.
    pub keybindings: Vec<KeybindingEntry>,
    pub inject_widget_type_name: bool,
    pub inject_can_focus: bool,
    pub inject_on_mount: bool,
    pub inject_on_unmount: bool,
    pub inject_on_event: bool,
    pub inject_key_bindings: bool,
    pub inject_on_action: bool,
}

/// The attributes that stay on their methods.
pub open spec fn retained_of(a: Seq<MethodAttr>) -> Seq<(usize, usize)>
    decreases a.len(),
{
    if a.len() == 0 {
        Seq::empty()
    } else {
        let p = retained_of(a.drop_last());
        if a.last().kind is Other {
            p.push((a.last().method, a.last().index))
        } else {
            p
        }
    }
}

/// The `#[on]` handlers.
pub open spec fn on_handlers_of(a: Seq<MethodAttr>) -> Seq<(usize, usize)>
    decreases a.len(),
{
    if a.len() == 0 {
        Seq::empty()
    } else {
        let p = on_handlers_of(a.drop_last());
        if a.last().kind is On {
            p.push((a.last().method, a.last().index))
        } else {
            p
        }
    }
}

/// The key bindings whose combos parse: (method, index, key, modifiers, action).
pub open spec fn keybindings_of(a: Seq<MethodAttr>) -> Seq<(usize, usize, Key, Modifiers, Seq<char>)>
    decreases a.len(),
{
    if a.len() == 0 {
        Seq::empty()
    } else {
        let p = keybindings_of(a.drop_last());
        match a.last().kind {
            AttrKind::Keybinding(combo, action) => match parse_combo_spec(combo@) {
                ComboOutcome::Parsed(k, m) => p.push((a.last().method, a.last().index, k, m, action@)),
                _ => p,
            },
            _ => p,
        }
    }
}

/// The key bindings whose combos do not parse: (method, index, outcome).
pub open spec fn combo_errors_of(a: Seq<MethodAttr>) -> Seq<(usize, usize, ComboOutcome)>
    decreases a.len(),
{
    if a.len() == 0 {
        Seq::empty()
    } else {
        let p = combo_errors_of(a.drop_last());
        match a.last().kind {
            AttrKind::Keybinding(combo, _) => match parse_combo_spec(combo@) {
                ComboOutcome::Parsed(_, _) => p,
                o => p.push((a.last().method, a.last().index, o)),
            },
            _ => p,
        }
    }
}

pub open spec fn keybinding_view(e: KeybindingEntry) -> (usize, usize, Key, Modifiers, Seq<char>) {
    (e.method, e.index, e.key, e.modifiers, e.action@)
}

pub open spec fn attr_error_view(e: AttrError) -> (usize, usize, ComboOutcome) {
    (e.method, e.index, combo_outcome(Err(e.error)))
}

/// Whether one of the names is `name`.
pub open spec fn names_contain(names: Seq<String>, name: Seq<char>) -> bool {
    exists|i: int| 0 <= i < names.len() && (#[trigger] names[i])@ == name
}

/// Whether a method of the given name is among the impl's methods.
pub fn method_exists(names: &Vec<String>, name: &str) -> (r: bool)
    ensures
        r == names_contain(names@, name@),
{
    let mut i: usize = 0;
    while i < names.len()
        invariant
            i <= names@.len(),
            forall|k: int| 0 <= k < i ==> (#[trigger] names@[k])@ != name@,
        decreases names@.len() - i,
    {
        if str_eq(names[i].as_str(), name) {
            return true;
        }
        i = i + 1;
    }
    false
}

/// Decide what `#[widget_impl]` does to an impl with the given method
/// names and method attributes: the `#[on]` and `#[keybinding]` attributes
/// are taken off the methods and every other attribute stays; if any key
/// combo fails to parse, the result is every such error, in source order;
/// otherwise the plan says which methods to generate: the four lifecycle
/// delegations that the impl does not define itself, `on_event` when there
/// are `#[on]` handlers, and `key_bindings` and `on_action` when there are
/// key bindings, each only where the impl does not define it.
pub fn plan_widget_impl(attrs: &Vec<MethodAttr>, method_names: &Vec<String>) -> (r: Result<
    WidgetImplPlan,
    Vec<AttrError>,
>)
    ensures
        r is Err <==> combo_errors_of(attrs@).len() > 0,
        r matches Err(es) ==> es@.map_values(|e: AttrError| attr_error_view(e)) == combo_errors_of(
            attrs@,
        ),
        r matches Ok(plan) ==> {
            &&& plan.retained@ == retained_of(attrs@)
            &&& plan.on_handlers@ == on_handlers_of(attrs@)
            &&& plan.keybindings@.map_values(|e: KeybindingEntry| keybinding_view(e))
                == keybindings_of(attrs@)
            &&& plan.inject_widget_type_name == !names_contain(
                method_names@,
                "widget_type_name"@,
            )
            &&& plan.inject_can_focus == !names_contain(method_names@, "can_focus"@)
            &&& plan.inject_on_mount == !names_contain(method_names@, "on_mount"@)
            &&& plan.inject_on_unmount == !names_contain(method_names@, "on_unmount"@)
            &&& plan.inject_on_event == (!names_contain(method_names@, "on_event"@)
                && on_handlers_of(attrs@).len() > 0)
            &&& plan.inject_key_bindings == (!names_contain(method_names@, "key_bindings"@)
                && keybindings_of(attrs@).len() > 0)
            &&& plan.inject_on_action == (!names_contain(method_names@, "on_action"@)
                && keybindings_of(attrs@).len() > 0)
        },
{
    let mut retained: Vec<(usize, usize)> = Vec::new();
    let mut on_handlers: Vec<(usize, usize)> = Vec::new();
    let mut keybindings: Vec<KeybindingEntry> = Vec::new();
    let mut errors: Vec<AttrError> = Vec::new();
    let mut i: usize = 0;
    while i < attrs.len()
        invariant
            i <= attrs@.len(),
            retained@ == retained_of(attrs@.take(i as int)),
            on_handlers@ == on_handlers_of(attrs@.take(i as int)),
            keybindings@.map_values(|e: KeybindingEntry| keybinding_view(e)) == keybindings_of(
                attrs@.take(i as int),
            ),
            errors@.map_values(|e: AttrError| attr_error_view(e)) == combo_errors_of(
                attrs@.take(i as int),
            ),
        decreases attrs@.len() - i,
    {
        let a = &attrs[i];
        let ghost before = attrs@.take(i as int);
        assert(attrs@.take(i + 1).drop_last() =~= before);
        assert(attrs@.take(i + 1).last() == *a);
        let ghost kb0 = keybindings@;
        let ghost er0 = errors@;
        match &a.kind {
            AttrKind::On => {
                on_handlers.push((a.method, a.index));
            },
            AttrKind::Keybinding(combo, action) => {
                match parse_key_combo(combo.as_str()) {
                    Ok((key, modifiers)) => {
                        keybindings.push(
                            KeybindingEntry {
                                method: a.method,
                                index: a.index,
                                key,
                                modifiers,
                                action: action.clone(),
                            },
                        );
                        assert(keybindings@.drop_last() =~= kb0);
                    },
                    Err(error) => {
                        errors.push(AttrError { method: a.method, index: a.index, error });
                        assert(errors@.drop_last() =~= er0);
                    },
                }
            },
            AttrKind::Other => {
                retained.push((a.method, a.index));
            },
        }
        i = i + 1;
        assert(keybindings@.map_values(|e: KeybindingEntry| keybinding_view(e)) =~= keybindings_of(
            attrs@.take(i as int),
        ));
        assert(errors@.map_values(|e: AttrError| attr_error_view(e)) =~= combo_errors_of(
            attrs@.take(i as int),
        ));
    }
    assert(attrs@.take(i as int) =~= attrs@);
    if errors.len() > 0 {
        return Err(errors);
    }
    let has_on_event = method_exists(method_names, "on_event");
    let has_key_bindings = method_exists(method_names, "key_bindings");
    let has_on_action = method_exists(method_names, "on_action");
    let any_on = on_handlers.len() > 0;
    let any_kb = keybindings.len() > 0;
    Ok(
        WidgetImplPlan {
            retained,
            on_handlers,
            keybindings,
            inject_widget_type_name: !method_exists(method_names, "widget_type_name"),
            inject_can_focus: !method_exists(method_names, "can_focus"),
            inject_on_mount: !method_exists(method_names, "on_mount"),
            inject_on_unmount: !method_exists(method_names, "on_unmount"),
            inject_on_event: !has_on_event && any_on,
            inject_key_bindings: !has_key_bindings && any_kb,
            inject_on_action: !has_on_action && any_kb,
        },
    )
}

/// Parsing a key combo ignores ASCII case: combos that lower-case alike
/// parse alike.
pub proof fn lemma_combo_case_insensitive(a: Seq<char>, b: Seq<char>)
    requires
        ascii_lower_seq(a) == ascii_lower_seq(b),
    ensures
        parse_combo_spec(a) == parse_combo_spec(b),
{
}

/// The name of a key in a key combo, for the keys that have one: each
/// named key under its own name, `f1`..`f12`, and an ASCII character as
/// itself.
pub open spec fn key_name(k: Key) -> Option<Seq<char>> {
    match k {
        Key::Enter => Some("enter"@),
        Key::Tab => Some("tab"@),
        Key::Up => Some("up"@),
        Key::Down => Some("down"@),
        Key::Left => Some("left"@),
        Key::Right => Some("right"@),
        Key::Esc => Some("esc"@),
        Key::Backspace => Some("backspace"@),
        Key::Delete => Some("delete"@),
        Key::Home => Some("home"@),
        Key::End => Some("end"@),
        Key::PageUp => Some("pageup"@),
        Key::PageDown => Some("pagedown"@),
        Key::Insert => Some("insert"@),
        Key::F(n) => {
            if n == 1 {
                Some("f1"@)
            } else if n == 2 {
                Some("f2"@)
            } else if n == 3 {
                Some("f3"@)
            } else if n == 4 {
                Some("f4"@)
            } else if n == 5 {
                Some("f5"@)
            } else if n == 6 {
                Some("f6"@)
            } else if n == 7 {
                Some("f7"@)
            } else if n == 8 {
                Some("f8"@)
            } else if n == 9 {
                Some("f9"@)
            } else if n == 10 {
                Some("f10"@)
            } else if n == 11 {
                Some("f11"@)
            } else if n == 12 {
                Some("f12"@)
            } else {
                None
            }
        },
        Key::Char(c) => if (c as u32) < 128 {
            Some(seq![c])
        } else {
            None
        },
        Key::Other => None,
    }
}

/// Reading a key's name gives back that key: each named key, function key
/// and ASCII character is what its own name parses to, so distinct keys
/// have distinct names.
pub proof fn lemma_key_names_round_trip(k: Key)
    requires
        key_name(k) is Some,
    ensures
        key_of(key_name(k)->0) == Some(k),
{
    match k {
        Key::Enter => {
            reveal_strlit("enter");
        },
        Key::Tab => {
            reveal_strlit("tab");
            reveal_strlit("enter");
            assert("tab"@.len() != "enter"@.len());
        },
        Key::Up => {
            reveal_strlit("up");
            reveal_strlit("enter");
            reveal_strlit("tab");
            assert("up"@.len() != "enter"@.len());
            assert("up"@.len() != "tab"@.len());
        },
        Key::Down => {
            reveal_strlit("down");
            reveal_strlit("enter");
            reveal_strlit("tab");
            reveal_strlit("up");
            assert("down"@.len() != "enter"@.len());
            assert("down"@.len() != "tab"@.len());
            assert("down"@.len() != "up"@.len());
        },
        Key::Left => {
            reveal_strlit("left");
            reveal_strlit("enter");
            reveal_strlit("tab");
            reveal_strlit("up");
            reveal_strlit("down");
            assert("left"@.len() != "enter"@.len());
            assert("left"@.len() != "tab"@.len());
            assert("left"@.len() != "up"@.len());
            assert("left"@[0] != "down"@[0]);
        },
        Key::Right => {
            reveal_strlit("right");
            reveal_strlit("enter");
            reveal_strlit("tab");
            reveal_strlit("up");
            reveal_strlit("down");
            reveal_strlit("left");
            assert("right"@[0] != "enter"@[0]);
            assert("right"@.len() != "tab"@.len());
            assert("right"@.len() != "up"@.len());
            assert("right"@.len() != "down"@.len());
            assert("right"@.len() != "left"@.len());
        },
        Key::Esc => {
            reveal_strlit("esc");
            reveal_strlit("enter");
            reveal_strlit("tab");
            reveal_strlit("up");
            reveal_strlit("down");
            reveal_strlit("left");
            reveal_strlit("right");
            assert("esc"@.len() != "enter"@.len());
            assert("esc"@[0] != "tab"@[0]);
            assert("esc"@.len() != "up"@.len());
            assert("esc"@.len() != "down"@.len());
            assert("esc"@.len() != "left"@.len());
            assert("esc"@.len() != "right"@.len());
        },
        Key::Backspace => {
            reveal_strlit("backspace");
            reveal_strlit("enter");
            reveal_strlit("tab");
            reveal_strlit("up");
            reveal_strlit("down");
            reveal_strlit("left");
            reveal_strlit("right");
            reveal_strlit("esc");
            reveal_strlit("escape");
            assert("backspace"@.len() != "enter"@.len());
            assert("backspace"@.len() != "tab"@.len());
            assert("backspace"@.len() != "up"@.len());
            assert("backspace"@.len() != "down"@.len());
            assert("backspace"@.len() != "left"@.len());
            assert("backspace"@.len() != "right"@.len());
            assert("backspace"@.len() != "esc"@.len());
            assert("backspace"@.len() != "escape"@.len());
        },
        Key::Delete => {
            reveal_strlit("delete");
            reveal_strlit("enter");
            reveal_strlit("tab");
            reveal_strlit("up");
            reveal_strlit("down");
            reveal_strlit("left");
            reveal_strlit("right");
            reveal_strlit("esc");
            reveal_strlit("escape");
            reveal_strlit("backspace");
            assert("delete"@.len() != "enter"@.len());
            assert("delete"@.len() != "tab"@.len());
            assert("delete"@.len() != "up"@.len());
            assert("delete"@.len() != "down"@.len());
            assert("delete"@.len() != "left"@.len());
            assert("delete"@.len() != "right"@.len());
            assert("delete"@.len() != "esc"@.len());
            assert("delete"@[0] != "escape"@[0]);
            assert("delete"@.len() != "backspace"@.len());
        },
        Key::Home => {
            reveal_strlit("home");
            reveal_strlit("enter");
            reveal_strlit("tab");
            reveal_strlit("up");
            reveal_strlit("down");
            reveal_strlit("left");
            reveal_strlit("right");
            reveal_strlit("esc");
            reveal_strlit("escape");
            reveal_strlit("backspace");
            reveal_strlit("delete");
            reveal_strlit("del");
            assert("home"@.len() != "enter"@.len());
            assert("home"@.len() != "tab"@.len());
            assert("home"@.len() != "up"@.len());
            assert("home"@[0] != "down"@[0]);
            assert("home"@[0] != "left"@[0]);
            assert("home"@.len() != "right"@.len());
            assert("home"@.len() != "esc"@.len());
            assert("home"@.len() != "escape"@.len());
            assert("home"@.len() != "backspace"@.len());
            assert("home"@.len() != "delete"@.len());
            assert("home"@.len() != "del"@.len());
        },
        Key::End => {
            reveal_strlit("end");
            reveal_strlit("enter");
            reveal_strlit("tab");
            reveal_strlit("up");
            reveal_strlit("down");
            reveal_strlit("left");
            reveal_strlit("right");
            reveal_strlit("esc");
            reveal_strlit("escape");
            reveal_strlit("backspace");
            reveal_strlit("delete");
            reveal_strlit("del");
            reveal_strlit("home");
            assert("end"@.len() != "enter"@.len());
            assert("end"@[0] != "tab"@[0]);
            assert("end"@.len() != "up"@.len());
            assert("end"@.len() != "down"@.len());
            assert("end"@.len() != "left"@.len());
            assert("end"@.len() != "right"@.len());
            assert("end"@[1] != "esc"@[1]);
            assert("end"@.len() != "escape"@.len());
            assert("end"@.len() != "backspace"@.len());
            assert("end"@.len() != "delete"@.len());
            assert("end"@[0] != "del"@[0]);
            assert("end"@.len() != "home"@.len());
        },
        Key::PageUp => {
            reveal_strlit("pageup");
            reveal_strlit("enter");
            reveal_strlit("tab");
            reveal_strlit("up");
            reveal_strlit("down");
            reveal_strlit("left");
            reveal_strlit("right");
            reveal_strlit("esc");
            reveal_strlit("escape");
            reveal_strlit("backspace");
            reveal_strlit("delete");
            reveal_strlit("del");
            reveal_strlit("home");
            reveal_strlit("end");
            assert("pageup"@.len() != "enter"@.len());
            assert("pageup"@.len() != "tab"@.len());
            assert("pageup"@.len() != "up"@.len());
            assert("pageup"@.len() != "down"@.len());
            assert("pageup"@.len() != "left"@.len());
            assert("pageup"@.len() != "right"@.len());
            assert("pageup"@.len() != "esc"@.len());
            assert("pageup"@[0] != "escape"@[0]);
            assert("pageup"@.len() != "backspace"@.len());
            assert("pageup"@[0] != "delete"@[0]);
            assert("pageup"@.len() != "del"@.len());
            assert("pageup"@.len() != "home"@.len());
            assert("pageup"@.len() != "end"@.len());
        },
        Key::PageDown => {
            reveal_strlit("pagedown");
            reveal_strlit("enter");
            reveal_strlit("tab");
            reveal_strlit("up");
            reveal_strlit("down");
            reveal_strlit("left");
            reveal_strlit("right");
            reveal_strlit("esc");
            reveal_strlit("escape");
            reveal_strlit("backspace");
            reveal_strlit("delete");
            reveal_strlit("del");
            reveal_strlit("home");
            reveal_strlit("end");
            reveal_strlit("pageup");
            assert("pagedown"@.len() != "enter"@.len());
            assert("pagedown"@.len() != "tab"@.len());
            assert("pagedown"@.len() != "up"@.len());
            assert("pagedown"@.len() != "down"@.len());
            assert("pagedown"@.len() != "left"@.len());
            assert("pagedown"@.len() != "right"@.len());
            assert("pagedown"@.len() != "esc"@.len());
            assert("pagedown"@.len() != "escape"@.len());
            assert("pagedown"@.len() != "backspace"@.len());
            assert("pagedown"@.len() != "delete"@.len());
            assert("pagedown"@.len() != "del"@.len());
            assert("pagedown"@.len() != "home"@.len());
            assert("pagedown"@.len() != "end"@.len());
            assert("pagedown"@.len() != "pageup"@.len());
        },
        Key::Insert => {
            reveal_strlit("insert");
            reveal_strlit("enter");
            reveal_strlit("tab");
            reveal_strlit("up");
            reveal_strlit("down");
            reveal_strlit("left");
            reveal_strlit("right");
            reveal_strlit("esc");
            reveal_strlit("escape");
            reveal_strlit("backspace");
            reveal_strlit("delete");
            reveal_strlit("del");
            reveal_strlit("home");
            reveal_strlit("end");
            reveal_strlit("pageup");
            reveal_strlit("pagedown");
            assert("insert"@.len() != "enter"@.len());
            assert("insert"@.len() != "tab"@.len());
            assert("insert"@.len() != "up"@.len());
            assert("insert"@.len() != "down"@.len());
            assert("insert"@.len() != "left"@.len());
            assert("insert"@.len() != "right"@.len());
            assert("insert"@.len() != "esc"@.len());
            assert("insert"@[0] != "escape"@[0]);
            assert("insert"@.len() != "backspace"@.len());
            assert("insert"@[0] != "delete"@[0]);
            assert("insert"@.len() != "del"@.len());
            assert("insert"@.len() != "home"@.len());
            assert("insert"@.len() != "end"@.len());
            assert("insert"@[0] != "pageup"@[0]);
            assert("insert"@.len() != "pagedown"@.len());
        },
        Key::F(n) => {
            if n == 1 {
                reveal_strlit("f1");
                reveal_strlit("enter");
                reveal_strlit("tab");
                reveal_strlit("up");
                reveal_strlit("down");
                reveal_strlit("left");
                reveal_strlit("right");
                reveal_strlit("esc");
                reveal_strlit("escape");
                reveal_strlit("backspace");
                reveal_strlit("delete");
                reveal_strlit("del");
                reveal_strlit("home");
                reveal_strlit("end");
                reveal_strlit("pageup");
                reveal_strlit("pagedown");
                reveal_strlit("insert");
                reveal_strlit("ins");
                reveal_strlit("space");
                assert("f1"@.len() != "enter"@.len());
                assert("f1"@.len() != "tab"@.len());
                assert("f1"@[0] != "up"@[0]);
                assert("f1"@.len() != "down"@.len());
                assert("f1"@.len() != "left"@.len());
                assert("f1"@.len() != "right"@.len());
                assert("f1"@.len() != "esc"@.len());
                assert("f1"@.len() != "escape"@.len());
                assert("f1"@.len() != "backspace"@.len());
                assert("f1"@.len() != "delete"@.len());
                assert("f1"@.len() != "del"@.len());
                assert("f1"@.len() != "home"@.len());
                assert("f1"@.len() != "end"@.len());
                assert("f1"@.len() != "pageup"@.len());
                assert("f1"@.len() != "pagedown"@.len());
                assert("f1"@.len() != "insert"@.len());
                assert("f1"@.len() != "ins"@.len());
                assert("f1"@.len() != "space"@.len());
            } else if n == 2 {
                reveal_strlit("f2");
                reveal_strlit("enter");
                reveal_strlit("tab");
                reveal_strlit("up");
                reveal_strlit("down");
                reveal_strlit("left");
                reveal_strlit("right");
                reveal_strlit("esc");
                reveal_strlit("escape");
                reveal_strlit("backspace");
                reveal_strlit("delete");
                reveal_strlit("del");
                reveal_strlit("home");
                reveal_strlit("end");
                reveal_strlit("pageup");
                reveal_strlit("pagedown");
                reveal_strlit("insert");
                reveal_strlit("ins");
                reveal_strlit("space");
                reveal_strlit("f1");
                assert("f2"@.len() != "enter"@.len());
                assert("f2"@.len() != "tab"@.len());
                assert("f2"@[0] != "up"@[0]);
                assert("f2"@.len() != "down"@.len());
                assert("f2"@.len() != "left"@.len());
                assert("f2"@.len() != "right"@.len());
                assert("f2"@.len() != "esc"@.len());
                assert("f2"@.len() != "escape"@.len());
                assert("f2"@.len() != "backspace"@.len());
                assert("f2"@.len() != "delete"@.len());
                assert("f2"@.len() != "del"@.len());
                assert("f2"@.len() != "home"@.len());
                assert("f2"@.len() != "end"@.len());
                assert("f2"@.len() != "pageup"@.len());
                assert("f2"@.len() != "pagedown"@.len());
                assert("f2"@.len() != "insert"@.len());
                assert("f2"@.len() != "ins"@.len());
                assert("f2"@.len() != "space"@.len());
                assert("f2"@[1] != "f1"@[1]);
            } else if n == 3 {
                reveal_strlit("f3");
                reveal_strlit("enter");
                reveal_strlit("tab");
                reveal_strlit("up");
                reveal_strlit("down");
                reveal_strlit("left");
                reveal_strlit("right");
                reveal_strlit("esc");
                reveal_strlit("escape");
                reveal_strlit("backspace");
                reveal_strlit("delete");
                reveal_strlit("del");
                reveal_strlit("home");
                reveal_strlit("end");
                reveal_strlit("pageup");
                reveal_strlit("pagedown");
                reveal_strlit("insert");
                reveal_strlit("ins");
                reveal_strlit("space");
                reveal_strlit("f1");
                reveal_strlit("f2");
                assert("f3"@.len() != "enter"@.len());
                assert("f3"@.len() != "tab"@.len());
                assert("f3"@[0] != "up"@[0]);
                assert("f3"@.len() != "down"@.len());
                assert("f3"@.len() != "left"@.len());
                assert("f3"@.len() != "right"@.len());
                assert("f3"@.len() != "esc"@.len());
                assert("f3"@.len() != "escape"@.len());
                assert("f3"@.len() != "backspace"@.len());
                assert("f3"@.len() != "delete"@.len());
                assert("f3"@.len() != "del"@.len());
                assert("f3"@.len() != "home"@.len());
                assert("f3"@.len() != "end"@.len());
                assert("f3"@.len() != "pageup"@.len());
                assert("f3"@.len() != "pagedown"@.len());
                assert("f3"@.len() != "insert"@.len());
                assert("f3"@.len() != "ins"@.len());
                assert("f3"@.len() != "space"@.len());
                assert("f3"@[1] != "f1"@[1]);
                assert("f3"@[1] != "f2"@[1]);
            } else if n == 4 {
                reveal_strlit("f4");
                reveal_strlit("enter");
                reveal_strlit("tab");
                reveal_strlit("up");
                reveal_strlit("down");
                reveal_strlit("left");
                reveal_strlit("right");
                reveal_strlit("esc");
                reveal_strlit("escape");
                reveal_strlit("backspace");
                reveal_strlit("delete");
                reveal_strlit("del");
                reveal_strlit("home");
                reveal_strlit("end");
                reveal_strlit("pageup");
                reveal_strlit("pagedown");
                reveal_strlit("insert");
                reveal_strlit("ins");
                reveal_strlit("space");
                reveal_strlit("f1");
                reveal_strlit("f2");
                reveal_strlit("f3");
                assert("f4"@.len() != "enter"@.len());
                assert("f4"@.len() != "tab"@.len());
                assert("f4"@[0] != "up"@[0]);
                assert("f4"@.len() != "down"@.len());
                assert("f4"@.len() != "left"@.len());
                assert("f4"@.len() != "right"@.len());
                assert("f4"@.len() != "esc"@.len());
                assert("f4"@.len() != "escape"@.len());
                assert("f4"@.len() != "backspace"@.len());
                assert("f4"@.len() != "delete"@.len());
                assert("f4"@.len() != "del"@.len());
                assert("f4"@.len() != "home"@.len());
                assert("f4"@.len() != "end"@.len());
                assert("f4"@.len() != "pageup"@.len());
                assert("f4"@.len() != "pagedown"@.len());
                assert("f4"@.len() != "insert"@.len());
                assert("f4"@.len() != "ins"@.len());
                assert("f4"@.len() != "space"@.len());
                assert("f4"@[1] != "f1"@[1]);
                assert("f4"@[1] != "f2"@[1]);
                assert("f4"@[1] != "f3"@[1]);
            } else if n == 5 {
                reveal_strlit("f5");
                reveal_strlit("enter");
                reveal_strlit("tab");
                reveal_strlit("up");
                reveal_strlit("down");
                reveal_strlit("left");
                reveal_strlit("right");
                reveal_strlit("esc");
                reveal_strlit("escape");
                reveal_strlit("backspace");
                reveal_strlit("delete");
                reveal_strlit("del");
                reveal_strlit("home");
                reveal_strlit("end");
                reveal_strlit("pageup");
                reveal_strlit("pagedown");
                reveal_strlit("insert");
                reveal_strlit("ins");
                reveal_strlit("space");
                reveal_strlit("f1");
                reveal_strlit("f2");
                reveal_strlit("f3");
                reveal_strlit("f4");
                assert("f5"@.len() != "enter"@.len());
                assert("f5"@.len() != "tab"@.len());
                assert("f5"@[0] != "up"@[0]);
                assert("f5"@.len() != "down"@.len());
                assert("f5"@.len() != "left"@.len());
                assert("f5"@.len() != "right"@.len());
                assert("f5"@.len() != "esc"@.len());
                assert("f5"@.len() != "escape"@.len());
                assert("f5"@.len() != "backspace"@.len());
                assert("f5"@.len() != "delete"@.len());
                assert("f5"@.len() != "del"@.len());
                assert("f5"@.len() != "home"@.len());
                assert("f5"@.len() != "end"@.len());
                assert("f5"@.len() != "pageup"@.len());
                assert("f5"@.len() != "pagedown"@.len());
                assert("f5"@.len() != "insert"@.len());
                assert("f5"@.len() != "ins"@.len());
                assert("f5"@.len() != "space"@.len());
                assert("f5"@[1] != "f1"@[1]);
                assert("f5"@[1] != "f2"@[1]);
                assert("f5"@[1] != "f3"@[1]);
                assert("f5"@[1] != "f4"@[1]);
            } else if n == 6 {
                reveal_strlit("f6");
                reveal_strlit("enter");
                reveal_strlit("tab");
                reveal_strlit("up");
                reveal_strlit("down");
                reveal_strlit("left");
                reveal_strlit("right");
                reveal_strlit("esc");
                reveal_strlit("escape");
                reveal_strlit("backspace");
                reveal_strlit("delete");
                reveal_strlit("del");
                reveal_strlit("home");
                reveal_strlit("end");
                reveal_strlit("pageup");
                reveal_strlit("pagedown");
                reveal_strlit("insert");
                reveal_strlit("ins");
                reveal_strlit("space");
                reveal_strlit("f1");
                reveal_strlit("f2");
                reveal_strlit("f3");
                reveal_strlit("f4");
                reveal_strlit("f5");
                assert("f6"@.len() != "enter"@.len());
                assert("f6"@.len() != "tab"@.len());
                assert("f6"@[0] != "up"@[0]);
                assert("f6"@.len() != "down"@.len());
                assert("f6"@.len() != "left"@.len());
                assert("f6"@.len() != "right"@.len());
                assert("f6"@.len() != "esc"@.len());
                assert("f6"@.len() != "escape"@.len());
                assert("f6"@.len() != "backspace"@.len());
                assert("f6"@.len() != "delete"@.len());
                assert("f6"@.len() != "del"@.len());
                assert("f6"@.len() != "home"@.len());
                assert("f6"@.len() != "end"@.len());
                assert("f6"@.len() != "pageup"@.len());
                assert("f6"@.len() != "pagedown"@.len());
                assert("f6"@.len() != "insert"@.len());
                assert("f6"@.len() != "ins"@.len());
                assert("f6"@.len() != "space"@.len());
                assert("f6"@[1] != "f1"@[1]);
                assert("f6"@[1] != "f2"@[1]);
                assert("f6"@[1] != "f3"@[1]);
                assert("f6"@[1] != "f4"@[1]);
                assert("f6"@[1] != "f5"@[1]);
            } else if n == 7 {
                reveal_strlit("f7");
                reveal_strlit("enter");
                reveal_strlit("tab");
                reveal_strlit("up");
                reveal_strlit("down");
                reveal_strlit("left");
                reveal_strlit("right");
                reveal_strlit("esc");
                reveal_strlit("escape");
                reveal_strlit("backspace");
                reveal_strlit("delete");
                reveal_strlit("del");
                reveal_strlit("home");
                reveal_strlit("end");
                reveal_strlit("pageup");
                reveal_strlit("pagedown");
                reveal_strlit("insert");
                reveal_strlit("ins");
                reveal_strlit("space");
                reveal_strlit("f1");
                reveal_strlit("f2");
                reveal_strlit("f3");
                reveal_strlit("f4");
                reveal_strlit("f5");
                reveal_strlit("f6");
                assert("f7"@.len() != "enter"@.len());
                assert("f7"@.len() != "tab"@.len());
                assert("f7"@[0] != "up"@[0]);
                assert("f7"@.len() != "down"@.len());
                assert("f7"@.len() != "left"@.len());
                assert("f7"@.len() != "right"@.len());
                assert("f7"@.len() != "esc"@.len());
                assert("f7"@.len() != "escape"@.len());
                assert("f7"@.len() != "backspace"@.len());
                assert("f7"@.len() != "delete"@.len());
                assert("f7"@.len() != "del"@.len());
                assert("f7"@.len() != "home"@.len());
                assert("f7"@.len() != "end"@.len());
                assert("f7"@.len() != "pageup"@.len());
                assert("f7"@.len() != "pagedown"@.len());
                assert("f7"@.len() != "insert"@.len());
                assert("f7"@.len() != "ins"@.len());
                assert("f7"@.len() != "space"@.len());
                assert("f7"@[1] != "f1"@[1]);
                assert("f7"@[1] != "f2"@[1]);
                assert("f7"@[1] != "f3"@[1]);
                assert("f7"@[1] != "f4"@[1]);
                assert("f7"@[1] != "f5"@[1]);
                assert("f7"@[1] != "f6"@[1]);
            } else if n == 8 {
                reveal_strlit("f8");
                reveal_strlit("enter");
                reveal_strlit("tab");
                reveal_strlit("up");
                reveal_strlit("down");
                reveal_strlit("left");
                reveal_strlit("right");
                reveal_strlit("esc");
                reveal_strlit("escape");
                reveal_strlit("backspace");
                reveal_strlit("delete");
                reveal_strlit("del");
                reveal_strlit("home");
                reveal_strlit("end");
                reveal_strlit("pageup");
                reveal_strlit("pagedown");
                reveal_strlit("insert");
                reveal_strlit("ins");
                reveal_strlit("space");
                reveal_strlit("f1");
                reveal_strlit("f2");
                reveal_strlit("f3");
                reveal_strlit("f4");
                reveal_strlit("f5");
                reveal_strlit("f6");
                reveal_strlit("f7");
                assert("f8"@.len() != "enter"@.len());
                assert("f8"@.len() != "tab"@.len());
                assert("f8"@[0] != "up"@[0]);
                assert("f8"@.len() != "down"@.len());
                assert("f8"@.len() != "left"@.len());
                assert("f8"@.len() != "right"@.len());
                assert("f8"@.len() != "esc"@.len());
                assert("f8"@.len() != "escape"@.len());
                assert("f8"@.len() != "backspace"@.len());
                assert("f8"@.len() != "delete"@.len());
                assert("f8"@.len() != "del"@.len());
                assert("f8"@.len() != "home"@.len());
                assert("f8"@.len() != "end"@.len());
                assert("f8"@.len() != "pageup"@.len());
                assert("f8"@.len() != "pagedown"@.len());
                assert("f8"@.len() != "insert"@.len());
                assert("f8"@.len() != "ins"@.len());
                assert("f8"@.len() != "space"@.len());
                assert("f8"@[1] != "f1"@[1]);
                assert("f8"@[1] != "f2"@[1]);
                assert("f8"@[1] != "f3"@[1]);
                assert("f8"@[1] != "f4"@[1]);
                assert("f8"@[1] != "f5"@[1]);
                assert("f8"@[1] != "f6"@[1]);
                assert("f8"@[1] != "f7"@[1]);
            } else if n == 9 {
                reveal_strlit("f9");
                reveal_strlit("enter");
                reveal_strlit("tab");
                reveal_strlit("up");
                reveal_strlit("down");
                reveal_strlit("left");
                reveal_strlit("right");
                reveal_strlit("esc");
                reveal_strlit("escape");
                reveal_strlit("backspace");
                reveal_strlit("delete");
                reveal_strlit("del");
                reveal_strlit("home");
                reveal_strlit("end");
                reveal_strlit("pageup");
                reveal_strlit("pagedown");
                reveal_strlit("insert");
                reveal_strlit("ins");
                reveal_strlit("space");
                reveal_strlit("f1");
                reveal_strlit("f2");
                reveal_strlit("f3");
                reveal_strlit("f4");
                reveal_strlit("f5");
                reveal_strlit("f6");
                reveal_strlit("f7");
                reveal_strlit("f8");
                assert("f9"@.len() != "enter"@.len());
                assert("f9"@.len() != "tab"@.len());
                assert("f9"@[0] != "up"@[0]);
                assert("f9"@.len() != "down"@.len());
                assert("f9"@.len() != "left"@.len());
                assert("f9"@.len() != "right"@.len());
                assert("f9"@.len() != "esc"@.len());
                assert("f9"@.len() != "escape"@.len());
                assert("f9"@.len() != "backspace"@.len());
                assert("f9"@.len() != "delete"@.len());
                assert("f9"@.len() != "del"@.len());
                assert("f9"@.len() != "home"@.len());
                assert("f9"@.len() != "end"@.len());
                assert("f9"@.len() != "pageup"@.len());
                assert("f9"@.len() != "pagedown"@.len());
                assert("f9"@.len() != "insert"@.len());
                assert("f9"@.len() != "ins"@.len());
                assert("f9"@.len() != "space"@.len());
                assert("f9"@[1] != "f1"@[1]);
                assert("f9"@[1] != "f2"@[1]);
                assert("f9"@[1] != "f3"@[1]);
                assert("f9"@[1] != "f4"@[1]);
                assert("f9"@[1] != "f5"@[1]);
                assert("f9"@[1] != "f6"@[1]);
                assert("f9"@[1] != "f7"@[1]);
                assert("f9"@[1] != "f8"@[1]);
            } else if n == 10 {
                reveal_strlit("f10");
                reveal_strlit("enter");
                reveal_strlit("tab");
                reveal_strlit("up");
                reveal_strlit("down");
                reveal_strlit("left");
                reveal_strlit("right");
                reveal_strlit("esc");
                reveal_strlit("escape");
                reveal_strlit("backspace");
                reveal_strlit("delete");
                reveal_strlit("del");
                reveal_strlit("home");
                reveal_strlit("end");
                reveal_strlit("pageup");
                reveal_strlit("pagedown");
                reveal_strlit("insert");
                reveal_strlit("ins");
                reveal_strlit("space");
                reveal_strlit("f1");
                reveal_strlit("f2");
                reveal_strlit("f3");
                reveal_strlit("f4");
                reveal_strlit("f5");
                reveal_strlit("f6");
                reveal_strlit("f7");
                reveal_strlit("f8");
                reveal_strlit("f9");
                assert("f10"@.len() != "enter"@.len());
                assert("f10"@[0] != "tab"@[0]);
                assert("f10"@.len() != "up"@.len());
                assert("f10"@.len() != "down"@.len());
                assert("f10"@.len() != "left"@.len());
                assert("f10"@.len() != "right"@.len());
                assert("f10"@[0] != "esc"@[0]);
                assert("f10"@.len() != "escape"@.len());
                assert("f10"@.len() != "backspace"@.len());
                assert("f10"@.len() != "delete"@.len());
                assert("f10"@[0] != "del"@[0]);
                assert("f10"@.len() != "home"@.len());
                assert("f10"@[0] != "end"@[0]);
                assert("f10"@.len() != "pageup"@.len());
                assert("f10"@.len() != "pagedown"@.len());
                assert("f10"@.len() != "insert"@.len());
                assert("f10"@[0] != "ins"@[0]);
                assert("f10"@.len() != "space"@.len());
                assert("f10"@.len() != "f1"@.len());
                assert("f10"@.len() != "f2"@.len());
                assert("f10"@.len() != "f3"@.len());
                assert("f10"@.len() != "f4"@.len());
                assert("f10"@.len() != "f5"@.len());
                assert("f10"@.len() != "f6"@.len());
                assert("f10"@.len() != "f7"@.len());
                assert("f10"@.len() != "f8"@.len());
                assert("f10"@.len() != "f9"@.len());
            } else if n == 11 {
                reveal_strlit("f11");
                reveal_strlit("enter");
                reveal_strlit("tab");
                reveal_strlit("up");
                reveal_strlit("down");
                reveal_strlit("left");
                reveal_strlit("right");
                reveal_strlit("esc");
                reveal_strlit("escape");
                reveal_strlit("backspace");
                reveal_strlit("delete");
                reveal_strlit("del");
                reveal_strlit("home");
                reveal_strlit("end");
                reveal_strlit("pageup");
                reveal_strlit("pagedown");
                reveal_strlit("insert");
                reveal_strlit("ins");
                reveal_strlit("space");
                reveal_strlit("f1");
                reveal_strlit("f2");
                reveal_strlit("f3");
                reveal_strlit("f4");
                reveal_strlit("f5");
                reveal_strlit("f6");
                reveal_strlit("f7");
                reveal_strlit("f8");
                reveal_strlit("f9");
                reveal_strlit("f10");
                assert("f11"@.len() != "enter"@.len());
                assert("f11"@[0] != "tab"@[0]);
                assert("f11"@.len() != "up"@.len());
                assert("f11"@.len() != "down"@.len());
                assert("f11"@.len() != "left"@.len());
                assert("f11"@.len() != "right"@.len());
                assert("f11"@[0] != "esc"@[0]);
                assert("f11"@.len() != "escape"@.len());
                assert("f11"@.len() != "backspace"@.len());
                assert("f11"@.len() != "delete"@.len());
                assert("f11"@[0] != "del"@[0]);
                assert("f11"@.len() != "home"@.len());
                assert("f11"@[0] != "end"@[0]);
                assert("f11"@.len() != "pageup"@.len());
                assert("f11"@.len() != "pagedown"@.len());
                assert("f11"@.len() != "insert"@.len());
                assert("f11"@[0] != "ins"@[0]);
                assert("f11"@.len() != "space"@.len());
                assert("f11"@.len() != "f1"@.len());
                assert("f11"@.len() != "f2"@.len());
                assert("f11"@.len() != "f3"@.len());
                assert("f11"@.len() != "f4"@.len());
                assert("f11"@.len() != "f5"@.len());
                assert("f11"@.len() != "f6"@.len());
                assert("f11"@.len() != "f7"@.len());
                assert("f11"@.len() != "f8"@.len());
                assert("f11"@.len() != "f9"@.len());
                assert("f11"@[2] != "f10"@[2]);
            } else if n == 12 {
                reveal_strlit("f12");
                reveal_strlit("enter");
                reveal_strlit("tab");
                reveal_strlit("up");
                reveal_strlit("down");
                reveal_strlit("left");
                reveal_strlit("right");
                reveal_strlit("esc");
                reveal_strlit("escape");
                reveal_strlit("backspace");
                reveal_strlit("delete");
                reveal_strlit("del");
                reveal_strlit("home");
                reveal_strlit("end");
                reveal_strlit("pageup");
                reveal_strlit("pagedown");
                reveal_strlit("insert");
                reveal_strlit("ins");
                reveal_strlit("space");
                reveal_strlit("f1");
                reveal_strlit("f2");
                reveal_strlit("f3");
                reveal_strlit("f4");
                reveal_strlit("f5");
                reveal_strlit("f6");
                reveal_strlit("f7");
                reveal_strlit("f8");
                reveal_strlit("f9");
                reveal_strlit("f10");
                reveal_strlit("f11");
                assert("f12"@.len() != "enter"@.len());
                assert("f12"@[0] != "tab"@[0]);
                assert("f12"@.len() != "up"@.len());
                assert("f12"@.len() != "down"@.len());
                assert("f12"@.len() != "left"@.len());
                assert("f12"@.len() != "right"@.len());
                assert("f12"@[0] != "esc"@[0]);
                assert("f12"@.len() != "escape"@.len());
                assert("f12"@.len() != "backspace"@.len());
                assert("f12"@.len() != "delete"@.len());
                assert("f12"@[0] != "del"@[0]);
                assert("f12"@.len() != "home"@.len());
                assert("f12"@[0] != "end"@[0]);
                assert("f12"@.len() != "pageup"@.len());
                assert("f12"@.len() != "pagedown"@.len());
                assert("f12"@.len() != "insert"@.len());
                assert("f12"@[0] != "ins"@[0]);
                assert("f12"@.len() != "space"@.len());
                assert("f12"@.len() != "f1"@.len());
                assert("f12"@.len() != "f2"@.len());
                assert("f12"@.len() != "f3"@.len());
                assert("f12"@.len() != "f4"@.len());
                assert("f12"@.len() != "f5"@.len());
                assert("f12"@.len() != "f6"@.len());
                assert("f12"@.len() != "f7"@.len());
                assert("f12"@.len() != "f8"@.len());
                assert("f12"@.len() != "f9"@.len());
                assert("f12"@[2] != "f10"@[2]);
                assert("f12"@[2] != "f11"@[2]);
            }
        },
        Key::Char(c) => {
            reveal_strlit("enter");
            reveal_strlit("tab");
            reveal_strlit("up");
            reveal_strlit("down");
            reveal_strlit("left");
            reveal_strlit("right");
            reveal_strlit("esc");
            reveal_strlit("escape");
            reveal_strlit("backspace");
            reveal_strlit("delete");
            reveal_strlit("del");
            reveal_strlit("home");
            reveal_strlit("end");
            reveal_strlit("pageup");
            reveal_strlit("pagedown");
            reveal_strlit("insert");
            reveal_strlit("ins");
            reveal_strlit("space");
            reveal_strlit("f1");
            reveal_strlit("f2");
            reveal_strlit("f3");
            reveal_strlit("f4");
            reveal_strlit("f5");
            reveal_strlit("f6");
            reveal_strlit("f7");
            reveal_strlit("f8");
            reveal_strlit("f9");
            reveal_strlit("f10");
            reveal_strlit("f11");
            reveal_strlit("f12");
            assert("enter"@.len() >= 2);
            assert("tab"@.len() >= 2);
            assert("up"@.len() >= 2);
            assert("down"@.len() >= 2);
            assert("left"@.len() >= 2);
            assert("right"@.len() >= 2);
            assert("esc"@.len() >= 2);
            assert("escape"@.len() >= 2);
            assert("backspace"@.len() >= 2);
            assert("delete"@.len() >= 2);
            assert("del"@.len() >= 2);
            assert("home"@.len() >= 2);
            assert("end"@.len() >= 2);
            assert("pageup"@.len() >= 2);
            assert("pagedown"@.len() >= 2);
            assert("insert"@.len() >= 2);
            assert("ins"@.len() >= 2);
            assert("space"@.len() >= 2);
            assert("f1"@.len() >= 2);
            assert("f2"@.len() >= 2);
            assert("f3"@.len() >= 2);
            assert("f4"@.len() >= 2);
            assert("f5"@.len() >= 2);
            assert("f6"@.len() >= 2);
            assert("f7"@.len() >= 2);
            assert("f8"@.len() >= 2);
            assert("f9"@.len() >= 2);
            assert("f10"@.len() >= 2);
            assert("f11"@.len() >= 2);
            assert("f12"@.len() >= 2);
        },
        Key::Other => {},
    }
}

/// A key's name alone, as a combo, parses to that key with no modifier
/// (for a name that is already lower case and holds no `+`).
pub proof fn lemma_key_name_parses(k: Key)
    requires
        key_name(k) is Some,
        ascii_lower_seq(key_name(k)->0) == key_name(k)->0,
        forall|i: int| 0 <= i < (key_name(k)->0).len() ==> (key_name(k)->0)[i] != '+',
    ensures
        parse_combo_spec(key_name(k)->0) == ComboOutcome::Parsed(
            k,
            Modifiers { shift: false, control: false, alt: false, other: false },
        ),
{
    let n = key_name(k)->0;
    lemma_key_names_round_trip(k);
    lemma_split_single(n);
    assert(split_plus(n).drop_last() =~= Seq::<Seq<char>>::empty());
    assert(first_unknown_modifier(Seq::<Seq<char>>::empty()) is None);
}

/// The alternative spellings name the same keys: `escape` is `esc`, `del`
/// is `delete`, `ins` is `insert`, and `space` is the space character.
pub proof fn lemma_key_aliases()
    ensures
        key_of("escape"@) == Some(Key::Esc),
        key_of("del"@) == Some(Key::Delete),
        key_of("ins"@) == Some(Key::Insert),
        key_of("space"@) == Some(Key::Char(' ')),
{
    reveal_strlit("enter");
    reveal_strlit("tab");
    reveal_strlit("up");
    reveal_strlit("down");
    reveal_strlit("left");
    reveal_strlit("right");
    reveal_strlit("esc");
    reveal_strlit("escape");
    reveal_strlit("backspace");
    reveal_strlit("delete");
    reveal_strlit("del");
    reveal_strlit("home");
    reveal_strlit("end");
    reveal_strlit("pageup");
    reveal_strlit("pagedown");
    reveal_strlit("insert");
    reveal_strlit("ins");
    reveal_strlit("space");
    reveal_strlit("f1");
    reveal_strlit("f2");
    reveal_strlit("f3");
    reveal_strlit("f4");
    reveal_strlit("f5");
    reveal_strlit("f6");
    reveal_strlit("f7");
    reveal_strlit("f8");
    reveal_strlit("f9");
    reveal_strlit("f10");
    reveal_strlit("f11");
    reveal_strlit("f12");
    assert("escape"@.len() != "enter"@.len());
    assert("escape"@.len() != "tab"@.len());
    assert("escape"@.len() != "up"@.len());
    assert("escape"@.len() != "down"@.len());
    assert("escape"@.len() != "left"@.len());
    assert("escape"@.len() != "right"@.len());
    assert("escape"@.len() != "esc"@.len());
    assert("del"@.len() != "enter"@.len());
    assert("del"@[0] != "tab"@[0]);
    assert("del"@.len() != "up"@.len());
    assert("del"@.len() != "down"@.len());
    assert("del"@.len() != "left"@.len());
    assert("del"@.len() != "right"@.len());
    assert("del"@[0] != "esc"@[0]);
    assert("del"@.len() != "escape"@.len());
    assert("del"@.len() != "backspace"@.len());
    assert("del"@.len() != "delete"@.len());
    assert("ins"@.len() != "enter"@.len());
    assert("ins"@[0] != "tab"@[0]);
    assert("ins"@.len() != "up"@.len());
    assert("ins"@.len() != "down"@.len());
    assert("ins"@.len() != "left"@.len());
    assert("ins"@.len() != "right"@.len());
    assert("ins"@[0] != "esc"@[0]);
    assert("ins"@.len() != "escape"@.len());
    assert("ins"@.len() != "backspace"@.len());
    assert("ins"@.len() != "delete"@.len());
    assert("ins"@[0] != "del"@[0]);
    assert("ins"@.len() != "home"@.len());
    assert("ins"@[0] != "end"@[0]);
    assert("ins"@.len() != "pageup"@.len());
    assert("ins"@.len() != "pagedown"@.len());
    assert("ins"@.len() != "insert"@.len());
    assert("space"@[0] != "enter"@[0]);
    assert("space"@.len() != "tab"@.len());
    assert("space"@.len() != "up"@.len());
    assert("space"@.len() != "down"@.len());
    assert("space"@.len() != "left"@.len());
    assert("space"@[0] != "right"@[0]);
    assert("space"@.len() != "esc"@.len());
    assert("space"@.len() != "escape"@.len());
    assert("space"@.len() != "backspace"@.len());
    assert("space"@.len() != "delete"@.len());
    assert("space"@.len() != "del"@.len());
    assert("space"@.len() != "home"@.len());
    assert("space"@.len() != "end"@.len());
    assert("space"@.len() != "pageup"@.len());
    assert("space"@.len() != "pagedown"@.len());
    assert("space"@.len() != "insert"@.len());
    assert("space"@.len() != "ins"@.len());
}

/// Splitting at a `+` splits the two sides apart.
proof fn lemma_split_concat(a: Seq<char>, b: Seq<char>)
    ensures
        split_plus(a + seq!['+'] + b) == split_plus(a) + split_plus(b),
    decreases b.len(),
{
    let s = a + seq!['+'] + b;
    lemma_split_nonempty(a);
    if b.len() == 0 {
        assert(s.drop_last() =~= a);
        assert(split_plus(a).push(Seq::<char>::empty()) =~= split_plus(a) + split_plus(b));
    } else {
        lemma_split_concat(a, b.drop_last());
        lemma_split_nonempty(b.drop_last());
        assert(s.drop_last() =~= a + seq!['+'] + b.drop_last());
        assert(s.last() == b.last());
        let pa = split_plus(a);
        let pb = split_plus(b.drop_last());
        if b.last() == '+' {
            assert((pa + pb).push(Seq::<char>::empty()) =~= pa + pb.push(Seq::<char>::empty()));
        } else {
            let q = pa + pb;
            assert(q.update(q.len() - 1, q.last().push(b.last())) =~= pa + pb.update(
                pb.len() - 1,
                pb.last().push(b.last()),
            ));
        }
    }
}

/// A string without `+` is a single piece.
proof fn lemma_split_single(s: Seq<char>)
    requires
        forall|i: int| 0 <= i < s.len() ==> s[i] != '+',
    ensures
        split_plus(s) == seq![s],
    decreases s.len(),
{
    if s.len() == 0 {
        assert(s =~= Seq::<char>::empty());
    } else {
        assert(s[s.len() - 1] != '+');
        lemma_split_single(s.drop_last());
        assert(s.drop_last().push(s.last()) =~= s);
        assert(seq![s.drop_last()].update(0, s.drop_last().push(s.last())) =~= seq![s]);
    }
}

/// The first unknown modifier of a list that starts with `x`.
proof fn lemma_first_unknown_cons(x: Seq<char>, ms: Seq<Seq<char>>)
    ensures
        first_unknown_modifier(seq![x] + ms) == if modifier_of(x) is None {
            Some(x)
        } else {
            first_unknown_modifier(ms)
        },
    decreases ms.len(),
{
    if ms.len() == 0 {
        assert((seq![x] + ms).drop_last() =~= Seq::<Seq<char>>::empty());
        assert((seq![x] + ms).last() == x);
        assert(first_unknown_modifier(Seq::<Seq<char>>::empty()) is None);
    } else {
        lemma_first_unknown_cons(x, ms.drop_last());
        assert((seq![x] + ms).drop_last() =~= seq![x] + ms.drop_last());
        assert((seq![x] + ms).last() == ms.last());
    }
}

/// The modifiers with the one of flag `flag` (0 control, 1 shift, 2 alt)
/// held as well.
pub open spec fn with_modifier(m: Modifiers, flag: u8) -> Modifiers {
    if flag == 0 {
        Modifiers { control: true, ..m }
    } else if flag == 1 {
        Modifiers { shift: true, ..m }
    } else {
        Modifiers { alt: true, ..m }
    }
}

/// Putting a modifier word `w` and a `+` in front of a combo: a combo that
/// parsed gains that modifier and keeps its key and other modifiers, and
/// an error stays the same error.
proof fn lemma_prefix_modifier(w: Seq<char>, c: Seq<char>, flag: u8)
    requires
        modifier_of(w) == Some(flag),
        ascii_lower_seq(w) == w,
        forall|i: int| 0 <= i < w.len() ==> w[i] != '+',
    ensures
        parse_combo_spec(w + seq!['+'] + c) == match parse_combo_spec(c) {
            ComboOutcome::Parsed(k, m) => ComboOutcome::Parsed(k, with_modifier(m, flag)),
            other => other,
        },
{
    let lc = ascii_lower_seq(c);
    assert(ascii_lower_seq(w + seq!['+'] + c) =~= w + seq!['+'] + lc);
    lemma_split_concat(w, lc);
    lemma_split_single(w);
    lemma_split_nonempty(lc);
    let pc = split_plus(lc);
    let parts = seq![w] + pc;
    assert(split_plus(w + seq!['+'] + lc) == parts);
    assert(parts.last() == pc.last());
    assert(parts.drop_last() =~= seq![w] + pc.drop_last());
    lemma_first_unknown_cons(w, pc.drop_last());
    let mods = pc.drop_last();
    let all = seq![w] + mods;
    assert(all[0] == w);
    assert forall|f: u8| names_modifier(all, f) == (modifier_of(w) == Some(f) || names_modifier(mods, f)) by {
        if names_modifier(mods, f) {
            let i = choose|i: int| 0 <= i < mods.len() && modifier_of(#[trigger] mods[i]) == Some(f);
            assert(all[i + 1] == mods[i]);
        }
        if names_modifier(all, f) {
            let i = choose|i: int| 0 <= i < all.len() && modifier_of(#[trigger] all[i]) == Some(f);
            if i > 0 {
                assert(all[i] == mods[i - 1]);
            }
        }
    }
}

/// `ctrl+` (or `control+`), `shift+` and `alt+` in front of any combo add
/// control, shift and alt to what it parses to, and keep any error.
pub proof fn lemma_modifier_prefixes(c: Seq<char>)
    ensures
        parse_combo_spec("ctrl+"@ + c) == match parse_combo_spec(c) {
            ComboOutcome::Parsed(k, m) => ComboOutcome::Parsed(k, Modifiers { control: true, ..m }),
            other => other,
        },
        parse_combo_spec("control+"@ + c) == match parse_combo_spec(c) {
            ComboOutcome::Parsed(k, m) => ComboOutcome::Parsed(k, Modifiers { control: true, ..m }),
            other => other,
        },
        parse_combo_spec("shift+"@ + c) == match parse_combo_spec(c) {
            ComboOutcome::Parsed(k, m) => ComboOutcome::Parsed(k, Modifiers { shift: true, ..m }),
            other => other,
        },
        parse_combo_spec("alt+"@ + c) == match parse_combo_spec(c) {
            ComboOutcome::Parsed(k, m) => ComboOutcome::Parsed(k, Modifiers { alt: true, ..m }),
            other => other,
        },
{
    reveal_strlit("ctrl+");
    reveal_strlit("control+");
    reveal_strlit("shift+");
    reveal_strlit("alt+");
    reveal_strlit("ctrl");
    reveal_strlit("control");
    reveal_strlit("shift");
    reveal_strlit("alt");
    let ctrl = "ctrl"@;
    let control = "control"@;
    let shift = "shift"@;
    let alt = "alt"@;
    assert("ctrl+"@ =~= ctrl + seq!['+']);
    assert("control+"@ =~= control + seq!['+']);
    assert("shift+"@ =~= shift + seq!['+']);
    assert("alt+"@ =~= alt + seq!['+']);
    assert(ascii_lower_seq(ctrl) =~= ctrl);
    assert(ascii_lower_seq(control) =~= control);
    assert(ascii_lower_seq(shift) =~= shift);
    assert(ascii_lower_seq(alt) =~= alt);
    assert(control.len() != ctrl.len());
    assert(shift.len() != ctrl.len() && shift.len() != control.len());
    assert(alt.len() != ctrl.len() && alt.len() != control.len() && alt.len() != shift.len());
    lemma_prefix_modifier(ctrl, c, 0);
    lemma_prefix_modifier(control, c, 0);
    lemma_prefix_modifier(shift, c, 1);
    lemma_prefix_modifier(alt, c, 2);
    assert(ctrl + seq!['+'] + c =~= "ctrl+"@ + c);
    assert(control + seq!['+'] + c =~= "control+"@ + c);
    assert(shift + seq!['+'] + c =~= "shift+"@ + c);
    assert(alt + seq!['+'] + c =~= "alt+"@ + c);
}

/// Every attribute of the impl is accounted for exactly once: it is kept,
/// or it is an `#[on]` handler, a key binding, or a key-combo error.
pub proof fn lemma_attrs_partitioned(a: Seq<MethodAttr>)
    ensures
        retained_of(a).len() + on_handlers_of(a).len() + keybindings_of(a).len()
            + combo_errors_of(a).len() == a.len(),
    decreases a.len(),
{
    if a.len() > 0 {
        lemma_attrs_partitioned(a.drop_last());
    }
}

} // verus!
