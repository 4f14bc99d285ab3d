//! Format-constrained input (dates, phone numbers, ...) driven by a mask.
//!
//! The mask template (e.g. `##/##/####`) fixes the format. Input-slot
//! characters (`#`, `A`, `a`, `N`, `X`) accept user input; `>` and `<` switch
//! later slots to upper or lower case and take no room; every other character
//! is a separator that the display inserts by itself.
//!
//! The cursor lives in raw-value space: it indexes the characters the user
//! typed, never the separators, and the display column is derived from it.
use vstd::prelude::*;

use crate::geometry::{CellStyle, PlannedCell, Rect};
use crate::keys::{hidden_binding, EventPropagation, Key, KeyBinding, KeyPress};
use crate::text::{str_eq, string_from_chars};

verus! {

/// Case transform directive applied to an input slot.
#[derive(Clone, Copy, Debug, PartialEq, Eq, Structural)]
pub enum CaseMode {
    Upper,
    Lower,
}

/// A slot of the mask. Separator slots are literals; all others accept input.
#[derive(Clone, Copy, Debug, PartialEq, Eq, Structural)]
pub enum MaskSlot {
    /// `#`: ASCII digits only.
    Digit,
    /// `A`: ASCII letters only.
    Letter,
    /// `a`: ASCII letters or space.
    LetterOrBlank,
    /// `N`: ASCII letters and digits.
    Alphanumeric,
    /// `X`: ASCII letters and digits, or space.
    AlphaOrBlank,
    /// Any other mask character: a literal separator, not editable.
    Separator(char),
}

impl MaskSlot {
    pub open spec fn is_input_spec(self) -> bool {
        !(self is Separator)
    }

    /// Whether the slot takes user input (is not a separator).
    pub fn is_input_slot(&self) -> (b: bool)
        ensures
            b == self.is_input_spec(),
    {
        match self {
            MaskSlot::Separator(_) => false,
            _ => true,
        }
    }
}

/// Message: the raw value after a keystroke changed it.
#[derive(Clone, Debug, PartialEq, Eq)]
pub struct Changed {
    /// Current raw value (user-typed characters only, no separators).
    pub value: String,
}

/// Message: the raw value when the user pressed Enter.
#[derive(Clone, Debug, PartialEq, Eq)]
pub struct Submitted {
    /// Raw value at the time of submission.
    pub value: String,
}

/// A message that a masked input asks its host to post.
#[derive(Clone, Debug, PartialEq, Eq)]
pub enum MaskedInputMessage {
    Changed(Changed),
    Submitted(Submitted),
}

// ---------------------------------------------------------------------------
// Character classes and case mappings
// ---------------------------------------------------------------------------

pub open spec fn is_ascii_digit(c: char) -> bool {
    '0' <= c && c <= '9'
}

pub open spec fn is_ascii_alpha(c: char) -> bool {
    ('a' <= c && c <= 'z') || ('A' <= c && c <= 'Z')
}

pub open spec fn is_ascii_alnum(c: char) -> bool {
    is_ascii_digit(c) || is_ascii_alpha(c)
}

/// The first character of `char::to_uppercase` of `c`.
pub uninterp spec fn uppercase_head(c: char) -> Option<char>;

/// The first character of `char::to_lowercase` of `c`.
pub uninterp spec fn lowercase_head(c: char) -> Option<char>;

/// `char::to_uppercase` from std, its first character. The documentation
/// promises at least one character, so the result is always `Some`.
#[verifier::external_body]
fn uppercase_first(c: char) -> (r: Option<char>)
    ensures
        r == uppercase_head(c),
        r is Some,
{
    c.to_uppercase().next()
}

/// `char::to_lowercase` from std, its first character. The documentation
/// promises at least one character, so the result is always `Some`.
#[verifier::external_body]
fn lowercase_first(c: char) -> (r: Option<char>)
    ensures
        r == lowercase_head(c),
        r is Some,
{
    c.to_lowercase().next()
}

fn ascii_digit(c: char) -> (b: bool)
    ensures
        b == is_ascii_digit(c),
{
    '0' <= c && c <= '9'
}

fn ascii_alpha(c: char) -> (b: bool)
    ensures
        b == is_ascii_alpha(c),
{
    ('a' <= c && c <= 'z') || ('A' <= c && c <= 'Z')
}

// ---------------------------------------------------------------------------
// The meaning of a mask
// ---------------------------------------------------------------------------

/// The slot that a mask character stands for; `None` for the case directives.
pub open spec fn slot_for(c: char) -> Option<MaskSlot> {
    if c == '>' || c == '<' {
        None
    } else if c == '#' {
        Some(MaskSlot::Digit)
    } else if c == 'A' {
        Some(MaskSlot::Letter)
    } else if c == 'a' {
        Some(MaskSlot::LetterOrBlank)
    } else if c == 'N' {
        Some(MaskSlot::Alphanumeric)
    } else if c == 'X' {
        Some(MaskSlot::AlphaOrBlank)
    } else {
        Some(MaskSlot::Separator(c))
    }
}

/// The case directive that a mask character stands for, if any.
pub open spec fn directive_for(c: char) -> Option<CaseMode> {
    if c == '>' {
        Some(CaseMode::Upper)
    } else if c == '<' {
        Some(CaseMode::Lower)
    } else {
        None
    }
}

/// The slots of a mask: every character but the directives, in order.
pub open spec fn mask_slots_of(m: Seq<char>) -> Seq<MaskSlot>
    decreases m.len(),
{
    if m.len() == 0 {
        Seq::empty()
    } else {
        let prev = mask_slots_of(m.drop_last());
        match slot_for(m.last()) {
            Some(s) => prev.push(s),
            None => prev,
        }
    }
}

/// The case directive in force after a mask prefix: the last one in it.
pub open spec fn case_after(m: Seq<char>) -> Option<CaseMode>
    decreases m.len(),
{
    if m.len() == 0 {
        None
    } else {
        match directive_for(m.last()) {
            Some(mode) => Some(mode),
            None => case_after(m.drop_last()),
        }
    }
}

/// For each input slot of the mask, the case directive in force before it.
pub open spec fn slot_cases_of(m: Seq<char>) -> Seq<Option<CaseMode>>
    decreases m.len(),
{
    if m.len() == 0 {
        Seq::empty()
    } else {
        let prev = slot_cases_of(m.drop_last());
        match slot_for(m.last()) {
            Some(s) => if s.is_input_spec() {
                prev.push(case_after(m.drop_last()))
            } else {
                prev
            },
            None => prev,
        }
    }
}

/// The display column (index among the slots) of each input slot, in order.
pub open spec fn input_cols_of(slots: Seq<MaskSlot>) -> Seq<usize>
    decreases slots.len(),
{
    if slots.len() == 0 {
        Seq::empty()
    } else {
        let prev = input_cols_of(slots.drop_last());
        if slots.last().is_input_spec() {
            prev.push((slots.len() - 1) as usize)
        } else {
            prev
        }
    }
}

/// The number of input slots among the first `k` slots.
pub open spec fn inputs_before(slots: Seq<MaskSlot>, k: int) -> nat
    decreases k,
{
    if k <= 0 {
        0
    } else {
        inputs_before(slots, k - 1) + if slots[k - 1].is_input_spec() {
            1nat
        } else {
            0nat
        }
    }
}

/// Whether a slot accepts a character.
pub open spec fn slot_accepts(slot: MaskSlot, c: char) -> bool {
    match slot {
        MaskSlot::Digit => is_ascii_digit(c),
        MaskSlot::Letter => is_ascii_alpha(c),
        MaskSlot::LetterOrBlank => is_ascii_alpha(c) || c == ' ',
        MaskSlot::Alphanumeric => is_ascii_alnum(c),
        MaskSlot::AlphaOrBlank => is_ascii_alnum(c) || c == ' ',
        MaskSlot::Separator(_) => false,
    }
}

/// A character after a slot's case transform.
pub open spec fn apply_case(mode: Option<CaseMode>, c: char) -> char {
    match mode {
        Some(CaseMode::Upper) => match uppercase_head(c) {
            Some(u) => u,
            None => c,
        },
        Some(CaseMode::Lower) => match lowercase_head(c) {
            Some(l) => l,
            None => c,
        },
        None => c,
    }
}

/// The abstract state of a masked input: its mask, the characters the user
/// typed, and the cursor among them.
pub struct MaskedInputView {
    pub mask: Seq<char>,
    pub raw: Seq<char>,
    pub cursor: nat,
}

impl MaskedInputView {
    pub open spec fn slots(self) -> Seq<MaskSlot> {
        mask_slots_of(self.mask)
    }

    pub open spec fn cols(self) -> Seq<usize> {
        input_cols_of(self.slots())
    }

    pub open spec fn cases(self) -> Seq<Option<CaseMode>> {
        slot_cases_of(self.mask)
    }

    /// How many characters the user can type: the number of input slots.
    pub open spec fn max_raw_len(self) -> nat {
        self.cols().len()
    }

    /// The character stored when `c` is typed into input slot `idx`, or
    /// `None` when that slot does not exist or rejects `c`.
    pub open spec fn accepts(self, idx: int, c: char) -> Option<char> {
        if 0 <= idx < self.cols().len() && slot_accepts(self.slots()[self.cols()[idx] as int], c) {
            Some(apply_case(self.cases()[idx], c))
        } else {
            None
        }
    }

    /// The display character at slot `k`: a separator, the raw character
    /// that fills the input slot, or `_` for an unfilled one.
    pub open spec fn display_char(self, k: int) -> char {
        match self.slots()[k] {
            MaskSlot::Separator(c) => c,
            _ => {
                let j = inputs_before(self.slots(), k);
                if j < self.raw.len() {
                    self.raw[j as int]
                } else {
                    '_'
                }
            },
        }
    }

    /// The full display: one character per slot.
    pub open spec fn display(self) -> Seq<char> {
        Seq::new(self.slots().len(), |k: int| self.display_char(k))
    }

    /// The display column of raw position `p`: the column of input slot `p`,
    /// one past the last input slot beyond the end, and 0 without any.
    pub open spec fn col_of(self, p: int) -> usize {
        if p < self.cols().len() {
            self.cols()[p]
        } else if self.cols().len() > 0 {
            (self.cols().last() + 1) as usize
        } else {
            0
        }
    }

    /// The state after typing `c` with the cursor where it is: when an
    /// input slot is still free and the slot under the cursor accepts `c`,
    /// the (case-transformed) character is inserted at the cursor, which
    /// moves past it; otherwise nothing changes.
    pub open spec fn after_char(self, c: char) -> MaskedInputView {
        if self.cursor < self.max_raw_len() && self.raw.len() < self.max_raw_len() {
            match self.accepts(self.cursor as int, c) {
                Some(t) => MaskedInputView {
                    mask: self.mask,
                    raw: self.raw.insert(self.cursor as int, t),
                    cursor: self.cursor + 1,
                },
                None => self,
            }
        } else {
            self
        }
    }

    /// Whether typing `c` changes the value.
    pub open spec fn char_changes(self, c: char) -> bool {
        self.cursor < self.max_raw_len() && self.raw.len() < self.max_raw_len() && self.accepts(
            self.cursor as int,
            c,
        ) is Some
    }

    /// The state after a named action.
    pub open spec fn after_action(self, action: Seq<char>) -> MaskedInputView {
        if action == "delete_back"@ {
            if self.cursor > 0 {
                MaskedInputView {
                    mask: self.mask,
                    raw: self.raw.remove(self.cursor - 1),
                    cursor: (self.cursor - 1) as nat,
                }
            } else {
                self
            }
        } else if action == "cursor_left"@ {
            if self.cursor > 0 {
                MaskedInputView { cursor: (self.cursor - 1) as nat, ..self }
            } else {
                self
            }
        } else if action == "cursor_right"@ {
            if self.cursor < self.raw.len() {
                MaskedInputView { cursor: self.cursor + 1, ..self }
            } else {
                self
            }
        } else if action == "cursor_home"@ {
            MaskedInputView { cursor: 0, ..self }
        } else if action == "cursor_end"@ {
            MaskedInputView { cursor: self.raw.len(), ..self }
        } else {
            self
        }
    }

    /// The cell written at display index `k` when rendering into `area`.
    pub open spec fn render_cell(self, area: Rect, focused: bool, k: int) -> PlannedCell {
        let ch = self.display()[k];
        PlannedCell {
            x: (area.x + k) as u16,
            y: area.y,
            symbol: ch,
            style: if focused && k == self.col_of(self.cursor as int) {
                CellStyle::Reversed
            } else if ch == '_' {
                CellStyle::Dim
            } else {
                CellStyle::Plain
            },
        }
    }

    /// Whether the end-of-input cursor cell is drawn.
    pub open spec fn shows_end_cursor(self, focused: bool) -> bool {
        focused && self.col_of(self.cursor as int) >= self.display().len()
    }

    /// The cells a render into `area` writes, in order.
    pub open spec fn render_plan(self, area: Rect, focused: bool) -> Seq<PlannedCell> {
        if area.width == 0 || area.height == 0 {
            Seq::empty()
        } else {
            let n = if self.display().len() < area.width {
                self.display().len()
            } else {
                area.width as nat
            };
            let cells = Seq::new(n, |k: int| self.render_cell(area, focused, k));
            if self.shows_end_cursor(focused) {
                let want = area.x + (self.col_of(self.cursor as int) as u16);
                let last = area.x + area.width - 1;
                cells.push(
                    PlannedCell {
                        x: (if want < last {
                            want
                        } else {
                            last
                        }) as u16,
                        y: area.y,
                        symbol: ' ',
                        style: CellStyle::Reversed,
                    },
                )
            } else {
                cells
            }
        }
    }

    /// The coordinates that a render into `area` computes stay within `u16`.
    pub open spec fn render_fits(self, area: Rect, focused: bool) -> bool {
        &&& area.x as int + area.width as int <= u16::MAX as int
        &&& (area.width > 0 && area.height > 0 && self.shows_end_cursor(focused)) ==> area.x as int
            + (self.col_of(self.cursor as int) as u16) as int <= u16::MAX as int
    }
}

// ---------------------------------------------------------------------------
// Lemmas about the mask's meaning
// ---------------------------------------------------------------------------

/// Every input column indexes a slot that takes input, the columns increase
/// strictly, and there are no more of them than slots.
pub proof fn lemma_input_cols(slots: Seq<MaskSlot>)
    requires
        slots.len() <= usize::MAX,
    ensures
        input_cols_of(slots).len() <= slots.len(),
        input_cols_of(slots).len() == inputs_before(slots, slots.len() as int),
        forall|j: int|
            0 <= j < input_cols_of(slots).len() ==> {
                &&& (#[trigger] input_cols_of(slots)[j]) < slots.len()
                &&& slots[input_cols_of(slots)[j] as int].is_input_spec()
                &&& inputs_before(slots, input_cols_of(slots)[j] as int) == j
            },
        forall|i: int, j: int|
            0 <= i < j < input_cols_of(slots).len() ==> input_cols_of(slots)[i]
                < input_cols_of(slots)[j],
    decreases slots.len(),
{
    if slots.len() > 0 {
        let prev = slots.drop_last();
        let n = slots.len() - 1;
        lemma_input_cols(prev);
        lemma_inputs_before_prefix(slots, prev, n);
        let pc = input_cols_of(prev);
        let c = input_cols_of(slots);
        assert(inputs_before(slots, slots.len() as int) == inputs_before(slots, n) + if slots[n].is_input_spec() { 1nat } else { 0nat });
        assert forall|j: int| 0 <= j < c.len() implies {
            &&& (#[trigger] c[j]) < slots.len()
            &&& slots[c[j] as int].is_input_spec()
            &&& inputs_before(slots, c[j] as int) == j
        } by {
            if j < pc.len() {
                assert(c[j] == pc[j]);
                assert(slots[pc[j] as int] == prev[pc[j] as int]);
            } else {
                assert(c[j] == n);
            }
        }
        assert forall|i: int, j: int| 0 <= i < j < c.len() implies c[i] < c[j] by {
            if j < pc.len() {
                assert(c[i] == pc[i] && c[j] == pc[j]);
            } else {
                assert(c[i] == pc[i]);
            }
        }
    }
}

/// `inputs_before` only looks at the slots before its bound.
pub proof fn lemma_inputs_before_prefix(s: Seq<MaskSlot>, t: Seq<MaskSlot>, k: int)
    requires
        0 <= k <= t.len(),
        k <= s.len(),
        forall|i: int| 0 <= i < k ==> s[i] == t[i],
    ensures
        forall|i: int| 0 <= i <= k ==> inputs_before(s, i) == inputs_before(t, i),
    decreases k,
{
    if k > 0 {
        lemma_inputs_before_prefix(s, t, k - 1);
        assert(s[k - 1] == t[k - 1]);
        assert(inputs_before(s, k - 1) == inputs_before(t, k - 1));
        assert(inputs_before(s, k) == inputs_before(t, k));
    }
}

/// The slot cases of a mask line up one to one with its input slots.
pub proof fn lemma_cases_len(m: Seq<char>)
    ensures
        slot_cases_of(m).len() == input_cols_of(mask_slots_of(m)).len(),
        mask_slots_of(m).len() <= m.len(),
    decreases m.len(),
{
    if m.len() > 0 {
        lemma_cases_len(m.drop_last());
        let prev = mask_slots_of(m.drop_last());
        match slot_for(m.last()) {
            Some(s) => {
                assert(prev.push(s).drop_last() =~= prev);
            },
            None => {},
        }
    }
}

/// A copy of `v` with `c` inserted at index `i`.
fn chars_inserted(v: &Vec<char>, i: usize, c: char) -> (r: Vec<char>)
    requires
        i <= v@.len(),
    ensures
        r@ == v@.insert(i as int, c),
{
    let mut r: Vec<char> = Vec::new();
    let mut k: usize = 0;
    while k < v.len()
        invariant
            i <= v@.len(),
            k <= v@.len(),
            r@ == v@.insert(i as int, c).take(if k <= i { k as int } else { k + 1 }),
        decreases v@.len() - k,
    {
        if k == i {
            r.push(c);
        }
        r.push(v[k]);
        k = k + 1;
        assert(r@ =~= v@.insert(i as int, c).take(if k <= i { k as int } else { k + 1 }));
    }
    if i == v.len() {
        r.push(c);
    }
    assert(r@ =~= v@.insert(i as int, c));
    r
}

/// A copy of `v` without the element at index `i`.
fn chars_removed(v: &Vec<char>, i: usize) -> (r: Vec<char>)
    requires
        i < v@.len(),
    ensures
        r@ == v@.remove(i as int),
{
    let mut r: Vec<char> = Vec::new();
    let mut k: usize = 0;
    while k < v.len()
        invariant
            i < v@.len(),
            k <= v@.len(),
            r@ == v@.remove(i as int).take(if k <= i { k as int } else { k - 1 }),
        decreases v@.len() - k,
    {
        if k != i {
            r.push(v[k]);
        }
        k = k + 1;
        assert(r@ =~= v@.remove(i as int).take(if k <= i { k as int } else { k - 1 }));
    }
    assert(r@ =~= v@.remove(i as int));
    r
}

// ---------------------------------------------------------------------------
// The widget
// ---------------------------------------------------------------------------

/// A format-constrained single-line text input.
pub struct MaskedInput {
    mask: String,
    raw_value: Vec<char>,
    cursor_raw: usize,
    mask_slots: Vec<MaskSlot>,
    slot_display_cols: Vec<usize>,
    slot_case: Vec<Option<CaseMode>>,
}

impl View for MaskedInput {
    type V = MaskedInputView;

    closed spec fn view(&self) -> MaskedInputView {
        MaskedInputView { mask: self.mask@, raw: self.raw_value@, cursor: self.cursor_raw as nat }
    }
}

impl MaskedInput {
    #[verifier::type_invariant]
    closed spec fn inv(self) -> bool {
        &&& self.mask_slots@ == mask_slots_of(self.mask@)
        &&& self.slot_display_cols@ == input_cols_of(self.mask_slots@)
        &&& self.slot_case@ == slot_cases_of(self.mask@)
        &&& self.cursor_raw <= self.raw_value@.len()
    }

    /// Create a masked input for the given mask template, empty, cursor at 0.
    ///
    /// Mask syntax: `#` digit, `A` letter, `a` letter-or-blank,
    /// `N` alphanumeric, `X` alphanumeric-or-blank, `>` upper-case and `<`
    /// lower-case for the slots after it, anything else a literal separator.
    pub fn new(mask: &str) -> (r: Self)
        ensures
            r@.mask == mask@,
            r@.raw == Seq::<char>::empty(),
            r@.cursor == 0,
    {
        let (mask_slots, slot_display_cols, slot_case) = Self::parse_mask(mask);
        MaskedInput {
            mask: mask.to_owned(),
            raw_value: Vec::new(),
            cursor_raw: 0,
            mask_slots,
            slot_display_cols,
            slot_case,
        }
    }

    /// The slot that a mask character stands for, `None` for a directive.
    fn slot_of_char(ch: char) -> (r: Option<MaskSlot>)
        ensures
            r == slot_for(ch),
    {
        if ch == '>' || ch == '<' {
            None
        } else if ch == '#' {
            Some(MaskSlot::Digit)
        } else if ch == 'A' {
            Some(MaskSlot::Letter)
        } else if ch == 'a' {
            Some(MaskSlot::LetterOrBlank)
        } else if ch == 'N' {
            Some(MaskSlot::Alphanumeric)
        } else if ch == 'X' {
            Some(MaskSlot::AlphaOrBlank)
        } else {
            Some(MaskSlot::Separator(ch))
        }
    }

    /// Parse a mask into its slots, the display column of each input slot,
    /// and the case transform of each input slot.
    pub fn parse_mask(mask: &str) -> (r: (Vec<MaskSlot>, Vec<usize>, Vec<Option<CaseMode>>))
        ensures
            r.0@ == mask_slots_of(mask@),
            r.1@ == input_cols_of(r.0@),
            r.2@ == slot_cases_of(mask@),
    {
        let chars = crate::text::chars_of(mask);
        let mut slots: Vec<MaskSlot> = Vec::new();
        let mut display_cols: Vec<usize> = Vec::new();
        let mut case_per_slot: Vec<Option<CaseMode>> = Vec::new();
        let mut current_case: Option<CaseMode> = None;
        let mut display_col: usize = 0;
        let mut i: usize = 0;
        while i < chars.len()
            invariant
                chars@ == mask@,
                i <= chars.len(),
                slots@ == mask_slots_of(chars@.take(i as int)),
                display_cols@ == input_cols_of(slots@),
                case_per_slot@ == slot_cases_of(chars@.take(i as int)),
                current_case == case_after(chars@.take(i as int)),
                display_col == slots@.len(),
                slots@.len() <= i,
            decreases chars.len() - i,
        {
            let ch = chars[i];
            let ghost before = chars@.take(i as int);
            assert(chars@.take(i + 1).drop_last() =~= before);
            assert(chars@.take(i + 1).last() == ch);
            if ch == '>' {
                current_case = Some(CaseMode::Upper);
            } else if ch == '<' {
                current_case = Some(CaseMode::Lower);
            } else {
                let slot = match Self::slot_of_char(ch) {
                    Some(s) => s,
                    None => MaskSlot::Separator(ch),
                };
                let ghost old_slots = slots@;
                if slot.is_input_slot() {
                    display_cols.push(display_col);
                    case_per_slot.push(current_case);
                }
                slots.push(slot);
                assert(slots@.drop_last() =~= old_slots);
                display_col = display_col + 1;
            }
            i = i + 1;
        }
        assert(chars@.take(chars@.len() as int) =~= chars@);
        (slots, display_cols, case_per_slot)
    }

    /// The mask template as given.
    pub fn mask(&self) -> (r: &str)
        ensures
            r@ == self@.mask,
    {
        self.mask.as_str()
    }

    /// The parsed slots of the mask, separators included.
    pub fn mask_slots(&self) -> (r: &Vec<MaskSlot>)
        ensures
            r@ == self@.slots(),
    {
        proof {
            use_type_invariant(self);
        }
        &self.mask_slots
    }

    /// The raw user-typed value (no separators).
    pub fn value(&self) -> (r: String)
        ensures
            r@ == self@.raw,
    {
        string_from_chars(&self.raw_value)
    }

    /// The cursor position in raw-value space.
    pub fn cursor(&self) -> (r: usize)
        ensures
            r == self@.cursor,
            r <= self@.raw.len(),
    {
        proof {
            use_type_invariant(self);
        }
        self.cursor_raw
    }

    /// Replace the typed characters; the cursor stays where it was unless it
    /// would pass the new end, in which case it moves to the end.
    pub fn set_value(&mut self, value: &str)
        ensures
            final(self)@.mask == old(self)@.mask,
            final(self)@.raw == value@,
            final(self)@.cursor == if old(self)@.cursor <= value@.len() {
                old(self)@.cursor
            } else {
                value@.len()
            },
    {
        proof {
            use_type_invariant(&*self);
        }
        let chars = crate::text::chars_of(value);
        let n = chars.len();
        if self.cursor_raw > n {
            self.cursor_raw = n;
        }
        self.raw_value = chars;
    }

    /// Move the cursor to raw position `pos`, or to the end if `pos` is past it.
    pub fn set_cursor(&mut self, pos: usize)
        ensures
            final(self)@.mask == old(self)@.mask,
            final(self)@.raw == old(self)@.raw,
            final(self)@.cursor == if pos <= old(self)@.raw.len() {
                pos as nat
            } else {
                old(self)@.raw.len()
            },
    {
        proof {
            use_type_invariant(&*self);
        }
        if pos <= self.raw_value.len() {
            self.cursor_raw = pos;
        } else {
            self.cursor_raw = self.raw_value.len();
        }
    }

    /// How many characters the user can type (the number of input slots).
    pub fn max_raw_len(&self) -> (r: usize)
        ensures
            r == self@.max_raw_len(),
    {
        proof {
            use_type_invariant(self);
        }
        self.slot_display_cols.len()
    }

    /// The character stored when `c` is typed into input slot `slot_idx`
    /// (after the slot's case transform), or `None` if it is rejected.
    pub fn accepts_char(&self, slot_idx: usize, c: char) -> (r: Option<char>)
        ensures
            r == self@.accepts(slot_idx as int, c),
    {
        proof {
            use_type_invariant(self);
            assert(self.mask_slots@.len() == self.mask_slots.len());
            lemma_input_cols(self.mask_slots@);
            lemma_cases_len(self.mask@);
        }
        if slot_idx >= self.slot_display_cols.len() {
            return None;
        }
        let slot = self.mask_slots[self.slot_display_cols[slot_idx]];
        let accepted = match slot {
            MaskSlot::Digit => ascii_digit(c),
            MaskSlot::Letter => ascii_alpha(c),
            MaskSlot::LetterOrBlank => ascii_alpha(c) || c == ' ',
            MaskSlot::Alphanumeric => ascii_digit(c) || ascii_alpha(c),
            MaskSlot::AlphaOrBlank => ascii_digit(c) || ascii_alpha(c) || c == ' ',
            MaskSlot::Separator(_) => false,
        };
        if !accepted {
            return None;
        }
        let transformed = match self.slot_case[slot_idx] {
            Some(CaseMode::Upper) => match uppercase_first(c) {
                Some(u) => u,
                None => c,
            },
            Some(CaseMode::Lower) => match lowercase_first(c) {
                Some(l) => l,
                None => c,
            },
            None => c,
        };
        Some(transformed)
    }

    /// The display as characters: one per slot.
    fn display_chars(&self) -> (r: Vec<char>)
        ensures
            r@ == self@.display(),
    {
        proof {
            use_type_invariant(self);
        }
        let mut raw_idx: usize = 0;
        let mut display: Vec<char> = Vec::new();
        let mut k: usize = 0;
        while k < self.mask_slots.len()
            invariant
                k <= self.mask_slots@.len(),
                self.mask_slots@ == self@.slots(),
                raw_idx == inputs_before(self@.slots(), k as int),
                raw_idx <= k,
                display@ == self@.display().take(k as int),
            decreases self.mask_slots@.len() - k,
        {
            let slot = self.mask_slots[k];
            match slot {
                MaskSlot::Separator(sep) => {
                    display.push(sep);
                },
                _ => {
                    if raw_idx < self.raw_value.len() {
                        display.push(self.raw_value[raw_idx]);
                    } else {
                        display.push('_');
                    }
                    raw_idx = raw_idx + 1;
                },
            }
            k = k + 1;
            assert(display@ =~= self@.display().take(k as int));
        }
        assert(self@.display().take(k as int) =~= self@.display());
        display
    }

    /// The full display: typed characters interleaved with the separators,
    /// unfilled input slots shown as `_`.
    pub fn build_display(&self) -> (r: String)
        ensures
            r@ == self@.display(),
    {
        let display = self.display_chars();
        string_from_chars(&display)
    }

    /// The display column of raw position `raw_pos`.
    pub fn raw_pos_to_display_col(&self, raw_pos: usize) -> (r: usize)
        ensures
            r == self@.col_of(raw_pos as int),
    {
        proof {
            use_type_invariant(self);
            assert(self.mask_slots@.len() == self.mask_slots.len());
            lemma_input_cols(self.mask_slots@);
        }
        let n = self.slot_display_cols.len();
        if raw_pos < n {
            self.slot_display_cols[raw_pos]
        } else if n > 0 {
            self.slot_display_cols[n - 1] + 1
        } else {
            0
        }
    }

    /// The widget's type name.
    pub fn widget_type_name(&self) -> (r: &'static str)
        ensures
            r@ == "MaskedInput"@,
    {
        "MaskedInput"
    }

    /// A masked input takes keyboard focus.
    pub fn can_focus(&self) -> (r: bool)
        ensures
            r,
    {
        true
    }

    /// The key bindings: arrows, Home and End move the cursor, Backspace
    /// deletes backwards, Enter submits.
    pub fn key_bindings(&self) -> (r: Vec<KeyBinding>)
        ensures
            r@.len() == 6,
            r@[0].key == Key::Left && r@[0].action@ == "cursor_left"@,
            r@[1].key == Key::Right && r@[1].action@ == "cursor_right"@,
            r@[2].key == Key::Home && r@[2].action@ == "cursor_home"@,
            r@[3].key == Key::End && r@[3].action@ == "cursor_end"@,
            r@[4].key == Key::Backspace && r@[4].action@ == "delete_back"@,
            r@[5].key == Key::Enter && r@[5].action@ == "submit"@,
            forall|i: int| 0 <= i < 6 ==> (#[trigger] r@[i]).modifiers.is_none_spec() && !r@[i].show,
    {
        let mut r: Vec<KeyBinding> = Vec::new();
        r.push(hidden_binding(Key::Left, "cursor_left", "Move cursor left"));
        r.push(hidden_binding(Key::Right, "cursor_right", "Move cursor right"));
        r.push(hidden_binding(Key::Home, "cursor_home", "Move to start"));
        r.push(hidden_binding(Key::End, "cursor_end", "Move to end"));
        r.push(hidden_binding(Key::Backspace, "delete_back", "Delete backward"));
        r.push(hidden_binding(Key::Enter, "submit", "Submit"));
        r
    }

    /// The message announcing the current value after a change, for the
    /// host to post on the widget's behalf.
    pub fn emit_changed(&self) -> (m: Changed)
        ensures
            m.value@ == self@.raw,
    {
        Changed { value: self.value() }
    }

    /// Handle a key press: a character typed with no modifier or with shift
    /// alone is offered to the slot under the cursor and the event stops
    /// here; every other key continues. Returns the propagation and, when
    /// the value changed, the message announcing it.
    pub fn on_key(&mut self, key: KeyPress) -> (r: (EventPropagation, Option<Changed>))
        ensures
            match key.key {
                Key::Char(c) => if key.modifiers.is_none_spec() || key.modifiers.is_shift_only_spec() {
                    &&& r.0 == EventPropagation::Stop
                    &&& final(self)@ == old(self)@.after_char(c)
                    &&& (r.1 is Some) == old(self)@.char_changes(c)
                    &&& r.1 matches Some(m) ==> m.value@ == final(self)@.raw
                } else {
                    &&& r.0 == EventPropagation::Continue
                    &&& final(self)@ == old(self)@
                    &&& r.1 is None
                },
                _ => {
                    &&& r.0 == EventPropagation::Continue
                    &&& final(self)@ == old(self)@
                    &&& r.1 is None
                },
            },
    {
        match key.key {
            Key::Char(c) => {
                if key.modifiers.is_none() || key.modifiers.is_shift_only() {
                    let cursor = self.cursor_raw;
                    if cursor < self.max_raw_len() && self.raw_value.len() < self.max_raw_len() {
                        if let Some(transformed) = self.accepts_char(cursor, c) {
                            proof {
                                use_type_invariant(&*self);
                            }
                            self.raw_value = chars_inserted(&self.raw_value, cursor, transformed);
                            self.cursor_raw = cursor + 1;
                            return (EventPropagation::Stop, Some(self.emit_changed()));
                        }
                    }
                    (EventPropagation::Stop, None)
                } else {
                    (EventPropagation::Continue, None)
                }
            },
            _ => (EventPropagation::Continue, None),
        }
    }

    /// Handle a named action: `delete_back`, `cursor_left`, `cursor_right`,
    /// `cursor_home`, `cursor_end` edit the state; `submit` asks for the
    /// value to be submitted. Returns the message to post, if any.
    pub fn on_action(&mut self, action: &str) -> (r: Option<MaskedInputMessage>)
        ensures
            final(self)@ == old(self)@.after_action(action@),
            action@ == "delete_back"@ ==> (r is Some <==> old(self)@.cursor > 0),
            action@ == "submit"@ ==> r is Some,
            action@ != "delete_back"@ && action@ != "submit"@ ==> r is None,
            r matches Some(MaskedInputMessage::Changed(m)) ==> action@ == "delete_back"@
                && m.value@ == final(self)@.raw,
            r matches Some(MaskedInputMessage::Submitted(m)) ==> action@ == "submit"@
                && m.value@ == old(self)@.raw,
    {
        proof {
            use_type_invariant(&*self);
            reveal_strlit("delete_back");
            reveal_strlit("cursor_left");
            reveal_strlit("cursor_right");
            reveal_strlit("cursor_home");
            reveal_strlit("cursor_end");
            reveal_strlit("submit");
            assert("submit"@.len() == 6);
            assert("cursor_end"@.len() == 10);
            assert("cursor_right"@.len() == 12);
            assert("cursor_home"@[7] == 'h' && "cursor_left"@[7] == 'l' && "delete_back"@[0] == 'd');
        }
        if str_eq(action, "delete_back") {
            let cursor = self.cursor_raw;
            if cursor > 0 {
                self.cursor_raw = cursor - 1;
                self.raw_value = chars_removed(&self.raw_value, cursor - 1);
                return Some(MaskedInputMessage::Changed(self.emit_changed()));
            }
            None
        } else if str_eq(action, "cursor_left") {
            let cursor = self.cursor_raw;
            if cursor > 0 {
                self.cursor_raw = cursor - 1;
            }
            None
        } else if str_eq(action, "cursor_right") {
            let cursor = self.cursor_raw;
            if cursor < self.raw_value.len() {
                self.cursor_raw = cursor + 1;
            }
            None
        } else if str_eq(action, "cursor_home") {
            self.cursor_raw = 0;
            None
        } else if str_eq(action, "cursor_end") {
            self.cursor_raw = self.raw_value.len();
            None
        } else if str_eq(action, "submit") {
            Some(MaskedInputMessage::Submitted(Submitted { value: self.value() }))
        } else {
            None
        }
    }

    /// The cells that rendering into `area` writes: the display from the
    /// left edge, cut at the area's width, the cursor's cell reversed when
    /// focused, unfilled slots dimmed, and a reversed blank after the last
    /// slot when the cursor sits past it.
    pub fn render_cells(&self, area: Rect, focused: bool) -> (r: Vec<PlannedCell>)
        requires
            self@.render_fits(area, focused),
        ensures
            r@ == self@.render_plan(area, focused),
    {
        if area.height == 0 || area.width == 0 {
            return Vec::new();
        }
        let display = self.display_chars();
        let cursor_col = self.raw_pos_to_display_col(self.cursor_raw);
        let n: usize = if display.len() < area.width as usize {
            display.len()
        } else {
            area.width as usize
        };
        let mut cells: Vec<PlannedCell> = Vec::new();
        let mut k: usize = 0;
        while k < n
            invariant
                n <= display@.len(),
                n <= area.width,
                display@ == self@.display(),
                cursor_col == self@.col_of(self@.cursor as int),
                self@.render_fits(area, focused),
                k <= n,
                cells@ == Seq::new(k as nat, |i: int| self@.render_cell(area, focused, i)),
            decreases n - k,
        {
            let ch = display[k];
            let style = if focused && k == cursor_col {
                CellStyle::Reversed
            } else if ch == '_' {
                CellStyle::Dim
            } else {
                CellStyle::Plain
            };
            cells.push(PlannedCell { x: area.x + k as u16, y: area.y, symbol: ch, style });
            k = k + 1;
            assert(cells@ =~= Seq::new(k as nat, |i: int| self@.render_cell(area, focused, i)));
        }
        if focused && cursor_col >= display.len() {
            let want: u16 = area.x + cursor_col as u16;
            let last: u16 = area.x + (area.width - 1);
            let cursor_x: u16 = if want < last {
                want
            } else {
                last
            };
            if cursor_x < area.x + area.width {
                cells.push(PlannedCell { x: cursor_x, y: area.y, symbol: ' ', style: CellStyle::Reversed });
            }
        }
        cells
    }
}

// ---------------------------------------------------------------------------
// Laws
// ---------------------------------------------------------------------------

/// Typing a character that the slot under the cursor accepts, then deleting
/// backwards, gives back the state before the keystroke.
pub proof fn lemma_type_then_backspace(v: MaskedInputView, c: char)
    requires
        v.cursor <= v.raw.len(),
        v.char_changes(c),
    ensures
        v.after_char(c).after_action("delete_back"@) == v,
{
    let t = v.accepts(v.cursor as int, c)->0;
    let w = v.after_char(c);
    assert(w.raw == v.raw.insert(v.cursor as int, t));
    assert(w.raw.remove(v.cursor as int) =~= v.raw);
}

/// What each editing action does, in terms of the cursor and the typed
/// characters: left and right move the cursor one position while there is
/// room, home and end move it to either end, and backspace deletes the
/// character before the cursor, which moves back over it. None of them
/// changes the mask, and only backspace changes the characters.
pub proof fn lemma_action_effects(v: MaskedInputView)
    requires
        v.cursor <= v.raw.len(),
    ensures
        ({
            let w = v.after_action("cursor_left"@);
            &&& w.mask == v.mask && w.raw == v.raw
            &&& v.cursor > 0 ==> w.cursor + 1 == v.cursor
            &&& v.cursor == 0 ==> w.cursor == 0
        }),
        ({
            let w = v.after_action("cursor_right"@);
            &&& w.mask == v.mask && w.raw == v.raw
            &&& v.cursor < v.raw.len() ==> w.cursor == v.cursor + 1
            &&& v.cursor == v.raw.len() ==> w.cursor == v.cursor
        }),
        ({
            let w = v.after_action("cursor_home"@);
            w.mask == v.mask && w.raw == v.raw && w.cursor == 0
        }),
        ({
            let w = v.after_action("cursor_end"@);
            w.mask == v.mask && w.raw == v.raw && w.cursor == v.raw.len()
        }),
        ({
            let w = v.after_action("delete_back"@);
            &&& w.mask == v.mask
            &&& v.cursor > 0 ==> w.cursor + 1 == v.cursor && w.raw.len() + 1 == v.raw.len()
                && (forall|i: int| 0 <= i < w.cursor ==> w.raw[i] == v.raw[i]) && (forall|i: int|
                w.cursor <= i < w.raw.len() ==> w.raw[i] == v.raw[i + 1])
            &&& v.cursor == 0 ==> w == v
        }),
{
    reveal_strlit("delete_back");
    reveal_strlit("cursor_left");
    reveal_strlit("cursor_right");
    reveal_strlit("cursor_home");
    reveal_strlit("cursor_end");
    assert("cursor_end"@.len() == 10);
    assert("cursor_right"@.len() == 12);
    assert("cursor_home"@[7] == 'h' && "cursor_left"@[7] == 'l' && "delete_back"@[0] == 'd');
}

/// The mask character that stands for a slot: `#` a digit, `A` a letter,
/// `a` a letter or blank, `N` a letter or digit, `X` a letter, digit or
/// blank, and a separator for itself.
pub open spec fn mask_char(s: MaskSlot) -> char {
    match s {
        MaskSlot::Digit => '#',
        MaskSlot::Letter => 'A',
        MaskSlot::LetterOrBlank => 'a',
        MaskSlot::Alphanumeric => 'N',
        MaskSlot::AlphaOrBlank => 'X',
        MaskSlot::Separator(c) => c,
    }
}

/// Each mask character other than the case directives stands for the slot
/// it names: reading the slot's own character back gives the slot, and a
/// separator is any character that names no slot kind.
pub proof fn lemma_mask_chars(c: char, s: MaskSlot)
    ensures
        c != '>' && c != '<' ==> slot_for(c) is Some && mask_char(slot_for(c)->0) == c,
        !(s is Separator) ==> slot_for(mask_char(s)) == Some(s),
        slot_for(c) == Some(MaskSlot::Separator(c)) <==> (c != '>' && c != '<' && c != '#' && c
            != 'A' && c != 'a' && c != 'N' && c != 'X'),
{
}

/// Typing an accepted character puts it at the cursor: the characters
/// before the cursor stay, the ones from the cursor on move one place
/// right, and the cursor moves past the new character. A refused character
/// changes nothing.
pub proof fn lemma_typing_inserts_at_cursor(v: MaskedInputView, c: char)
    requires
        v.cursor <= v.raw.len(),
    ensures
        v.char_changes(c) ==> {
            let w = v.after_char(c);
            &&& w.mask == v.mask
            &&& w.raw.len() == v.raw.len() + 1
            &&& w.cursor == v.cursor + 1
            &&& Some(w.raw[v.cursor as int]) == v.accepts(v.cursor as int, c)
            &&& forall|i: int| 0 <= i < v.cursor ==> w.raw[i] == v.raw[i]
            &&& forall|i: int| v.cursor <= i < v.raw.len() ==> w.raw[i + 1] == v.raw[i]
        },
        !v.char_changes(c) ==> v.after_char(c) == v,
{
}

/// Moving left then right, or right then left, returns the cursor to where
/// it was whenever the first move had room.
pub proof fn lemma_left_right_inverse(v: MaskedInputView)
    requires
        v.cursor <= v.raw.len(),
    ensures
        v.cursor > 0 ==> v.after_action("cursor_left"@).after_action("cursor_right"@) == v,
        v.cursor < v.raw.len() ==> v.after_action("cursor_right"@).after_action("cursor_left"@)
            == v,
{
    lemma_action_effects(v);
    if v.cursor > 0 {
        lemma_action_effects(v.after_action("cursor_left"@));
    }
    if v.cursor < v.raw.len() {
        lemma_action_effects(v.after_action("cursor_right"@));
    }
}

/// Every action and keystroke keeps the cursor within the typed characters.
pub proof fn lemma_cursor_stays_in_range(v: MaskedInputView, c: char, action: Seq<char>)
    requires
        v.cursor <= v.raw.len(),
    ensures
        v.after_char(c).cursor <= v.after_char(c).raw.len(),
        v.after_action(action).cursor <= v.after_action(action).raw.len(),
        v.after_char(c).mask == v.mask,
        v.after_action(action).mask == v.mask,
{
}

/// Typing and actions never give the value more characters than the mask
/// has input slots: a value that fits the slots keeps fitting them.
pub proof fn lemma_value_fits_slots(v: MaskedInputView, c: char, action: Seq<char>)
    requires
        v.cursor <= v.raw.len(),
        v.raw.len() <= v.max_raw_len(),
    ensures
        v.after_char(c).raw.len() <= v.max_raw_len(),
        v.after_action(action).raw.len() <= v.max_raw_len(),
{
}

/// The display shows one character per slot: each separator as itself,
/// and input slot `j` as the `j`-th typed character, or `_` while unfilled.
pub proof fn lemma_display_layout(v: MaskedInputView)
    requires
        v.slots().len() <= usize::MAX,
    ensures
        v.display().len() == v.slots().len(),
        forall|k: int|
            0 <= k < v.slots().len() && (#[trigger] v.slots()[k]) is Separator ==> v.display()[k]
                == v.slots()[k]->Separator_0,
        forall|j: int|
            0 <= j < v.cols().len() ==> v.display()[#[trigger] v.cols()[j] as int] == if j
                < v.raw.len() {
                v.raw[j]
            } else {
                '_'
            },
{
    lemma_input_cols(v.slots());
}

/// A raw cursor position that has a slot maps to an input slot's column,
/// never to a separator.
pub proof fn lemma_cursor_column_is_input(v: MaskedInputView, p: int)
    requires
        v.slots().len() <= usize::MAX,
        0 <= p < v.max_raw_len(),
    ensures
        v.col_of(p) < v.slots().len(),
        v.slots()[v.col_of(p) as int].is_input_spec(),
{
    lemma_input_cols(v.slots());
    assert(v.cols()[p] == v.col_of(p));
}

} // verus!
