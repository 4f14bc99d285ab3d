//! Terminal hyperlinks (OSC 8) and the layout of lines of linked text.
//!
//! A hyperlink is drawn as its visible label, with the OSC 8 open sequence
//! prepended to the symbol of its first cell and the close sequence
//! appended to the symbol of its last cell. Terminals without OSC 8 support
//! show the label as plain text.
use vstd::prelude::*;

use ratatui::style::Style;
use unicode_width::UnicodeWidthStr;

use crate::text::{chars_of, push_char, string_from_chars};

verus! {

#[verifier::external_type_specification]
#[verifier::external_body]
pub struct ExStyle(Style);

/// `Style::default()` from ratatui: a style with no colors and no modifiers.
/// The style is opaque here, so nothing is stated of it.
#[verifier::external_body]
fn default_style() -> Style {
    Style::default()
}

/// The displayed width in columns of a string, as unicode-width's
/// `UnicodeWidthStr::width` computes it.
pub uninterp spec fn display_width(s: Seq<char>) -> usize;

/// `UnicodeWidthStr::width` from unicode-width: the string's displayed
/// width in columns, named rather than described; its source sums over the
/// characters, so the empty string is zero columns wide.
#[verifier::external_body]
fn str_width(s: &str) -> (w: usize)
    ensures
        w == display_width(s@),
        s@.len() == 0 ==> w == 0,
{
    UnicodeWidthStr::width(s)
}

/// A text fragment with a style and an optional hyperlink URL.
#[derive(Debug, PartialEq)]
pub struct LinkedSpan {
    /// The visible text content.
    pub text: String,
    /// Style (foreground, background, modifiers).
    pub style: Style,
    /// Optional OSC 8 hyperlink URL; `None` renders as plain styled text.
    pub url: Option<String>,
}

impl Clone for LinkedSpan {
    fn clone(&self) -> (r: Self)
        ensures
            r.text@ == self.text@,
            r.style == self.style,
            r.url is Some <==> self.url is Some,
            r.url matches Some(u) ==> u@ == self.url->0@,
    {
        let url = match &self.url {
            Some(u) => Some(u.clone()),
            None => None,
        };
        LinkedSpan { text: self.text.clone(), style: self.style, url }
    }
}

impl LinkedSpan {
    /// A plain span: default style, no URL.
    pub fn plain(text: String) -> (r: Self)
        ensures
            r.text == text,
            r.url is None,
    {
        LinkedSpan { text, style: default_style(), url: None }
    }

    /// A clickable span with default style.
    pub fn linked(text: String, url: String) -> (r: Self)
        ensures
            r.text == text,
            r.url == Some(url),
    {
        LinkedSpan { text, style: default_style(), url: Some(url) }
    }

    /// A styled span with no URL.
    pub fn styled(text: String, style: Style) -> (r: Self)
        ensures
            r.text == text,
            r.style == style,
            r.url is None,
    {
        LinkedSpan { text, style, url: None }
    }
}

/// The OSC 8 sequence that opens a link to `url`: `ESC ] 8 ; ; url ESC \`.
pub open spec fn osc8_open_spec(url: Seq<char>) -> Seq<char> {
    seq!['\u{1b}', ']', '8', ';', ';'] + url + seq!['\u{1b}', '\\']
}

/// The OSC 8 sequence that closes a link: `ESC ] 8 ; ; ESC \`.
pub open spec fn osc8_close_spec() -> Seq<char> {
    seq!['\u{1b}', ']', '8', ';', ';', '\u{1b}', '\\']
}

/// The sequence that opens a link to `url`.
pub fn osc8_open(url: &str) -> (r: String)
    ensures
        r@ == osc8_open_spec(url@),
{
    let mut s = String::new();
    push_char(&mut s, '\u{1b}');
    push_char(&mut s, ']');
    push_char(&mut s, '8');
    push_char(&mut s, ';');
    push_char(&mut s, ';');
    let cs = chars_of(url);
    let mut i: usize = 0;
    while i < cs.len()
        invariant
            i <= cs@.len(),
            cs@ == url@,
            s@ == seq!['\u{1b}', ']', '8', ';', ';'] + cs@.take(i as int),
        decreases cs@.len() - i,
    {
        push_char(&mut s, cs[i]);
        i = i + 1;
        assert(s@ =~= seq!['\u{1b}', ']', '8', ';', ';'] + cs@.take(i as int));
    }
    push_char(&mut s, '\u{1b}');
    push_char(&mut s, '\\');
    assert(cs@.take(i as int) =~= cs@);
    assert(s@ =~= osc8_open_spec(url@));
    s
}

/// The sequence that closes a link.
pub fn osc8_close() -> (r: String)
    ensures
        r@ == osc8_close_spec(),
{
    let mut s = String::new();
    push_char(&mut s, '\u{1b}');
    push_char(&mut s, ']');
    push_char(&mut s, '8');
    push_char(&mut s, ';');
    push_char(&mut s, ';');
    push_char(&mut s, '\u{1b}');
    push_char(&mut s, '\\');
    assert(s@ =~= osc8_close_spec());
    s
}

/// The columns that one character takes, as the width of the one-character
/// string, cut to 16 bits.
pub open spec fn char_cols(c: char) -> u16 {
    display_width(seq![c]) as u16
}

/// How many leading characters of `cs` fit in `room` columns: characters
/// are taken while their running width stays within `room`.
pub open spec fn fit_len(cs: Seq<char>, room: int) -> nat
    decreases cs.len(),
{
    if cs.len() == 0 {
        0
    } else if char_cols(cs[0]) as int > room {
        0
    } else {
        1 + fit_len(cs.drop_first(), room - char_cols(cs[0]) as int)
    }
}

/// The width of one character.
fn char_width(c: char) -> (w: u16)
    ensures
        w == char_cols(c),
{
    let mut s = String::new();
    push_char(&mut s, c);
    assert(s@ =~= seq![c]);
    str_width(s.as_str()) as u16
}

/// The longest prefix of `text` whose characters fit in `room` columns.
pub fn fit_prefix(text: &str, room: u16) -> (r: String)
    ensures
        r@ == text@.take(fit_len(text@, room as int) as int),
{
    let cs = chars_of(text);
    let mut used: u32 = 0;
    let mut i: usize = 0;
    let mut out: Vec<char> = Vec::new();
    proof {
        lemma_fit_len_bound(cs@, room as int);
        assert(cs@.skip(0) =~= cs@);
    }
    let ghost mut stopped = false;
    while i < cs.len()
        invariant
            stopped ==> fit_len(cs@.skip(i as int), room - used) == 0,
            cs@ == text@,
            i <= cs@.len(),
            used <= room,
            out@ == cs@.take(i as int),
            fit_len(cs@, room as int) == i + fit_len(cs@.skip(i as int), room - used),
        ensures
            i <= cs@.len(),
            out@ == cs@.take(i as int),
            fit_len(cs@, room as int) == i + fit_len(cs@.skip(i as int), room - used),
            stopped ==> fit_len(cs@.skip(i as int), room - used) == 0,
            !stopped ==> i == cs@.len(),
        decreases cs@.len() - i,
    {
        let c = cs[i];
        let cw = char_width(c);
        assert(cs@.skip(i as int)[0] == c);
        assert(cs@.skip(i as int).drop_first() =~= cs@.skip(i + 1));
        if used + cw as u32 > room as u32 {
            proof {
                stopped = true;
            }
            break;
        }
        used = used + cw as u32;
        out.push(c);
        i = i + 1;
        assert(out@ =~= cs@.take(i as int));
    }
    proof {
        if !stopped {
            assert(cs@.skip(i as int).len() == 0);
        }
    }
    string_from_chars(&out)
}

proof fn lemma_fit_len_bound(cs: Seq<char>, room: int)
    ensures
        fit_len(cs, room) <= cs.len(),
    decreases cs.len(),
{
    if cs.len() > 0 && char_cols(cs[0]) as int <= room {
        lemma_fit_len_bound(cs.drop_first(), room - char_cols(cs[0]) as int);
    }
}

/// Where a hyperlink's sequences go: the label's width, the first cell
/// (which gets the open sequence) and the last cell (which gets the close
/// sequence; the same cell for a one-column label, none when the last
/// column lies beyond the coordinate range).
#[derive(Clone, Copy, Debug, PartialEq, Eq, Structural)]
pub struct HyperlinkPlan {
    pub width: u16,
    pub first_x: u16,
    pub last_x: Option<u16>,
}

/// The plan for a hyperlink with `label` at column `x`: nothing when the
/// label is empty or zero columns wide.
pub open spec fn hyperlink_plan_spec(x: u16, label: Seq<char>) -> Option<HyperlinkPlan> {
    let width = display_width(label) as u16;
    if width == 0 || label.len() == 0 {
        None
    } else {
        let last = x + width - 1;
        Some(
            HyperlinkPlan {
                width,
                first_x: x,
                last_x: if last <= u16::MAX {
                    Some(last as u16)
                } else {
                    None
                },
            },
        )
    }
}

/// Plan a hyperlink with `label` at column `x`; its width is the number of
/// columns consumed.
pub fn plan_hyperlink(x: u16, label: &str) -> (r: Option<HyperlinkPlan>)
    ensures
        r == hyperlink_plan_spec(x, label@),
{
    let width = str_width(label) as u16;
    if width == 0 || label.is_empty() {
        return None;
    }
    let last: u32 = x as u32 + width as u32 - 1;
    let last_x = if last <= 65535 {
        Some(last as u16)
    } else {
        None
    };
    Some(HyperlinkPlan { width, first_x: x, last_x })
}

/// One span of a linked line, as placed: the span's index, its column, the
/// part of its text that fits, that part's width, and whether it is a link.
#[derive(Clone, Debug, PartialEq, Eq)]
pub struct SpanPlacement {
    pub span: usize,
    pub x: u16,
    pub text: String,
    pub width: u16,
    pub linked: bool,
}

/// The placed spans of a line and the columns consumed in all.
#[derive(Clone, Debug, PartialEq, Eq)]
pub struct LinePlan {
    pub placements: Vec<SpanPlacement>,
    pub total: u16,
}

/// The texts and link flags of a line's spans.
pub open spec fn line_texts(line: Seq<LinkedSpan>) -> Seq<Seq<char>> {
    line.map_values(|s: LinkedSpan| s.text@)
}

/// The part of span text `t` placed at column `cursor` before column `end`.
pub open spec fn fitted(t: Seq<char>, cursor: int, end: int) -> Seq<char> {
    t.take(fit_len(t, end - cursor) as int)
}

/// Placements from span `i` on, with the cursor at `cursor`: each span in
/// turn gets the prefix of its text that fits before `end` and moves the
/// cursor by that prefix's width; a span with empty text takes no column
/// and is passed over; placing stops at the first span that finds the
/// cursor at `end` or cannot place a single character of its text.
pub open spec fn placements_from(texts: Seq<Seq<char>>, i: int, cursor: int, end: int) -> Seq<
    (int, int, Seq<char>, u16),
>
    decreases texts.len() - i,
{
    if i < 0 || i >= texts.len() || cursor >= end {
        Seq::empty()
    } else if texts[i].len() == 0 {
        placements_from(texts, i + 1, cursor, end)
    } else {
        let t = fitted(texts[i], cursor, end);
        if t.len() == 0 {
            Seq::empty()
        } else {
            let w = display_width(t) as u16;
            seq![(i, cursor, t, w)] + placements_from(texts, i + 1, cursor + w, end)
        }
    }
}

/// The cursor after placing from span `i` on.
pub open spec fn cursor_after(texts: Seq<Seq<char>>, i: int, cursor: int, end: int) -> int
    decreases texts.len() - i,
{
    if i < 0 || i >= texts.len() || cursor >= end {
        cursor
    } else if texts[i].len() == 0 {
        cursor_after(texts, i + 1, cursor, end)
    } else {
        let t = fitted(texts[i], cursor, end);
        if t.len() == 0 {
            cursor
        } else {
            cursor_after(texts, i + 1, cursor + display_width(t) as u16, end)
        }
    }
}

pub open spec fn placement_view(p: SpanPlacement) -> (int, int, Seq<char>, u16) {
    (p.span as int, p.x as int, p.text@, p.width)
}

/// Lay out a line of spans at column `x` within `max_width` columns. The
/// total is the columns consumed, capped at the largest 16-bit value.
pub fn plan_linked_line(line: &Vec<LinkedSpan>, x: u16, max_width: u16) -> (r: LinePlan)
    requires
        x as int + max_width as int <= u16::MAX as int,
    ensures
        r.placements@.map_values(|p: SpanPlacement| placement_view(p)) == placements_from(
            line_texts(line@),
            0,
            x as int,
            x + max_width,
        ),
        forall|k: int|
            0 <= k < r.placements@.len() ==> (#[trigger] r.placements@[k]).linked == (line@[r.placements@[k].span as int].url is Some),
        r.total == min_u16(cursor_after(line_texts(line@), 0, x as int, x + max_width) - x),
{
    let ghost texts = line_texts(line@);
    let end: u32 = x as u32 + max_width as u32;
    let mut cursor: u32 = x as u32;
    let mut placements: Vec<SpanPlacement> = Vec::new();
    let mut i: usize = 0;
    let ghost mut stopped = false;
    while i < line.len()
        invariant
            stopped ==> placements_from(texts, i as int, cursor as int, end as int) == Seq::<
                (int, int, Seq<char>, u16),
            >::empty() && cursor_after(texts, i as int, cursor as int, end as int) == cursor,
            texts == line_texts(line@),
            end == x + max_width,
            end <= u16::MAX,
            x <= cursor,
            i <= line@.len(),
            cursor <= end + i * 65535,
            placements@.map_values(|p: SpanPlacement| placement_view(p)) + placements_from(
                texts,
                i as int,
                cursor as int,
                end as int,
            ) == placements_from(texts, 0, x as int, end as int),
            cursor_after(texts, i as int, cursor as int, end as int) == cursor_after(
                texts,
                0,
                x as int,
                end as int,
            ),
            forall|k: int|
                0 <= k < placements@.len() ==> (#[trigger] placements@[k]).linked == (
                line@[placements@[k].span as int].url is Some) && placements@[k].span < line@.len(),
        ensures
            x <= cursor,
            placements@.map_values(|p: SpanPlacement| placement_view(p)) + placements_from(
                texts,
                i as int,
                cursor as int,
                end as int,
            ) == placements_from(texts, 0, x as int, end as int),
            cursor_after(texts, i as int, cursor as int, end as int) == cursor_after(
                texts,
                0,
                x as int,
                end as int,
            ),
            forall|k: int|
                0 <= k < placements@.len() ==> (#[trigger] placements@[k]).linked == (
                line@[placements@[k].span as int].url is Some),
            stopped ==> placements_from(texts, i as int, cursor as int, end as int) == Seq::<
                (int, int, Seq<char>, u16),
            >::empty() && cursor_after(texts, i as int, cursor as int, end as int) == cursor,
            !stopped ==> i == line@.len(),
        decreases line@.len() - i,
    {
        if cursor >= end {
            proof {
                stopped = true;
            }
            break;
        }
        let span = &line[i];
        if span.text.as_str().is_empty() {
            i = i + 1;
            continue;
        }
        let remaining: u16 = (end - cursor) as u16;
        let text = fit_prefix(span.text.as_str(), remaining);
        assert(text@ == fitted(texts[i as int], cursor as int, end as int));
        if text.as_str().is_empty() {
            proof {
                stopped = true;
            }
            break;
        }
        let consumed: u16 = str_width(text.as_str()) as u16;
        let ghost old_view = placements@.map_values(|p: SpanPlacement| placement_view(p));
        let placement = SpanPlacement {
            span: i,
            x: cursor as u16,
            text,
            width: consumed,
            linked: span.url.is_some(),
        };
        placements.push(placement);
        assert(placements@.map_values(|p: SpanPlacement| placement_view(p)) =~= old_view.push(
            placement_view(placement),
        ));
        assert(old_view.push(placement_view(placement)) + placements_from(
            texts,
            i + 1,
            cursor + consumed,
            end as int,
        ) =~= old_view + placements_from(texts, i as int, cursor as int, end as int));
        cursor = cursor + consumed as u32;
        i = i + 1;
    }
    proof {
        if !stopped {
            assert(placements_from(texts, i as int, cursor as int, end as int) =~= Seq::empty());
        }
        assert(placements@.map_values(|p: SpanPlacement| placement_view(p)) =~= placements_from(
            texts,
            0,
            x as int,
            end as int,
        ));
    }
    let total: u32 = cursor - x as u32;
    let total16: u16 = if total <= 65535 {
        total as u16
    } else {
        65535
    };
    LinePlan { placements, total: total16 }
}

/// A number capped at the largest 16-bit value.
pub open spec fn min_u16(n: int) -> u16 {
    if n <= u16::MAX {
        n as u16
    } else {
        u16::MAX
    }
}

/// A linked line stays within its columns: every placed span starts at or
/// after the line's first column and before its end, the spans keep their
/// order, and each starts where the one before it ended.
pub proof fn lemma_placements_in_bounds(texts: Seq<Seq<char>>, i: int, cursor: int, end: int)
    ensures
        forall|k: int|
            0 <= k < placements_from(texts, i, cursor, end).len() ==> {
                let p = #[trigger] placements_from(texts, i, cursor, end)[k];
                &&& cursor <= p.1 < end
                &&& i <= p.0 < texts.len()
            },
        forall|k: int|
            0 <= k < placements_from(texts, i, cursor, end).len() - 1 ==> {
                let p = #[trigger] placements_from(texts, i, cursor, end)[k];
                let q = placements_from(texts, i, cursor, end)[k + 1];
                &&& p.0 < q.0
                &&& q.1 == p.1 + p.3
            },
    decreases texts.len() - i,
{
    if !(i < 0 || i >= texts.len() || cursor >= end) && texts[i].len() == 0 {
        lemma_placements_in_bounds(texts, i + 1, cursor, end);
        assert(placements_from(texts, i, cursor, end) == placements_from(texts, i + 1, cursor, end));
    } else if !(i < 0 || i >= texts.len() || cursor >= end) {
        let t = fitted(texts[i], cursor, end);
        if t.len() > 0 {
            let w = display_width(t) as u16;
            lemma_placements_in_bounds(texts, i + 1, cursor + w, end);
            let rest = placements_from(texts, i + 1, cursor + w, end);
            let all = placements_from(texts, i, cursor, end);
            assert(all == seq![(i, cursor, t, w)] + rest);
            assert forall|k: int| 0 <= k < all.len() - 1 implies {
                let p = #[trigger] all[k];
                let q = all[k + 1];
                &&& p.0 < q.0
                &&& q.1 == p.1 + p.3
            } by {
                if k == 0 {
                    assert(all[1] == rest[0]);
                    if rest.len() > 0 {
                        lemma_first_placement(texts, i + 1, cursor + w, end);
                    }
                } else {
                    assert(all[k] == rest[k - 1]);
                    assert(all[k + 1] == rest[k]);
                }
            }
        }
    }
}

/// The first placement from span `i` on is span `i` or a later one, at
/// the cursor.
proof fn lemma_first_placement(texts: Seq<Seq<char>>, i: int, cursor: int, end: int)
    requires
        placements_from(texts, i, cursor, end).len() > 0,
    ensures
        placements_from(texts, i, cursor, end)[0].0 >= i,
        placements_from(texts, i, cursor, end)[0].1 == cursor,
    decreases texts.len() - i,
{
    if !(i < 0 || i >= texts.len() || cursor >= end) && texts[i].len() == 0 {
        lemma_first_placement(texts, i + 1, cursor, end);
    }
}

} // verus!
