//! A scrollable viewport for content that draws itself row by row.
//!
//! The content says how many rows it has; the region keeps the scroll
//! offset, answers the scrolling actions, and lays out the content area and
//! the scrollbar column.
use vstd::prelude::*;

use crate::geometry::{Rect, Rgb};
use crate::keys::{hidden_binding, Key, KeyBinding};
use crate::text::str_eq;

verus! {

/// Content that a [`ScrollRegion`] scrolls.
pub trait ScrollContent {
    /// The number of rows the content has: what `content_height` returns.
    /// Every implementation promises that the two agree; the region's
    /// contracts are stated over this number.
    spec fn spec_content_height(&self) -> usize;

    /// Total number of rows in the virtual content (not the viewport height).
    fn content_height(&self) -> (r: usize)
        ensures
            r == self.spec_content_height(),
    ;
}

/// `a - b`, or zero when `b` exceeds `a`.
pub open spec fn sat_sub(a: int, b: int) -> int {
    if a >= b {
        a - b
    } else {
        0
    }
}

/// The smaller of two numbers.
pub open spec fn min_int(a: int, b: int) -> int {
    if a <= b {
        a
    } else {
        b
    }
}

/// The scroll offset after an action, given the viewport height and the
/// largest offset: one row or one viewport up or down, never above the
/// top nor past the largest offset going down, or straight to either end.
pub open spec fn offset_after(action: Seq<char>, offset: int, viewport: int, max: int) -> int {
    if action == "scroll_up"@ {
        sat_sub(offset, 1)
    } else if action == "scroll_down"@ {
        min_int(offset + 1, max)
    } else if action == "page_up"@ {
        sat_sub(offset, viewport)
    } else if action == "page_down"@ {
        min_int(offset + viewport, max)
    } else if action == "scroll_top"@ {
        0
    } else if action == "scroll_bottom"@ {
        max
    } else {
        offset
    }
}

/// The arithmetic of an action stays within `usize`.
pub open spec fn action_fits(action: Seq<char>, offset: int, viewport: int) -> bool {
    &&& action == "scroll_down"@ ==> offset + 1 <= usize::MAX
    &&& action == "page_down"@ ==> offset + viewport <= usize::MAX
}

/// The scroll offset after an action.
pub fn scroll_offset_after(action: &str, offset: usize, viewport: usize, max: usize) -> (r: usize)
    requires
        action_fits(action@, offset as int, viewport as int),
    ensures
        r == offset_after(action@, offset as int, viewport as int, max as int),
{
    if str_eq(action, "scroll_up") {
        if offset >= 1 {
            offset - 1
        } else {
            0
        }
    } else if str_eq(action, "scroll_down") {
        if offset + 1 <= max {
            offset + 1
        } else {
            max
        }
    } else if str_eq(action, "page_up") {
        if offset >= viewport {
            offset - viewport
        } else {
            0
        }
    } else if str_eq(action, "page_down") {
        if offset + viewport <= max {
            offset + viewport
        } else {
            max
        }
    } else if str_eq(action, "scroll_top") {
        0
    } else if str_eq(action, "scroll_bottom") {
        max
    } else {
        offset
    }
}

/// The largest scroll offset for content of `content_height` rows in a
/// viewport of `viewport` rows: the offset that puts the last row at the
/// bottom of the viewport, or the top when everything fits.
pub fn bottom_offset(content_height: usize, viewport: u16) -> (r: usize)
    ensures
        r == sat_sub(content_height as int, viewport as int),
{
    let v = viewport as usize;
    if content_height >= v {
        content_height - v
    } else {
        0
    }
}

/// The scrollbar thumb's colour, the accent green.
pub open spec fn thumb_color_spec() -> Rgb {
    Rgb { red: 0, green: 255, blue: 163 }
}

/// The scrollbar track's colour, a dark grey-blue.
pub open spec fn track_color_spec() -> Rgb {
    Rgb { red: 30, green: 30, blue: 40 }
}

/// Where a scrollbar is drawn, what it shows, and in which colours.
#[derive(Clone, Copy, Debug, PartialEq, Eq, Structural)]
pub struct ScrollbarPlan {
    pub x: u16,
    pub y: u16,
    pub height: u16,
    pub content_height: usize,
    pub viewport: usize,
    pub offset: usize,
    pub thumb: Rgb,
    pub track: Rgb,
}

/// The layout of a region drawn into an area.
#[derive(Clone, Copy, Debug, PartialEq, Eq, Structural)]
pub struct ScrollLayout {
    /// Where the content draws itself.
    pub content_area: Rect,
    /// The first content row shown.
    pub offset: usize,
    /// The scrollbar, when the content is taller than the area.
    pub scrollbar: Option<ScrollbarPlan>,
}

/// The layout for content of `content_height` rows in `area` at `offset`:
/// nothing for an empty area; when the content is taller than the area, a
/// scrollbar in the rightmost column, thumb and track in their colours, which the content then leaves free
/// (so that a single-column area leaves the content no column at all).
pub open spec fn layout_spec(area: Rect, content_height: usize, offset: usize) -> Option<ScrollLayout> {
    if area.width == 0 || area.height == 0 {
        None
    } else {
        let needs = content_height > area.height;
        let content_area = if needs {
            Rect { width: (area.width - 1) as u16, ..area }
        } else {
            area
        };
        Some(
            ScrollLayout {
                content_area,
                offset,
                scrollbar: if needs {
                    Some(
                        ScrollbarPlan {
                            x: (area.x + area.width - 1) as u16,
                            y: area.y,
                            height: area.height,
                            content_height,
                            viewport: area.height as usize,
                            offset,
                            thumb: thumb_color_spec(),
                            track: track_color_spec(),
                        },
                    )
                } else {
                    None
                },
            },
        )
    }
}

/// The layout of a region in `area`.
pub fn scroll_layout(area: Rect, content_height: usize, offset: usize) -> (r: Option<ScrollLayout>)
    requires
        content_height > area.height ==> area.x as int + area.width as int <= u16::MAX as int + 1,
    ensures
        r == layout_spec(area, content_height, offset),
{
    if area.height == 0 || area.width == 0 {
        return None;
    }
    let needs_scrollbar = content_height > area.height as usize;
    let content_area = if needs_scrollbar {
        Rect { x: area.x, y: area.y, width: area.width - 1, height: area.height }
    } else {
        area
    };
    let scrollbar = if needs_scrollbar {
        Some(
            ScrollbarPlan {
                x: area.x + (area.width - 1),
                y: area.y,
                height: area.height,
                content_height,
                viewport: area.height as usize,
                offset,
                thumb: Rgb { red: 0, green: 255, blue: 163 },
                track: Rgb { red: 30, green: 30, blue: 40 },
            },
        )
    } else {
        None
    };
    Some(ScrollLayout { content_area, offset, scrollbar })
}

/// A scrollable viewport over content that draws itself.
pub struct ScrollRegion<C> {
    /// The content being scrolled.
    pub content: C,
    /// Current scroll offset (first visible row index).
    pub scroll_offset: usize,
    /// The viewport height seen at the last render (zero before any).
    pub viewport_height: u16,
}

impl<C: ScrollContent> ScrollRegion<C> {
    /// A region over `content`, scrolled to the top, not yet rendered.
    pub fn new(content: C) -> (r: Self)
        ensures
            r.content == content,
            r.scroll_offset == 0,
            r.viewport_height == 0,
    {
        ScrollRegion { content, scroll_offset: 0, viewport_height: 0 }
    }

    /// The widget's type name.
    pub fn widget_type_name(&self) -> (r: &'static str)
        ensures
            r@ == "ScrollRegion"@,
    {
        "ScrollRegion"
    }

    /// A scroll region takes keyboard focus.
    pub fn can_focus(&self) -> (r: bool)
        ensures
            r,
    {
        true
    }

    /// The default style: grow to fill the space left.
    pub fn default_css() -> (r: &'static str)
        ensures
            r@ == "ScrollRegion { flex-grow: 1; }"@,
    {
        "ScrollRegion { flex-grow: 1; }"
    }

    /// The key bindings: Up and Down scroll a row, PageUp and PageDown a
    /// viewport, Home and End go to either end.
    pub fn key_bindings(&self) -> (r: Vec<KeyBinding>)
        ensures
            r@.len() == 6,
            r@[0].key == Key::Up && r@[0].action@ == "scroll_up"@,
            r@[1].key == Key::Down && r@[1].action@ == "scroll_down"@,
            r@[2].key == Key::PageUp && r@[2].action@ == "page_up"@,
            r@[3].key == Key::PageDown && r@[3].action@ == "page_down"@,
            r@[4].key == Key::Home && r@[4].action@ == "scroll_top"@,
            r@[5].key == Key::End && r@[5].action@ == "scroll_bottom"@,
            forall|i: int| 0 <= i < 6 ==> (#[trigger] r@[i]).modifiers.is_none_spec() && !r@[i].show,
    {
        let mut r: Vec<KeyBinding> = Vec::new();
        r.push(hidden_binding(Key::Up, "scroll_up", "Scroll up"));
        r.push(hidden_binding(Key::Down, "scroll_down", "Scroll down"));
        r.push(hidden_binding(Key::PageUp, "page_up", "Page up"));
        r.push(hidden_binding(Key::PageDown, "page_down", "Page down"));
        r.push(hidden_binding(Key::Home, "scroll_top", "Scroll to top"));
        r.push(hidden_binding(Key::End, "scroll_bottom", "Scroll to bottom"));
        r
    }

    /// The largest offset: the content height, as the content reports it
    /// now, less the viewport height, or zero.
    pub fn max_offset(&self) -> (r: usize)
        ensures
            r == sat_sub(self.content.spec_content_height() as int, self.viewport_height as int),
    {
        let h = self.content.content_height();
        bottom_offset(h, self.viewport_height)
    }

    /// Scroll so that the last row is at the bottom of the viewport.
    pub fn scroll_to_bottom(&mut self)
        ensures
            final(self).content == old(self).content,
            final(self).viewport_height == old(self).viewport_height,
            final(self).scroll_offset == sat_sub(
                old(self).content.spec_content_height() as int,
                old(self).viewport_height as int,
            ),
    {
        let max = self.max_offset();
        self.scroll_offset = max;
    }

    /// Scroll to the first row.
    pub fn scroll_to_top(&mut self)
        ensures
            final(self).content == old(self).content,
            final(self).viewport_height == old(self).viewport_height,
            final(self).scroll_offset == 0,
    {
        self.scroll_offset = 0;
    }

    /// Handle a named scrolling action: `scroll_up`, `scroll_down`,
    /// `page_up`, `page_down`, `scroll_top`, `scroll_bottom`; anything else
    /// changes nothing.
    pub fn on_action(&mut self, action: &str)
        requires
            action_fits(action@, old(self).scroll_offset as int, old(self).viewport_height as int),
        ensures
            final(self).content == old(self).content,
            final(self).viewport_height == old(self).viewport_height,
            final(self).scroll_offset == offset_after(
                action@,
                old(self).scroll_offset as int,
                old(self).viewport_height as int,
                sat_sub(
                    old(self).content.spec_content_height() as int,
                    old(self).viewport_height as int,
                ),
            ),
    {
        let offset = self.scroll_offset;
        let viewport = self.viewport_height as usize;
        let max = self.max_offset();
        self.scroll_offset = scroll_offset_after(action, offset, viewport, max);
    }

    /// Lay the region out in `area`, remembering the area's height as the
    /// viewport height.
    pub fn render_layout(&mut self, area: Rect) -> (r: Option<ScrollLayout>)
        requires
            area.x as int + area.width as int <= u16::MAX as int + 1,
        ensures
            final(self).content == old(self).content,
            final(self).scroll_offset == old(self).scroll_offset,
            area.width == 0 || area.height == 0 ==> r is None && final(self).viewport_height
                == old(self).viewport_height,
            !(area.width == 0 || area.height == 0) ==> final(self).viewport_height == area.height
                && r == layout_spec(
                area,
                old(self).content.spec_content_height(),
                old(self).scroll_offset,
            ),
    {
        if area.height == 0 || area.width == 0 {
            return None;
        }
        self.viewport_height = area.height;
        let h = self.content.content_height();
        scroll_layout(area, h, self.scroll_offset)
    }
}

/// Scrolling stays between the top and the largest offset: from any offset
/// at most `max`, every action leads to an offset at most `max`.
pub proof fn lemma_offset_in_range(action: Seq<char>, offset: int, viewport: int, max: int)
    requires
        0 <= offset <= max,
        0 <= viewport,
    ensures
        0 <= offset_after(action, offset, viewport, max) <= max,
{
}

/// The layout covers the area: without a scrollbar the content gets the
/// whole area; with one, the content gets every column but the last, and
/// the scrollbar that last column over the full height, showing the
/// content height, the viewport and the offset. An empty area lays out
/// nothing, and a scrollbar appears exactly when the content is taller
/// than the area.
pub proof fn lemma_layout_covers_area(area: Rect, content_height: usize, offset: usize)
    requires
        area.x as int + area.width as int <= u16::MAX as int + 1,
    ensures
        (area.width == 0 || area.height == 0) <==> layout_spec(area, content_height, offset) is None,
        layout_spec(area, content_height, offset) matches Some(l) ==> {
            &&& l.offset == offset
            &&& l.content_area.x == area.x && l.content_area.y == area.y
            &&& l.content_area.height == area.height
            &&& (l.scrollbar is Some <==> content_height > area.height)
            &&& l.scrollbar is None ==> l.content_area.width == area.width
            &&& l.scrollbar matches Some(b) ==> {
                &&& l.content_area.width + 1 == area.width
                &&& b.x == area.x + l.content_area.width
                &&& b.y == area.y && b.height == area.height
                &&& b.content_height == content_height && b.viewport == area.height
                &&& b.offset == offset
            }
        },
{
}

/// What each scrolling action does to the offset, in plain arithmetic:
/// up and down move one row, page up and page down move one viewport,
/// never above the top nor past the largest offset, and top and bottom go
/// to either end.
pub proof fn lemma_action_steps(offset: int, viewport: int, max: int)
    requires
        0 <= offset <= max,
        0 <= viewport,
    ensures
        offset >= 1 ==> offset_after("scroll_up"@, offset, viewport, max) == offset - 1,
        offset == 0 ==> offset_after("scroll_up"@, offset, viewport, max) == 0,
        offset < max ==> offset_after("scroll_down"@, offset, viewport, max) == offset + 1,
        offset == max ==> offset_after("scroll_down"@, offset, viewport, max) == max,
        offset >= viewport ==> offset_after("page_up"@, offset, viewport, max) + viewport
            == offset,
        offset < viewport ==> offset_after("page_up"@, offset, viewport, max) == 0,
        offset + viewport <= max ==> offset_after("page_down"@, offset, viewport, max) == offset
            + viewport,
        offset + viewport > max ==> offset_after("page_down"@, offset, viewport, max) == max,
        offset_after("scroll_top"@, offset, viewport, max) == 0,
        offset_after("scroll_bottom"@, offset, viewport, max) == max,
{
    reveal_strlit("scroll_up");
    reveal_strlit("scroll_down");
    reveal_strlit("page_up");
    reveal_strlit("page_down");
    reveal_strlit("scroll_top");
    reveal_strlit("scroll_bottom");
    assert("scroll_up"@.len() == 9 && "page_up"@.len() == 7 && "scroll_top"@.len() == 10);
    assert("scroll_down"@.len() == 11 && "page_down"@.len() == 9 && "scroll_bottom"@.len() == 13);
    assert("scroll_up"@[0] != "page_down"@[0]);
}

/// Paging down a viewport and back up a viewport returns to the start when
/// there was a full viewport of room below, and paging up then down
/// returns when there was a full viewport above.
pub proof fn lemma_page_down_then_up(offset: int, viewport: int, max: int)
    requires
        0 <= offset <= max,
        0 <= viewport,
    ensures
        offset + viewport <= max ==> offset_after(
            "page_up"@,
            offset_after("page_down"@, offset, viewport, max),
            viewport,
            max,
        ) == offset,
        offset >= viewport ==> offset_after(
            "page_down"@,
            offset_after("page_up"@, offset, viewport, max),
            viewport,
            max,
        ) == offset,
{
    lemma_action_steps(offset, viewport, max);
    let d = offset_after("page_down"@, offset, viewport, max);
    let u = offset_after("page_up"@, offset, viewport, max);
    if offset + viewport <= max {
        lemma_action_steps(d, viewport, max);
    }
    if offset >= viewport {
        lemma_action_steps(u, viewport, max);
    }
}

/// Scrolling down one row and back up one row returns to the start when
/// there was room to scroll down.
pub proof fn lemma_down_then_up(offset: int, viewport: int, max: int)
    requires
        0 <= offset < max,
    ensures
        offset_after("scroll_up"@, offset_after("scroll_down"@, offset, viewport, max), viewport, max)
            == offset,
{
    reveal_strlit("scroll_up");
    reveal_strlit("scroll_down");
    assert("scroll_up"@.len() != "scroll_down"@.len());
}

} // verus!
