//! A tab bar with keyboard navigation, and a container that shows the pane
//! of the active tab below the bar.
use vstd::prelude::*;

use crate::geometry::{CellStyle, PlannedCell, Rect};
use crate::keys::{hidden_binding, Key, KeyBinding};
use crate::text::{chars_of, str_eq};

verus! {

/// Message: the active tab changed.
#[derive(Clone, Debug, PartialEq, Eq)]
pub struct TabChanged {
    pub index: usize,
    pub label: String,
}

/// The tab bar widget: a row of tab labels, one of them active.
///
/// Actions: `prev_tab` and `next_tab` move the active tab, and each move
/// produces a [`TabChanged`] message.
pub struct Tabs {
    pub tab_labels: Vec<String>,
    pub active: usize,
}

/// The labels as character sequences.
pub open spec fn label_seqs(labels: Seq<String>) -> Seq<Seq<char>> {
    labels.map_values(|s: String| s@)
}

/// The styled characters that tab `i` contributes to the bar: a ` | `
/// separator before every tab but the first, a plain leading space, the
/// label (reversed when active), and a trailing space (reversed when active).
pub open spec fn tab_segment(label: Seq<char>, i: int, active: int) -> Seq<(char, CellStyle)> {
    let style = if i == active {
        CellStyle::Reversed
    } else {
        CellStyle::Plain
    };
    let sep = if i > 0 {
        seq![(' ', CellStyle::Plain), ('|', CellStyle::Plain), (' ', CellStyle::Plain)]
    } else {
        Seq::empty()
    };
    sep + seq![(' ', CellStyle::Plain)] + label.map_values(|c: char| (c, style)) + seq![
        (' ', style),
    ]
}

/// The whole tab bar: the segments of all tabs in order.
pub open spec fn tab_bar(labels: Seq<Seq<char>>, active: int) -> Seq<(char, CellStyle)>
    decreases labels.len(),
{
    if labels.len() == 0 {
        Seq::empty()
    } else {
        tab_bar(labels.drop_last(), active) + tab_segment(
            labels.last(),
            labels.len() - 1,
            active,
        )
    }
}

/// The cell that bar position `k` occupies in `area`.
pub open spec fn bar_cell(bar: Seq<(char, CellStyle)>, area: Rect, k: int) -> PlannedCell {
    PlannedCell { x: (area.x + k) as u16, y: area.y, symbol: bar[k].0, style: bar[k].1 }
}

/// The cells of a bar rendered into `area`: the bar from the left edge of
/// the area's first row, cut at the area's width; nothing for an empty area.
pub open spec fn bar_cells(bar: Seq<(char, CellStyle)>, area: Rect) -> Seq<PlannedCell> {
    if area.width == 0 || area.height == 0 {
        Seq::empty()
    } else {
        let n = if bar.len() < area.width {
            bar.len()
        } else {
            area.width as nat
        };
        Seq::new(n, |k: int| bar_cell(bar, area, k))
    }
}

/// Whether an action moves the active tab: `prev_tab` when a tab precedes
/// the active one, `next_tab` when one follows it among `n` tabs.
pub open spec fn moves(active: usize, n: nat, action: Seq<char>) -> bool {
    (action == "prev_tab"@ && active > 0) || (action == "next_tab"@ && active + 1 < n)
}

/// The active tab after an action, among `n` tabs.
pub open spec fn active_after(active: usize, n: nat, action: Seq<char>) -> usize {
    if action == "prev_tab"@ && active > 0 {
        (active - 1) as usize
    } else if action == "next_tab"@ && active + 1 < n {
        (active + 1) as usize
    } else {
        active
    }
}

/// The label of tab `i`, or the empty string if there is none.
pub open spec fn label_at(labels: Seq<Seq<char>>, i: int) -> Seq<char> {
    if 0 <= i < labels.len() {
        labels[i]
    } else {
        Seq::empty()
    }
}

/// Tab navigation keeps a valid active tab valid.
pub proof fn lemma_active_stays_valid(active: usize, n: nat, action: Seq<char>)
    requires
        active < n,
    ensures
        active_after(active, n, action) < n,
{
}

/// Moving to the next tab and back to the previous one returns to the
/// starting tab, and so does moving back and then forward.
pub proof fn lemma_next_prev_inverse(active: usize, n: nat)
    requires
        active < n,
        n <= usize::MAX,
    ensures
        active + 1 < n ==> active_after(active_after(active, n, "next_tab"@), n, "prev_tab"@)
            == active,
        active > 0 ==> active_after(active_after(active, n, "prev_tab"@), n, "next_tab"@)
            == active,
{
    reveal_strlit("prev_tab");
    reveal_strlit("next_tab");
    assert("prev_tab"@[0] != "next_tab"@[0]);
}

/// The width of the bar for `labels`: each tab takes its label and a space
/// on either side, and every tab after the first three more columns for
/// the separator before it.
pub open spec fn bar_width(labels: Seq<Seq<char>>) -> int
    decreases labels.len(),
{
    if labels.len() == 0 {
        0
    } else {
        bar_width(labels.drop_last()) + (if labels.len() > 1 {
            3int
        } else {
            0int
        }) + labels.last().len() + 2
    }
}

/// The bar position where the label of tab `i` begins: after the tabs
/// before it, the separator (for every tab but the first) and a space.
pub open spec fn label_start(labels: Seq<Seq<char>>, i: int) -> int {
    bar_width(labels.take(i)) + (if i > 0 {
        3int
    } else {
        0int
    }) + 1
}

/// The bar is as wide as its tabs.
pub proof fn lemma_tab_bar_len(labels: Seq<Seq<char>>, active: int)
    ensures
        tab_bar(labels, active).len() == bar_width(labels),
    decreases labels.len(),
{
    if labels.len() > 0 {
        lemma_tab_bar_len(labels.drop_last(), active);
    }
}

/// Each tab's label stands in the bar, followed by a space, all reversed
/// exactly when the tab is the active one (the first tab included) and
/// plain otherwise.
pub proof fn lemma_tab_highlight(labels: Seq<Seq<char>>, active: int, i: int, t: int)
    requires
        0 <= i < labels.len(),
        0 <= t <= labels[i].len(),
    ensures
        0 <= label_start(labels, i) + t < tab_bar(labels, active).len(),
        tab_bar(labels, active)[label_start(labels, i) + t].1 == (if i == active {
            CellStyle::Reversed
        } else {
            CellStyle::Plain
        }),
        t < labels[i].len() ==> tab_bar(labels, active)[label_start(labels, i) + t].0
            == labels[i][t],
    decreases labels.len(),
{
    let n = labels.len();
    let rest = labels.drop_last();
    let head = tab_bar(rest, active);
    let seg = tab_segment(labels.last(), n - 1, active);
    lemma_tab_bar_len(rest, active);
    lemma_tab_bar_len(labels, active);
    assert(tab_bar(labels, active) == head + seg);
    if i < n - 1 {
        lemma_tab_highlight(rest, active, i, t);
        assert(rest.take(i) =~= labels.take(i));
        assert(rest[i] == labels[i]);
    } else {
        assert(labels.take(i) =~= rest);
        let sep: int = if i > 0 {
            3
        } else {
            0
        };
        let k = label_start(labels, i) + t;
        assert(k == head.len() + sep + 1 + t);
        assert(tab_bar(labels, active)[k] == seg[sep + 1 + t]);
    }
}

/// Only the active tab is highlighted: a reversed cell of the bar lies in
/// the active tab's label or the space after it.
pub proof fn lemma_only_active_reversed(labels: Seq<Seq<char>>, active: int, k: int)
    requires
        0 <= k < tab_bar(labels, active).len(),
        tab_bar(labels, active)[k].1 == CellStyle::Reversed,
    ensures
        0 <= active < labels.len(),
        label_start(labels, active) <= k <= label_start(labels, active) + labels[active].len(),
    decreases labels.len(),
{
    let n = labels.len();
    let rest = labels.drop_last();
    let head = tab_bar(rest, active);
    let seg = tab_segment(labels.last(), n - 1, active);
    lemma_tab_bar_len(rest, active);
    assert(tab_bar(labels, active) == head + seg);
    if k < head.len() {
        assert(tab_bar(labels, active)[k] == head[k]);
        lemma_only_active_reversed(rest, active, k);
        assert(rest.take(active) =~= labels.take(active));
        assert(rest[active] == labels[active]);
    } else {
        let sep: int = if n - 1 > 0 {
            3
        } else {
            0
        };
        assert(tab_bar(labels, active)[k] == seg[k - head.len()]);
        assert(active == n - 1);
        assert(labels.take(active) =~= rest);
    }
}

impl Tabs {
    /// A tab bar with the given labels, the first tab active.
    pub fn new(labels: Vec<String>) -> (r: Self)
        ensures
            r.tab_labels == labels,
            r.active == 0,
    {
        Tabs { tab_labels: labels, active: 0 }
    }

    /// The widget's type name.
    pub fn widget_type_name(&self) -> (r: &'static str)
        ensures
            r@ == "Tabs"@,
    {
        "Tabs"
    }

    /// A tab bar takes keyboard focus.
    pub fn can_focus(&self) -> (r: bool)
        ensures
            r,
    {
        true
    }

    /// The default style: one row high, docked at the top.
    pub fn default_css() -> (r: &'static str)
        ensures
            r@ == "Tabs { height: 1; dock: top; }"@,
    {
        "Tabs { height: 1; dock: top; }"
    }

    /// The key bindings: Left for the previous tab, Right for the next.
    pub fn key_bindings(&self) -> (r: Vec<KeyBinding>)
        ensures
            r@.len() == 2,
            r@[0].key == Key::Left && r@[0].action@ == "prev_tab"@,
            r@[1].key == Key::Right && r@[1].action@ == "next_tab"@,
            forall|i: int| 0 <= i < 2 ==> (#[trigger] r@[i]).modifiers.is_none_spec() && !r@[i].show,
    {
        let mut r: Vec<KeyBinding> = Vec::new();
        r.push(hidden_binding(Key::Left, "prev_tab", "Previous tab"));
        r.push(hidden_binding(Key::Right, "next_tab", "Next tab"));
        r
    }

    /// The label of tab `idx`, or the empty string if there is none.
    fn label_or_empty(&self, idx: usize) -> (r: String)
        ensures
            idx < self.tab_labels@.len() ==> r@ == self.tab_labels@[idx as int]@,
            idx >= self.tab_labels@.len() ==> r@ == Seq::<char>::empty(),
    {
        if idx < self.tab_labels.len() {
            self.tab_labels[idx].clone()
        } else {
            String::new()
        }
    }

    /// Handle a named action: `prev_tab` activates the tab before the
    /// active one and `next_tab` the one after it, when there is one; each
    /// move returns the message announcing the new tab.
    pub fn on_action(&mut self, action: &str) -> (r: Option<TabChanged>)
        requires
            action@ == "next_tab"@ ==> old(self).active < usize::MAX,
        ensures
            final(self).tab_labels == old(self).tab_labels,
            final(self).active == active_after(old(self).active, old(self).tab_labels@.len(), action@),
            (r is Some) == moves(old(self).active, old(self).tab_labels@.len(), action@),
            r matches Some(m) ==> m.index == final(self).active && m.label@ == label_at(
                label_seqs(old(self).tab_labels@),
                final(self).active as int,
            ),
    {
        proof {
            reveal_strlit("prev_tab");
            reveal_strlit("next_tab");
            assert("prev_tab"@[0] != "next_tab"@[0]);
        }
        let current = self.active;
        if str_eq(action, "prev_tab") {
            if current > 0 {
                let new_idx = current - 1;
                self.active = new_idx;
                let label = self.label_or_empty(new_idx);
                return Some(TabChanged { index: new_idx, label });
            }
            None
        } else if str_eq(action, "next_tab") {
            if current + 1 < self.tab_labels.len() {
                let new_idx = current + 1;
                self.active = new_idx;
                let label = self.label_or_empty(new_idx);
                return Some(TabChanged { index: new_idx, label });
            }
            None
        } else {
            None
        }
    }

    /// The styled characters of the whole tab bar.
    pub fn bar(&self) -> (r: Vec<(char, CellStyle)>)
        ensures
            r@ == tab_bar(label_seqs(self.tab_labels@), self.active as int),
    {
        let ghost labels = label_seqs(self.tab_labels@);
        let mut bar: Vec<(char, CellStyle)> = Vec::new();
        let mut i: usize = 0;
        while i < self.tab_labels.len()
            invariant
                i <= self.tab_labels@.len(),
                labels == label_seqs(self.tab_labels@),
                bar@ == tab_bar(labels.take(i as int), self.active as int),
            decreases self.tab_labels@.len() - i,
        {
            let ghost start = bar@;
            let style = if i == self.active {
                CellStyle::Reversed
            } else {
                CellStyle::Plain
            };
            if i > 0 {
                bar.push((' ', CellStyle::Plain));
                bar.push(('|', CellStyle::Plain));
                bar.push((' ', CellStyle::Plain));
            }
            bar.push((' ', CellStyle::Plain));
            let ghost head = bar@;
            let label = chars_of(self.tab_labels[i].as_str());
            assert(label@ == labels[i as int]);
            let mut j: usize = 0;
            while j < label.len()
                invariant
                    j <= label@.len(),
                    bar@ == head + label@.take(j as int).map_values(|c: char| (c, style)),
                decreases label@.len() - j,
            {
                bar.push((label[j], style));
                j = j + 1;
                assert(bar@ =~= head + label@.take(j as int).map_values(|c: char| (c, style)));
            }
            bar.push((' ', style));
            assert(label@.take(j as int) =~= label@);
            assert(labels.take(i + 1).drop_last() =~= labels.take(i as int));
            assert(bar@ =~= start + tab_segment(labels[i as int], i as int, self.active as int));
            i = i + 1;
        }
        assert(labels.take(i as int) =~= labels);
        bar
    }

    /// The cells that rendering the tab bar into `area` writes: the bar
    /// along the area's first row, cut at its width.
    pub fn render_cells(&self, area: Rect) -> (r: Vec<PlannedCell>)
        requires
            area.x as int + area.width as int <= u16::MAX as int,
        ensures
            r@ == bar_cells(tab_bar(label_seqs(self.tab_labels@), self.active as int), area),
    {
        if area.height == 0 || area.width == 0 {
            return Vec::new();
        }
        let bar = self.bar();
        let n: usize = if bar.len() < area.width as usize {
            bar.len()
        } else {
            area.width as usize
        };
        let ghost want = bar_cells(bar@, area);
        assert(want.len() == n);
        let mut cells: Vec<PlannedCell> = Vec::new();
        let mut k: usize = 0;
        while k < n
            invariant
                n == want.len(),
                n <= bar@.len(),
                n <= area.width,
                area.x as int + area.width as int <= u16::MAX as int,
                area.width > 0 && area.height > 0,
                want == bar_cells(bar@, area),
                k <= n,
                cells@ == want.take(k as int),
            decreases n - k,
        {
            let (ch, style) = bar[k];
            let cell = PlannedCell { x: area.x + k as u16, y: area.y, symbol: ch, style };
            assert(cell == bar_cell(bar@, area, k as int));
            assert(want[k as int] == bar_cell(bar@, area, k as int));
            cells.push(cell);
            k = k + 1;
            assert(cells@ =~= want.take(k as int));
        }
        assert(want.take(k as int) =~= want);
        cells
    }
}

/// The placement of a tabbed container's parts.
#[derive(Clone, Copy, Debug, PartialEq, Eq, Structural)]
pub struct TabbedLayout {
    /// The row holding the tab bar.
    pub tab_bar: Rect,
    /// The active pane's index and area, when the container has room below
    /// the bar and the active tab has a pane.
    pub pane: Option<PanePlacement>,
}

/// Which pane is shown, and where.
#[derive(Clone, Copy, Debug, PartialEq, Eq, Structural)]
pub struct PanePlacement {
    pub index: usize,
    pub area: Rect,
}

/// Where a tabbed container in `area` puts its bar and its active pane.
pub open spec fn tabbed_layout(area: Rect, active: usize, n_panes: nat) -> Option<TabbedLayout> {
    if area.width == 0 || area.height == 0 {
        None
    } else {
        let bar = Rect { x: area.x, y: area.y, width: area.width, height: 1 };
        let below = Rect {
            x: area.x,
            y: (area.y + 1) as u16,
            width: area.width,
            height: (area.height - 1) as u16,
        };
        Some(
            TabbedLayout {
                tab_bar: bar,
                pane: if area.height > 1 && active < n_panes {
                    Some(PanePlacement { index: active, area: below })
                } else {
                    None
                },
            },
        )
    }
}

/// A container combining a tab bar with content panes, showing only the
/// active pane, below the bar.
pub struct TabbedContent<P> {
    pub tabs: Tabs,
    pub panes: Vec<P>,
}

impl<P> TabbedContent<P> {
    /// A container with the given tab labels and panes, the first active.
    pub fn new(labels: Vec<String>, panes: Vec<P>) -> (r: Self)
        ensures
            r.tabs.tab_labels == labels,
            r.tabs.active == 0,
            r.panes == panes,
    {
        TabbedContent { tabs: Tabs::new(labels), panes }
    }

    /// The widget's type name.
    pub fn widget_type_name(&self) -> (r: &'static str)
        ensures
            r@ == "TabbedContent"@,
    {
        "TabbedContent"
    }

    /// The container itself does not take focus.
    pub fn can_focus(&self) -> (r: bool)
        ensures
            !r,
    {
        false
    }

    /// The default style: at least three rows high.
    pub fn default_css() -> (r: &'static str)
        ensures
            r@ == "TabbedContent { min-height: 3; }"@,
    {
        "TabbedContent { min-height: 3; }"
    }

    /// Where rendering into `area` puts the bar and the active pane:
    /// nothing for an empty area; otherwise the bar on the first row and,
    /// when the area is taller than one row and the active tab has a pane,
    /// that pane on the rows below.
    pub fn layout(&self, area: Rect) -> (r: Option<TabbedLayout>)
        requires
            area.height > 1 ==> area.y < u16::MAX,
        ensures
            r == tabbed_layout(area, self.tabs.active, self.panes@.len()),
    {
        if area.height == 0 || area.width == 0 {
            return None;
        }
        let tab_bar = Rect { x: area.x, y: area.y, width: area.width, height: 1 };
        let mut pane: Option<PanePlacement> = None;
        if area.height > 1 {
            let pane_area = Rect {
                x: area.x,
                y: area.y + 1,
                width: area.width,
                height: area.height - 1,
            };
            let active_idx = self.tabs.active;
            if active_idx < self.panes.len() {
                pane = Some(PanePlacement { index: active_idx, area: pane_area });
            }
        }
        Some(TabbedLayout { tab_bar, pane })
    }
}

} // verus!
