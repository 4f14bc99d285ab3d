//! A loading spinner, standalone or drawn over a widget that is busy.
use vstd::prelude::*;

use crate::geometry::{Rect, Rgb};

verus! {

/// The spinner's frames: eight braille characters, one full rotation.
pub open spec fn spinner_frame_spec(i: int) -> char {
    if i == 0 {
        '\u{28FE}'
    } else if i == 1 {
        '\u{28FD}'
    } else if i == 2 {
        '\u{28FB}'
    } else if i == 3 {
        '\u{283F}'
    } else if i == 4 {
        '\u{285F}'
    } else if i == 5 {
        '\u{289F}'
    } else if i == 6 {
        '\u{28AF}'
    } else {
        '\u{28B7}'
    }
}

/// Frame `i` of the spinner (`i < 8`).
pub fn spinner_frame(i: usize) -> (c: char)
    requires
        i < 8,
    ensures
        c == spinner_frame_spec(i as int),
{
    if i == 0 {
        '\u{28FE}'
    } else if i == 1 {
        '\u{28FD}'
    } else if i == 2 {
        '\u{28FB}'
    } else if i == 3 {
        '\u{283F}'
    } else if i == 4 {
        '\u{285F}'
    } else if i == 5 {
        '\u{289F}'
    } else if i == 6 {
        '\u{28AF}'
    } else {
        '\u{28B7}'
    }
}

/// The static text shown instead of the animation.
pub fn loading_text() -> (r: &'static str)
    ensures
        r@ == "Loading..."@,
{
    "Loading..."
}

/// What the spinner shows.
#[derive(Clone, Copy, Debug, PartialEq, Eq, Structural)]
pub enum LoadingContent {
    /// The static text of [`loading_text`], for deterministic snapshots.
    Text,
    /// One frame of the animation.
    Frame(char),
}

/// The spinner's colour, the accent green.
pub open spec fn spinner_fg_spec() -> Rgb {
    Rgb { red: 0, green: 255, blue: 163 }
}

/// The busy overlay's background colour, a near-black blue.
pub open spec fn overlay_bg_spec() -> Rgb {
    Rgb { red: 20, green: 20, blue: 28 }
}

/// The spinner's colour.
pub fn spinner_fg() -> (r: Rgb)
    ensures
        r == spinner_fg_spec(),
{
    Rgb { red: 0, green: 255, blue: 163 }
}

/// The busy overlay's background colour.
pub fn overlay_bg() -> (r: Rgb)
    ensures
        r == overlay_bg_spec(),
{
    Rgb { red: 20, green: 20, blue: 28 }
}

/// Where the spinner's content goes, and the colour it is drawn in.
#[derive(Clone, Copy, Debug, PartialEq, Eq, Structural)]
pub struct LoadingPlacement {
    pub x: u16,
    pub y: u16,
    pub content: LoadingContent,
    /// The foreground colour.
    pub fg: Rgb,
}

/// The placement for `area`: the static text centered horizontally (it is
/// ten columns wide) when animations are skipped, else the frame for `tick`
/// (one frame every two ticks) at the area's center, both on the middle row
/// and in the spinner's colour.
pub open spec fn placement_spec(area: Rect, skip_animations: bool, tick: u8) -> Option<LoadingPlacement> {
    if area.width == 0 || area.height == 0 {
        None
    } else if skip_animations {
        let spare = if area.width >= 10 {
            area.width - 10
        } else {
            0
        };
        Some(
            LoadingPlacement {
                x: (area.x + spare / 2) as u16,
                y: (area.y + area.height / 2) as u16,
                content: LoadingContent::Text,
                fg: spinner_fg_spec(),
            },
        )
    } else {
        Some(
            LoadingPlacement {
                x: (area.x + area.width / 2) as u16,
                y: (area.y + area.height / 2) as u16,
                content: LoadingContent::Frame(spinner_frame_spec(((tick / 2) as int) % 8)),
                fg: spinner_fg_spec(),
            },
        )
    }
}

/// The placement's coordinates stay within `u16`.
pub open spec fn placement_fits(area: Rect) -> bool {
    &&& area.x as int + area.width as int / 2 <= u16::MAX as int
    &&& area.y as int + area.height as int / 2 <= u16::MAX as int
}

/// Where the spinner's content goes in `area`, if anywhere.
pub fn loading_placement(area: Rect, skip_animations: bool, tick: u8) -> (r: Option<LoadingPlacement>)
    requires
        placement_fits(area),
    ensures
        r == placement_spec(area, skip_animations, tick),
{
    if area.height == 0 || area.width == 0 {
        return None;
    }
    let y = area.y + area.height / 2;
    if skip_animations {
        let text = loading_text();
        let text_width = text.unicode_len();
        proof {
            reveal_strlit("Loading...");
        }
        assert(text_width == 10);
        let spare: u16 = if area.width >= 10 {
            area.width - 10
        } else {
            0
        };
        let x = area.x + spare / 2;
        return Some(LoadingPlacement { x, y, content: LoadingContent::Text, fg: spinner_fg() });
    }
    let frame_idx = (tick / 2) as usize % 8;
    let ch = spinner_frame(frame_idx);
    let x = area.x + area.width / 2;
    Some(LoadingPlacement { x, y, content: LoadingContent::Frame(ch), fg: spinner_fg() })
}

/// What drawing the busy overlay over `area` does: fill the whole area
/// with `fill_symbol` on the `background` colour, then put the spinner
/// content, in its own colour on that same background.
#[derive(Clone, Copy, Debug, PartialEq, Eq, Structural)]
pub struct OverlayPlan {
    pub fill: Rect,
    pub fill_symbol: char,
    /// The background of every cell of `fill`.
    pub background: Rgb,
    pub content: LoadingPlacement,
}

/// The busy overlay for `area`, if the area covers any cell.
pub fn spinner_overlay_plan(area: Rect, tick: u8, skip_animations: bool) -> (r: Option<OverlayPlan>)
    requires
        placement_fits(area),
    ensures
        r is Some <==> placement_spec(area, skip_animations, tick) is Some,
        r matches Some(p) ==> p.fill == area && p.fill_symbol == ' ' && p.background
            == overlay_bg_spec() && Some(p.content) == placement_spec(
            area,
            skip_animations,
            tick,
        ),
{
    match loading_placement(area, skip_animations, tick) {
        Some(content) => Some(
            OverlayPlan { fill: area, fill_symbol: ' ', background: overlay_bg(), content },
        ),
        None => None,
    }
}

/// The spinner animates one full turn of eight distinct frames: each frame
/// shows for two ticks, the frames of one turn differ from each other, and
/// sixteen ticks later the same frame shows again at the same place.
pub proof fn lemma_spinner_cycle(area: Rect, tick: u8)
    ensures
        forall|i: int, j: int|
            0 <= i < 8 && 0 <= j < 8 && i != j ==> spinner_frame_spec(i) != spinner_frame_spec(j),
        tick % 2 == 0 ==> placement_spec(area, false, tick) == placement_spec(
            area,
            false,
            (tick + 1) as u8,
        ),
        tick < 240 ==> placement_spec(area, false, tick) == placement_spec(
            area,
            false,
            (tick + 16) as u8,
        ),
        tick % 2 == 0 && tick < 254 && area.width > 0 && area.height > 0 ==> placement_spec(
            area,
            false,
            tick,
        ) != placement_spec(area, false, (tick + 2) as u8),
{
    if tick < 240 {
        assert((tick + 16) as u8 == tick + 16);
        assert(((tick + 16) as u8 / 2) as int % 8 == (tick / 2) as int % 8);
    }
    if tick % 2 == 0 && tick < 254 {
        assert((tick + 2) as u8 == tick + 2);
        assert(((tick + 2) as u8 / 2) as int % 8 != (tick / 2) as int % 8);
    }
}

/// A standalone loading spinner widget.
///
/// It renders a braille spinner animation centered in its area, or, when
/// animations are skipped, the static text instead.
#[derive(Clone, Copy, Debug, PartialEq, Eq, Structural)]
pub struct LoadingIndicator;

impl LoadingIndicator {
    /// Create a new loading indicator.
    pub fn new() -> (r: Self)
        ensures
            r == LoadingIndicator,
    {
        LoadingIndicator
    }

    /// The widget's type name.
    pub fn widget_type_name(&self) -> (r: &'static str)
        ensures
            r@ == "LoadingIndicator"@,
    {
        "LoadingIndicator"
    }

    /// The default style: fill the parent, at least one row high.
    pub fn default_css() -> (r: &'static str)
        ensures
            r@ == "LoadingIndicator { width: 100%; height: 100%; min-height: 1; }"@,
    {
        "LoadingIndicator { width: 100%; height: 100%; min-height: 1; }"
    }

    /// What rendering into `area` shows, and where.
    pub fn render_plan(&self, area: Rect, skip_animations: bool, tick: u8) -> (r: Option<
        LoadingPlacement,
    >)
        requires
            placement_fits(area),
        ensures
            r == placement_spec(area, skip_animations, tick),
    {
        loading_placement(area, skip_animations, tick)
    }
}

impl Default for LoadingIndicator {
    fn default() -> (r: Self)
        ensures
            r == LoadingIndicator,
    {
        LoadingIndicator::new()
    }
}

} // verus!
