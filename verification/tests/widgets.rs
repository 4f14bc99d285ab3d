use textual_rs::geometry::{CellStyle, PlannedCell, Rect, Rgb};
use textual_rs::widget::loading_indicator::{
    loading_placement, loading_text, spinner_frame, spinner_overlay_plan, LoadingContent,
    LoadingIndicator, LoadingPlacement,
};
use textual_rs::widget::screen::ModalScreen;
use textual_rs::widget::scroll_region::{bottom_offset, scroll_layout, scroll_offset_after, ScrollContent, ScrollRegion};
use textual_rs::widget::tabs::{PanePlacement, TabbedContent, Tabs};

fn labels(ls: &[&str]) -> Vec<String> {
    ls.iter().map(|s| s.to_string()).collect()
}

#[test]
fn tabs_navigate_and_report_changes() {
    let mut tabs = Tabs::new(labels(&["One", "Two", "Three"]));
    assert_eq!(tabs.active, 0);
    assert!(tabs.on_action("prev_tab").is_none());
    let m = tabs.on_action("next_tab").unwrap();
    assert_eq!((m.index, m.label.as_str()), (1, "Two"));
    let m = tabs.on_action("next_tab").unwrap();
    assert_eq!((m.index, m.label.as_str()), (2, "Three"));
    assert!(tabs.on_action("next_tab").is_none());
    assert_eq!(tabs.active, 2);
    let m = tabs.on_action("prev_tab").unwrap();
    assert_eq!((m.index, m.label.as_str()), (1, "Two"));
    assert!(tabs.on_action("other").is_none());
    assert_eq!(tabs.active, 1);
}

#[test]
fn tabs_prev_from_out_of_range_gives_empty_label() {
    let mut tabs = Tabs::new(labels(&["A"]));
    tabs.active = 5;
    let m = tabs.on_action("prev_tab").unwrap();
    assert_eq!((m.index, m.label.as_str()), (4, ""));
}

fn row(cells: &[PlannedCell]) -> String {
    cells.iter().map(|c| c.symbol).collect()
}

#[test]
fn tab_bar_layout_and_highlight() {
    let mut tabs = Tabs::new(labels(&["Ab", "Cd"]));
    tabs.active = 1;
    let cells = tabs.render_cells(Rect { x: 3, y: 1, width: 40, height: 1 });
    assert_eq!(row(&cells), " Ab  |  Cd ");
    assert_eq!(cells[0].x, 3);
    assert_eq!(cells[0].y, 1);
    assert_eq!(cells[1].style, CellStyle::Plain);
    // leading space of the active tab is plain, label and trailing space reversed
    assert_eq!(cells[7].style, CellStyle::Plain);
    assert_eq!(cells[8].style, CellStyle::Reversed);
    assert_eq!(cells[10].style, CellStyle::Reversed);
}

#[test]
fn tab_bar_truncated_at_width() {
    let tabs = Tabs::new(labels(&["Alpha", "Beta"]));
    let cells = tabs.render_cells(Rect { x: 0, y: 0, width: 6, height: 1 });
    assert_eq!(row(&cells), " Alpha");
    assert!(tabs.render_cells(Rect { x: 0, y: 0, width: 6, height: 0 }).is_empty());
}

#[test]
fn tabbed_content_layout() {
    let mut tc = TabbedContent::new(labels(&["x", "y"]), vec!["pane0", "pane1"]);
    tc.tabs.active = 1;
    let l = tc.layout(Rect { x: 1, y: 2, width: 10, height: 5 }).unwrap();
    assert_eq!(l.tab_bar, Rect { x: 1, y: 2, width: 10, height: 1 });
    assert_eq!(l.pane, Some(PanePlacement { index: 1, area: Rect { x: 1, y: 3, width: 10, height: 4 } }));
    let short = tc.layout(Rect { x: 1, y: 2, width: 10, height: 1 }).unwrap();
    assert_eq!(short.pane, None);
    tc.tabs.active = 7;
    assert_eq!(tc.layout(Rect { x: 0, y: 0, width: 3, height: 3 }).unwrap().pane, None);
    assert!(tc.layout(Rect { x: 0, y: 0, width: 0, height: 3 }).is_none());
}

#[test]
fn modal_screen_hands_out_inner_once() {
    let mut modal = ModalScreen::new(42u32);
    assert!(modal.is_modal());
    assert_eq!(modal.compose(), vec![42]);
    assert!(modal.compose().is_empty());
}

#[test]
fn spinner_frames_cycle_every_two_ticks() {
    assert_eq!(spinner_frame(0), '\u{28FE}');
    assert_eq!(spinner_frame(7), '\u{28B7}');
    let area = Rect { x: 10, y: 4, width: 20, height: 6 };
    let p = loading_placement(area, false, 5).unwrap();
    let green = Rgb { red: 0, green: 255, blue: 163 };
    assert_eq!(p, LoadingPlacement { x: 20, y: 7, content: LoadingContent::Frame(spinner_frame(2)), fg: green });
    let wrapped = loading_placement(area, false, 17).unwrap();
    assert_eq!(wrapped.content, LoadingContent::Frame(spinner_frame(0)));
}

#[test]
fn loading_text_is_centered() {
    assert_eq!(loading_text(), "Loading...");
    let area = Rect { x: 0, y: 0, width: 20, height: 3 };
    let p = LoadingIndicator::new().render_plan(area, true, 0).unwrap();
    assert_eq!((p.x, p.y, p.content), (5, 1, LoadingContent::Text));
    assert_eq!(p.fg, Rgb { red: 0, green: 255, blue: 163 });
    let narrow = loading_placement(Rect { x: 2, y: 0, width: 4, height: 1 }, true, 0).unwrap();
    assert_eq!(narrow.x, 2);
    assert!(loading_placement(Rect { x: 0, y: 0, width: 0, height: 3 }, true, 0).is_none());
    assert_eq!(LoadingIndicator::default(), LoadingIndicator::new());
}

#[test]
fn overlay_fills_area() {
    let area = Rect { x: 1, y: 1, width: 4, height: 2 };
    let plan = spinner_overlay_plan(area, 0, false).unwrap();
    assert_eq!(plan.fill, area);
    assert_eq!(plan.fill_symbol, ' ');
    assert_eq!(plan.background, Rgb { red: 20, green: 20, blue: 28 });
    assert_eq!(plan.content.fg, Rgb { red: 0, green: 255, blue: 163 });
    assert_eq!(plan.content.content, LoadingContent::Frame('\u{28FE}'));
    assert_eq!(spinner_overlay_plan(area, 16, false), spinner_overlay_plan(area, 0, false));
    assert!(spinner_overlay_plan(Rect { x: 1, y: 1, width: 4, height: 0 }, 0, false).is_none());
}

struct Rows(usize);

impl ScrollContent for Rows {
    fn spec_content_height(&self) -> usize {
        self.0
    }

    fn content_height(&self) -> usize {
        self.0
    }
}

#[test]
fn scroll_actions_clamp() {
    assert_eq!(scroll_offset_after("scroll_up", 0, 5, 10), 0);
    assert_eq!(scroll_offset_after("scroll_down", 9, 5, 10), 10);
    assert_eq!(scroll_offset_after("scroll_down", 10, 5, 10), 10);
    assert_eq!(scroll_offset_after("page_up", 3, 5, 10), 0);
    assert_eq!(scroll_offset_after("page_down", 3, 5, 10), 8);
    assert_eq!(scroll_offset_after("page_down", 8, 5, 10), 10);
    assert_eq!(scroll_offset_after("scroll_top", 8, 5, 10), 0);
    assert_eq!(scroll_offset_after("scroll_bottom", 0, 5, 10), 10);
    assert_eq!(scroll_offset_after("noop", 4, 5, 10), 4);
}

#[test]
fn scroll_region_uses_viewport_from_render() {
    let mut region = ScrollRegion::new(Rows(30));
    assert_eq!(region.scroll_offset, 0);
    let layout = region.render_layout(Rect { x: 0, y: 0, width: 10, height: 8 }).unwrap();
    assert_eq!(region.viewport_height, 8);
    assert_eq!(layout.content_area, Rect { x: 0, y: 0, width: 9, height: 8 });
    let bar = layout.scrollbar.unwrap();
    assert_eq!((bar.x, bar.content_height, bar.viewport), (9, 30, 8));
    assert_eq!(bar.thumb, Rgb { red: 0, green: 255, blue: 163 });
    assert_eq!(bar.track, Rgb { red: 30, green: 30, blue: 40 });
    region.on_action("page_down");
    assert_eq!(region.scroll_offset, 8);
    region.scroll_to_bottom();
    assert_eq!(region.scroll_offset, 22);
    assert_eq!(region.max_offset(), 22);
    region.on_action("scroll_down");
    assert_eq!(region.scroll_offset, 22);
    region.scroll_to_top();
    assert_eq!(region.scroll_offset, 0);
}

#[test]
fn short_content_needs_no_scrollbar() {
    let l = scroll_layout(Rect { x: 0, y: 0, width: 10, height: 8 }, 8, 0).unwrap();
    assert!(l.scrollbar.is_none());
    assert_eq!(l.content_area, Rect { x: 0, y: 0, width: 10, height: 8 });
    let one_col = scroll_layout(Rect { x: 0, y: 0, width: 1, height: 2 }, 8, 0).unwrap();
    assert_eq!(one_col.content_area.width, 0);
    assert_eq!(one_col.scrollbar.unwrap().x, 0);
}

#[test]
fn bottom_offset_leaves_the_last_row_at_the_bottom() {
    assert_eq!(bottom_offset(30, 8), 22);
    assert_eq!(bottom_offset(8, 8), 0);
    assert_eq!(bottom_offset(3, 8), 0);
}
