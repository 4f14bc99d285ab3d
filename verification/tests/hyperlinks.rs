use textual_rs::hyperlink::{
    fit_prefix, osc8_close, osc8_open, plan_hyperlink, plan_linked_line, LinkedSpan,
};

#[test]
fn osc8_sequences() {
    assert_eq!(osc8_open("https://x.y"), "\x1b]8;;https://x.y\x1b\\");
    assert_eq!(osc8_close(), "\x1b]8;;\x1b\\");
}

#[test]
fn hyperlink_plan_marks_first_and_last_cell() {
    let p = plan_hyperlink(4, "abc1234").unwrap();
    assert_eq!((p.width, p.first_x, p.last_x), (7, 4, Some(10)));
    let one = plan_hyperlink(4, "a").unwrap();
    assert_eq!(one.last_x, Some(4));
    assert!(plan_hyperlink(4, "").is_none());
    assert!(plan_hyperlink(4, "\u{200b}").is_none(), "zero-width label writes nothing");
    let wide = plan_hyperlink(0, "日本").unwrap();
    assert_eq!(wide.width, 4);
}

#[test]
fn fit_prefix_respects_columns() {
    assert_eq!(fit_prefix("hello", 3), "hel");
    assert_eq!(fit_prefix("日本語", 5), "日本");
    assert_eq!(fit_prefix("日本語", 1), "");
    assert_eq!(fit_prefix("hi", 10), "hi");
}

#[test]
fn linked_line_places_spans_in_order() {
    let line = vec![
        LinkedSpan::plain("INFO ".to_string()),
        LinkedSpan::linked("GitHub".to_string(), "https://github.com".to_string()),
        LinkedSpan::plain(" tail".to_string()),
    ];
    let plan = plan_linked_line(&line, 2, 9);
    assert_eq!(plan.placements.len(), 2);
    assert_eq!((plan.placements[0].x, plan.placements[0].text.as_str(), plan.placements[0].linked), (2, "INFO ", false));
    assert_eq!((plan.placements[1].x, plan.placements[1].text.as_str(), plan.placements[1].linked), (7, "GitH", true));
    assert_eq!(plan.placements[1].span, 1);
    assert_eq!(plan.total, 9);
    let wide = plan_linked_line(&line, 0, 100);
    assert_eq!(wide.placements.len(), 3);
    assert_eq!(wide.total, 16);
}

#[test]
fn linked_line_stops_at_a_span_that_cannot_start() {
    let line = vec![
        LinkedSpan::plain("ab".to_string()),
        LinkedSpan::plain("日".to_string()),
        LinkedSpan::plain("c".to_string()),
    ];
    let plan = plan_linked_line(&line, 0, 3);
    assert_eq!(plan.placements.len(), 1);
    assert_eq!(plan.total, 2);
}

#[test]
fn linked_line_passes_over_empty_spans() {
    let empty_first = vec![LinkedSpan::plain(String::new()), LinkedSpan::plain("x".to_string())];
    let plan = plan_linked_line(&empty_first, 0, 5);
    assert_eq!(plan.placements.len(), 1);
    assert_eq!(plan.placements[0].span, 1);
    assert_eq!(plan.placements[0].x, 0);
    assert_eq!(plan.total, 1);
    let line = vec![
        LinkedSpan::plain(String::new()),
        LinkedSpan::plain("ab".to_string()),
        LinkedSpan::linked(String::new(), "u".to_string()),
        LinkedSpan::plain("c".to_string()),
    ];
    let plan = plan_linked_line(&line, 0, 10);
    assert_eq!(plan.total, 3);
    assert_eq!(plan.placements.len(), 2);
    assert_eq!((plan.placements[0].span, plan.placements[0].x, plan.placements[0].text.as_str()), (1, 0, "ab"));
    assert_eq!((plan.placements[1].span, plan.placements[1].x, plan.placements[1].text.as_str()), (3, 2, "c"));
}

#[test]
fn linked_span_constructors() {
    let s = LinkedSpan::styled("t".to_string(), ratatui::style::Style::default());
    assert_eq!(s.url, None);
    let c = LinkedSpan::linked("a".to_string(), "u".to_string()).clone();
    assert_eq!(c.url.as_deref(), Some("u"));
    assert_eq!(c, LinkedSpan::linked("a".to_string(), "u".to_string()));
}
