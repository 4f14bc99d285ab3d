use textual_rs::geometry::{CellStyle, PlannedCell, Rect};
use textual_rs::keys::{EventPropagation, Key, KeyPress, Modifiers};
use textual_rs::widget::masked_input::{MaskSlot, MaskedInput, MaskedInputMessage};

fn typed(c: char) -> KeyPress {
    KeyPress { key: Key::Char(c), modifiers: Modifiers::none() }
}

// ---- MaskSlot parsing ----

#[test]
fn parse_mask_slots_date() {
    // "##/##/####" -> [Digit, Digit, Sep('/'), Digit, Digit, Sep('/'), Digit, Digit, Digit, Digit]
    let input = MaskedInput::new("##/##/####");
    assert_eq!(
        *input.mask_slots(),
        vec![
            MaskSlot::Digit,
            MaskSlot::Digit,
            MaskSlot::Separator('/'),
            MaskSlot::Digit,
            MaskSlot::Digit,
            MaskSlot::Separator('/'),
            MaskSlot::Digit,
            MaskSlot::Digit,
            MaskSlot::Digit,
            MaskSlot::Digit,
        ]
    );
    assert_eq!(input.max_raw_len(), 8);
}

// ---- Char insertion ----

#[test]
fn insert_first_char() {
    let mut input = MaskedInput::new("##/##/####");
    // simulate typing '1'
    input.on_key(typed('1'));
    assert_eq!(input.value(), "1");
    assert_eq!(input.cursor(), 1);
}

// ---- Separator skip ----

#[test]
fn two_digits_cursor_skips_separator() {
    let mut input = MaskedInput::new("##/##/####");
    input.on_key(typed('1'));
    input.on_key(typed('2'));
    // raw_value should be "12", cursor_raw=2 (not onto '/' separator in display)
    assert_eq!(input.value(), "12");
    assert_eq!(input.cursor(), 2);
    // display cursor should be at col 3 (after '/')
    assert_eq!(input.raw_pos_to_display_col(input.cursor()), 3);
}

// ---- Rejection ----

#[test]
fn letter_rejected_in_digit_slot() {
    let mut input = MaskedInput::new("##/##/####");
    input.on_key(typed('a'));
    assert_eq!(input.value(), "");
    assert_eq!(input.cursor(), 0);
}

// ---- Backspace ----

#[test]
fn backspace_removes_last_char() {
    let mut input = MaskedInput::new("##/##/####");
    // Set raw_value = "123", cursor=3
    input.set_value("123");
    input.set_cursor(3);

    input.on_action("delete_back");
    assert_eq!(input.value(), "12");
    assert_eq!(input.cursor(), 2);
}

// ---- Arrow right skips separator ----

#[test]
fn cursor_right_in_raw_space() {
    let mut input = MaskedInput::new("##/##/####");
    input.set_value("12");
    input.set_cursor(1);
    input.on_action("cursor_right");
    // raw cursor moves from 1 to 2 — display col 3 (skipping '/')
    assert_eq!(input.cursor(), 2);
    assert_eq!(input.raw_pos_to_display_col(2), 3);
}

// ---- value() returns raw chars only ----

#[test]
fn value_returns_raw_chars_only() {
    let mut input = MaskedInput::new("##/##/####");
    input.set_value("12312024");
    assert_eq!(input.value(), "12312024");
}

// ---- build_display ----

#[test]
fn build_display_partial() {
    let mut input = MaskedInput::new("##/##/####");
    input.set_value("1231");
    let display = input.build_display();
    assert_eq!(display, "12/31/____");
}

// ---- raw_pos_to_display_col ----

#[test]
fn raw_pos_to_display_col_mappings() {
    let input = MaskedInput::new("##/##/####");
    // Raw pos 0 -> display col 0
    assert_eq!(input.raw_pos_to_display_col(0), 0);
    // Raw pos 1 -> display col 1
    assert_eq!(input.raw_pos_to_display_col(1), 1);
    // Raw pos 2 -> display col 3 (after '/' at display col 2)
    assert_eq!(input.raw_pos_to_display_col(2), 3);
    // Raw pos 4 -> display col 6 (after second '/' at display col 5)
    assert_eq!(input.raw_pos_to_display_col(4), 6);
}

// ---- Case conversion ----

#[test]
fn uppercase_modifier_converts_letter() {
    // ">AA" -> two uppercase letter slots
    let mut input = MaskedInput::new(">AA");
    input.on_key(typed('a'));
    assert_eq!(input.value(), "A");
}

#[test]
fn lowercase_modifier_converts_letter() {
    // "<AA" -> two lowercase letter slots
    let mut input = MaskedInput::new("<AA");
    input.on_key(KeyPress { key: Key::Char('A'), modifiers: Modifiers::shift_only() });
    assert_eq!(input.value(), "a");
}

// ---- Full mask completion ----

#[test]
fn full_mask_completion() {
    let mut input = MaskedInput::new("##/##/####");
    for ch in ['1', '2', '3', '1', '2', '0', '2', '4'] {
        input.on_key(typed(ch));
    }
    assert_eq!(input.value(), "12312024");
    assert_eq!(input.cursor(), 8);
}

// ---- Cursor home / end ----

#[test]
fn cursor_home_and_end() {
    let mut input = MaskedInput::new("##/##/####");
    input.set_value("1234");
    input.set_cursor(4);
    input.on_action("cursor_home");
    assert_eq!(input.cursor(), 0);
    input.on_action("cursor_end");
    assert_eq!(input.cursor(), 4);
}

// ---- build_display with empty ----

#[test]
fn build_display_empty() {
    let input = MaskedInput::new("##/##/####");
    let display = input.build_display();
    assert_eq!(display, "__/__/____");
}

// ---- Further behaviour ----

#[test]
fn typing_past_the_last_slot_is_ignored_but_stops_the_event() {
    let mut input = MaskedInput::new("##");
    input.on_key(typed('1'));
    input.on_key(typed('2'));
    let (prop, changed) = input.on_key(typed('3'));
    assert_eq!(prop, EventPropagation::Stop);
    assert!(changed.is_none());
    assert_eq!(input.value(), "12");
}

#[test]
fn control_modified_char_continues() {
    let mut input = MaskedInput::new("##");
    let mods = Modifiers { shift: false, control: true, alt: false, other: false };
    let (prop, changed) = input.on_key(KeyPress { key: Key::Char('1'), modifiers: mods });
    assert_eq!(prop, EventPropagation::Continue);
    assert!(changed.is_none());
    assert_eq!(input.value(), "");
    let (prop, _) = input.on_key(KeyPress { key: Key::Left, modifiers: Modifiers::none() });
    assert_eq!(prop, EventPropagation::Continue);
}

#[test]
fn accepted_key_reports_changed_value() {
    let mut input = MaskedInput::new("AA-##");
    let (prop, changed) = input.on_key(typed('x'));
    assert_eq!(prop, EventPropagation::Stop);
    assert_eq!(changed.unwrap().value, "x");
}

#[test]
fn slot_kinds_accept_their_classes() {
    let input = MaskedInput::new("#AaNX");
    assert_eq!(input.accepts_char(0, '7'), Some('7'));
    assert_eq!(input.accepts_char(0, 'x'), None);
    assert_eq!(input.accepts_char(1, 'q'), Some('q'));
    assert_eq!(input.accepts_char(1, ' '), None);
    assert_eq!(input.accepts_char(2, ' '), Some(' '));
    assert_eq!(input.accepts_char(3, '9'), Some('9'));
    assert_eq!(input.accepts_char(3, ' '), None);
    assert_eq!(input.accepts_char(4, ' '), Some(' '));
    assert_eq!(input.accepts_char(4, '-'), None);
    assert_eq!(input.accepts_char(5, '1'), None);
}

#[test]
fn case_directive_applies_to_later_slots_only() {
    let input = MaskedInput::new("A>A<A");
    assert_eq!(input.accepts_char(0, 'b'), Some('b'));
    assert_eq!(input.accepts_char(1, 'b'), Some('B'));
    assert_eq!(input.accepts_char(2, 'B'), Some('b'));
    assert_eq!(input.build_display(), "___");
}

#[test]
fn backspace_then_retype_restores_state() {
    let mut input = MaskedInput::new("##/##");
    input.on_key(typed('4'));
    input.on_key(typed('2'));
    let before = (input.value(), input.cursor());
    input.on_key(typed('7'));
    let msg = input.on_action("delete_back");
    assert_eq!(msg, Some(MaskedInputMessage::Changed(textual_rs::widget::masked_input::Changed { value: "42".to_string() })));
    assert_eq!((input.value(), input.cursor()), before);
}

#[test]
fn backspace_at_start_does_nothing() {
    let mut input = MaskedInput::new("##");
    assert_eq!(input.on_action("delete_back"), None);
    assert_eq!(input.value(), "");
}

#[test]
fn submit_reports_value() {
    let mut input = MaskedInput::new("##");
    input.on_key(typed('5'));
    match input.on_action("submit") {
        Some(MaskedInputMessage::Submitted(m)) => assert_eq!(m.value, "5"),
        other => panic!("expected Submitted, got {:?}", other),
    }
    assert_eq!(input.on_action("unknown"), None);
}

#[test]
fn cursor_left_and_right_stay_in_range() {
    let mut input = MaskedInput::new("###");
    input.on_action("cursor_left");
    assert_eq!(input.cursor(), 0);
    input.on_action("cursor_right");
    assert_eq!(input.cursor(), 0);
    input.on_key(typed('1'));
    input.on_action("cursor_left");
    assert_eq!(input.cursor(), 0);
    input.on_action("cursor_right");
    assert_eq!(input.cursor(), 1);
}

#[test]
fn inserting_in_the_middle_shifts_following_chars() {
    let mut input = MaskedInput::new("##-##");
    input.set_value("134");
    input.set_cursor(1);
    input.on_key(typed('2'));
    assert_eq!(input.value(), "1234");
    assert_eq!(input.build_display(), "12-34");
    assert_eq!(input.cursor(), 2);
}

#[test]
fn raw_pos_past_end_and_without_inputs() {
    let input = MaskedInput::new("##/");
    assert_eq!(input.raw_pos_to_display_col(2), 2);
    assert_eq!(input.raw_pos_to_display_col(9), 2);
    let only_seps = MaskedInput::new("--");
    assert_eq!(only_seps.raw_pos_to_display_col(0), 0);
    assert_eq!(only_seps.max_raw_len(), 0);
    let empty = MaskedInput::new("");
    assert_eq!(empty.build_display(), "");
}

#[test]
fn set_value_clamps_cursor() {
    let mut input = MaskedInput::new("####");
    input.set_value("1234");
    input.set_cursor(3);
    input.set_value("1");
    assert_eq!(input.cursor(), 1);
    input.set_cursor(10);
    assert_eq!(input.cursor(), 1);
}

#[test]
fn render_focused_marks_cursor_and_dims_placeholders() {
    let mut input = MaskedInput::new("##/##");
    input.on_key(typed('1'));
    let area = Rect { x: 2, y: 5, width: 10, height: 1 };
    let cells = input.render_cells(area, true);
    assert_eq!(cells.len(), 5);
    assert_eq!(cells[0], PlannedCell { x: 2, y: 5, symbol: '1', style: CellStyle::Plain });
    assert_eq!(cells[1], PlannedCell { x: 3, y: 5, symbol: '_', style: CellStyle::Reversed });
    assert_eq!(cells[2], PlannedCell { x: 4, y: 5, symbol: '/', style: CellStyle::Plain });
    assert_eq!(cells[3].style, CellStyle::Dim);
    let unfocused = input.render_cells(area, false);
    assert_eq!(unfocused[1].style, CellStyle::Dim);
}

#[test]
fn render_cuts_at_width_and_shows_end_cursor() {
    let mut input = MaskedInput::new("##");
    input.set_value("12");
    input.set_cursor(2);
    let cells = input.render_cells(Rect { x: 0, y: 0, width: 5, height: 1 }, true);
    assert_eq!(cells.len(), 3);
    assert_eq!(cells[2], PlannedCell { x: 2, y: 0, symbol: ' ', style: CellStyle::Reversed });
    let narrow = input.render_cells(Rect { x: 0, y: 0, width: 1, height: 1 }, true);
    assert_eq!(narrow.len(), 2);
    assert_eq!(narrow[1], PlannedCell { x: 0, y: 0, symbol: ' ', style: CellStyle::Reversed });
    assert!(input.render_cells(Rect { x: 0, y: 0, width: 0, height: 1 }, true).is_empty());
}

#[test]
fn full_value_refuses_insertion_at_home() {
    let mut input = MaskedInput::new("##");
    input.on_key(typed('1'));
    input.on_key(typed('2'));
    input.on_action("cursor_home");
    let (prop, changed) = input.on_key(typed('3'));
    assert_eq!(prop, EventPropagation::Stop);
    assert!(changed.is_none());
    assert_eq!(input.value(), "12");
    assert_eq!(input.cursor(), 0);
}

#[test]
fn alphanumeric_slots_take_ascii_only() {
    let input = MaskedInput::new("NX");
    assert_eq!(input.accepts_char(0, '7'), Some('7'));
    assert_eq!(input.accepts_char(0, 'q'), Some('q'));
    assert_eq!(input.accepts_char(0, 'é'), None);
    assert_eq!(input.accepts_char(1, 'ß'), None);
    assert_eq!(input.accepts_char(1, ' '), Some(' '));
}
