# textual_rs (verified core)

The logic of a terminal user-interface toolkit, written in Verus and proved
against its contracts, with a thin layer of ordinary Rust around it.

## Layout

- `src/` — the verified library
  - `css/types.rs` — CSS value types, pseudo-class sets, computed styles and
    the declaration cascade (`apply_declarations`), generic over the numeric
    type used for sizes.
  - `css/cascade.rs` — what a list of declarations writes, field by field:
    the last write of each field wins, and applying a list twice is
    applying it once.
  - `css/theme.rs` — the dark palette and the meaning of theme variable
    names (user variables, slots, shade suffixes).
  - `widget/masked_input.rs` — mask parsing, character acceptance, the
    display string, cursor mapping, key and action handling, render plan.
  - `widget/tabs.rs` — tab navigation, the tab bar's cells, the tabbed
    container's layout.
  - `widget/scroll_region.rs` — scroll actions and the viewport layout.
  - `widget/loading_indicator.rs`, `widget/screen.rs` — spinner placement,
    modal screen composition.
  - `widget_impl.rs` — key-combo parsing and the plan of the
    `#[widget_impl]` transform.
  - `hyperlink.rs` — OSC 8 sequences and the layout of linked lines.
  - `terminal.rs` — the mouse-capture stack.
  - `keys.rs`, `geometry.rs`, `text.rs` — shared plain types and helpers.
- `app/` — ratatui/crossterm/syn glue: event conversion, writing render
  plans into buffers, the terminal guard, the token-level transform, and
  the floating-point shade computation of themes.
- `tests/` — the test suite, run against the compiled library.

Widgets do not touch the terminal: each returns a plan (cells to write, a
layout, a message to post) that `app/` carries out.
