//! Verified core of a terminal user-interface toolkit: CSS value types and
//! style cascade, widget state machines (masked input, tabs, scrolling,
//! modal screens, loading spinner), key-combo parsing, hyperlink layout and
//! mouse-capture bookkeeping.
pub mod css;
pub mod geometry;
pub mod hyperlink;
pub mod keys;
pub mod terminal;
pub mod text;
pub mod widget;
pub mod widget_impl;
