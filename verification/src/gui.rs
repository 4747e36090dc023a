//! The state behind the window's widgets.

pub mod app;
pub mod header_bar;
