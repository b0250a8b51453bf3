//! A shell picker for the terminal, as a verified library.
//!
//! A configuration text lists launch targets; [`schema`] reads it into a
//! [`config::Config`], which holds at least one target. A [`menu::Menu`]
//! over the configuration keeps one entry selected and says what each
//! input does, and [`render`] gives the lines that show it. Reading the
//! terminal, drawing on it and starting the chosen shell are left to the
//! program around the library.

pub mod color;
pub mod config;
pub mod decimal;
pub mod document;
pub mod error;
pub mod input;
pub mod menu;
pub mod render;
pub mod schema;
