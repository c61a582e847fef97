//! A terminal picker: lines are listed, filtered by a fuzzy search query, and
//! one is picked with the keyboard or the mouse. This crate holds its logic:
//! editing the query, filtering, moving the cursor through a scrolling viewport,
//! turning events into state changes, and laying out what is drawn.
pub mod cli;
pub mod common;
pub mod input;
pub mod laws;
pub mod layout;
pub mod render;
pub mod scroll;
pub mod search;
pub mod text;
pub mod tux;
