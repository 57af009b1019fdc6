//! The things that the user edits: integrations and the canvases that show them.
pub mod canvas;
pub mod integration;
