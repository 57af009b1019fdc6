//! What the canvas layers draw, computed apart from the drawing itself.
pub mod acceleration_field;
pub mod coordinates;
pub mod integrations;
