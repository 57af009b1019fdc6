//! How the controls of the user interface change the world.
pub mod grid;
pub mod view;
pub mod step_sizes;
