//! The model behind an interactive viewer that compares numerical integrators of
//! second-order motion: stores of scenarios, integrators and step sizes, the canvases that
//! show them, and the rules by which the user interface changes them.
use vstd::prelude::*;

pub mod containers;
pub mod entities;
pub mod entity_store;
pub mod layers;
pub mod model;
pub mod settings;
pub mod view;
pub mod world;

