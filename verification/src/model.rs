//! The types with which an application fills the model.
use crate::settings::StepSize;
use vstd::prelude::*;

verus! {

/// The payload types of a world. The model only stores and moves these values; what they
/// contain (numbers, colors, drawing state) is the business of the application.
pub trait Model {
    /// A scenario: an acceleration field with start conditions and a duration.
    type Scenario;
    /// A configured integrator: an integration method with the stroke that draws it.
    type Integrator;
    /// The duration of one integration step.
    type Duration: Copy;
    /// The color with which the samples of a step size are drawn.
    type Color;
    /// The samples computed by one integration.
    type Computed;
    /// The exact trajectory of the scenario shown on a canvas.
    type Trajectory;
    /// How a canvas maps user coordinates to the screen.
    type View;
    /// Display settings of the world.
    type Settings;
}

/// The step sizes of a world of `M`.
pub type StepSizeOf<M> = StepSize<<M as Model>::Duration, <M as Model>::Color>;

} // verus!
