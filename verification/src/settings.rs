//! Display settings: which layers are shown and which stroke draws which quantity.
use vstd::prelude::*;

verus! {

/// Which physical quantity a contribution to a derived value stands for.
#[derive(Clone, Copy, Debug, PartialEq, Eq, Structural)]
pub enum PhysicalQuantityKind {
    Position,
    Velocity,
    Acceleration,
}

/// Which of the optional canvas layers are drawn.
#[derive(Clone, Copy, Debug, PartialEq, Eq, Structural)]
pub struct LayerFlags {
    pub coordinates: bool,
    pub acceleration_field: bool,
    pub inspector: bool,
}

impl Default for LayerFlags {
    /// Coordinates and inspector on, acceleration field off.
    fn default() -> (flags: Self)
        ensures
            flags.coordinates,
            !flags.acceleration_field,
            flags.inspector,
    {
        LayerFlags { coordinates: true, acceleration_field: false, inspector: true }
    }
}

/// The shape with which a sample position is marked.
#[derive(Clone, Copy, Debug, PartialEq, Eq, Structural)]
pub enum PointShape {
    Dot,
    CrossHair,
}

/// The strokes of the canvas, one per kind of line; `S` is the stroke of the drawing toolkit.
#[derive(Debug)]
pub struct Strokes<S> {
    pub trajectory: S,
    pub acceleration: S,
    pub coordinates: S,
    pub focussed_velocity: S,
    pub focussed_acceleration: S,
    /// to be used for velocities that are the basis for a derived velocity
    pub start_velocity: S,
    /// to be used for velocities that contribute to a derived position
    pub contributing_velocity: S,
    /// to be used for accelerations that contribute to a derived position or velocity
    pub contributing_acceleration: S,
    pub derived_velocity: S,
    pub reference_velocity: S,
}

impl<S: Copy> Strokes<S> {
    /// The stroke for a contributing velocity or acceleration.
    ///
    /// A position does not contribute as a vector, so it has no such stroke.
    pub fn for_contribution(&self, kind: PhysicalQuantityKind) -> (stroke: S)
        requires
            kind != PhysicalQuantityKind::Position,
        ensures
            kind == PhysicalQuantityKind::Velocity ==> stroke == self.contributing_velocity,
            kind == PhysicalQuantityKind::Acceleration ==> stroke == self.contributing_acceleration,
    {
        match kind {
            PhysicalQuantityKind::Velocity => self.contributing_velocity,
            _ => self.contributing_acceleration,
        }
    }
}

/// A step size that integrations can share: a label, the duration of one step (`D`) and the
/// color (`C`) with which its samples are drawn.
pub struct StepSize<D, C> {
    pub user_label: String,
    pub duration: D,
    pub color: C,
}

} // verus!
