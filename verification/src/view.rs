//! What the entity-based front end stores for each integration it shows.
use vstd::prelude::*;

verus! {

/// The components of one shown integration: which scenario (`S`) is integrated by which
/// integrator (`I`) with which parameters (`P`), its view state, and the canvas (`C`) that
/// shows it.
pub struct IntegrationViewBundle<S, I, P, C> {
    pub scenario_id: S,
    pub integrator_id: I,
    pub parameters: P,
    pub ui_state: IntegrationViewState,
    pub canvas_id: C,
}

/// Per-integration view state of the entity-based front end; it carries no data yet.
#[derive(Clone, Copy, Debug, PartialEq, Eq, Structural)]
pub struct IntegrationViewState {
    _dummy: u8,
}

impl IntegrationViewState {
    /// The state holds its initial value.
    pub closed spec fn is_initial(&self) -> bool {
        self._dummy == 0
    }
}

impl Default for IntegrationViewState {
    fn default() -> (state: Self)
        ensures
            state.is_initial(),
    {
        IntegrationViewState { _dummy: 0 }
    }
}

} // verus!
