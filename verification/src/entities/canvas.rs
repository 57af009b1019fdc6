//! A canvas: a scenario with the integrations of it that are drawn together.
use crate::entities::integration::Integration;
use crate::entity_store::Index;
use crate::model::Model;
use vstd::prelude::*;

verus! {

/// A canvas shows one scenario, its exact trajectory, and integrations of it.
pub struct Canvas<M: Model> {
    scenario: Index<M::Scenario>,
    scenario_is_new: bool,
    integrations: Vec<Integration<M>>,
    /// How user coordinates map to the screen.
    view: M::View,
    /// The exact trajectory of the scenario, once computed; dropped when the scenario changes.
    trajectory_buffer: Option<M::Trajectory>,
    ui_integrations_window_is_open: bool,
}

impl<M: Model> Canvas<M> {
    /// The scenario shown.
    pub closed spec fn spec_scenario_idx(&self) -> Index<M::Scenario> {
        self.scenario
    }

    /// Whether the scenario was set and nobody has asked about it since.
    pub closed spec fn spec_scenario_is_new(&self) -> bool {
        self.scenario_is_new
    }

    /// The integrations drawn on the canvas, in the order they were added.
    pub closed spec fn spec_integrations(&self) -> Seq<Integration<M>> {
        self.integrations@
    }

    /// How user coordinates map to the screen.
    pub closed spec fn spec_view(&self) -> M::View {
        self.view
    }

    /// The exact trajectory, once computed.
    pub closed spec fn spec_trajectory_buffer(&self) -> Option<M::Trajectory> {
        self.trajectory_buffer
    }

    /// Whether the integrations window of the canvas is open.
    pub closed spec fn spec_window_is_open(&self) -> bool {
        self.ui_integrations_window_is_open
    }

    /// A canvas that shows `scenario_idx` with no integrations, through `view`.
    pub fn new(scenario_idx: Index<M::Scenario>, view: M::View) -> (canvas: Self)
        ensures
            canvas.spec_scenario_idx() == scenario_idx,
            canvas.spec_scenario_is_new(),
            canvas.spec_integrations() == Seq::<Integration<M>>::empty(),
            canvas.spec_view() == view,
            canvas.spec_trajectory_buffer() is None,
            !canvas.spec_window_is_open(),
    {
        Canvas {
            scenario: scenario_idx,
            scenario_is_new: true,
            integrations: Vec::new(),
            view,
            trajectory_buffer: None,
            ui_integrations_window_is_open: false,
        }
    }

    pub fn scenario_idx(&self) -> (idx: Index<M::Scenario>)
        ensures
            idx == self.spec_scenario_idx(),
    {
        self.scenario
    }

    /// Shows another scenario; its trajectory is yet to be computed.
    pub fn set_scenario(&mut self, new_scenario: Index<M::Scenario>)
        ensures
            final(self).spec_scenario_idx() == new_scenario,
            final(self).spec_scenario_is_new(),
            final(self).spec_trajectory_buffer() is None,
            final(self).spec_integrations() == old(self).spec_integrations(),
            final(self).spec_view() == old(self).spec_view(),
            final(self).spec_window_is_open() == old(self).spec_window_is_open(),
    {
        self.scenario = new_scenario;
        self.scenario_is_new = true;
        self.trajectory_buffer = None;
    }

    /// The integrations, in the order they were added.
    pub fn integrations(&self) -> (integrations: &[Integration<M>])
        ensures
            integrations@ == self.spec_integrations(),
    {
        self.integrations.as_slice()
    }

    /// Adds an integration after the others.
    pub fn add_integration(&mut self, integration: Integration<M>)
        ensures
            final(self).spec_integrations() == old(self).spec_integrations().push(integration),
            final(self).spec_scenario_idx() == old(self).spec_scenario_idx(),
            final(self).spec_scenario_is_new() == old(self).spec_scenario_is_new(),
            final(self).spec_trajectory_buffer() == old(self).spec_trajectory_buffer(),
            final(self).spec_view() == old(self).spec_view(),
            final(self).spec_window_is_open() == old(self).spec_window_is_open(),
    {
        self.integrations.push(integration);
    }

    /// Removes the integration at position `integration_idx`; the later ones move up.
    pub fn remove_integration(&mut self, integration_idx: usize)
        requires
            integration_idx < old(self).spec_integrations().len(),
        ensures
            final(self).spec_integrations() == old(self).spec_integrations().remove(
                integration_idx as int,
            ),
            final(self).spec_scenario_idx() == old(self).spec_scenario_idx(),
            final(self).spec_scenario_is_new() == old(self).spec_scenario_is_new(),
            final(self).spec_trajectory_buffer() == old(self).spec_trajectory_buffer(),
            final(self).spec_view() == old(self).spec_view(),
            final(self).spec_window_is_open() == old(self).spec_window_is_open(),
    {
        let _ = self.integrations.remove(integration_idx);
    }

    /// The integration at position `integration_idx`.
    pub fn integration_at(&self, integration_idx: usize) -> (integration: &Integration<M>)
        requires
            integration_idx < self.spec_integrations().len(),
        ensures
            *integration == self.spec_integrations()[integration_idx as int],
    {
        &self.integrations[integration_idx]
    }

    /// The integration at position `integration_idx`, for a change.
    pub fn integration_at_mut(&mut self, integration_idx: usize) -> (integration:
        &mut Integration<M>)
        requires
            integration_idx < old(self).spec_integrations().len(),
        ensures
            *integration == old(self).spec_integrations()[integration_idx as int],
            final(self).spec_integrations() == old(self).spec_integrations().update(
                integration_idx as int,
                *final(integration),
            ),
            final(self).spec_scenario_idx() == old(self).spec_scenario_idx(),
            final(self).spec_scenario_is_new() == old(self).spec_scenario_is_new(),
            final(self).spec_trajectory_buffer() == old(self).spec_trajectory_buffer(),
            final(self).spec_view() == old(self).spec_view(),
            final(self).spec_window_is_open() == old(self).spec_window_is_open(),
    {
        &mut self.integrations[integration_idx]
    }

    /// Whether the scenario is new since the last call; a second call returns `false`.
    pub fn scenario_is_new_once(&mut self) -> (was_new: bool)
        ensures
            was_new == old(self).spec_scenario_is_new(),
            !final(self).spec_scenario_is_new(),
            final(self).spec_scenario_idx() == old(self).spec_scenario_idx(),
            final(self).spec_integrations() == old(self).spec_integrations(),
            final(self).spec_trajectory_buffer() == old(self).spec_trajectory_buffer(),
            final(self).spec_view() == old(self).spec_view(),
            final(self).spec_window_is_open() == old(self).spec_window_is_open(),
    {
        let result = self.scenario_is_new;
        self.scenario_is_new = false;
        result
    }

    /// How user coordinates map to the screen.
    pub fn view(&self) -> (view: &M::View)
        ensures
            *view == self.spec_view(),
    {
        &self.view
    }

    /// How user coordinates map to the screen, for a change (panning and zooming).
    pub fn view_mut(&mut self) -> (view: &mut M::View)
        ensures
            *view == old(self).spec_view(),
            final(self).spec_view() == *final(view),
            final(self).spec_scenario_idx() == old(self).spec_scenario_idx(),
            final(self).spec_scenario_is_new() == old(self).spec_scenario_is_new(),
            final(self).spec_integrations() == old(self).spec_integrations(),
            final(self).spec_trajectory_buffer() == old(self).spec_trajectory_buffer(),
            final(self).spec_window_is_open() == old(self).spec_window_is_open(),
    {
        &mut self.view
    }

    /// The exact trajectory, once computed.
    pub fn trajectory_buffer(&self) -> (buffer: &Option<M::Trajectory>)
        ensures
            *buffer == self.spec_trajectory_buffer(),
    {
        &self.trajectory_buffer
    }

    /// The exact trajectory, for a change (computing or extending it).
    pub fn trajectory_buffer_mut(&mut self) -> (buffer: &mut Option<M::Trajectory>)
        ensures
            *buffer == old(self).spec_trajectory_buffer(),
            final(self).spec_trajectory_buffer() == *final(buffer),
            final(self).spec_scenario_idx() == old(self).spec_scenario_idx(),
            final(self).spec_scenario_is_new() == old(self).spec_scenario_is_new(),
            final(self).spec_integrations() == old(self).spec_integrations(),
            final(self).spec_view() == old(self).spec_view(),
            final(self).spec_window_is_open() == old(self).spec_window_is_open(),
    {
        &mut self.trajectory_buffer
    }

    /// Whether the integrations window of the canvas is open.
    pub fn ui_integrations_window_is_open(&self) -> (is_open: bool)
        ensures
            is_open == self.spec_window_is_open(),
    {
        self.ui_integrations_window_is_open
    }

    /// Opens or closes the integrations window of the canvas.
    pub fn set_ui_integrations_window_is_open(&mut self, is_open: bool)
        ensures
            final(self).spec_window_is_open() == is_open,
            final(self).spec_scenario_idx() == old(self).spec_scenario_idx(),
            final(self).spec_scenario_is_new() == old(self).spec_scenario_is_new(),
            final(self).spec_integrations() == old(self).spec_integrations(),
            final(self).spec_view() == old(self).spec_view(),
            final(self).spec_trajectory_buffer() == old(self).spec_trajectory_buffer(),
    {
        self.ui_integrations_window_is_open = is_open;
    }

    /// Whether the exact trajectory has been computed.
    pub fn has_trajectory(&self) -> (has: bool)
        ensures
            has == self.spec_trajectory_buffer() is Some,
    {
        self.trajectory_buffer.is_some()
    }
}

/// After a scenario is set, the first question whether it is new is answered `true` and
/// the next one `false`.
pub proof fn law_new_scenario_reported_once<M: Model>(
    after_set: Canvas<M>,
    after_first: Canvas<M>,
    first_answer: bool,
    second_answer: bool,
)
    requires
        after_set.spec_scenario_is_new(),
        first_answer == after_set.spec_scenario_is_new(),
        !after_first.spec_scenario_is_new(),
        second_answer == after_first.spec_scenario_is_new(),
    ensures
        first_answer,
        !second_answer,
{
}

} // verus!
