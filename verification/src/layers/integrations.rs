//! The integrations layer: before the integrations of a canvas are brought up to date and
//! drawn, a new scenario makes them start from scratch.
use crate::entities::canvas::Canvas;
use crate::model::Model;
use vstd::prelude::*;

verus! {

/// Takes the canvas's "scenario is new" flag and, when it was set, resets every
/// integration, so that the next update computes it for the new scenario. Returns whether
/// the scenario was new, which is when the visible area must be fitted to it again.
pub fn render<M: Model>(canvas: &mut Canvas<M>) -> (scenario_is_new: bool)
    ensures
        scenario_is_new == old(canvas).spec_scenario_is_new(),
        !final(canvas).spec_scenario_is_new(),
        final(canvas).spec_scenario_idx() == old(canvas).spec_scenario_idx(),
        final(canvas).spec_view() == old(canvas).spec_view(),
        final(canvas).spec_trajectory_buffer() == old(canvas).spec_trajectory_buffer(),
        final(canvas).spec_window_is_open() == old(canvas).spec_window_is_open(),
        final(canvas).spec_integrations().len() == old(canvas).spec_integrations().len(),
        forall|j: int|
            0 <= j < old(canvas).spec_integrations().len() ==> {
                let after = #[trigger] final(canvas).spec_integrations()[j];
                let before = old(canvas).spec_integrations()[j];
                &&& after.spec_integrator_idx() == before.spec_integrator_idx()
                &&& after.spec_step_size_idx() == before.spec_step_size_idx()
                &&& after.focus() == before.focus()
                &&& if scenario_is_new {
                    after.spec_computed() is None
                } else {
                    after.spec_computed() == before.spec_computed()
                }
            },
{
    let scenario_is_new = canvas.scenario_is_new_once();
    if scenario_is_new {
        let count = canvas.integrations().len();
        let mut j: usize = 0;
        while j < count
            invariant
                j <= count == canvas.spec_integrations().len(),
                count == old(canvas).spec_integrations().len(),
                !canvas.spec_scenario_is_new(),
                canvas.spec_scenario_idx() == old(canvas).spec_scenario_idx(),
                canvas.spec_view() == old(canvas).spec_view(),
                canvas.spec_trajectory_buffer() == old(canvas).spec_trajectory_buffer(),
                canvas.spec_window_is_open() == old(canvas).spec_window_is_open(),
                forall|k: int|
                    0 <= k < count ==> {
                        let after = #[trigger] canvas.spec_integrations()[k];
                        let before = old(canvas).spec_integrations()[k];
                        &&& after.spec_integrator_idx() == before.spec_integrator_idx()
                        &&& after.spec_step_size_idx() == before.spec_step_size_idx()
                        &&& after.focus() == before.focus()
                        &&& k < j ==> after.spec_computed() is None
                        &&& k >= j ==> after.spec_computed() == before.spec_computed()
                    },
            decreases count - j,
        {
            canvas.integration_at_mut(j).reset();
            j = j + 1;
        }
    }
    scenario_is_new
}

} // verus!
