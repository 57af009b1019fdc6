//! The header bar of a canvas: the integrations window and its operations.
use crate::entities::integration::Integration;
use crate::entity_store::{is_first_key, Index};
use crate::model::{Model, StepSizeOf};
use crate::world::{references_valid, World};
use vstd::prelude::*;

verus! {

/// What the user asked for in the integrations window of a canvas.
pub enum IntegrationOperation<M: Model> {
    Noop,
    /// Add an integration with the first integrator and the first step size.
    Create,
    Delete { integration_idx: usize },
    SetIntegrator { integration_idx: usize, integrator_idx: Index<M::Integrator> },
    SetStepSize { integration_idx: usize, step_size_idx: Index<StepSizeOf<M>> },
}

/// An integration may be deleted from a canvas while the canvas has more than one: a
/// canvas keeps at least one integration.
pub open spec fn spec_can_delete_integration(integration_count: nat) -> bool {
    integration_count > 1
}

/// Whether the integrations window offers to delete an integration.
pub fn can_delete_integration(integration_count: usize) -> (allowed: bool)
    ensures
        allowed == spec_can_delete_integration(integration_count as nat),
        allowed <==> integration_count >= 2,
{
    integration_count > 1
}

/// The operation can be carried out on the canvas at `canvas_idx` of `world`: the canvas
/// exists, a row it names exists, and there is an integrator and a step size to create with.
pub open spec fn operation_applies<M: Model>(
    world: World<M>,
    canvas_idx: usize,
    operation: IntegrationOperation<M>,
) -> bool {
    canvas_idx < world.spec_canvases().len() && {
        let len = world.spec_canvases()[canvas_idx as int].spec_integrations().len();
        match operation {
            IntegrationOperation::Noop => true,
            IntegrationOperation::Create => world.spec_integrators()@.dom() != Set::<usize>::empty()
                && world.spec_step_sizes()@.dom() != Set::<usize>::empty(),
            IntegrationOperation::Delete { integration_idx } => integration_idx < len,
            IntegrationOperation::SetIntegrator { integration_idx, .. } => integration_idx < len,
            IntegrationOperation::SetStepSize { integration_idx, .. } => integration_idx < len,
        }
    }
}

/// The integrator or step size that the operation selects exists.
pub open spec fn selects_existing<M: Model>(world: World<M>, operation: IntegrationOperation<M>) -> bool {
    match operation {
        IntegrationOperation::SetIntegrator { integrator_idx, .. } => world.spec_integrators()@.contains_key(integrator_idx@),
        IntegrationOperation::SetStepSize { step_size_idx, .. } => world.spec_step_sizes()@.contains_key(step_size_idx@),
        _ => true,
    }
}

/// Carries out what the user asked for in the integrations window of the canvas at
/// `canvas_idx`. An integration is deleted only where the window offers it, so that a
/// canvas with integrations keeps at least one.
pub fn apply_integration_operation<M: Model>(
    world: &mut World<M>,
    canvas_idx: usize,
    operation: IntegrationOperation<M>,
)
    requires
        operation_applies(*old(world), canvas_idx, operation),
    ensures
        final(world).spec_scenarios() == old(world).spec_scenarios(),
        final(world).spec_integrators() == old(world).spec_integrators(),
        final(world).spec_step_sizes() == old(world).spec_step_sizes(),
        final(world).spec_settings() == old(world).spec_settings(),
        final(world).spec_canvases().len() == old(world).spec_canvases().len(),
        old(world).spec_canvases()[canvas_idx as int].spec_integrations().len() >= 1
            ==> final(world).spec_canvases()[canvas_idx as int].spec_integrations().len() >= 1,
        // deleting is carried out whenever the canvas has at least two integrations
        ({
            let before = old(world).spec_canvases()[canvas_idx as int].spec_integrations();
            let after = final(world).spec_canvases()[canvas_idx as int].spec_integrations();
            match operation {
                IntegrationOperation::Delete { integration_idx } => if before.len() >= 2 {
                    after == before.remove(integration_idx as int)
                } else {
                    after == before
                },
                _ => true,
            }
        }),
        references_valid(*old(world)) && selects_existing(*old(world), operation)
            ==> references_valid(*final(world)),
        forall|c: int|
            0 <= c < old(world).spec_canvases().len() && c != canvas_idx
                ==> #[trigger] final(world).spec_canvases()[c] == old(world).spec_canvases()[c],
        ({
            let before = old(world).spec_canvases()[canvas_idx as int];
            let after = final(world).spec_canvases()[canvas_idx as int];
            &&& after.spec_scenario_idx() == before.spec_scenario_idx()
            &&& after.spec_scenario_is_new() == before.spec_scenario_is_new()
            &&& after.spec_view() == before.spec_view()
            &&& after.spec_trajectory_buffer() == before.spec_trajectory_buffer()
            &&& after.spec_window_is_open() == before.spec_window_is_open()
            &&& match operation {
                IntegrationOperation::Noop => after.spec_integrations()
                    == before.spec_integrations(),
                IntegrationOperation::Create => {
                    let added = after.spec_integrations().last();
                    &&& after.spec_integrations().drop_last() == before.spec_integrations()
                    &&& after.spec_integrations().len() == before.spec_integrations().len() + 1
                    &&& is_first_key(
                        added.spec_integrator_idx()@,
                        old(world).spec_integrators()@.dom(),
                    )
                    &&& is_first_key(
                        added.spec_step_size_idx()@,
                        old(world).spec_step_sizes()@.dom(),
                    )
                    &&& added.spec_computed() is None
                    &&& added.focus() is None
                },
                IntegrationOperation::Delete { integration_idx } => if spec_can_delete_integration(
                    before.spec_integrations().len(),
                ) {
                    after.spec_integrations() == before.spec_integrations().remove(
                        integration_idx as int,
                    )
                } else {
                    after.spec_integrations() == before.spec_integrations()
                },
                IntegrationOperation::SetIntegrator { integration_idx, integrator_idx } => {
                    let i = integration_idx as int;
                    let changed = after.spec_integrations()[i];
                    let was = before.spec_integrations()[i];
                    &&& after.spec_integrations().len() == before.spec_integrations().len()
                    &&& forall|k: int|
                        0 <= k < before.spec_integrations().len() && k != i
                            ==> #[trigger] after.spec_integrations()[k]
                            == before.spec_integrations()[k]
                    &&& changed.spec_integrator_idx() == integrator_idx
                    &&& changed.spec_step_size_idx() == was.spec_step_size_idx()
                    &&& changed.spec_computed() is None
                    &&& changed.focus() == was.focus()
                },
                IntegrationOperation::SetStepSize { integration_idx, step_size_idx } => {
                    let i = integration_idx as int;
                    let changed = after.spec_integrations()[i];
                    let was = before.spec_integrations()[i];
                    &&& after.spec_integrations().len() == before.spec_integrations().len()
                    &&& forall|k: int|
                        0 <= k < before.spec_integrations().len() && k != i
                            ==> #[trigger] after.spec_integrations()[k]
                            == before.spec_integrations()[k]
                    &&& changed.spec_step_size_idx() == step_size_idx
                    &&& changed.spec_integrator_idx() == was.spec_integrator_idx()
                    &&& changed.spec_computed() is None
                    &&& changed.focus() == was.focus()
                },
            }
        }),
{
    match operation {
        IntegrationOperation::Create => {
            let integrator = world.integrators().first_index().unwrap();
            let step_size = world.step_sizes().first_index().unwrap();
            let canvas = world.canvas_at_mut(canvas_idx);
            canvas.add_integration(Integration::new(integrator, step_size));
        },
        IntegrationOperation::Delete { integration_idx } => {
            let canvas = world.canvas_at_mut(canvas_idx);
            if can_delete_integration(canvas.integrations().len()) {
                canvas.remove_integration(integration_idx);
            }
        },
        IntegrationOperation::SetIntegrator { integration_idx, integrator_idx } => {
            let canvas = world.canvas_at_mut(canvas_idx);
            canvas.integration_at_mut(integration_idx).set_integrator(integrator_idx);
        },
        IntegrationOperation::SetStepSize { integration_idx, step_size_idx } => {
            let canvas = world.canvas_at_mut(canvas_idx);
            canvas.integration_at_mut(integration_idx).set_step_size(step_size_idx);
        },
        IntegrationOperation::Noop => {},
    }
}

/// An integration can be deleted exactly while its canvas has at least two, so a canvas
/// never loses its last integration and always loses one when it has two or more.
pub proof fn law_delete_offered_with_two_or_more(integration_count: nat)
    ensures
        spec_can_delete_integration(integration_count) <==> integration_count >= 2,
        spec_can_delete_integration(integration_count) ==> integration_count - 1 >= 1,
{
}

} // verus!
