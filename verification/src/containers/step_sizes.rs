//! The table of step sizes: adding, deleting and editing step sizes.
use crate::entity_store::{is_first_free_key, wrapping_successor, Index};
use crate::model::{Model, StepSizeOf};
use crate::world::{references_valid, step_size_in_use, World};
use vstd::prelude::*;

verus! {

/// What the user asked for in the table of step sizes.
pub enum StepSizeOperation<M: Model> {
    Noop,
    Create(StepSizeOf<M>),
    Delete(Index<StepSizeOf<M>>),
    SetDuration(Index<StepSizeOf<M>>, M::Duration),
    SetColor(Index<StepSizeOf<M>>, M::Color),
    SetLabel(Index<StepSizeOf<M>>, String),
}

/// The step size that the operation edits exists.
pub open spec fn edits_existing<M: Model>(world: World<M>, operation: StepSizeOperation<M>) -> bool {
    match operation {
        StepSizeOperation::SetDuration(idx, _) => world.spec_step_sizes()@.contains_key(idx@),
        StepSizeOperation::SetColor(idx, _) => world.spec_step_sizes()@.contains_key(idx@),
        StepSizeOperation::SetLabel(idx, _) => world.spec_step_sizes()@.contains_key(idx@),
        _ => true,
    }
}

/// Carries out what the user asked for in the table of step sizes. A step size is deleted
/// only while no integration runs with it: the table offers deletion of no other.
pub fn show<M: Model>(world: &mut World<M>, operation: StepSizeOperation<M>)
    requires
        edits_existing(*old(world), operation),
    ensures
        final(world).spec_canvases() == old(world).spec_canvases(),
        final(world).spec_scenarios() == old(world).spec_scenarios(),
        final(world).spec_integrators() == old(world).spec_integrators(),
        final(world).spec_settings() == old(world).spec_settings(),
        references_valid(*old(world)) ==> references_valid(*final(world)),
        ({
            let before = old(world).spec_step_sizes()@;
            let after = final(world).spec_step_sizes()@;
            let next_before = old(world).spec_step_sizes().spec_next_key();
            let next_after = final(world).spec_step_sizes().spec_next_key();
            match operation {
                StepSizeOperation::Noop => after == before && next_after == next_before,
                StepSizeOperation::Create(step_size) => exists|k: usize|
                    is_first_free_key(k, next_before, before.dom()) && after == before.insert(
                        k,
                        step_size,
                    ) && next_after == wrapping_successor(k),
                StepSizeOperation::Delete(idx) => next_after == next_before && if step_size_in_use(
                    old(world).spec_canvases(),
                    idx@,
                ) {
                    after == before
                } else {
                    after == before.remove(idx@)
                },
                StepSizeOperation::SetDuration(idx, duration) => next_after == next_before && after == before.insert(
                    idx@,
                    StepSizeOf::<M> { duration, ..before[idx@] },
                ),
                StepSizeOperation::SetColor(idx, color) => next_after == next_before && after == before.insert(
                    idx@,
                    StepSizeOf::<M> { color, ..before[idx@] },
                ),
                StepSizeOperation::SetLabel(idx, user_label) => next_after == next_before && after == before.insert(
                    idx@,
                    StepSizeOf::<M> { user_label, ..before[idx@] },
                ),
            }
        }),
{
    match operation {
        StepSizeOperation::Create(step_size) => {
            let _ = world.add_step_size(step_size);
        },
        StepSizeOperation::Delete(idx) => {
            if world.is_deletion_allowed(idx) {
                world.remove_step_size(idx);
            }
        },
        StepSizeOperation::SetDuration(idx, duration) => {
            let step_sizes = world.step_sizes_mut();
            let mut step_size = step_sizes.take(idx).unwrap();
            step_size.duration = duration;
            let _ = step_sizes.replace(idx, step_size);
        },
        StepSizeOperation::SetColor(idx, color) => {
            let step_sizes = world.step_sizes_mut();
            let mut step_size = step_sizes.take(idx).unwrap();
            step_size.color = color;
            let _ = step_sizes.replace(idx, step_size);
        },
        StepSizeOperation::SetLabel(idx, user_label) => {
            let step_sizes = world.step_sizes_mut();
            let mut step_size = step_sizes.take(idx).unwrap();
            step_size.user_label = user_label;
            let _ = step_sizes.replace(idx, step_size);
        },
        StepSizeOperation::Noop => {},
    }
}

} // verus!
