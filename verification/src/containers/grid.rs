//! The grid of canvases in the central panel: adding and closing canvases.
use crate::entities::canvas::Canvas;
use crate::entities::integration::Integration;
use crate::entity_store::is_first_key;
use crate::model::Model;
use crate::world::{references_valid, World};
use vstd::prelude::*;

verus! {

/// The most canvases the grid shows.
pub const MAX_CANVASES: usize = 4;

/// What the user asked for in the header bar of a canvas.
pub enum CanvasOperation {
    Noop,
    /// Add a canvas with the integrations of the canvas at position `source_canvas`.
    Create { source_canvas: usize },
    /// Close the canvas at position `canvas`.
    Close { canvas: usize },
}

/// A canvas may be closed while more than one is shown.
pub open spec fn spec_can_close(canvas_count: nat) -> bool {
    canvas_count > 1
}

/// A canvas may be added while fewer than four are shown.
pub open spec fn spec_can_create(canvas_count: nat) -> bool {
    canvas_count < MAX_CANVASES
}

/// Whether the header bars offer to close a canvas.
pub fn can_close(canvas_count: usize) -> (allowed: bool)
    ensures
        allowed == spec_can_close(canvas_count as nat),
        allowed <==> canvas_count >= 2,
{
    canvas_count > 1
}

/// Whether the header bars offer to add a canvas.
pub fn can_create(canvas_count: usize) -> (allowed: bool)
    ensures
        allowed == spec_can_create(canvas_count as nat),
        allowed <==> canvas_count < 4,
{
    canvas_count < MAX_CANVASES
}

/// The canvases named by `operation` exist.
pub open spec fn operation_names_canvases(operation: CanvasOperation, canvas_count: nat) -> bool {
    match operation {
        CanvasOperation::Noop => true,
        CanvasOperation::Create { source_canvas } => source_canvas < canvas_count,
        CanvasOperation::Close { canvas } => canvas < canvas_count,
    }
}

/// `copy` has the integrators and step sizes of `source`, in the same order, with nothing
/// computed and no focus.
pub open spec fn fresh_copies<M: Model>(copy: Seq<Integration<M>>, source: Seq<Integration<M>>) -> bool {
    &&& copy.len() == source.len()
    &&& forall|j: int|
        0 <= j < source.len() ==> {
            &&& (#[trigger] copy[j]).spec_integrator_idx() == source[j].spec_integrator_idx()
            &&& copy[j].spec_step_size_idx() == source[j].spec_step_size_idx()
            &&& copy[j].spec_computed() is None
            &&& copy[j].focus() is None
        }
}

/// Carries out the operation that the header bars returned: a new canvas on the first
/// scenario, with fresh copies of the integrations of the source canvas, drawn through
/// `new_view`; or the removal of a canvas. Each is carried out only where the header bars
/// offer it, and a new canvas only where there is a scenario to show.
pub fn show<M: Model>(world: &mut World<M>, operation: CanvasOperation, new_view: M::View)
    requires
        operation_names_canvases(operation, old(world).spec_canvases().len()),
    ensures
        final(world).spec_scenarios() == old(world).spec_scenarios(),
        final(world).spec_integrators() == old(world).spec_integrators(),
        final(world).spec_step_sizes() == old(world).spec_step_sizes(),
        final(world).spec_settings() == old(world).spec_settings(),
        references_valid(*old(world)) ==> references_valid(*final(world)),
        // the grid keeps showing between one and four canvases, and one call adds or closes
        // at most one
        1 <= old(world).spec_canvases().len() <= MAX_CANVASES ==> 1
            <= final(world).spec_canvases().len() <= MAX_CANVASES,
        old(world).spec_canvases().len() - 1 <= final(world).spec_canvases().len()
            <= old(world).spec_canvases().len() + 1,
        // closing is carried out whenever at least two canvases are shown
        ({
            let before = old(world).spec_canvases();
            let after = final(world).spec_canvases();
            match operation {
                CanvasOperation::Close { canvas } => if before.len() >= 2 {
                    after == before.remove(canvas as int)
                } else {
                    after == before
                },
                _ => true,
            }
        }),
        ({
            let before = old(world).spec_canvases();
            let after = final(world).spec_canvases();
            match operation {
                CanvasOperation::Create { source_canvas } => if spec_can_create(before.len())
                    && old(world).spec_scenarios()@.dom() != Set::<usize>::empty() {
                    let added = after.last();
                    &&& after.drop_last() == before
                    &&& after.len() == before.len() + 1
                    &&& is_first_key(
                        added.spec_scenario_idx()@,
                        old(world).spec_scenarios()@.dom(),
                    )
                    &&& added.spec_scenario_is_new()
                    &&& fresh_copies(
                        added.spec_integrations(),
                        before[source_canvas as int].spec_integrations(),
                    )
                    &&& added.spec_view() == new_view
                    &&& added.spec_trajectory_buffer() is None
                    &&& !added.spec_window_is_open()
                } else {
                    after == before
                },
                CanvasOperation::Close { canvas } => if spec_can_close(before.len()) {
                    after == before.remove(canvas as int)
                } else {
                    after == before
                },
                CanvasOperation::Noop => after == before,
            }
        }),
{
    let canvas_count = world.canvases().len();
    match operation {
        CanvasOperation::Create { source_canvas } => {
            if can_create(canvas_count) {
                if let Some(any_scenario) = world.scenarios().first_index() {
                    let mut new_canvas = Canvas::new(any_scenario, new_view);
                    let source = world.canvases()[source_canvas].integrations();
                    let mut j: usize = 0;
                    while j < source.len()
                        invariant
                            j <= source@.len(),
                            new_canvas.spec_scenario_idx() == any_scenario,
                            new_canvas.spec_scenario_is_new(),
                            new_canvas.spec_view() == new_view,
                            new_canvas.spec_trajectory_buffer() is None,
                            !new_canvas.spec_window_is_open(),
                            fresh_copies(new_canvas.spec_integrations(), source@.subrange(0, j as int)),
                        decreases source@.len() - j,
                    {
                        new_canvas.add_integration(source[j].clone());
                        proof {
                            let copies = new_canvas.spec_integrations();
                            let prefix = source@.subrange(0, j + 1);
                            assert forall|k: int| 0 <= k < prefix.len() implies {
                                &&& (#[trigger] copies[k]).spec_integrator_idx()
                                    == prefix[k].spec_integrator_idx()
                                &&& copies[k].spec_step_size_idx() == prefix[k].spec_step_size_idx()
                                &&& copies[k].spec_computed() is None
                                &&& copies[k].focus() is None
                            } by {
                                if k < j {
                                    assert(prefix[k] == source@.subrange(0, j as int)[k]);
                                }
                            }
                        }
                        j = j + 1;
                    }
                    assert(source@.subrange(0, source@.len() as int) =~= source@);
                    world.add_canvas(new_canvas);
                    proof {
                        let after = world.spec_canvases();
                        assert(after.drop_last() =~= old(world).spec_canvases());
                    }
                }
            }
        },
        CanvasOperation::Close { canvas } => {
            if can_close(canvas_count) {
                world.remove_canvas(canvas);
            }
        },
        CanvasOperation::Noop => {},
    }
}

/// A canvas can be closed exactly while at least two are shown, and one can be added
/// exactly while fewer than four are shown: closing never leaves the grid empty, and adding
/// never makes it hold more than four.
pub proof fn law_close_and_create_offered(canvas_count: nat)
    ensures
        spec_can_close(canvas_count) <==> canvas_count >= 2,
        spec_can_create(canvas_count) <==> canvas_count < 4,
        spec_can_close(canvas_count) ==> canvas_count - 1 >= 1,
        spec_can_create(canvas_count) ==> canvas_count + 1 <= MAX_CANVASES,
{
}

/// Closing canvas `canvas` of a grid that shows at least two canvases removes exactly that
/// canvas: one fewer remains, those before it stay in place, and those after it move up by one.
pub proof fn law_close_removes_the_named_canvas<M: Model>(
    before: Seq<Canvas<M>>,
    after: Seq<Canvas<M>>,
    canvas: int,
)
    requires
        0 <= canvas < before.len(),
        before.len() >= 2,
        spec_can_close(before.len()) ==> after == before.remove(canvas),
    ensures
        after.len() == before.len() - 1,
        forall|i: int| 0 <= i < canvas ==> #[trigger] after[i] == before[i],
        forall|i: int| canvas < i < before.len() ==> #[trigger] before[i] == after[i - 1],
{
}

} // verus!
