//! Everything the user works with: canvases, scenarios, integrators, step sizes, settings.
use crate::entities::canvas::Canvas;
use crate::entities::integration::Integration;
use crate::entity_store::{is_first_free_key, wrapping_successor, Index, List};
use crate::model::{Model, StepSizeOf};
use vstd::prelude::*;

verus! {

/// Some integration on one of `canvases` runs with the step size keyed `step_size_key`.
pub open spec fn step_size_in_use<M: Model>(canvases: Seq<Canvas<M>>, step_size_key: usize) -> bool {
    exists|c: int, j: int|
        0 <= c < canvases.len() && 0 <= j < canvases[c].spec_integrations().len()
            && (#[trigger] canvases[c].spec_integrations()[j]).spec_step_size_idx()@
            == step_size_key
}

/// The integration runs with an integrator and a step size that exist.
pub open spec fn integration_references_valid<M: Model>(
    integration: Integration<M>,
    integrators: Set<usize>,
    step_sizes: Set<usize>,
) -> bool {
    &&& integrators.contains(integration.spec_integrator_idx()@)
    &&& step_sizes.contains(integration.spec_step_size_idx()@)
}

/// The canvas shows a scenario that exists, with integrations whose references are valid.
pub open spec fn canvas_references_valid<M: Model>(
    canvas: Canvas<M>,
    scenarios: Set<usize>,
    integrators: Set<usize>,
    step_sizes: Set<usize>,
) -> bool {
    &&& scenarios.contains(canvas.spec_scenario_idx()@)
    &&& forall|j: int|
        0 <= j < canvas.spec_integrations().len() ==> integration_references_valid(
            #[trigger] canvas.spec_integrations()[j],
            integrators,
            step_sizes,
        )
}

/// Every index held by a canvas or an integration addresses an entry of the world.
pub open spec fn references_valid<M: Model>(world: World<M>) -> bool {
    forall|c: int|
        0 <= c < world.spec_canvases().len() ==> canvas_references_valid(
            #[trigger] world.spec_canvases()[c],
            world.spec_scenarios()@.dom(),
            world.spec_integrators()@.dom(),
            world.spec_step_sizes()@.dom(),
        )
}

/// A step size that some integration on some canvas runs with is in use, and one that no
/// integration runs with is not.
pub proof fn law_step_size_in_use_exactly_when_referenced<M: Model>(
    canvases: Seq<Canvas<M>>,
    step_size_key: usize,
    c: int,
    j: int,
)
    requires
        0 <= c < canvases.len(),
        0 <= j < canvases[c].spec_integrations().len(),
    ensures
        canvases[c].spec_integrations()[j].spec_step_size_idx()@ == step_size_key
            ==> step_size_in_use(canvases, step_size_key),
        (forall|a: int, b: int|
            0 <= a < canvases.len() && 0 <= b < canvases[a].spec_integrations().len()
                ==> (#[trigger] canvases[a].spec_integrations()[b]).spec_step_size_idx()@
                != step_size_key) ==> !step_size_in_use(canvases, step_size_key),
{
    if canvases[c].spec_integrations()[j].spec_step_size_idx()@ == step_size_key {
        assert(canvases[c].spec_integrations()[j] == canvases[c].spec_integrations()[j]);
    }
}

/// The canvases, the stores of scenarios, integrators and step sizes, and the settings.
pub struct World<M: Model> {
    canvases: Vec<Canvas<M>>,
    scenarios: List<M::Scenario>,
    integrators: List<M::Integrator>,
    step_sizes: List<StepSizeOf<M>>,
    settings: M::Settings,
}

impl<M: Model> World<M> {
    /// The canvases, top to bottom.
    pub closed spec fn spec_canvases(&self) -> Seq<Canvas<M>> {
        self.canvases@
    }

    pub closed spec fn spec_scenarios(&self) -> List<M::Scenario> {
        self.scenarios
    }

    pub closed spec fn spec_integrators(&self) -> List<M::Integrator> {
        self.integrators
    }

    pub closed spec fn spec_step_sizes(&self) -> List<StepSizeOf<M>> {
        self.step_sizes
    }

    pub closed spec fn spec_settings(&self) -> M::Settings {
        self.settings
    }

    /// A world with nothing in it but `settings`.
    pub fn new(settings: M::Settings) -> (world: Self)
        ensures
            world.spec_canvases() == Seq::<Canvas<M>>::empty(),
            world.spec_scenarios()@ == Map::<usize, M::Scenario>::empty(),
            world.spec_integrators()@ == Map::<usize, M::Integrator>::empty(),
            world.spec_step_sizes()@ == Map::<usize, StepSizeOf<M>>::empty(),
            world.spec_scenarios().spec_next_key() == 0,
            world.spec_integrators().spec_next_key() == 0,
            world.spec_step_sizes().spec_next_key() == 0,
            world.spec_settings() == settings,
    {
        World {
            canvases: Vec::new(),
            scenarios: List::new(),
            integrators: List::new(),
            step_sizes: List::new(),
            settings,
        }
    }

    /// The display settings.
    pub fn settings(&self) -> (settings: &M::Settings)
        ensures
            *settings == self.spec_settings(),
    {
        &self.settings
    }

    /// The display settings, for a change.
    pub fn settings_mut(&mut self) -> (settings: &mut M::Settings)
        ensures
            *settings == old(self).spec_settings(),
            final(self).spec_settings() == *final(settings),
            final(self).spec_canvases() == old(self).spec_canvases(),
            final(self).spec_scenarios() == old(self).spec_scenarios(),
            final(self).spec_integrators() == old(self).spec_integrators(),
            final(self).spec_step_sizes() == old(self).spec_step_sizes(),
    {
        &mut self.settings
    }

    /// The canvases, top to bottom.
    pub fn canvases(&self) -> (canvases: &[Canvas<M>])
        ensures
            canvases@ == self.spec_canvases(),
    {
        self.canvases.as_slice()
    }

    /// The store of scenarios, for a change.
    pub fn scenarios_mut(&mut self) -> (scenarios: &mut List<M::Scenario>)
        ensures
            *scenarios == old(self).spec_scenarios(),
            final(self).spec_scenarios() == *final(scenarios),
            final(self).spec_canvases() == old(self).spec_canvases(),
            final(self).spec_integrators() == old(self).spec_integrators(),
            final(self).spec_step_sizes() == old(self).spec_step_sizes(),
            final(self).spec_settings() == old(self).spec_settings(),
    {
        &mut self.scenarios
    }

    pub fn scenarios(&self) -> (scenarios: &List<M::Scenario>)
        ensures
            *scenarios == self.spec_scenarios(),
    {
        &self.scenarios
    }

    /// The store of integrators, for a change.
    pub fn integrators_mut(&mut self) -> (integrators: &mut List<M::Integrator>)
        ensures
            *integrators == old(self).spec_integrators(),
            final(self).spec_integrators() == *final(integrators),
            final(self).spec_canvases() == old(self).spec_canvases(),
            final(self).spec_scenarios() == old(self).spec_scenarios(),
            final(self).spec_step_sizes() == old(self).spec_step_sizes(),
            final(self).spec_settings() == old(self).spec_settings(),
    {
        &mut self.integrators
    }

    pub fn integrators(&self) -> (integrators: &List<M::Integrator>)
        ensures
            *integrators == self.spec_integrators(),
    {
        &self.integrators
    }

    /// The store of step sizes, for a change.
    pub fn step_sizes_mut(&mut self) -> (step_sizes: &mut List<StepSizeOf<M>>)
        ensures
            *step_sizes == old(self).spec_step_sizes(),
            final(self).spec_step_sizes() == *final(step_sizes),
            final(self).spec_canvases() == old(self).spec_canvases(),
            final(self).spec_scenarios() == old(self).spec_scenarios(),
            final(self).spec_integrators() == old(self).spec_integrators(),
            final(self).spec_settings() == old(self).spec_settings(),
    {
        &mut self.step_sizes
    }

    pub fn step_sizes(&self) -> (step_sizes: &List<StepSizeOf<M>>)
        ensures
            *step_sizes == self.spec_step_sizes(),
    {
        &self.step_sizes
    }

    /// Adds a canvas below the others and returns it.
    pub fn add_canvas(&mut self, canvas: Canvas<M>) -> (added: &Canvas<M>)
        ensures
            final(self).spec_canvases() == old(self).spec_canvases().push(canvas),
            *added == canvas,
            final(self).spec_scenarios() == old(self).spec_scenarios(),
            final(self).spec_integrators() == old(self).spec_integrators(),
            final(self).spec_step_sizes() == old(self).spec_step_sizes(),
            final(self).spec_settings() == old(self).spec_settings(),
    {
        self.canvases.push(canvas);
        let last = self.canvases.len() - 1;
        &self.canvases[last]
    }

    /// The canvas at position `canvas_idx`, for a change.
    pub fn canvas_at_mut(&mut self, canvas_idx: usize) -> (canvas: &mut Canvas<M>)
        requires
            canvas_idx < old(self).spec_canvases().len(),
        ensures
            *canvas == old(self).spec_canvases()[canvas_idx as int],
            final(self).spec_canvases() == old(self).spec_canvases().update(
                canvas_idx as int,
                *final(canvas),
            ),
            final(self).spec_scenarios() == old(self).spec_scenarios(),
            final(self).spec_integrators() == old(self).spec_integrators(),
            final(self).spec_step_sizes() == old(self).spec_step_sizes(),
            final(self).spec_settings() == old(self).spec_settings(),
    {
        &mut self.canvases[canvas_idx]
    }

    /// Puts `canvas` at position `canvas_idx` and hands out the canvas that was there.
    pub fn replace_canvas(&mut self, canvas_idx: usize, canvas: Canvas<M>) -> (previous: Canvas<M>)
        requires
            canvas_idx < old(self).spec_canvases().len(),
        ensures
            previous == old(self).spec_canvases()[canvas_idx as int],
            final(self).spec_canvases() == old(self).spec_canvases().update(canvas_idx as int, canvas),
            final(self).spec_scenarios() == old(self).spec_scenarios(),
            final(self).spec_integrators() == old(self).spec_integrators(),
            final(self).spec_step_sizes() == old(self).spec_step_sizes(),
            final(self).spec_settings() == old(self).spec_settings(),
    {
        let mut canvas = canvas;
        std::mem::swap(&mut self.canvases[canvas_idx], &mut canvas);
        canvas
    }

    pub fn add_scenario(&mut self, scenario: M::Scenario) -> (idx: Index<M::Scenario>)
        ensures
            is_first_free_key(
                idx@,
                old(self).spec_scenarios().spec_next_key(),
                old(self).spec_scenarios()@.dom(),
            ),
            !old(self).spec_scenarios()@.contains_key(idx@),
            final(self).spec_scenarios().spec_next_key() == wrapping_successor(idx@),
            final(self).spec_scenarios()@ == old(self).spec_scenarios()@.insert(idx@, scenario),
            final(self).spec_canvases() == old(self).spec_canvases(),
            final(self).spec_integrators() == old(self).spec_integrators(),
            final(self).spec_step_sizes() == old(self).spec_step_sizes(),
            final(self).spec_settings() == old(self).spec_settings(),
    {
        self.scenarios.push(scenario)
    }

    pub fn add_step_size(&mut self, step_size: StepSizeOf<M>) -> (idx: Index<StepSizeOf<M>>)
        ensures
            is_first_free_key(
                idx@,
                old(self).spec_step_sizes().spec_next_key(),
                old(self).spec_step_sizes()@.dom(),
            ),
            !old(self).spec_step_sizes()@.contains_key(idx@),
            final(self).spec_step_sizes().spec_next_key() == wrapping_successor(idx@),
            final(self).spec_step_sizes()@ == old(self).spec_step_sizes()@.insert(idx@, step_size),
            final(self).spec_canvases() == old(self).spec_canvases(),
            final(self).spec_scenarios() == old(self).spec_scenarios(),
            final(self).spec_integrators() == old(self).spec_integrators(),
            final(self).spec_settings() == old(self).spec_settings(),
    {
        self.step_sizes.push(step_size)
    }

    pub fn add_integrator(&mut self, integrator: M::Integrator) -> (idx: Index<M::Integrator>)
        ensures
            is_first_free_key(
                idx@,
                old(self).spec_integrators().spec_next_key(),
                old(self).spec_integrators()@.dom(),
            ),
            !old(self).spec_integrators()@.contains_key(idx@),
            final(self).spec_integrators().spec_next_key() == wrapping_successor(idx@),
            final(self).spec_integrators()@ == old(self).spec_integrators()@.insert(
                idx@,
                integrator,
            ),
            final(self).spec_canvases() == old(self).spec_canvases(),
            final(self).spec_scenarios() == old(self).spec_scenarios(),
            final(self).spec_step_sizes() == old(self).spec_step_sizes(),
            final(self).spec_settings() == old(self).spec_settings(),
    {
        self.integrators.push(integrator)
    }

    /// Removes the canvas at position `canvas_idx`; the canvases below it move up.
    pub fn remove_canvas(&mut self, canvas_idx: usize)
        requires
            canvas_idx < old(self).spec_canvases().len(),
        ensures
            final(self).spec_canvases() == old(self).spec_canvases().remove(canvas_idx as int),
            final(self).spec_scenarios() == old(self).spec_scenarios(),
            final(self).spec_integrators() == old(self).spec_integrators(),
            final(self).spec_step_sizes() == old(self).spec_step_sizes(),
            final(self).spec_settings() == old(self).spec_settings(),
    {
        let _ = self.canvases.remove(canvas_idx);
    }

    /// Removes the step size of `step_size`.
    pub fn remove_step_size(&mut self, step_size: Index<StepSizeOf<M>>)
        ensures
            final(self).spec_step_sizes()@ == old(self).spec_step_sizes()@.remove(step_size@),
            final(self).spec_step_sizes().spec_next_key() == old(self).spec_step_sizes().spec_next_key(),
            final(self).spec_canvases() == old(self).spec_canvases(),
            final(self).spec_scenarios() == old(self).spec_scenarios(),
            final(self).spec_integrators() == old(self).spec_integrators(),
            final(self).spec_settings() == old(self).spec_settings(),
    {
        self.step_sizes.delete(step_size);
    }

    /// The configured integrator of `idx`.
    pub fn integrator(&self, idx: Index<M::Integrator>) -> (integrator: &M::Integrator)
        requires
            self.spec_integrators()@.contains_key(idx@),
        ensures
            *integrator == self.spec_integrators()@[idx@],
    {
        self.integrators.index(idx)
    }

    /// The scenario of `idx`.
    pub fn scenario(&self, idx: Index<M::Scenario>) -> (scenario: &M::Scenario)
        requires
            self.spec_scenarios()@.contains_key(idx@),
        ensures
            *scenario == self.spec_scenarios()@[idx@],
    {
        self.scenarios.index(idx)
    }

    /// The step size of `idx`.
    pub fn step_size(&self, idx: Index<StepSizeOf<M>>) -> (step_size: &StepSizeOf<M>)
        requires
            self.spec_step_sizes()@.contains_key(idx@),
        ensures
            *step_size == self.spec_step_sizes()@[idx@],
    {
        self.step_sizes.index(idx)
    }

    /// A step size may be deleted only while no integration on any canvas runs with it.
    pub fn is_deletion_allowed(&self, step_size: Index<StepSizeOf<M>>) -> (allowed: bool)
        ensures
            allowed == !step_size_in_use(self.spec_canvases(), step_size@),
    {
        let mut c: usize = 0;
        while c < self.canvases.len()
            invariant
                c <= self.canvases@.len(),
                !step_size_in_use(self.canvases@.subrange(0, c as int), step_size@),
            decreases self.canvases@.len() - c,
        {
            let integrations = self.canvases[c].integrations();
            let mut j: usize = 0;
            while j < integrations.len()
                invariant
                    c < self.canvases@.len(),
                    j <= integrations@.len(),
                    integrations@ == self.canvases@[c as int].spec_integrations(),
                    !step_size_in_use(self.canvases@.subrange(0, c as int), step_size@),
                    forall|k: int|
                        0 <= k < j ==> (#[trigger] integrations@[k]).spec_step_size_idx()@
                            != step_size@,
                decreases integrations@.len() - j,
            {
                if integrations[j].step_size_idx() == step_size {
                    proof {
                        let canvases = self.canvases@;
                        assert(canvases[c as int].spec_integrations()[j as int]
                            == integrations@[j as int]);
                    }
                    return false;
                }
                j = j + 1;
            }
            proof {
                let before = self.canvases@.subrange(0, c as int);
                let after = self.canvases@.subrange(0, c + 1);
                assert forall|a: int, b: int|
                    0 <= a < after.len() && 0 <= b < after[a].spec_integrations().len() implies (
                    #[trigger] after[a].spec_integrations()[b]).spec_step_size_idx()@
                    != step_size@ by {
                    if a < c {
                        assert(after[a] == before[a]);
                    } else {
                        assert(after[a] == self.canvases@[c as int]);
                        assert(integrations@[b] == after[a].spec_integrations()[b]);
                    }
                }
            }
            c = c + 1;
        }
        assert(self.canvases@.subrange(0, self.canvases@.len() as int) =~= self.canvases@);
        true
    }
}

} // verus!
