//! One integration: a configured integrator run with a step size on the scenario of a canvas.
use crate::entity_store::Index;
use crate::model::{Model, StepSizeOf};
use crate::world::World;
use vstd::prelude::*;

verus! {

/// Where the focus on a sample goes once an integration has new samples.
///
/// A focus stays where it is while it still points at a sample; beyond the last sample it
/// moves to the last one; without samples it is dropped.
pub open spec fn adjusted_focus(focus: Option<usize>, num_samples: Option<usize>) -> Option<usize> {
    match (focus, num_samples) {
        (Some(idx), Some(n)) => if n == 0 {
            None
        } else if idx < n {
            Some(idx)
        } else {
            Some((n - 1) as usize)
        },
        _ => None,
    }
}

/// An integration of the scenario of its canvas, by a configured integrator with a step size.
pub struct Integration<M: Model> {
    computed: Option<M::Computed>,
    integrator_idx: Index<M::Integrator>,
    step_size_idx: Index<StepSizeOf<M>>,
    current_sample_index: Option<usize>,
}

impl<M: Model> Integration<M> {
    /// The samples computed so far; `None` until the first computation after a reset.
    pub closed spec fn spec_computed(&self) -> Option<M::Computed> {
        self.computed
    }

    /// The configured integrator used.
    pub closed spec fn spec_integrator_idx(&self) -> Index<M::Integrator> {
        self.integrator_idx
    }

    /// The step size used.
    pub closed spec fn spec_step_size_idx(&self) -> Index<StepSizeOf<M>> {
        self.step_size_idx
    }

    /// The sample the user focused on, if any.
    pub closed spec fn focus(&self) -> Option<usize> {
        self.current_sample_index
    }

    /// A fresh integration, with nothing computed and no focus.
    pub fn new(integrator: Index<M::Integrator>, step_size: Index<StepSizeOf<M>>) -> (integration:
        Self)
        ensures
            integration.spec_computed() is None,
            integration.spec_integrator_idx() == integrator,
            integration.spec_step_size_idx() == step_size,
            integration.focus() is None,
    {
        Integration {
            computed: None,
            integrator_idx: integrator,
            step_size_idx: step_size,
            current_sample_index: None,
        }
    }

    /// Drops what was computed, so that the next update computes from scratch.
    pub fn reset(&mut self)
        ensures
            final(self).spec_computed() is None,
            final(self).spec_integrator_idx() == old(self).spec_integrator_idx(),
            final(self).spec_step_size_idx() == old(self).spec_step_size_idx(),
            final(self).focus() == old(self).focus(),
    {
        self.computed = None;
    }

    pub fn integrator_idx(&self) -> (idx: Index<M::Integrator>)
        ensures
            idx == self.spec_integrator_idx(),
    {
        self.integrator_idx
    }

    pub fn step_size_idx(&self) -> (idx: Index<StepSizeOf<M>>)
        ensures
            idx == self.spec_step_size_idx(),
    {
        self.step_size_idx
    }

    /// Uses another configured integrator; what was computed is dropped.
    pub fn set_integrator(&mut self, integrator_idx: Index<M::Integrator>)
        ensures
            final(self).spec_integrator_idx() == integrator_idx,
            final(self).spec_step_size_idx() == old(self).spec_step_size_idx(),
            final(self).spec_computed() is None,
            final(self).focus() == old(self).focus(),
    {
        self.integrator_idx = integrator_idx;
        self.reset();
    }

    /// Uses another step size; what was computed is dropped.
    pub fn set_step_size(&mut self, step_size_idx: Index<StepSizeOf<M>>)
        ensures
            final(self).spec_step_size_idx() == step_size_idx,
            final(self).spec_integrator_idx() == old(self).spec_integrator_idx(),
            final(self).spec_computed() is None,
            final(self).focus() == old(self).focus(),
    {
        self.step_size_idx = step_size_idx;
        self.reset();
    }

    /// The samples computed so far, if any.
    pub fn computed(&self) -> (computed: &Option<M::Computed>)
        ensures
            *computed == self.spec_computed(),
    {
        &self.computed
    }

    /// Hands out what was computed so far, leaving nothing behind.
    pub fn take_computed(&mut self) -> (computed: Option<M::Computed>)
        ensures
            computed == old(self).spec_computed(),
            final(self).spec_computed() is None,
            final(self).spec_integrator_idx() == old(self).spec_integrator_idx(),
            final(self).spec_step_size_idx() == old(self).spec_step_size_idx(),
            final(self).focus() == old(self).focus(),
    {
        let computed = self.computed.take();
        computed
    }

    /// Focuses on the sample closest to a position the user pointed at (as the samples
    /// determined it), or on none.
    pub fn focus_closest_sample(&mut self, closest_sample_index: Option<usize>)
        ensures
            final(self).focus() == closest_sample_index,
            final(self).spec_computed() == old(self).spec_computed(),
            final(self).spec_integrator_idx() == old(self).spec_integrator_idx(),
            final(self).spec_step_size_idx() == old(self).spec_step_size_idx(),
    {
        self.current_sample_index = closest_sample_index;
    }

    /// The index of the focused sample, in the reference samples as in the computed ones.
    pub fn focussed_sample(&self) -> (idx: Option<usize>)
        ensures
            idx == self.focus(),
    {
        self.current_sample_index
    }

    /// Stores the samples after an update of the computation. `changed` tells whether the
    /// update computed anything new, and `num_samples` how many samples there are then.
    /// After a change the focus is kept on an existing sample.
    pub fn update(&mut self, computed: M::Computed, changed: bool, num_samples: Option<usize>) -> (r: bool)
        ensures
            r == changed,
            final(self).spec_computed() == Some(computed),
            final(self).spec_integrator_idx() == old(self).spec_integrator_idx(),
            final(self).spec_step_size_idx() == old(self).spec_step_size_idx(),
            changed ==> final(self).focus() == adjusted_focus(old(self).focus(), num_samples),
            !changed ==> final(self).focus() == old(self).focus(),
            // a focus on a sample that still exists stays where it is; one beyond the last
            // sample moves to the last one; without samples it is dropped
            changed ==> match (old(self).focus(), num_samples) {
                (Some(i), Some(n)) => if i < n {
                    final(self).focus() == Some(i)
                } else if n > 0 {
                    final(self).focus() == Some((n - 1) as usize)
                } else {
                    final(self).focus() is None
                },
                _ => final(self).focus() is None,
            },
    {
        self.computed = Some(computed);
        if changed {
            self.adjust_focussed_sample(num_samples);
            true
        } else {
            false
        }
    }

    fn adjust_focussed_sample(&mut self, num_samples: Option<usize>)
        ensures
            final(self).focus() == adjusted_focus(old(self).focus(), num_samples),
            final(self).spec_computed() == old(self).spec_computed(),
            final(self).spec_integrator_idx() == old(self).spec_integrator_idx(),
            final(self).spec_step_size_idx() == old(self).spec_step_size_idx(),
    {
        if let Some(prev_sample_idx) = self.current_sample_index {
            if let Some(num_samples) = num_samples {
                if prev_sample_idx >= num_samples {
                    if num_samples > 0 {
                        self.current_sample_index = Some(num_samples - 1);
                    } else {
                        self.current_sample_index = None;
                    }
                }
            } else {
                self.current_sample_index = None;
            }
        }
    }
}

/// An index of an integration that addresses nothing in the world.
#[derive(Clone, Copy, Debug, PartialEq, Eq, Structural)]
pub enum DanglingReference {
    Integrator,
    StepSize,
}

impl<M: Model> Integration<M> {
    /// The duration of one step of this integration.
    pub fn fetch_step_duration(&self, world: &World<M>) -> (duration: M::Duration)
        requires
            world.spec_step_sizes()@.contains_key(self.spec_step_size_idx()@),
        ensures
            duration == world.spec_step_sizes()@[self.spec_step_size_idx()@].duration,
    {
        world.step_size(self.step_size_idx).duration
    }

    /// Whether the integrator and the step size of this integration exist in `world`; the
    /// integrator is checked first.
    pub fn check_references(&self, world: &World<M>) -> (checked: Result<(), DanglingReference>)
        ensures
            checked == if !world.spec_integrators()@.contains_key(self.spec_integrator_idx()@) {
                Err::<(), DanglingReference>(DanglingReference::Integrator)
            } else if !world.spec_step_sizes()@.contains_key(self.spec_step_size_idx()@) {
                Err::<(), DanglingReference>(DanglingReference::StepSize)
            } else {
                Ok::<(), DanglingReference>(())
            },
    {
        if world.integrators().get(self.integrator_idx).is_none() {
            return Err(DanglingReference::Integrator);
        }
        if world.step_sizes().get(self.step_size_idx).is_none() {
            return Err(DanglingReference::StepSize);
        }
        Ok(())
    }
}

impl<M: Model> Clone for Integration<M> {
    /// A fresh integration with the same integrator and step size.
    fn clone(&self) -> (copy: Self)
        ensures
            copy.spec_computed() is None,
            copy.spec_integrator_idx() == self.spec_integrator_idx(),
            copy.spec_step_size_idx() == self.spec_step_size_idx(),
            copy.focus() is None,
    {
        Self::new(self.integrator_idx, self.step_size_idx)
    }
}

/// Adjusting the focus keeps a focus on a sample that still exists, moves a focus beyond the
/// last sample to the last one, and drops it when there are no samples.
pub proof fn law_adjusted_focus_cases(i: usize, n: usize)
    ensures
        i < n ==> adjusted_focus(Some(i), Some(n)) == Some(i),
        0 < n <= i ==> adjusted_focus(Some(i), Some(n)) == Some((n - 1) as usize),
        adjusted_focus(Some(i), Some(0usize)) is None,
        adjusted_focus(Some(i), None) is None,
        adjusted_focus(None, Some(n)) is None,
{
}

/// A focus that an update adjusted points at an existing sample.
pub proof fn law_adjusted_focus_is_in_range(focus: Option<usize>, num_samples: Option<usize>)
    ensures
        adjusted_focus(focus, num_samples) matches Some(idx) ==> num_samples matches Some(n)
            && idx < n,
        focus is None ==> adjusted_focus(focus, num_samples) is None,
{
}

} // verus!
