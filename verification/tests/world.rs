use euleretal::containers::grid::{self, CanvasOperation};
use euleretal::containers::step_sizes::{self, StepSizeOperation};
use euleretal::containers::view::{
    apply_integration_operation, can_delete_integration, IntegrationOperation,
};
use euleretal::entities::canvas::Canvas;
use euleretal::entities::integration::{DanglingReference, Integration};
use euleretal::layers::integrations;
use euleretal::model::Model;
use euleretal::settings::StepSize;
use euleretal::world::World;

struct Toy;

impl Model for Toy {
    type Scenario = &'static str;
    type Integrator = &'static str;
    type Duration = u32;
    type Color = u8;
    type Computed = Vec<u32>;
    type Trajectory = Vec<i32>;
    type View = i32;
    type Settings = ();
}

fn step(duration: u32) -> StepSize<u32, u8> {
    StepSize { user_label: String::new(), duration, color: 0 }
}

/// A world with two scenarios, two integrators, one step size and one canvas on the
/// first scenario with one integration.
fn toy_world() -> World<Toy> {
    let mut world = World::new(());
    let scenario = world.add_scenario("center mass");
    let _ = world.add_scenario("constant acceleration");
    let euler = world.add_integrator("euler");
    let _ = world.add_integrator("mid point");
    let step_size = world.add_step_size(step(11));
    let mut canvas = Canvas::new(scenario, 0);
    canvas.add_integration(Integration::new(euler, step_size));
    let _ = world.add_canvas(canvas);
    world
}

#[test]
fn integration_focus_follows_samples() {
    let world = toy_world();
    let mut integration = world.canvases()[0].integration_at(0).clone();
    assert_eq!(integration.focussed_sample(), None);
    integration.focus_closest_sample(Some(7));
    assert_eq!(integration.focussed_sample(), Some(7));
    // an unchanged computation keeps the focus
    assert!(!integration.update(vec![1, 2], false, Some(2)));
    assert_eq!(integration.focussed_sample(), Some(7));
    // a computation with fewer samples moves the focus to the last one
    assert!(integration.update(vec![1, 2, 3], true, Some(3)));
    assert_eq!(integration.focussed_sample(), Some(2));
    assert_eq!(integration.computed(), &Some(vec![1, 2, 3]));
    // no samples drop the focus
    assert!(integration.update(vec![], true, Some(0)));
    assert_eq!(integration.focussed_sample(), None);
}

#[test]
fn integration_focus_kept_inside_samples() {
    let world = toy_world();
    let mut integration = world.canvases()[0].integration_at(0).clone();
    integration.focus_closest_sample(Some(1));
    assert!(integration.update(vec![], true, Some(5)));
    assert_eq!(integration.focussed_sample(), Some(1));
    assert!(integration.update(vec![], true, None));
    assert_eq!(integration.focussed_sample(), None);
}

#[test]
fn integration_reset_and_settings_drop_computation() {
    let mut world = toy_world();
    let other_step = world.add_step_size(step(5));
    let mut integration = world.canvases()[0].integration_at(0).clone();
    let _ = integration.update(vec![1], true, Some(1));
    assert_eq!(integration.take_computed(), Some(vec![1]));
    assert_eq!(integration.computed(), &None);
    let _ = integration.update(vec![1], true, Some(1));
    integration.set_step_size(other_step);
    assert!(integration.step_size_idx() == other_step);
    assert_eq!(integration.computed(), &None);
    assert_eq!(integration.fetch_step_duration(&world), 5);
}

#[test]
fn integration_references_are_checked() {
    let mut world = toy_world();
    let integration = world.canvases()[0].integration_at(0).clone();
    assert_eq!(integration.check_references(&world), Ok(()));
    let step_size = integration.step_size_idx();
    world.step_sizes_mut().delete(step_size);
    assert_eq!(integration.check_references(&world), Err(DanglingReference::StepSize));
    let integrator = integration.integrator_idx();
    world.integrators_mut().delete(integrator);
    assert_eq!(integration.check_references(&world), Err(DanglingReference::Integrator));
}

#[test]
fn new_scenario_is_reported_once() {
    let mut world = toy_world();
    let second = world.scenarios().enumerate()[1].0;
    let canvas = world.canvas_at_mut(0);
    assert!(canvas.scenario_is_new_once());
    assert!(!canvas.scenario_is_new_once());
    *canvas.trajectory_buffer_mut() = Some(vec![1, 2]);
    assert_eq!(canvas.trajectory_buffer(), &Some(vec![1, 2]));
    assert!(canvas.has_trajectory());
    canvas.set_scenario(second);
    assert!(canvas.scenario_idx() == second);
    assert!(!canvas.has_trajectory());
    assert!(canvas.scenario_is_new_once());
    assert!(!canvas.scenario_is_new_once());
}

#[test]
fn integrations_layer_resets_on_new_scenario() {
    let mut world = toy_world();
    let canvas = world.canvas_at_mut(0);
    let _ = canvas.integration_at_mut(0).update(vec![9], true, Some(1));
    assert!(integrations::render(canvas));
    assert_eq!(canvas.integration_at(0).computed(), &None);
    let _ = canvas.integration_at_mut(0).update(vec![9], true, Some(1));
    assert!(!integrations::render(canvas));
    assert_eq!(canvas.integration_at(0).computed(), &Some(vec![9]));
}

#[test]
fn step_size_in_use_cannot_be_deleted() {
    let mut world = toy_world();
    let used = world.canvases()[0].integration_at(0).step_size_idx();
    let unused = world.add_step_size(step(3));
    assert!(!world.is_deletion_allowed(used));
    assert!(world.is_deletion_allowed(unused));
    step_sizes::show(&mut world, StepSizeOperation::Delete(used));
    assert!(world.step_sizes().get(used).is_some());
    step_sizes::show(&mut world, StepSizeOperation::Delete(unused));
    assert!(world.step_sizes().get(unused).is_none());
}

#[test]
fn step_size_table_edits() {
    let mut world = toy_world();
    step_sizes::show(&mut world, StepSizeOperation::Create(step(50)));
    assert_eq!(world.step_sizes().len(), 2);
    let idx = world.canvases()[0].integration_at(0).step_size_idx();
    step_sizes::show(&mut world, StepSizeOperation::SetDuration(idx, 7));
    step_sizes::show(&mut world, StepSizeOperation::SetColor(idx, 9));
    step_sizes::show(&mut world, StepSizeOperation::SetLabel(idx, String::from("fine")));
    let edited = world.step_size(idx);
    assert_eq!((edited.duration, edited.color, edited.user_label.as_str()), (7, 9, "fine"));
    step_sizes::show(&mut world, StepSizeOperation::Noop);
    assert_eq!(world.step_sizes().len(), 2);
}

#[test]
fn grid_adds_canvas_with_fresh_copies() {
    let mut world = toy_world();
    let _ = world.canvas_at_mut(0).integration_at_mut(0).update(vec![1], true, Some(1));
    grid::show(&mut world, CanvasOperation::Create { source_canvas: 0 }, 42);
    assert_eq!(world.canvases().len(), 2);
    let added = &world.canvases()[1];
    assert!(Some(added.scenario_idx()) == world.scenarios().first_index());
    assert_eq!(*added.view(), 42);
    assert!(!added.ui_integrations_window_is_open());
    assert_eq!(added.integrations().len(), 1);
    let copy = added.integration_at(0);
    let source = world.canvases()[0].integration_at(0);
    assert!(copy.integrator_idx() == source.integrator_idx());
    assert!(copy.step_size_idx() == source.step_size_idx());
    assert_eq!(copy.computed(), &None);
}

#[test]
fn grid_keeps_between_one_and_four_canvases() {
    let mut world = toy_world();
    assert!(!grid::can_close(1));
    grid::show(&mut world, CanvasOperation::Close { canvas: 0 }, 0);
    assert_eq!(world.canvases().len(), 1);
    for _ in 0..5 {
        grid::show(&mut world, CanvasOperation::Create { source_canvas: 0 }, 0);
    }
    assert_eq!(world.canvases().len(), 4);
    assert!(!grid::can_create(4));
    grid::show(&mut world, CanvasOperation::Close { canvas: 1 }, 0);
    assert_eq!(world.canvases().len(), 3);
    grid::show(&mut world, CanvasOperation::Noop, 0);
    assert_eq!(world.canvases().len(), 3);
}

#[test]
fn grid_adds_no_canvas_without_scenario() {
    let mut world: World<Toy> = World::new(());
    let scenario = world.add_scenario("only");
    let _ = world.add_canvas(Canvas::new(scenario, 0));
    world.scenarios_mut().delete(scenario);
    grid::show(&mut world, CanvasOperation::Create { source_canvas: 0 }, 0);
    assert_eq!(world.canvases().len(), 1);
}

#[test]
fn integrations_window_operations() {
    let mut world = toy_world();
    let integrators: Vec<_> = world.integrators().enumerate().iter().map(|(idx, _)| *idx).collect();
    apply_integration_operation(&mut world, 0, IntegrationOperation::Create);
    assert_eq!(world.canvases()[0].integrations().len(), 2);
    let created = world.canvases()[0].integration_at(1);
    assert!(created.integrator_idx() == integrators[0]);
    apply_integration_operation(
        &mut world,
        0,
        IntegrationOperation::SetIntegrator { integration_idx: 1, integrator_idx: integrators[1] },
    );
    assert!(world.canvases()[0].integration_at(1).integrator_idx() == integrators[1]);
    apply_integration_operation(&mut world, 0, IntegrationOperation::Delete { integration_idx: 0 });
    assert_eq!(world.canvases()[0].integrations().len(), 1);
    assert!(world.canvases()[0].integration_at(0).integrator_idx() == integrators[1]);
    let step = world.add_step_size(step(2));
    apply_integration_operation(
        &mut world,
        0,
        IntegrationOperation::SetStepSize { integration_idx: 0, step_size_idx: step },
    );
    assert!(world.canvases()[0].integration_at(0).step_size_idx() == step);
    apply_integration_operation(&mut world, 0, IntegrationOperation::Noop);
    assert_eq!(world.canvases()[0].integrations().len(), 1);
}

#[test]
fn canvas_view_and_window_state() {
    let mut world = toy_world();
    let canvas = world.canvas_at_mut(0);
    *canvas.view_mut() = 7;
    canvas.set_ui_integrations_window_is_open(true);
    assert_eq!(*canvas.view(), 7);
    assert!(canvas.ui_integrations_window_is_open());
    assert_eq!(canvas.integrations().len(), 1);
}

#[test]
fn world_settings_and_first_keys() {
    let mut fresh: World<Toy> = World::new(());
    *fresh.settings_mut() = ();
    assert_eq!(fresh.settings(), &());
    let a = fresh.add_scenario("a");
    let b = world_first_scenario();
    assert!(a == b);
}

fn world_first_scenario() -> euleretal::entity_store::Index<&'static str> {
    let mut other: World<Toy> = World::new(());
    other.add_scenario("other")
}

#[test]
fn canvas_keeps_its_last_integration() {
    let mut world = toy_world();
    assert!(!can_delete_integration(1));
    assert!(can_delete_integration(2));
    apply_integration_operation(&mut world, 0, IntegrationOperation::Delete { integration_idx: 0 });
    assert_eq!(world.canvases()[0].integrations().len(), 1);
}

#[test]
fn step_size_created_under_next_key() {
    let mut world = toy_world();
    let first = world.canvases()[0].integration_at(0).step_size_idx();
    step_sizes::show(&mut world, StepSizeOperation::Create(step(50)));
    let keys: Vec<_> = world.step_sizes().enumerate().iter().map(|(idx, _)| *idx).collect();
    assert_eq!(keys.len(), 2);
    assert!(keys[0] == first);
    assert_eq!(world.step_size(keys[1]).duration, 50);
}

#[test]
fn world_removes_canvases_and_step_sizes() {
    let mut world = toy_world();
    let first = world.scenarios().first_index().unwrap();
    assert_eq!(*world.scenario(first), "center mass");
    let integrator = world.integrators().first_index().unwrap();
    assert_eq!(*world.integrator(integrator), "euler");
    let added = world.add_canvas(Canvas::new(first, 7));
    assert_eq!(*added.view(), 7);
    world.remove_canvas(0);
    assert_eq!(world.canvases().len(), 1);
    assert_eq!(*world.canvases()[0].view(), 7);
}
