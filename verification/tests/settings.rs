use euleretal::settings::{LayerFlags, PhysicalQuantityKind, PointShape, StepSize, Strokes};
use euleretal::view::{IntegrationViewBundle, IntegrationViewState};

fn strokes() -> Strokes<u32> {
    Strokes {
        trajectory: 1,
        acceleration: 2,
        coordinates: 3,
        focussed_velocity: 4,
        focussed_acceleration: 5,
        start_velocity: 6,
        contributing_velocity: 7,
        contributing_acceleration: 8,
        derived_velocity: 9,
        reference_velocity: 10,
    }
}

#[test]
fn contributions_use_their_strokes() {
    let strokes = strokes();
    assert_eq!(strokes.for_contribution(PhysicalQuantityKind::Velocity), 7);
    assert_eq!(strokes.for_contribution(PhysicalQuantityKind::Acceleration), 8);
}

#[test]
fn default_layer_flags() {
    let flags = LayerFlags::default();
    assert!(flags.coordinates);
    assert!(!flags.acceleration_field);
    assert!(flags.inspector);
}

#[test]
fn point_shapes_differ() {
    assert!(PointShape::Dot != PointShape::CrossHair);
}

#[test]
fn step_size_holds_its_parts() {
    let step_size = StepSize { user_label: String::from("default"), duration: 0.5_f32, color: 3u8 };
    assert_eq!(step_size.user_label, "default");
    assert_eq!(step_size.duration, 0.5);
    assert_eq!(step_size.color, 3);
}

#[test]
fn integration_view_state_default() {
    assert_eq!(IntegrationViewState::default(), IntegrationViewState::default());
}

#[test]
fn integration_view_bundle_holds_its_components() {
    let bundle = IntegrationViewBundle {
        scenario_id: 1u32,
        integrator_id: 2u32,
        parameters: String::from("dt = 0.5"),
        ui_state: IntegrationViewState::default(),
        canvas_id: 3u32,
    };
    assert_eq!(bundle.scenario_id, 1);
    assert_eq!(bundle.integrator_id, 2);
    assert_eq!(bundle.parameters, "dt = 0.5");
    assert_eq!(bundle.ui_state, IntegrationViewState::default());
    assert_eq!(bundle.canvas_id, 3);
}
