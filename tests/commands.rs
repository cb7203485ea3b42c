use lsystem_turtle::command::{
    AddCylinder, AngleCommand, MoveForward, PrimitiveCommand, PrimitiveCommandParameter,
    SetDefaultCylinderDiameter, SetMaterialIndex, SurfaceCommand,
};
use lsystem_turtle::event::{IterationEvent, LSystemEvent};
use lsystem_turtle::input::{EventBuffer, Frame};
use lsystem_turtle::web::base_path;

#[test]
fn cylinder_parameters_and_defaults() {
    let full = AddCylinder { parameters: vec![2.0f32, 0.4] };
    assert_eq!(full.length(), Some(2.0));
    assert_eq!(full.diameter(Some(0.1)), Some(0.4));
    let bare: AddCylinder<f32> = AddCylinder { parameters: vec![] };
    assert_eq!(bare.length(), None);
    assert_eq!(bare.diameter(Some(0.1)), Some(0.1));
    assert_eq!(bare.diameter(None), None);
}

#[test]
fn move_angle_and_diameter_parameters() {
    assert_eq!(MoveForward { parameters: vec![3.0f32] }.length(), Some(3.0));
    assert_eq!(MoveForward::<f32> { parameters: vec![] }.length(), None);
    assert_eq!(AngleCommand { parameters: vec![45.0f32] }.angle(), Some(45.0));
    assert_eq!(AngleCommand::<f32> { parameters: vec![] }.angle(), None);
    assert_eq!(SetDefaultCylinderDiameter { parameters: [0.2f32] }.radius(), 0.2);
    assert_eq!(SetMaterialIndex { parameters: vec![4] }.material_index(), Some(4));
    assert_eq!(SetMaterialIndex { parameters: vec![] }.material_index(), None);
}

#[test]
fn primitive_command_name_and_iteration() {
    let c = PrimitiveCommand {
        parameters: vec![
            PrimitiveCommandParameter::String("leaf".to_string()),
            PrimitiveCommandParameter::Usize(7),
        ],
    };
    assert!(c.is_well_formed());
    assert_eq!(c.name(), "leaf");
    assert_eq!(c.iteration(), 7);
    let bare = PrimitiveCommand {
        parameters: vec![PrimitiveCommandParameter::String("leaf".to_string())],
    };
    assert_eq!(bare.iteration(), 0);
    let swapped = PrimitiveCommand {
        parameters: vec![
            PrimitiveCommandParameter::String("leaf".to_string()),
            PrimitiveCommandParameter::String("x".to_string()),
        ],
    };
    assert!(!swapped.is_well_formed());
    assert!(!PrimitiveCommand { parameters: vec![] }.is_well_formed());
}

#[test]
fn surface_command_name() {
    let c = SurfaceCommand { parameters: vec!["petal".to_string(), "x".to_string()] };
    assert_eq!(c.name(), "petal");
}

#[test]
fn frame_numbers_advance() {
    let f = Frame::default();
    assert_eq!(f.number(), 0);
    assert_eq!(f.next().next().number(), 2);
}

#[test]
fn event_buffer_drain_gives_snapshot() {
    let mut b = EventBuffer::new();
    let _snapshot: EventBuffer = b.drain();
}

#[test]
fn iteration_event_accessors() {
    let e = IterationEvent::new("tree".to_string(), 4);
    assert_eq!(e.object_name(), "tree");
    assert_eq!(e.iteration(), 4);
    let LSystemEvent::Iteration(inner) = LSystemEvent::Iteration(e);
    assert_eq!(inner.iteration(), 4);
}

#[test]
fn base_path_of_page_and_directory() {
    assert_eq!(
        base_path("http://example.org/viewer/index.html"),
        Some("http://example.org/viewer".to_string())
    );
    assert_eq!(base_path("http://example.org/viewer/"), Some("http://example.org/viewer/".to_string()));
    assert_eq!(base_path(""), None);
}
