use lsystem_turtle::command::{
    AddCylinder, AngleCommand, MoveForward, PrimitiveCommand, PrimitiveCommandParameter,
    SetDefaultCylinderDiameter, SetMaterialIndex, TurtleCommand,
};
use lsystem_turtle::material::{MaterialChoice, MaterialMode, MaterialState};
use lsystem_turtle::turtle::{
    find_primitive, interpret, Axis, CylinderInstance, Diagnostic, FrameNode, FrameOp,
    InterpretError, RegisteredPrimitive, TurtleInterpretation,
};

fn cylinder(parameters: Vec<f32>) -> TurtleCommand<f32> {
    TurtleCommand::AddCylinder(AddCylinder { parameters })
}

fn yaw(angle: f32) -> TurtleCommand<f32> {
    TurtleCommand::RotateYaw(AngleCommand { parameters: vec![angle] })
}

fn primitive(name: &str, iteration: Option<usize>) -> TurtleCommand<f32> {
    let mut parameters = vec![PrimitiveCommandParameter::String(name.to_string())];
    if let Some(i) = iteration {
        parameters.push(PrimitiveCommandParameter::Usize(i));
    }
    TurtleCommand::AddPredefinedPrimitive(PrimitiveCommand { parameters })
}

fn run(commands: Vec<TurtleCommand<f32>>) -> Result<TurtleInterpretation<f32>, InterpretError> {
    interpret(&commands, MaterialState::random(), &Vec::new())
}

#[test]
fn end_to_end_branching_scenario() {
    let commands = vec![
        cylinder(vec![1.0, 0.5]),
        yaw(90.0),
        cylinder(vec![1.0, 0.5]),
        TurtleCommand::PushToStack,
        yaw(-45.0),
        cylinder(vec![1.0, 0.5]),
        TurtleCommand::PopFromStack,
        cylinder(vec![1.0, 0.5]),
    ];
    let r = run(commands).unwrap();
    assert_eq!(r.cylinder_instances.len(), 4);
    let frames: Vec<usize> = r.cylinder_instances.iter().map(|c| c.frame).collect();
    assert_eq!(frames, vec![0, 2, 4, 3]);
    // the second cylinder's end frame is frame 3; the third turns from there by -45
    assert_eq!(r.frames[2], FrameNode { parent: 2, op: FrameOp::Grow(Some(1.0)) });
    assert_eq!(
        r.frames[3],
        FrameNode {
            parent: 3,
            op: FrameOp::Rotate { axis: Axis::Yaw, angle: Some(-45.0), negative: false }
        }
    );
    // the fourth resumes from the second's end state, not from the third's
    assert_eq!(r.cylinder_instances[3].frame, 3);
    assert_eq!(r.frames.len(), 6);
    for c in &r.cylinder_instances {
        assert_eq!(c.diameter, Some(0.5));
        assert_eq!(c.length, Some(1.0));
    }
}

#[test]
fn frames_refer_to_earlier_frames() {
    let commands = vec![
        cylinder(vec![]),
        TurtleCommand::PushToStack,
        TurtleCommand::RotatePitch(AngleCommand { parameters: vec![] }),
        TurtleCommand::MoveForward(MoveForward { parameters: vec![2.0] }),
        TurtleCommand::PopFromStack,
        TurtleCommand::Yaw180,
        TurtleCommand::ToUpPlane,
        TurtleCommand::RotateRollNegative(AngleCommand { parameters: vec![30.0] }),
    ];
    let r = run(commands).unwrap();
    assert_eq!(
        r.frames,
        vec![
            FrameNode { parent: 0, op: FrameOp::Grow(None) },
            FrameNode {
                parent: 1,
                op: FrameOp::Rotate { axis: Axis::Pitch, angle: None, negative: false }
            },
            FrameNode { parent: 2, op: FrameOp::MoveForward(Some(2.0)) },
            FrameNode { parent: 1, op: FrameOp::Yaw180 },
            FrameNode { parent: 4, op: FrameOp::ToUpPlane },
            FrameNode {
                parent: 5,
                op: FrameOp::Rotate { axis: Axis::Roll, angle: Some(30.0), negative: true }
            },
        ]
    );
}

#[test]
fn balanced_stack_completes() {
    let commands = vec![
        TurtleCommand::PushToStack,
        TurtleCommand::PushToStack,
        cylinder(vec![]),
        TurtleCommand::PopFromStack,
        TurtleCommand::PushToStack,
        TurtleCommand::PopFromStack,
        TurtleCommand::PopFromStack,
    ];
    assert!(run(commands).is_ok());
}

#[test]
fn unmatched_pop_fails_at_its_position() {
    let commands = vec![
        TurtleCommand::PushToStack,
        cylinder(vec![]),
        TurtleCommand::PopFromStack,
        cylinder(vec![]),
        TurtleCommand::PopFromStack,
        TurtleCommand::PushToStack,
    ];
    assert_eq!(run(commands), Err(InterpretError::StackUnderflow(4)));
}

#[test]
fn pop_on_empty_input_stack_fails_at_zero() {
    assert_eq!(run(vec![TurtleCommand::PopFromStack]), Err(InterpretError::StackUnderflow(0)));
}

#[test]
fn empty_command_sequence_gives_empty_model() {
    let r = run(vec![]).unwrap();
    assert!(r.frames.is_empty());
    assert!(r.cylinder_instances.is_empty());
    assert!(r.primitive_instances.is_empty());
    assert!(r.diagnostics.is_empty());
}

#[test]
fn skipped_branch_is_transparent() {
    let a = cylinder(vec![1.0]);
    let e = cylinder(vec![3.0]);
    let with_skip = vec![
        TurtleCommand::PushToStack,
        a.clone(),
        TurtleCommand::IgnoreRemainingBranch,
        cylinder(vec![7.0]),
        TurtleCommand::PushToStack,
        yaw(10.0),
        TurtleCommand::Unknown,
        TurtleCommand::PopFromStack,
        cylinder(vec![8.0]),
        TurtleCommand::PopFromStack,
        e.clone(),
    ];
    let without = vec![TurtleCommand::PushToStack, a, TurtleCommand::PopFromStack, e];
    let r1 = run(with_skip).unwrap();
    let r2 = run(without).unwrap();
    assert_eq!(r1.frames, r2.frames);
    assert_eq!(r1.cylinder_instances, r2.cylinder_instances);
    assert_eq!(r1.cylinder_instances.len(), 2);
    assert_eq!(r1.cylinder_instances[0].length, Some(1.0));
    assert_eq!(r1.cylinder_instances[1].length, Some(3.0));
    // E starts where A started: the pop restored the state pushed before A
    assert_eq!(r1.cylinder_instances[1].frame, 0);
    assert!(r1.diagnostics.is_empty());
}

#[test]
fn skipping_to_the_end_places_nothing() {
    let r = run(vec![
        cylinder(vec![]),
        TurtleCommand::IgnoreRemainingBranch,
        cylinder(vec![]),
        TurtleCommand::PushToStack,
        TurtleCommand::PopFromStack,
    ])
    .unwrap();
    assert_eq!(r.cylinder_instances.len(), 1);
}

#[test]
fn default_diameter_scoping() {
    let r = run(vec![
        TurtleCommand::SetDefaultCylinderDiameter(SetDefaultCylinderDiameter { parameters: [0.2] }),
        cylinder(vec![1.0]),
        cylinder(vec![1.0, 0.8]),
        cylinder(vec![]),
    ])
    .unwrap();
    assert_eq!(r.cylinder_instances[0].diameter, Some(0.2));
    assert_eq!(r.cylinder_instances[1].diameter, Some(0.8));
    assert_eq!(r.cylinder_instances[2].diameter, Some(0.2));
    assert_eq!(r.cylinder_instances[2].length, None);
}

#[test]
fn default_diameter_is_restored_by_pop() {
    let r = run(vec![
        TurtleCommand::PushToStack,
        TurtleCommand::SetDefaultCylinderDiameter(SetDefaultCylinderDiameter { parameters: [0.2] }),
        TurtleCommand::PopFromStack,
        cylinder(vec![1.0]),
    ])
    .unwrap();
    assert_eq!(r.cylinder_instances[0].diameter, None);
}

#[test]
fn same_input_gives_identical_output() {
    let commands = vec![
        TurtleCommand::SetMaterialIndex(SetMaterialIndex { parameters: vec![1] }),
        cylinder(vec![1.0, 0.5]),
        yaw(33.0),
        TurtleCommand::SetMaterialIndex(SetMaterialIndex { parameters: vec![0] }),
        cylinder(vec![2.0]),
    ];
    let materials = MaterialState::with_materials(2, 0);
    let r1 = interpret(&commands, materials, &Vec::new()).unwrap();
    let r2 = interpret(&commands, materials, &Vec::new()).unwrap();
    assert_eq!(r1, r2);
    let chosen: Vec<MaterialChoice> = r1.cylinder_instances.iter().map(|c| c.material).collect();
    assert_eq!(chosen, vec![MaterialChoice::Listed(1), MaterialChoice::Listed(0)]);
}

#[test]
fn material_index_increments_and_falls_back_to_random() {
    let next = TurtleCommand::SetMaterialIndex(SetMaterialIndex { parameters: vec![] });
    let commands = vec![
        cylinder(vec![]),
        next.clone(),
        cylinder(vec![]),
        next.clone(),
        cylinder(vec![]),
    ];
    let r = interpret(&commands, MaterialState::with_materials(2, 0), &Vec::new()).unwrap();
    let chosen: Vec<MaterialChoice> = r.cylinder_instances.iter().map(|c| c.material).collect();
    assert_eq!(
        chosen,
        vec![MaterialChoice::Listed(0), MaterialChoice::Listed(1), MaterialChoice::Random]
    );
}

#[test]
fn material_index_without_list_is_ignored() {
    let commands = vec![
        TurtleCommand::SetMaterialIndex(SetMaterialIndex { parameters: vec![0] }),
        cylinder(vec![]),
    ];
    let r = run(commands).unwrap();
    assert_eq!(r.cylinder_instances[0].material, MaterialChoice::Random);
}

#[test]
fn material_state_select_and_set() {
    let mut m = MaterialState::with_materials(3, 2);
    assert_eq!(m.get_material(), MaterialChoice::Listed(2));
    m.set_index(None);
    assert_eq!(m.material_mode, MaterialMode::MaterialIndex(3));
    assert_eq!(m.get_material(), MaterialChoice::Random);
    m.set_index(Some(1));
    assert_eq!(m.get_material(), MaterialChoice::Listed(1));
    let mut r = MaterialState { material_mode: MaterialMode::Random, material_count: 2 };
    r.set_index(None);
    assert_eq!(r.material_mode, MaterialMode::MaterialIndex(1));
    let mut top = MaterialState::with_materials(1, usize::MAX);
    top.set_index(None);
    assert_eq!(top.material_mode, MaterialMode::MaterialIndex(usize::MAX));
}

#[test]
fn primitives_are_placed_by_name() {
    let registry = vec![
        RegisteredPrimitive { name: "leaf".to_string(), has_material: false },
        RegisteredPrimitive { name: "flower".to_string(), has_material: true },
    ];
    let commands = vec![
        cylinder(vec![]),
        primitive("flower", Some(3)),
        primitive("leaf", None),
        primitive("stone", Some(1)),
    ];
    let r = interpret(&commands, MaterialState::with_materials(1, 0), &registry).unwrap();
    assert_eq!(r.primitive_instances.len(), 2);
    assert_eq!(r.primitive_instances[0].primitive, 1);
    assert_eq!(r.primitive_instances[0].iteration, 3);
    assert_eq!(r.primitive_instances[0].material, MaterialChoice::Own);
    assert_eq!(r.primitive_instances[0].frame, 1);
    assert_eq!(r.primitive_instances[1].primitive, 0);
    assert_eq!(r.primitive_instances[1].iteration, 0);
    assert_eq!(r.primitive_instances[1].material, MaterialChoice::Listed(0));
    assert_eq!(r.diagnostics, vec![Diagnostic::UnregisteredPrimitive(3)]);
    // placing a primitive does not move the turtle
    assert_eq!(r.frames.len(), 1);
}

#[test]
fn unknown_unhandled_and_malformed_are_told_apart() {
    let malformed = TurtleCommand::AddPredefinedPrimitive(PrimitiveCommand {
        parameters: vec![PrimitiveCommandParameter::Usize(2)],
    });
    let r = run(vec![
        TurtleCommand::Unknown,
        TurtleCommand::BeginPolygon,
        malformed,
        TurtleCommand::RecordVertex,
        TurtleCommand::MoveAlongEdge(MoveForward { parameters: vec![1.0] }),
    ])
    .unwrap();
    assert_eq!(
        r.diagnostics,
        vec![
            Diagnostic::Unknown(0),
            Diagnostic::Unhandled(1),
            Diagnostic::MalformedPrimitive(2),
            Diagnostic::Unhandled(3),
            Diagnostic::Unhandled(4),
        ]
    );
    assert!(r.frames.is_empty());
}

#[test]
fn find_primitive_takes_the_first_match() {
    let registry = vec![
        RegisteredPrimitive { name: "a".to_string(), has_material: false },
        RegisteredPrimitive { name: "b".to_string(), has_material: false },
        RegisteredPrimitive { name: "b".to_string(), has_material: true },
    ];
    assert_eq!(find_primitive(&registry, &"b".to_string()), Some(1));
    assert_eq!(find_primitive(&registry, &"c".to_string()), None);
    assert_eq!(find_primitive(&Vec::new(), &"a".to_string()), None);
}

#[test]
fn cylinder_records_frame_before_advancing() {
    let r = run(vec![cylinder(vec![2.0, 0.3])]).unwrap();
    assert_eq!(
        r.cylinder_instances,
        vec![CylinderInstance {
            frame: 0,
            length: Some(2.0),
            diameter: Some(0.3),
            material: MaterialChoice::Random
        }]
    );
    assert_eq!(r.frames, vec![FrameNode { parent: 0, op: FrameOp::Grow(Some(2.0)) }]);
}
