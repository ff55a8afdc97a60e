use cg_ufpel_project::motion::{Axis, Command, Movement, Primitive};

#[test]
fn commands_map_to_primitives() {
    assert_eq!(Command::ScaleU.primitive(), Primitive::ScaleUp);
    assert_eq!(Command::ScaleD.primitive(), Primitive::ScaleDown);
    assert_eq!(Command::SlideYB.primitive(), Primitive::Slide(Movement::BackwardY));
    assert_eq!(Command::CurveZF.primitive(), Primitive::Curve(Movement::ForwardZ));
    assert_eq!(Command::RotateXB.primitive(), Primitive::Rotate(Movement::BackwardX));
}

#[test]
fn movements_know_axis_and_sense() {
    assert_eq!(Movement::BackwardZ.axis(), Axis::Z);
    assert!(!Movement::BackwardZ.is_forward());
    assert_eq!(Movement::ForwardY.axis(), Axis::Y);
    assert!(Movement::ForwardY.is_forward());
}
