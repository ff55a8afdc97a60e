use cg_ufpel_project::config::Configuration;
use cg_ufpel_project::input::{Key, Op};
use cg_ufpel_project::model_pos::{Effect, ModelPosition, Turn};
use cg_ufpel_project::motion::{Axis, Command, Movement};
use cg_ufpel_project::space::{Offset, Point};

const U: i64 = 1_000_000_000;

fn configured(script: Vec<(Command, u64)>) -> ModelPosition {
    ModelPosition::with_config(Configuration {
        base_speed: 4000,
        rotation_speed: 15000,
        circle_speed: 30000,
        scale_speed: 2000,
        command_list: script,
    })
}

#[test]
fn default_pose_is_identity() {
    let m = ModelPosition::default();
    assert_eq!(m.translation, Point::origin());
    assert_eq!(m.scale, U);
    assert!(!m.is_selected);
    assert_eq!(m.config.base_speed, 8000);
    assert_eq!(m.config.rotation_speed, 30000);
    assert_eq!(m.config.circle_speed, 60000);
    assert_eq!(m.config.scale_speed, 2000);
}

#[test]
fn slide_moves_along_one_axis() {
    let mut m = ModelPosition::default();
    m.slide(Movement::ForwardX, 500_000);
    assert_eq!(m.translation, Point::new(4 * U, 0, 0));
    m.slide(Movement::BackwardZ, 250_000);
    assert_eq!(m.translation, Point::new(4 * U, 0, -2 * U));
    assert!(m.curve.should_reset);
}

#[test]
fn slide_stops_at_the_edge_of_space() {
    let mut m = ModelPosition::default();
    m.slide(Movement::BackwardY, u64::MAX);
    assert_eq!(m.translation.y, i64::MIN);
}

#[test]
fn scale_grows_and_shrinks() {
    let mut m = ModelPosition::default();
    m.scale_up(1_000_000);
    assert_eq!(m.scale, 3 * U);
    m.scale_down(2_000_000);
    assert_eq!(m.scale, -U);
}

#[test]
fn rotate_gives_a_local_turn() {
    let m = ModelPosition::default();
    assert_eq!(m.rotate(Movement::ForwardY, 1_000_000), Turn { axis: Axis::Y, angle: 30_000_000_000 });
    assert_eq!(m.rotate(Movement::BackwardX, 500_000), Turn { axis: Axis::X, angle: -15_000_000_000 });
}

#[test]
fn opposite_rotations_cancel() {
    let m = ModelPosition::default();
    let a = m.rotate(Movement::ForwardZ, 123_456);
    let b = m.rotate(Movement::BackwardZ, 123_456);
    assert_eq!(a.axis, b.axis);
    assert_eq!(a.angle + b.angle, 0);
}

#[test]
fn rotate_around_orbits_and_resets_the_curve() {
    let mut m = ModelPosition::default();
    m.slide_curve(Movement::ForwardX, 100_000);
    assert!(!m.curve.should_reset);
    let pivot = Point::new(U, 0, 0);
    let e = m.rotate_around(Movement::BackwardY, pivot, 1_000_000);
    assert_eq!(e, Effect::Orbit { turn: Turn { axis: Axis::Y, angle: -60_000_000_000 }, pivot });
    assert!(m.curve.should_reset);
    assert_eq!(m.translation, Point::origin());
}

#[test]
fn look_at_own_position_does_nothing() {
    let m = ModelPosition::default();
    assert_eq!(m.look_at(Point::origin(), Point::new(0, U, 0)), Effect::Done);
}

#[test]
fn look_at_aims_at_the_target() {
    let mut m = ModelPosition::default();
    m.translation = Point::new(U, 2 * U, 3 * U);
    let up = Point::new(0, U, 0);
    assert_eq!(
        m.look_at(Point::origin(), up),
        Effect::Aim { direction: Offset { x: -1_000_000_000, y: -2_000_000_000, z: -3_000_000_000 }, up }
    );
}

#[test]
fn slide_curve_asks_for_a_sample() {
    let mut m = ModelPosition::default();
    m.translation = Point::new(0, 0, U);
    assert_eq!(m.slide_curve(Movement::ForwardZ, 250_000), Effect::Curve { time: 250_000 });
    assert_eq!(m.curve.keys[0].point, Point::new(0, 0, U));
    assert_eq!(m.slide_curve(Movement::ForwardZ, 250_000), Effect::Curve { time: 500_000 });
}

#[test]
fn straight_slide_restarts_the_curve_from_the_new_position() {
    let mut m = ModelPosition::default();
    m.slide_curve(Movement::ForwardX, 250_000);
    m.slide(Movement::ForwardX, 125_000);
    assert_eq!(m.slide_curve(Movement::ForwardX, 10), Effect::Curve { time: 10 });
    assert_eq!(m.curve.keys[0].point, Point::new(U, 0, 0));
}

#[test]
fn run_command_dispatches() {
    let mut m = configured(Vec::new());
    assert_eq!(m.run_command(Command::SlideYF, 500_000), Effect::Done);
    assert_eq!(m.translation, Point::new(0, 2 * U, 0));
    assert_eq!(m.run_command(Command::ScaleD, 250_000), Effect::Done);
    assert_eq!(m.scale, U / 2);
    assert_eq!(
        m.run_command(Command::RotateZB, 1_000_000),
        Effect::Turn(Turn { axis: Axis::Z, angle: -15_000_000_000 })
    );
    assert_eq!(m.run_command(Command::CurveXB, 7), Effect::Curve { time: 7 });
    assert_eq!(m.curve.direction, Movement::BackwardX);
}

#[test]
fn apply_performs_input_operations() {
    let mut m = configured(Vec::new());
    let e = m.apply(Op::Orbit { direction: Movement::ForwardX, pivot: Point::origin() }, 1_000_000);
    assert_eq!(e, Effect::Orbit { turn: Turn { axis: Axis::X, angle: 30_000_000_000 }, pivot: Point::origin() });
    let e = m.apply(Op::LookAt { target: Point::origin(), up: Point::new(0, U, 0) }, 1);
    assert_eq!(e, Effect::Done);
    assert_eq!(m.apply(Op::Run(Command::SlideXB), 250_000), Effect::Done);
    assert_eq!(m.translation, Point::new(-U, 0, 0));
}

#[test]
fn unselected_object_ignores_keys() {
    let mut m = ModelPosition::default();
    assert!(m.process_input(&vec![Key::W, Key::H], false, 1_000).is_empty());
    assert!(!m.animation.is_running);
}

#[test]
fn selected_object_reads_keys_in_table_order() {
    let mut m = ModelPosition::default();
    m.is_selected = true;
    let ops = m.process_input(&vec![Key::C, Key::W, Key::G, Key::K], false, 1_000);
    assert_eq!(
        ops,
        vec![
            (Op::Run(Command::SlideZF), 1_000),
            (Op::LookAt { target: Point::origin(), up: Point::new(0, U, 0) }, 1_000),
            (Op::Run(Command::RotateYF), 1_000),
        ]
    );
}

#[test]
fn shift_selects_alternate_bindings() {
    let mut m = ModelPosition::default();
    m.is_selected = true;
    let ops = m.process_input(&vec![Key::V, Key::R, Key::D], true, 5);
    assert_eq!(
        ops,
        vec![
            (Op::Run(Command::CurveXF), 5),
            (Op::Run(Command::ScaleD), 5),
            (Op::Orbit { direction: Movement::BackwardY, pivot: Point::origin() }, 5),
        ]
    );
}

#[test]
fn script_key_starts_playback_once() {
    let mut m = configured(vec![(Command::SlideXF, 300_000), (Command::RotateYB, 200_000)]);
    m.is_selected = true;
    assert!(m.process_input(&vec![Key::H], false, 10).is_empty());
    assert!(m.animation.is_running);
    let ops = m.process_input(&vec![Key::W], false, 400_000);
    assert_eq!(
        ops,
        vec![(Op::Run(Command::SlideXF), 300_000), (Op::Run(Command::RotateYB), 100_000)]
    );
    let ops = m.process_input(&vec![Key::H], false, 400_000);
    assert_eq!(ops, vec![(Op::Run(Command::RotateYB), 100_000)]);
    assert!(!m.animation.is_running);
    // The key is still held from before: no new start until it is let go.
    assert!(m.process_input(&vec![Key::H], false, 1).is_empty());
    assert!(!m.animation.is_running);
    m.process_input(&vec![], false, 1);
    m.process_input(&vec![Key::H], false, 1);
    assert!(m.animation.is_running);
}

#[test]
fn held_script_key_does_not_restart() {
    let mut m = configured(vec![(Command::ScaleU, 100)]);
    m.is_selected = true;
    m.process_input(&vec![Key::H], false, 1);
    m.process_input(&vec![], false, 100);
    assert!(!m.animation.is_running);
    m.process_input(&vec![Key::H], false, 1);
    assert!(!m.animation.is_running);
    m.process_input(&vec![], false, 1);
    m.process_input(&vec![Key::H], false, 1);
    assert!(m.animation.is_running);
}

#[test]
fn zero_length_script_starts_on_the_script_key() {
    let mut m = configured(vec![(Command::SlideXF, 0)]);
    m.is_selected = true;
    m.slide_curve(Movement::ForwardX, 10);
    m.process_input(&vec![Key::H], false, 1);
    assert!(m.animation.is_running);
    let ops = m.process_input(&vec![], false, 1_000);
    assert_eq!(ops, vec![(Op::Run(Command::SlideXF), 0)]);
    for (op, t) in ops {
        m.apply(op, t);
    }
    // A slide of no time still makes the next curved slide start afresh.
    assert!(m.curve.should_reset);
    assert!(!m.animation.is_running);
}
