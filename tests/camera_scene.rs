use cg_ufpel_project::camera::Camera;
use cg_ufpel_project::config::Configuration;
use cg_ufpel_project::input::{Key, Op};
use cg_ufpel_project::model_pos::{ModelPosition, Turn};
use cg_ufpel_project::motion::{Axis, Command, Movement};
use cg_ufpel_project::scene::{check_model_count, select_model, spawn_models, SceneError};
use cg_ufpel_project::space::Point;

const U: i64 = 1_000_000_000;

#[test]
fn camera_defaults() {
    let c = Camera::default();
    assert_eq!(c.zoom, 45_000);
    assert_eq!(c.sensitivity, 5);
}

#[test]
fn scroll_narrows_and_is_clamped() {
    let mut c = Camera::default();
    c.process_mouse_scroll(2_000);
    assert_eq!(c.zoom, 43_000);
    c.process_mouse_scroll(-10_000);
    assert_eq!(c.zoom, 45_000);
    c.process_mouse_scroll(50_000);
    assert_eq!(c.zoom, 1_000);
    c.process_mouse_scroll(i64::MIN);
    assert_eq!(c.zoom, 45_000);
}

#[test]
fn scroll_outside_the_range_only_clamps() {
    let mut c = Camera::default();
    c.zoom = 90_000;
    c.process_mouse_scroll(-1_000);
    assert_eq!(c.zoom, 45_000);
}

#[test]
fn mouse_movement_gives_pitch_then_yaw() {
    let c = Camera::default();
    let (pitch, yaw) = c.process_mouse_movement(10_000, 4_000);
    // 30 degrees per second for 4 * 5000 microseconds, downward.
    assert_eq!(pitch, Turn { axis: Axis::X, angle: -600_000_000 });
    assert_eq!(yaw, Turn { axis: Axis::Y, angle: 1_500_000_000 });
}

#[test]
fn camera_keys() {
    let c = Camera::default();
    let ops = c.process_input(&vec![Key::K, Key::Left, Key::W], false, 3);
    assert_eq!(
        ops,
        vec![
            (Op::Orbit { direction: Movement::BackwardY, pivot: Point::origin() }, 3),
            (Op::LookAt { target: Point::origin(), up: Point::new(0, U, 0) }, 3),
        ]
    );
    let ops = c.process_input(&vec![Key::Up], true, 3);
    assert_eq!(ops, vec![(Op::Run(Command::SlideZB), 3)]);
}

#[test]
fn models_are_laid_out_in_a_row() {
    let cfg = Configuration::default();
    let ms = spawn_models(&cfg, 3).unwrap();
    assert_eq!(ms.len(), 3);
    assert_eq!(ms[0].translation, Point::origin());
    assert_eq!(ms[2].translation, Point::new(4 * U, 0, 0));
    assert!(ms[0].is_selected);
    assert!(!ms[1].is_selected && !ms[2].is_selected);
}

#[test]
fn model_count_is_bounded() {
    let cfg = Configuration::default();
    assert_eq!(spawn_models(&cfg, 0).unwrap_err(), SceneError::ModelCount);
    assert_eq!(spawn_models(&cfg, 10).unwrap_err(), SceneError::ModelCount);
    assert_eq!(spawn_models(&cfg, 9).unwrap().len(), 9);
}

#[test]
fn selection_is_exclusive() {
    let mut ms: Vec<ModelPosition> = spawn_models(&Configuration::default(), 3).unwrap();
    select_model(&mut ms, 2);
    assert!(!ms[0].is_selected && !ms[1].is_selected && ms[2].is_selected);
    select_model(&mut ms, 5);
    assert!(ms.iter().all(|m| !m.is_selected));
}

#[test]
fn mouse_movement_keeps_fractions_of_a_pixel() {
    let c = Camera::default();
    let (pitch, yaw) = c.process_mouse_movement(500, -1);
    assert_eq!(pitch, Turn { axis: Axis::X, angle: 150_000 });
    assert_eq!(yaw, Turn { axis: Axis::Y, angle: 75_000_000 });
}

#[test]
fn scene_camera_starts_behind_the_origin() {
    let c = Camera::for_scene();
    assert_eq!(c.model_pos.translation, Point::new(0, U, 20 * U));
    assert_eq!(c.zoom, 45_000);
    assert_eq!(c.model_pos.scale, U);
}

#[test]
fn model_count_check_and_message() {
    assert!(check_model_count(1).is_ok());
    assert!(check_model_count(9).is_ok());
    let e = check_model_count(0).unwrap_err();
    assert_eq!(e, SceneError::ModelCount);
    assert_eq!(e.message(), "Number of models should be bigger than 0 and lower than 10");
    assert_eq!(check_model_count(10).unwrap_err(), SceneError::ModelCount);
}
