use vstd::prelude::*;

use crate::input::{requested, requested_ops, Bindings, Key, Op};
use crate::model_pos::{timed, with_time, ModelPosition, Turn};
use crate::config::{BASE_SPEED, CIRCLE_SPEED, ROTATION_SPEED, SCALE_SPEED};
use crate::motion::Axis;
use crate::space::{Point, UNIT};

verus! {

/// Default field of view: 45 degrees, in thousandths of a degree.
pub const ZOOM: i64 = 45_000;

/// Narrowest field of view: one degree.
pub const MIN_ZOOM: i64 = 1_000;

/// Widest field of view: 45 degrees.
pub const MAX_ZOOM: i64 = 45_000;

/// Default mouse sensitivity: each thousandth of a pixel of mouse travel
/// turns the camera as far as five microseconds of turning at the rotation
/// speed (five milliseconds per pixel).
pub const SENSITIVITY: u32 = 5;

/// Where the scene's camera starts: one unit up and twenty units back.
pub open spec fn scene_start() -> Point {
    Point { x: 0, y: UNIT, z: (20 * UNIT) as i64 }
}

/// The viewer: a pose, a field of view and a mouse sensitivity.
///
/// `zoom` is the field of view in thousandths of a degree; `sensitivity`
/// is in microseconds of turning per thousandth of a pixel of mouse travel.
#[derive(Debug)]
pub struct Camera {
    pub zoom: i64,
    pub sensitivity: u32,
    pub model_pos: ModelPosition,
}

/// The turn about `axis` at `speed` for `pixels` thousandths of a pixel of
/// mouse travel at `sensitivity`.
pub open spec fn mouse_turn(axis: Axis, speed: i32, pixels: int, sensitivity: u32) -> Turn {
    Turn { axis, angle: (speed * (pixels * sensitivity)) as i128 }
}

/// The field of view after a scroll of `offset`: moved by the scroll only
/// while within its range, then held to it.
pub open spec fn scrolled(zoom: int, offset: int) -> int {
    let z = if MIN_ZOOM <= zoom <= MAX_ZOOM { zoom - offset } else { zoom };
    if z <= MIN_ZOOM {
        MIN_ZOOM as int
    } else if z >= MAX_ZOOM {
        MAX_ZOOM as int
    } else {
        z
    }
}

impl Default for Camera {
    fn default() -> (r: Camera)
        ensures
            r.zoom == ZOOM,
            r.sensitivity == SENSITIVITY,
            r.model_pos.wf(),
            r.model_pos.translation == (Point { x: 0, y: 0, z: 0 }),
            r.model_pos.scale == UNIT,
            !r.model_pos.is_selected,
            r.model_pos.config.base_speed == BASE_SPEED,
            r.model_pos.config.rotation_speed == ROTATION_SPEED,
            r.model_pos.config.circle_speed == CIRCLE_SPEED,
            r.model_pos.config.scale_speed == SCALE_SPEED,
            r.model_pos.config.command_list@.len() == 0,
            r.model_pos.curve.should_reset,
            !r.model_pos.animation.is_running,
            !r.model_pos.script_key_held,
    {
        Camera { zoom: ZOOM, sensitivity: SENSITIVITY, model_pos: ModelPosition::default() }
    }
}

impl Camera {
    /// The camera of a scene: the default camera, placed at
    /// `scene_start()`.
    pub fn for_scene() -> (r: Camera)
        ensures
            r.zoom == ZOOM,
            r.sensitivity == SENSITIVITY,
            r.model_pos.wf(),
            r.model_pos.translation == scene_start(),
            r.model_pos.scale == UNIT,
            !r.model_pos.is_selected,
            r.model_pos.config.base_speed == BASE_SPEED,
            r.model_pos.config.rotation_speed == ROTATION_SPEED,
            r.model_pos.config.circle_speed == CIRCLE_SPEED,
            r.model_pos.config.scale_speed == SCALE_SPEED,
            r.model_pos.config.command_list@.len() == 0,
            r.model_pos.curve.should_reset,
            !r.model_pos.animation.is_running,
            !r.model_pos.script_key_held,
    {
        let mut c = Camera::default();
        c.model_pos.translation = Point { x: 0, y: UNIT, z: 20 * UNIT };
        c
    }

    /// The operations that the held keys `pressed` request of the camera
    /// during `delta_time`, in the order of the camera's key table.
    pub fn process_input(&self, pressed: &Vec<Key>, shift: bool, delta_time: u64) -> (r: Vec<(Op, u64)>)
        ensures
            r@ == timed(requested(Bindings::Camera, pressed@, shift), delta_time),
    {
        with_time(&requested_ops(Bindings::Camera, pressed, shift), delta_time)
    }

    /// The turns for a mouse movement of `xoffset` thousandths of a pixel to
    /// the right and `yoffset` thousandths of a pixel up: first the pitch about the camera's own X axis,
    /// then the yaw about its own Y axis. The caller composes both onto the
    /// orientation and then clears the roll.
    pub fn process_mouse_movement(&self, xoffset: i32, yoffset: i32) -> (r: (Turn, Turn))
        ensures
            r.0 == mouse_turn(Axis::X, self.model_pos.config.rotation_speed, -yoffset, self.sensitivity),
            r.1 == mouse_turn(Axis::Y, self.model_pos.config.rotation_speed, xoffset as int, self.sensitivity),
    {
        let speed = self.model_pos.config.rotation_speed;
        let pitch = mouse_angle(speed, -(yoffset as i64), self.sensitivity);
        let yaw = mouse_angle(speed, xoffset as i64, self.sensitivity);
        (Turn { axis: Axis::X, angle: pitch }, Turn { axis: Axis::Y, angle: yaw })
    }

    /// Narrows the field of view by a scroll of `yoffset` thousandths of a
    /// degree, keeping it between one and 45 degrees.
    pub fn process_mouse_scroll(&mut self, yoffset: i64)
        ensures
            final(self).zoom == scrolled(old(self).zoom as int, yoffset as int),
            final(self).sensitivity == old(self).sensitivity,
            final(self).model_pos == old(self).model_pos,
    {
        let mut z: i128 = self.zoom as i128;
        if MIN_ZOOM as i128 <= z && z <= MAX_ZOOM as i128 {
            z = z - yoffset as i128;
        }
        if z <= MIN_ZOOM as i128 {
            z = MIN_ZOOM as i128;
        }
        if z >= MAX_ZOOM as i128 {
            z = MAX_ZOOM as i128;
        }
        self.zoom = z as i64;
    }
}

fn mouse_angle(speed: i32, pixels: i64, sensitivity: u32) -> (r: i128)
    requires
        -0x8000_0000 <= pixels <= 0x8000_0000,
    ensures
        r == speed * (pixels * sensitivity),
{
    proof {
        assert(-0x8000_0000 * 0x1_0000_0000 <= pixels * sensitivity <= 0x8000_0000 * 0x1_0000_0000)
            by (nonlinear_arith)
            requires
                -0x8000_0000 <= pixels <= 0x8000_0000,
                0 <= sensitivity < 0x1_0000_0000,
        ;
        let p = pixels * sensitivity;
        assert(-0x8000_0000 * 0x8000_0000_0000_0000 <= speed * p <= 0x8000_0000 * 0x8000_0000_0000_0000)
            by (nonlinear_arith)
            requires
                -0x8000_0000 <= speed < 0x8000_0000,
                -0x8000_0000_0000_0000 <= p <= 0x8000_0000_0000_0000,
        ;
    }
    speed as i128 * (pixels as i128 * sensitivity as i128)
}

} // verus!
