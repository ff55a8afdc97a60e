use vstd::prelude::*;

use crate::animation::{emitted, remaining, Animation, Entry};
use crate::config::Configuration;
use crate::curve::{slid, CurveControl, CurveState};
use crate::input::{is_held, requested, requested_ops, Bindings, Key, Op};
use crate::motion::{primitive_of, Axis, Command, Movement, Primitive};
use crate::space::{clamp_i64, saturating_offset, travel, travel_of, Offset, Point, UNIT};

verus! {

/// A turn about an axis, in nanodegrees.
#[derive(Clone, Copy, Debug, PartialEq, Eq, Structural)]
pub struct Turn {
    pub axis: Axis,
    pub angle: i128,
}

/// The turn along `d` at `speed` thousandths of a degree per second during
/// `time` microseconds.
pub open spec fn turn_spec(d: Movement, speed: i32, time: u64) -> Turn {
    Turn { axis: d.axis(), angle: (d.sign() * travel(speed, time)) as i128 }
}

/// The turn along `d` at `speed` during `time`.
pub fn turn_of(d: Movement, speed: i32, time: u64) -> (r: Turn)
    ensures
        r == turn_spec(d, speed, time),
{
    let t = travel_of(speed, time);
    Turn { axis: d.axis(), angle: if d.is_forward() { t } else { -t } }
}

/// The movement along the same axis in the other sense.
pub open spec fn opposite(d: Movement) -> Movement {
    match d {
        Movement::ForwardX => Movement::BackwardX,
        Movement::BackwardX => Movement::ForwardX,
        Movement::ForwardY => Movement::BackwardY,
        Movement::BackwardY => Movement::ForwardY,
        Movement::ForwardZ => Movement::BackwardZ,
        Movement::BackwardZ => Movement::ForwardZ,
    }
}

/// Two turns of equal time along one axis in opposite senses are about the
/// same axis and by opposite angles, so that together they leave an
/// orientation as it was.
pub proof fn opposite_turns_cancel(d: Movement, speed: i32, time: u64)
    ensures
        turn_spec(d, speed, time).axis == turn_spec(opposite(d), speed, time).axis,
        turn_spec(d, speed, time).angle + turn_spec(opposite(d), speed, time).angle == 0,
{
    let t = travel(speed, time);
    assert(-0x8000_0000 * 0x1_0000_0000_0000_0000 <= speed * time
        <= 0x8000_0000 * 0x1_0000_0000_0000_0000) by (nonlinear_arith)
        requires
            -0x8000_0000 <= speed < 0x8000_0000,
            0 <= time < 0x1_0000_0000_0000_0000,
    ;
}

/// Work on the floating-point part of the pose (its orientation, and
/// positions that follow from turns or curves) that an operation leaves to
/// the caller.
#[derive(Clone, Copy, Debug, PartialEq, Eq, Structural)]
pub enum Effect {
    /// Nothing is left to do.
    Done,
    /// Compose the turn onto the orientation, in the object's own frame.
    Turn(Turn),
    /// Turn the translation about `pivot` by the turn, about a world axis.
    Orbit { turn: Turn, pivot: Point },
    /// Set the orientation to look along `direction`, with `up` upward.
    Aim { direction: Offset, up: Point },
    /// Sample the curve keys at `time` microseconds and take the point as
    /// the translation; where the keys give no point, keep the translation.
    Curve { time: u64 },
}

/// The exact part of a pose.
pub ghost struct Pose {
    pub translation: Point,
    pub scale: i64,
    pub curve: CurveState,
}

/// The pose after primitive `p` lasting `dt`, and the work it leaves.
pub open spec fn after_primitive(m: Pose, cfg: Configuration, p: Primitive, dt: u64) -> (Pose, Effect) {
    match p {
        Primitive::ScaleUp => (
            Pose { scale: clamp_i64(m.scale + travel(cfg.scale_speed, dt)) as i64, ..m },
            Effect::Done,
        ),
        Primitive::ScaleDown => (
            Pose { scale: clamp_i64(m.scale - travel(cfg.scale_speed, dt)) as i64, ..m },
            Effect::Done,
        ),
        Primitive::Slide(d) => (
            Pose {
                translation: m.translation.shifted_spec(d.axis(), d.sign() * travel(cfg.base_speed, dt)),
                scale: m.scale,
                curve: CurveState { should_reset: true, ..m.curve },
            },
            Effect::Done,
        ),
        Primitive::Curve(d) => {
            let c = slid(m.curve, m.translation, d, dt);
            (Pose { curve: c, ..m }, Effect::Curve { time: c.step })
        },
        Primitive::Rotate(d) => (m, Effect::Turn(turn_spec(d, cfg.rotation_speed, dt))),
    }
}

/// The work of turning to face `target` from `from`: none when the two
/// coincide.
pub open spec fn aim_at(from: Point, target: Point, up: Point) -> Effect {
    if target == from {
        Effect::Done
    } else {
        Effect::Aim {
            direction: Offset {
                x: (target.x - from.x) as i128,
                y: (target.y - from.y) as i128,
                z: (target.z - from.z) as i128,
            },
            up,
        }
    }
}

/// The operations of a script slice, each with its time.
pub open spec fn scripted(es: Seq<Entry>) -> Seq<(Op, u64)> {
    es.map_values(|e: Entry| (Op::Run(e.0), e.1))
}

/// Operations that all last `dt`.
pub open spec fn timed(ops: Seq<Op>, dt: u64) -> Seq<(Op, u64)> {
    ops.map_values(|o: Op| (o, dt))
}

/// Each of `ops` paired with `delta_time`.
pub fn with_time(ops: &Vec<Op>, delta_time: u64) -> (r: Vec<(Op, u64)>)
    ensures
        r@ == timed(ops@, delta_time),
{
    let mut r: Vec<(Op, u64)> = Vec::new();
    let mut i: usize = 0;
    while i < ops.len()
        invariant
            i <= ops@.len(),
            r@ == timed(ops@.take(i as int), delta_time),
        decreases ops.len() - i,
    {
        r.push((ops[i], delta_time));
        i = i + 1;
        proof {
            assert(r@ =~= timed(ops@.take(i as int), delta_time));
        }
    }
    proof {
        assert(ops@.take(ops@.len() as int) =~= ops@);
    }
    r
}

/// The pose of one scene object and what drives it: its configuration, its
/// curve controller and its animation player.
///
/// The translation and the scale are in nanounits. The orientation is a
/// floating-point quaternion that the caller keeps; operations that affect
/// it return an `Effect`.
#[derive(Debug)]
pub struct ModelPosition {
    pub translation: Point,
    pub scale: i64,
    pub is_selected: bool,
    pub config: Configuration,
    pub curve: CurveControl,
    pub animation: Animation,
    /// Whether the key that starts the script was held at the last reading.
    pub script_key_held: bool,
}

impl Default for ModelPosition {
    /// At the origin, unit scale, not selected, default configuration.
    fn default() -> (r: ModelPosition)
        ensures
            r.wf(),
            r.translation == (Point { x: 0, y: 0, z: 0 }),
            r.scale == UNIT,
            !r.is_selected,
            r.config.base_speed == crate::config::BASE_SPEED,
            r.config.rotation_speed == crate::config::ROTATION_SPEED,
            r.config.circle_speed == crate::config::CIRCLE_SPEED,
            r.config.scale_speed == crate::config::SCALE_SPEED,
            r.config.command_list@.len() == 0,
            r.curve.should_reset,
            !r.animation.is_running,
            !r.script_key_held,
    {
        ModelPosition::with_config(Configuration::default())
    }
}

impl ModelPosition {
    pub open spec fn wf(&self) -> bool {
        self.animation.wf()
    }

    pub open spec fn pose(&self) -> Pose {
        Pose { translation: self.translation, scale: self.scale, curve: self.curve@ }
    }

    /// Everything but the selection is as in `o`.
    pub open spec fn keeps_pose(&self, o: ModelPosition) -> bool {
        &&& self.pose() == o.pose()
        &&& self.config == o.config
        &&& self.animation.is_running == o.animation.is_running
        &&& self.animation.command_pool@ == o.animation.command_pool@
        &&& self.script_key_held == o.script_key_held
    }

    /// Everything but the pose is as in `o`.
    pub open spec fn keeps_settings(&self, o: &ModelPosition) -> bool {
        &&& self.is_selected == o.is_selected
        &&& self.config == o.config
        &&& self.animation.is_running == o.animation.is_running
        &&& self.animation.command_pool@ == o.animation.command_pool@
        &&& self.script_key_held == o.script_key_held
    }

    /// A scene object at the origin with unit scale, driven by `config`.
    pub fn with_config(config: Configuration) -> (r: ModelPosition)
        ensures
            r.wf(),
            r.translation == (Point { x: 0, y: 0, z: 0 }),
            r.scale == UNIT,
            !r.is_selected,
            r.config == config,
            r.curve.should_reset,
            !r.animation.is_running,
            !r.script_key_held,
    {
        ModelPosition {
            translation: Point::origin(),
            scale: UNIT,
            is_selected: false,
            config,
            curve: CurveControl::new(),
            animation: Animation::new(),
            script_key_held: false,
        }
    }

    /// Grows by the scale speed over `delta_time`.
    pub fn scale_up(&mut self, delta_time: u64)
        ensures
            final(self).scale == clamp_i64(old(self).scale + travel(old(self).config.scale_speed, delta_time)),
            final(self).translation == old(self).translation,
            final(self).curve@ == old(self).curve@,
            final(self).keeps_settings(old(self)),
    {
        let d = travel_of(self.config.scale_speed, delta_time);
        self.scale = saturating_offset(self.scale, d);
    }

    /// Shrinks by the scale speed over `delta_time`; the scale is not held
    /// above zero.
    pub fn scale_down(&mut self, delta_time: u64)
        ensures
            final(self).scale == clamp_i64(old(self).scale - travel(old(self).config.scale_speed, delta_time)),
            final(self).translation == old(self).translation,
            final(self).curve@ == old(self).curve@,
            final(self).keeps_settings(old(self)),
    {
        let d = travel_of(self.config.scale_speed, delta_time);
        self.scale = saturating_offset(self.scale, -d);
    }

    /// Moves along `direction` at the base speed over `delta_time`, and makes
    /// the next curved slide start afresh from the new position.
    pub fn slide(&mut self, direction: Movement, delta_time: u64)
        ensures
            final(self).translation == old(self).translation.shifted_spec(
                direction.axis(),
                direction.sign() * travel(old(self).config.base_speed, delta_time),
            ),
            final(self).scale == old(self).scale,
            final(self).curve@ == (CurveState { should_reset: true, ..old(self).curve@ }),
            final(self).keeps_settings(old(self)),
    {
        let d = travel_of(self.config.base_speed, delta_time);
        let step = if direction.is_forward() { d } else { -d };
        self.translation = self.translation.shifted(direction.axis(), step);
        self.curve.reset();
    }

    /// The turn, in the object's own frame, along `direction` at the
    /// rotation speed over `delta_time`.
    pub fn rotate(&self, direction: Movement, delta_time: u64) -> (r: Turn)
        ensures
            r == turn_spec(direction, self.config.rotation_speed, delta_time),
    {
        turn_of(direction, self.config.rotation_speed, delta_time)
    }

    /// Starts an orbit around `pivot` about the world axis of `direction`
    /// at the circle speed over `delta_time`, and makes the next curved slide
    /// start afresh. The returned work turns the translation.
    pub fn rotate_around(&mut self, direction: Movement, pivot: Point, delta_time: u64) -> (r: Effect)
        ensures
            r == (Effect::Orbit { turn: turn_spec(direction, old(self).config.circle_speed, delta_time), pivot }),
            final(self).translation == old(self).translation,
            final(self).scale == old(self).scale,
            final(self).curve@ == (CurveState { should_reset: true, ..old(self).curve@ }),
            final(self).keeps_settings(old(self)),
    {
        let turn = turn_of(direction, self.config.circle_speed, delta_time);
        self.curve.reset();
        Effect::Orbit { turn, pivot }
    }

    /// Turns at once to face `target`. Facing the point one stands on is no
    /// direction at all, and leaves the orientation as it is.
    pub fn look_at(&self, target: Point, up: Point) -> (r: Effect)
        ensures
            r == aim_at(self.translation, target, up),
    {
        if target == self.translation {
            Effect::Done
        } else {
            Effect::Aim { direction: self.translation.offset_to(&target), up }
        }
    }

    /// Advances a curved slide along `direction` by `delta_time`. The
    /// returned work samples the curve keys and moves the object there.
    pub fn slide_curve(&mut self, direction: Movement, delta_time: u64) -> (r: Effect)
        ensures
            final(self).curve@ == slid(old(self).curve@, old(self).translation, direction, delta_time),
            r == (Effect::Curve { time: final(self).curve.step }),
            final(self).translation == old(self).translation,
            final(self).scale == old(self).scale,
            final(self).keeps_settings(old(self)),
    {
        let time = self.curve.slide(self.translation, direction, delta_time);
        Effect::Curve { time }
    }

    /// Runs the primitive operation that command `c` stands for.
    pub fn run_command(&mut self, c: Command, delta_time: u64) -> (r: Effect)
        ensures
            final(self).pose() == after_primitive(old(self).pose(), old(self).config, primitive_of(c), delta_time).0,
            r == after_primitive(old(self).pose(), old(self).config, primitive_of(c), delta_time).1,
            final(self).keeps_settings(old(self)),
    {
        match c.primitive() {
            Primitive::ScaleUp => {
                self.scale_up(delta_time);
                Effect::Done
            },
            Primitive::ScaleDown => {
                self.scale_down(delta_time);
                Effect::Done
            },
            Primitive::Slide(d) => {
                self.slide(d, delta_time);
                Effect::Done
            },
            Primitive::Curve(d) => self.slide_curve(d, delta_time),
            Primitive::Rotate(d) => Effect::Turn(self.rotate(d, delta_time)),
        }
    }

    /// Performs an operation requested by input or by a script.
    pub fn apply(&mut self, op: Op, delta_time: u64) -> (r: Effect)
        ensures
            final(self).keeps_settings(old(self)),
            match op {
                Op::Run(c) => {
                    &&& final(self).pose() == after_primitive(old(self).pose(), old(self).config, primitive_of(c), delta_time).0
                    &&& r == after_primitive(old(self).pose(), old(self).config, primitive_of(c), delta_time).1
                },
                Op::LookAt { target, up } => {
                    &&& final(self).pose() == old(self).pose()
                    &&& r == aim_at(old(self).translation, target, up)
                },
                Op::Orbit { direction, pivot } => {
                    &&& r == (Effect::Orbit { turn: turn_spec(direction, old(self).config.circle_speed, delta_time), pivot })
                    &&& final(self).pose() == (Pose { curve: CurveState { should_reset: true, ..old(self).curve@ }, ..old(self).pose() })
                },
            },
    {
        match op {
            Op::Run(c) => self.run_command(c, delta_time),
            Op::LookAt { target, up } => self.look_at(target, up),
            Op::Orbit { direction, pivot } => self.rotate_around(direction, pivot, delta_time),
        }
    }

    /// Decides what this object does in a frame of `delta_time` in which the
    /// keys `pressed` are held (`shift` selecting the alternate bindings).
    ///
    /// While a script plays, the frame's share of the script is returned and
    /// input is ignored. Otherwise an object that is not selected does
    /// nothing, and a selected one returns the operations of its held keys
    /// in the order of its key table, and starts its script when the script
    /// key goes down. The caller performs the returned operations in order
    /// with `apply`.
    pub fn process_input(&mut self, pressed: &Vec<Key>, shift: bool, delta_time: u64) -> (r: Vec<(Op, u64)>)
        requires
            old(self).wf(),
        ensures
            final(self).wf(),
            final(self).pose() == old(self).pose(),
            final(self).is_selected == old(self).is_selected,
            final(self).config == old(self).config,
            old(self).animation.is_running ==> {
                &&& r@ == scripted(emitted(old(self).animation.command_pool@, delta_time as int))
                &&& final(self).animation.command_pool@ == remaining(
                    old(self).animation.command_pool@,
                    delta_time as int,
                )
                &&& final(self).script_key_held == old(self).script_key_held
            },
            !old(self).animation.is_running && !old(self).is_selected ==> {
                &&& r@.len() == 0
                &&& final(self).animation.command_pool@ == old(self).animation.command_pool@
                &&& final(self).script_key_held == old(self).script_key_held
            },
            !old(self).animation.is_running && old(self).is_selected ==> {
                &&& r@ == timed(requested(Bindings::Model, pressed@, shift), delta_time)
                &&& final(self).script_key_held == pressed@.contains(Key::H)
                &&& if pressed@.contains(Key::H) && !old(self).script_key_held {
                    &&& final(self).animation.command_pool@ == old(self).config.command_list@
                    &&& final(self).animation.is_running <==> old(self).config.command_list@.len() > 0
                } else {
                    final(self).animation.command_pool@ == old(self).animation.command_pool@
                }
            },
    {
        if self.animation.is_running {
            let slice = self.animation.step(delta_time);
            let mut r: Vec<(Op, u64)> = Vec::new();
            let mut i: usize = 0;
            while i < slice.len()
                invariant
                    i <= slice@.len(),
                    r@ == scripted(slice@.take(i as int)),
                decreases slice.len() - i,
            {
                let (c, t) = slice[i];
                r.push((Op::Run(c), t));
                i = i + 1;
                proof {
                    assert(r@ =~= scripted(slice@.take(i as int)));
                }
            }
            proof {
                assert(slice@.take(slice@.len() as int) =~= slice@);
            }
            return r;
        }
        if !self.is_selected {
            return Vec::new();
        }
        let r = with_time(&requested_ops(Bindings::Model, pressed, shift), delta_time);
        let script_key = is_held(pressed, Key::H);
        if script_key && !self.script_key_held {
            self.animation.start(&self.config.command_list);
        }
        self.script_key_held = script_key;
        r
    }
}

} // verus!
