use vstd::prelude::*;

use crate::motion::{Command, Movement};
use crate::space::{Point, UNIT};

verus! {

/// The keys that scene objects respond to.
#[derive(Clone, Copy, Debug, PartialEq, Eq, Structural)]
pub enum Key {
    W,
    A,
    S,
    D,
    Q,
    E,
    R,
    G,
    V,
    Z,
    X,
    C,
    H,
    K,
    Up,
    Down,
    Left,
    Right,
}

/// A pose operation requested by input.
#[derive(Clone, Copy, Debug, PartialEq, Eq, Structural)]
pub enum Op {
    /// Run a command, as a script would.
    Run(Command),
    /// Turn at once to face `target`, with `up` as the upward direction.
    LookAt { target: Point, up: Point },
    /// Orbit around `pivot`, about the axis of `direction`.
    Orbit { direction: Movement, pivot: Point },
}

/// Which table of bindings applies.
#[derive(Clone, Copy, Debug, PartialEq, Eq, Structural)]
pub enum Bindings {
    Model,
    Camera,
}

pub open spec fn origin() -> Point {
    Point { x: 0, y: 0, z: 0 }
}

/// The upward direction of the world.
pub open spec fn world_up() -> Point {
    Point { x: 0, y: UNIT, z: 0 }
}

/// A point two units above the origin.
pub open spec fn raised() -> Point {
    Point { x: 0, y: (2 * UNIT) as i64, z: 0 }
}

/// The operation bound to `k` for a scene object; `shift` selects the
/// alternate binding.
pub open spec fn model_binding(k: Key, shift: bool) -> Option<Op> {
    match k {
        Key::W => Some(Op::Run(if shift { Command::CurveZF } else { Command::SlideZF })),
        Key::A => Some(Op::Run(if shift { Command::CurveXB } else { Command::SlideXB })),
        Key::S => Some(Op::Run(if shift { Command::CurveZB } else { Command::SlideZB })),
        Key::D => Some(Op::Run(if shift { Command::CurveXF } else { Command::SlideXF })),
        Key::Q => Some(Op::Run(if shift { Command::CurveYF } else { Command::SlideYF })),
        Key::E => Some(Op::Run(if shift { Command::CurveYB } else { Command::SlideYB })),
        Key::R => Some(Op::Run(if shift { Command::ScaleD } else { Command::ScaleU })),
        Key::G => Some(Op::LookAt { target: if shift { raised() } else { origin() }, up: world_up() }),
        Key::V => Some(
            Op::Orbit {
                direction: if shift { Movement::BackwardY } else { Movement::ForwardY },
                pivot: origin(),
            },
        ),
        Key::Z => Some(Op::Run(if shift { Command::RotateZB } else { Command::RotateZF })),
        Key::X => Some(Op::Run(if shift { Command::RotateXB } else { Command::RotateXF })),
        Key::C => Some(Op::Run(if shift { Command::RotateYB } else { Command::RotateYF })),
        _ => None,
    }
}

/// The operation bound to `k` for the camera; `shift` selects the alternate
/// binding.
pub open spec fn camera_binding(k: Key, shift: bool) -> Option<Op> {
    match k {
        Key::Up => Some(
            if shift { Op::Run(Command::SlideZB) } else { Op::Orbit { direction: Movement::BackwardX, pivot: origin() } },
        ),
        Key::Down => Some(
            if shift { Op::Run(Command::SlideZF) } else { Op::Orbit { direction: Movement::ForwardX, pivot: origin() } },
        ),
        Key::Left => Some(
            if shift { Op::Run(Command::SlideXB) } else { Op::Orbit { direction: Movement::BackwardY, pivot: origin() } },
        ),
        Key::Right => Some(
            if shift { Op::Run(Command::SlideXF) } else { Op::Orbit { direction: Movement::ForwardY, pivot: origin() } },
        ),
        Key::K => Some(Op::LookAt { target: origin(), up: world_up() }),
        _ => None,
    }
}

pub open spec fn binding(b: Bindings, k: Key, shift: bool) -> Option<Op> {
    match b {
        Bindings::Model => model_binding(k, shift),
        Bindings::Camera => camera_binding(k, shift),
    }
}

/// The order in which a table's keys are read.
pub open spec fn key_order(b: Bindings) -> Seq<Key> {
    match b {
        Bindings::Model => seq![
            Key::W, Key::A, Key::S, Key::D, Key::Q, Key::E,
            Key::R, Key::G, Key::V, Key::Z, Key::X, Key::C,
        ],
        Bindings::Camera => seq![Key::Up, Key::Down, Key::Left, Key::Right, Key::K],
    }
}

/// The operations of the keys of `order` that are held, in that order.
pub open spec fn held_ops(b: Bindings, order: Seq<Key>, pressed: Seq<Key>, shift: bool) -> Seq<Op>
    decreases order.len(),
{
    if order.len() == 0 {
        seq![]
    } else {
        let k = order.last();
        let before = held_ops(b, order.drop_last(), pressed, shift);
        if pressed.contains(k) && binding(b, k, shift) is Some {
            before.push(binding(b, k, shift)->0)
        } else {
            before
        }
    }
}

/// The operations that the held keys `pressed` request from table `b`.
pub open spec fn requested(b: Bindings, pressed: Seq<Key>, shift: bool) -> Seq<Op> {
    held_ops(b, key_order(b), pressed, shift)
}

/// Whether `k` is among `pressed`.
pub fn is_held(pressed: &Vec<Key>, k: Key) -> (r: bool)
    ensures
        r == pressed@.contains(k),
{
    let mut i: usize = 0;
    while i < pressed.len()
        invariant
            i <= pressed@.len(),
            forall|j: int| 0 <= j < i ==> pressed@[j] != k,
        decreases pressed.len() - i,
    {
        if pressed[i] == k {
            return true;
        }
        i = i + 1;
    }
    false
}

fn key_order_of(b: Bindings) -> (r: Vec<Key>)
    ensures
        r@ == key_order(b),
{
    let r = match b {
        Bindings::Model => vec![
            Key::W, Key::A, Key::S, Key::D, Key::Q, Key::E,
            Key::R, Key::G, Key::V, Key::Z, Key::X, Key::C,
        ],
        Bindings::Camera => vec![Key::Up, Key::Down, Key::Left, Key::Right, Key::K],
    };
    proof {
        assert(r@ =~= key_order(b));
    }
    r
}

/// The operation that table `b` binds to `k`.
pub fn binding_of(b: Bindings, k: Key, shift: bool) -> (r: Option<Op>)
    ensures
        r == binding(b, k, shift),
{
    let o = Point { x: 0, y: 0, z: 0 };
    let up = Point { x: 0, y: UNIT, z: 0 };
    match b {
        Bindings::Model => match k {
            Key::W => Some(Op::Run(if shift { Command::CurveZF } else { Command::SlideZF })),
            Key::A => Some(Op::Run(if shift { Command::CurveXB } else { Command::SlideXB })),
            Key::S => Some(Op::Run(if shift { Command::CurveZB } else { Command::SlideZB })),
            Key::D => Some(Op::Run(if shift { Command::CurveXF } else { Command::SlideXF })),
            Key::Q => Some(Op::Run(if shift { Command::CurveYF } else { Command::SlideYF })),
            Key::E => Some(Op::Run(if shift { Command::CurveYB } else { Command::SlideYB })),
            Key::R => Some(Op::Run(if shift { Command::ScaleD } else { Command::ScaleU })),
            Key::G => Some(Op::LookAt {
                target: if shift { Point { x: 0, y: 2 * UNIT, z: 0 } } else { o },
                up,
            }),
            Key::V => Some(Op::Orbit {
                direction: if shift { Movement::BackwardY } else { Movement::ForwardY },
                pivot: o,
            }),
            Key::Z => Some(Op::Run(if shift { Command::RotateZB } else { Command::RotateZF })),
            Key::X => Some(Op::Run(if shift { Command::RotateXB } else { Command::RotateXF })),
            Key::C => Some(Op::Run(if shift { Command::RotateYB } else { Command::RotateYF })),
            _ => None,
        },
        Bindings::Camera => match k {
            Key::Up => Some(if shift { Op::Run(Command::SlideZB) } else {
                Op::Orbit { direction: Movement::BackwardX, pivot: o }
            }),
            Key::Down => Some(if shift { Op::Run(Command::SlideZF) } else {
                Op::Orbit { direction: Movement::ForwardX, pivot: o }
            }),
            Key::Left => Some(if shift { Op::Run(Command::SlideXB) } else {
                Op::Orbit { direction: Movement::BackwardY, pivot: o }
            }),
            Key::Right => Some(if shift { Op::Run(Command::SlideXF) } else {
                Op::Orbit { direction: Movement::ForwardY, pivot: o }
            }),
            Key::K => Some(Op::LookAt { target: o, up }),
            _ => None,
        },
    }
}

/// The operations that the held keys `pressed` request from table `b`, in
/// the table's order, each once however often its key is listed.
pub fn requested_ops(b: Bindings, pressed: &Vec<Key>, shift: bool) -> (r: Vec<Op>)
    ensures
        r@ == requested(b, pressed@, shift),
{
    let order = key_order_of(b);
    let mut r: Vec<Op> = Vec::new();
    let mut i: usize = 0;
    while i < order.len()
        invariant
            i <= order@.len(),
            order@ == key_order(b),
            r@ == held_ops(b, order@.take(i as int), pressed@, shift),
        decreases order.len() - i,
    {
        let k = order[i];
        proof {
            assert(order@.take(i + 1).drop_last() =~= order@.take(i as int));
            assert(order@.take(i + 1).last() == k);
        }
        if is_held(pressed, k) {
            match binding_of(b, k, shift) {
                Some(op) => r.push(op),
                None => {},
            }
        }
        i = i + 1;
    }
    proof {
        assert(order@.take(order@.len() as int) =~= order@);
    }
    r
}

} // verus!
