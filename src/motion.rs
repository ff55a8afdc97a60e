use vstd::prelude::*;

verus! {

/// One of the three world (or local) axes.
#[derive(Clone, Copy, Debug, PartialEq, Eq, Structural)]
pub enum Axis {
    X,
    Y,
    Z,
}

/// An axis together with a sense along it.
#[derive(Clone, Copy, Debug, PartialEq, Eq, Structural)]
pub enum Movement {
    ForwardX,
    BackwardX,
    ForwardY,
    BackwardY,
    ForwardZ,
    BackwardZ,
}

impl Movement {
    pub open spec fn axis_spec(&self) -> Axis {
        match self {
            Movement::ForwardX | Movement::BackwardX => Axis::X,
            Movement::ForwardY | Movement::BackwardY => Axis::Y,
            Movement::ForwardZ | Movement::BackwardZ => Axis::Z,
        }
    }

    pub open spec fn is_forward_spec(&self) -> bool {
        match self {
            Movement::ForwardX | Movement::ForwardY | Movement::ForwardZ => true,
            _ => false,
        }
    }

    /// `1` for a forward movement, `-1` for a backward one.
    pub open spec fn sign(self) -> int {
        if self.is_forward_spec() {
            1
        } else {
            -1
        }
    }

    /// The axis that this movement runs along.
    #[verifier::when_used_as_spec(axis_spec)]
    pub fn axis(&self) -> (r: Axis)
        ensures
            r == self.axis_spec(),
    {
        match self {
            Movement::ForwardX | Movement::BackwardX => Axis::X,
            Movement::ForwardY | Movement::BackwardY => Axis::Y,
            Movement::ForwardZ | Movement::BackwardZ => Axis::Z,
        }
    }

    /// Whether this movement runs in the positive sense of its axis.
    #[verifier::when_used_as_spec(is_forward_spec)]
    pub fn is_forward(&self) -> (r: bool)
        ensures
            r == self.is_forward_spec(),
    {
        match self {
            Movement::ForwardX | Movement::ForwardY | Movement::ForwardZ => true,
            _ => false,
        }
    }
}

/// A scripted command, as it stands in an animation script.
#[derive(Clone, Copy, Debug, PartialEq, Eq, Structural)]
pub enum Command {
    ScaleU,
    ScaleD,

    SlideXF,
    SlideXB,
    SlideYF,
    SlideYB,
    SlideZF,
    SlideZB,

    CurveXF,
    CurveXB,
    CurveYF,
    CurveYB,
    CurveZF,
    CurveZB,

    RotateXF,
    RotateXB,
    RotateYF,
    RotateYB,
    RotateZF,
    RotateZB,
}

/// The primitive pose operation that a command stands for.
#[derive(Clone, Copy, Debug, PartialEq, Eq, Structural)]
pub enum Primitive {
    ScaleUp,
    ScaleDown,
    Slide(Movement),
    Curve(Movement),
    Rotate(Movement),
}

/// The dispatch table from commands to primitive operations.
pub open spec fn primitive_of(c: Command) -> Primitive {
    match c {
        Command::ScaleU => Primitive::ScaleUp,
        Command::ScaleD => Primitive::ScaleDown,
        Command::SlideXF => Primitive::Slide(Movement::ForwardX),
        Command::SlideXB => Primitive::Slide(Movement::BackwardX),
        Command::SlideYF => Primitive::Slide(Movement::ForwardY),
        Command::SlideYB => Primitive::Slide(Movement::BackwardY),
        Command::SlideZF => Primitive::Slide(Movement::ForwardZ),
        Command::SlideZB => Primitive::Slide(Movement::BackwardZ),
        Command::CurveXF => Primitive::Curve(Movement::ForwardX),
        Command::CurveXB => Primitive::Curve(Movement::BackwardX),
        Command::CurveYF => Primitive::Curve(Movement::ForwardY),
        Command::CurveYB => Primitive::Curve(Movement::BackwardY),
        Command::CurveZF => Primitive::Curve(Movement::ForwardZ),
        Command::CurveZB => Primitive::Curve(Movement::BackwardZ),
        Command::RotateXF => Primitive::Rotate(Movement::ForwardX),
        Command::RotateXB => Primitive::Rotate(Movement::BackwardX),
        Command::RotateYF => Primitive::Rotate(Movement::ForwardY),
        Command::RotateYB => Primitive::Rotate(Movement::BackwardY),
        Command::RotateZF => Primitive::Rotate(Movement::ForwardZ),
        Command::RotateZB => Primitive::Rotate(Movement::BackwardZ),
    }
}

impl Command {
    /// The primitive operation that this command runs.
    pub fn primitive(&self) -> (r: Primitive)
        ensures
            r == primitive_of(*self),
    {
        match self {
            Command::ScaleU => Primitive::ScaleUp,
            Command::ScaleD => Primitive::ScaleDown,
            Command::SlideXF => Primitive::Slide(Movement::ForwardX),
            Command::SlideXB => Primitive::Slide(Movement::BackwardX),
            Command::SlideYF => Primitive::Slide(Movement::ForwardY),
            Command::SlideYB => Primitive::Slide(Movement::BackwardY),
            Command::SlideZF => Primitive::Slide(Movement::ForwardZ),
            Command::SlideZB => Primitive::Slide(Movement::BackwardZ),
            Command::CurveXF => Primitive::Curve(Movement::ForwardX),
            Command::CurveXB => Primitive::Curve(Movement::BackwardX),
            Command::CurveYF => Primitive::Curve(Movement::ForwardY),
            Command::CurveYB => Primitive::Curve(Movement::BackwardY),
            Command::CurveZF => Primitive::Curve(Movement::ForwardZ),
            Command::CurveZB => Primitive::Curve(Movement::BackwardZ),
            Command::RotateXF => Primitive::Rotate(Movement::ForwardX),
            Command::RotateXB => Primitive::Rotate(Movement::BackwardX),
            Command::RotateYF => Primitive::Rotate(Movement::ForwardY),
            Command::RotateYB => Primitive::Rotate(Movement::BackwardY),
            Command::RotateZF => Primitive::Rotate(Movement::ForwardZ),
            Command::RotateZB => Primitive::Rotate(Movement::BackwardZ),
        }
    }
}

} // verus!
