use vstd::prelude::*;

use crate::motion::{Axis, Movement};
use crate::space::Point;

verus! {

/// Duration of one curve segment, in microseconds.
pub const TIME: u64 = 2_000_000;

/// Length of a curve segment along its axis, in nanounits.
pub const MAIN_DEVIATION: i64 = 8_000_000_000;

/// Sideways bow of a curve segment, in nanounits.
pub const AUX_DEVIATION: i64 = 4_000_000_000;

/// Time of the key that pins the start tangent, in microseconds.
pub const START_PIN: i64 = -99_900_000;

/// Time of the key that pins the end tangent, in microseconds.
pub const END_PIN: i64 = 99_900_000;

/// Time of the first inner control point.
pub const NEAR_TIME: i64 = 666_000;

/// Time of the second inner control point.
pub const FAR_TIME: i64 = 1_332_000;

/// Distance along the axis of the first inner control point: a third of
/// the segment, to three places.
pub const NEAR_DEVIATION: i64 = 2_664_000_000;

/// Distance along the axis of the second inner control point: two thirds
/// of the segment, to three places.
pub const FAR_DEVIATION: i64 = 5_328_000_000;

/// One key of a curve: a time in microseconds and the point reached then.
/// Curves are sampled by Catmull-Rom interpolation between their keys.
#[derive(Clone, Copy, Debug, PartialEq, Eq, Structural)]
pub struct CurveKey {
    pub time: i64,
    pub point: Point,
}

/// The axis along which a curve moving along `a` bows.
pub open spec fn bow_axis(a: Axis) -> Axis {
    match a {
        Axis::Y => Axis::X,
        _ => Axis::Y,
    }
}

/// The keys of the curve segment that starts at `start` and heads along
/// `direction`: the start twice (pinned and at time zero), two inner points
/// bowed to either side, and the end twice (at the full duration and
/// pinned).
pub open spec fn curve_keys(start: Point, direction: Movement) -> Seq<CurveKey> {
    let a = direction.axis();
    let s = direction.sign();
    let b = bow_axis(a);
    let near = start.shifted_spec(a, s * NEAR_DEVIATION).shifted_spec(b, AUX_DEVIATION as int);
    let far = start.shifted_spec(a, s * FAR_DEVIATION).shifted_spec(b, -AUX_DEVIATION);
    let end = start.shifted_spec(a, s * MAIN_DEVIATION);
    seq![
        CurveKey { time: START_PIN, point: start },
        CurveKey { time: 0, point: start },
        CurveKey { time: NEAR_TIME, point: near },
        CurveKey { time: FAR_TIME, point: far },
        CurveKey { time: TIME as i64, point: end },
        CurveKey { time: END_PIN, point: end },
    ]
}

/// The state of a curve controller, as a value.
pub ghost struct CurveState {
    pub step: u64,
    pub should_reset: bool,
    pub direction: Movement,
    pub keys: Seq<CurveKey>,
}

/// Whether a curved slide along `direction` has to start a new segment.
pub open spec fn needs_new_curve(s: CurveState, direction: Movement) -> bool {
    s.should_reset || s.step >= TIME || s.direction != direction
}

/// The state after a curved slide from `start` along `direction` that lasts
/// `delta_time`: a new segment from `start` where one is needed, then the
/// elapsed time advanced.
pub open spec fn slid(s: CurveState, start: Point, direction: Movement, delta_time: u64) -> CurveState {
    let base = if needs_new_curve(s, direction) {
        CurveState { step: 0, should_reset: false, direction, keys: curve_keys(start, direction) }
    } else {
        s
    };
    CurveState { step: base.step.saturating_add(delta_time), ..base }
}

/// Drives curved slides: the current curve segment and the time spent on it.
#[derive(Debug)]
pub struct CurveControl {
    pub step: u64,
    pub should_reset: bool,
    pub direction: Movement,
    pub keys: Vec<CurveKey>,
}

impl View for CurveControl {
    type V = CurveState;

    open spec fn view(&self) -> CurveState {
        CurveState {
            step: self.step,
            should_reset: self.should_reset,
            direction: self.direction,
            keys: self.keys@,
        }
    }
}

impl CurveControl {
    /// A controller with no segment, which builds one on its first slide.
    pub fn new() -> (r: CurveControl)
        ensures
            r.step == TIME,
            r.should_reset,
            r.direction == Movement::ForwardX,
            r.keys@.len() == 0,
    {
        CurveControl {
            step: TIME,
            should_reset: true,
            direction: Movement::ForwardX,
            keys: Vec::new(),
        }
    }

    /// Advances a curved slide from `start` along `direction` by `delta_time`
    /// microseconds and returns the time at which to sample the keys.
    pub fn slide(&mut self, start: Point, direction: Movement, delta_time: u64) -> (r: u64)
        ensures
            final(self)@ == slid(old(self)@, start, direction, delta_time),
            r == final(self).step,
    {
        if self.should_reset || self.step >= TIME || self.direction != direction {
            self.new_spline(&start, direction);
        }
        self.step = self.step.saturating_add(delta_time);
        self.step
    }

    /// Makes the next curved slide start a new segment.
    pub fn reset(&mut self)
        ensures
            final(self)@ == (CurveState { should_reset: true, ..old(self)@ }),
    {
        self.should_reset = true;
    }

    /// Starts a new segment at `start` along `direction`.
    fn new_spline(&mut self, start: &Point, direction: Movement)
        ensures
            final(self)@ == (CurveState {
                step: 0,
                should_reset: false,
                direction,
                keys: curve_keys(*start, direction),
            }),
    {
        let a = direction.axis();
        let b = match a {
            Axis::Y => Axis::X,
            _ => Axis::Y,
        };
        let s: i128 = if direction.is_forward() { 1 } else { -1 };
        let near = start.shifted(a, s * NEAR_DEVIATION as i128).shifted(b, AUX_DEVIATION as i128);
        let far = start.shifted(a, s * FAR_DEVIATION as i128).shifted(b, -(AUX_DEVIATION as i128));
        let end = start.shifted(a, s * MAIN_DEVIATION as i128);
        let mut keys: Vec<CurveKey> = Vec::new();
        keys.push(CurveKey { time: START_PIN, point: *start });
        keys.push(CurveKey { time: 0, point: *start });
        keys.push(CurveKey { time: NEAR_TIME, point: near });
        keys.push(CurveKey { time: FAR_TIME, point: far });
        keys.push(CurveKey { time: TIME as i64, point: end });
        keys.push(CurveKey { time: END_PIN, point: end });
        self.step = 0;
        self.should_reset = false;
        self.direction = direction;
        self.keys = keys;
        proof {
            assert(self.keys@ =~= curve_keys(*start, direction));
        }
    }
}

/// A curved slide along a direction other than the one before it starts a
/// new segment at the position it is given, whatever came before.
pub proof fn curve_restarts_on_turn(
    s: CurveState,
    p: Point,
    q: Point,
    first: Movement,
    second: Movement,
    dt1: u64,
    dt2: u64,
)
    requires
        first != second,
    ensures
        slid(slid(s, p, first, dt1), q, second, dt2).keys == curve_keys(q, second),
        slid(slid(s, p, first, dt1), q, second, dt2).step == dt2,
        slid(slid(s, p, first, dt1), q, second, dt2).direction == second,
{
}

} // verus!
