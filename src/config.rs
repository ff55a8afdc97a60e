use vstd::prelude::*;

use crate::animation::Entry;

verus! {

/// Default sliding speed: eight units per second.
pub const BASE_SPEED: i32 = 8000;

/// Default turning speed: thirty degrees per second.
pub const ROTATION_SPEED: i32 = 30000;

/// Default orbiting speed: sixty degrees per second.
pub const CIRCLE_SPEED: i32 = 60000;

/// Default scaling speed: two units per second.
pub const SCALE_SPEED: i32 = 2000;

/// Tuning of one scene object and its animation script.
///
/// Speeds are in thousandths (of a unit, or of a degree) per second; the
/// durations of the script are in microseconds.
#[derive(Debug)]
pub struct Configuration {
    pub base_speed: i32,
    pub rotation_speed: i32,
    pub circle_speed: i32,
    pub scale_speed: i32,
    pub command_list: Vec<Entry>,
}

impl Default for Configuration {
    fn default() -> (r: Configuration)
        ensures
            r.base_speed == BASE_SPEED,
            r.rotation_speed == ROTATION_SPEED,
            r.circle_speed == CIRCLE_SPEED,
            r.scale_speed == SCALE_SPEED,
            r.command_list@.len() == 0,
    {
        Configuration {
            base_speed: BASE_SPEED,
            rotation_speed: ROTATION_SPEED,
            circle_speed: CIRCLE_SPEED,
            scale_speed: SCALE_SPEED,
            command_list: Vec::new(),
        }
    }
}

} // verus!
