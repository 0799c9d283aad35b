//! The tunable constants of the flight rules.

use vstd::prelude::*;
use crate::fixed::{LIMIT, SCALE};
use crate::geometry::Vec2;

verus! {

/// The constants that shape a tick, each in fixed-point steps.
#[derive(Clone, Copy, Debug, PartialEq, Eq, Structural)]
pub struct FlightConfig {
    /// Share of the velocity that the drag force takes, between zero and
    /// one unit. It enters the acceleration only.
    pub drag_coefficient: i64,
    /// Share of the velocity lost at the end of every tick, between zero
    /// and one unit.
    pub air_resistance: i64,
    /// Yaw demanded per tick while a yaw control is held, before
    /// smoothing.
    pub rotation_speed: i64,
    /// Strength of the nudge given per tick while a pitch control is held.
    pub pitch_speed: i64,
    /// Share of the demanded yaw that is withheld, between zero and one
    /// unit.
    pub turn_smoothing: i64,
    /// Upper end of the throttle range.
    pub max_thrust: i64,
    /// Amount by which the throttle rises or falls per tick.
    pub throttle_step: i64,
    /// Width of the band along each edge of the arena that already counts
    /// as outside.
    pub margin: i64,
    /// Position at start-up and after a reset.
    pub start: Vec2,
}

impl FlightConfig {
    /// What a simulation asks of its constants: shares lie between zero
    /// and one unit, rates and the margin between zero and `LIMIT`, and
    /// the start position within `LIMIT` of the origin.
    pub open spec fn valid(self) -> bool {
        &&& 0 <= self.drag_coefficient <= SCALE
        &&& 0 <= self.air_resistance <= SCALE
        &&& 0 <= self.turn_smoothing <= SCALE
        &&& 0 <= self.rotation_speed <= LIMIT
        &&& 0 <= self.pitch_speed <= LIMIT
        &&& 0 <= self.max_thrust <= LIMIT
        &&& 0 <= self.throttle_step <= LIMIT
        &&& 0 <= self.margin <= LIMIT
        &&& self.start@.within(LIMIT as int)
    }

    /// The constants of the standard aircraft: drag 0.02, air resistance
    /// 0.01, rotation speed 0.03, pitch speed 0.02, turn smoothing 0.08,
    /// throttle from 0 to 0.1 in steps of 0.002, no margin, start at
    /// (640, 360).
    pub open spec fn standard() -> FlightConfig {
        FlightConfig {
            drag_coefficient: 20_000,
            air_resistance: 10_000,
            rotation_speed: 30_000,
            pitch_speed: 20_000,
            turn_smoothing: 80_000,
            max_thrust: 100_000,
            throttle_step: 2_000,
            margin: 0,
            start: Vec2 { x: 640_000_000, y: 360_000_000 },
        }
    }

    /// Whether a simulation accepts these constants.
    pub fn is_valid(&self) -> (ok: bool)
        ensures
            ok == self.valid(),
    {
        0 <= self.drag_coefficient && self.drag_coefficient <= SCALE
            && 0 <= self.air_resistance && self.air_resistance <= SCALE
            && 0 <= self.turn_smoothing && self.turn_smoothing <= SCALE
            && 0 <= self.rotation_speed && self.rotation_speed <= LIMIT
            && 0 <= self.pitch_speed && self.pitch_speed <= LIMIT
            && 0 <= self.max_thrust && self.max_thrust <= LIMIT
            && 0 <= self.throttle_step && self.throttle_step <= LIMIT
            && 0 <= self.margin && self.margin <= LIMIT
            && -LIMIT <= self.start.x && self.start.x <= LIMIT
            && -LIMIT <= self.start.y && self.start.y <= LIMIT
    }
}

impl Default for FlightConfig {
    /// The constants of the standard aircraft.
    fn default() -> (config: FlightConfig)
        ensures
            config == FlightConfig::standard(),
            config.valid(),
    {
        FlightConfig {
            drag_coefficient: 20_000,
            air_resistance: 10_000,
            rotation_speed: 30_000,
            pitch_speed: 20_000,
            turn_smoothing: 80_000,
            max_thrust: 100_000,
            throttle_step: 2_000,
            margin: 0,
            start: Vec2 { x: 640_000_000, y: 360_000_000 },
        }
    }
}

} // verus!
