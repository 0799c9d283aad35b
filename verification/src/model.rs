//! The rules of a tick, stated over the mathematical integers.
//!
//! A tick runs in a fixed order: the crashed branch, the control mapping,
//! the forces, the integration of velocity and position, and the collision
//! tests. Later steps read what earlier steps wrote.
//!
//! Conventions: a growing heading turns the thrust counterclockwise in
//! mathematical axes, which is clockwise on a screen whose `y` grows
//! downward; the pitch nudge is relative to the heading, at a right angle
//! to the thrust.

use vstd::prelude::*;
use crate::config::FlightConfig;
use crate::fixed::{clamped, scaled_product, LIMIT, SCALE};
use crate::geometry::{some_zone_holds, ArenaBounds, Rect, Vector};
use crate::input::{InputSnapshot, ThrottleCommand};

verus! {

/// Largest magnitude that a heading takes, in steps of a radian. A yaw
/// that would carry the heading beyond it leaves the heading at this
/// bound.
pub const HEADING_LIMIT: i64 = 4_000_000_000_000_000_000;

/// Whether the aircraft is in the air or has hit something.
#[derive(Clone, Copy, Debug, PartialEq, Eq, Structural)]
pub enum Status {
    Flying,
    Crashed,
}

/// Cosine and sine of a heading, in steps.
pub struct Trig {
    pub cos: int,
    pub sin: int,
}

impl Trig {
    /// Neither component exceeds one unit in magnitude.
    pub open spec fn valid(self) -> bool {
        &&& -SCALE <= self.cos <= SCALE
        &&& -SCALE <= self.sin <= SCALE
    }
}

/// Thrust of strength `throttle` along the heading whose cosine and sine
/// are `trig`.
pub open spec fn thrust_vector(throttle: int, trig: Trig) -> Vector {
    Vector { x: scaled_product(throttle, trig.cos), y: -scaled_product(throttle, trig.sin) }
}

/// Nudge of strength `pitch` at a right angle to the heading whose cosine
/// and sine are `trig`.
pub open spec fn pitch_vector(pitch: int, trig: Trig) -> Vector {
    Vector { x: scaled_product(pitch, trig.sin), y: -scaled_product(pitch, trig.cos) }
}

/// What one tick is given: the controls, and the cosine and sine of the
/// heading that they steer to.
pub struct Tick {
    pub input: InputSnapshot,
    pub trig: Trig,
}

/// The whole state of a simulation.
pub struct FlightModel {
    pub position: Vector,
    pub velocity: Vector,
    pub acceleration: Vector,
    pub heading: int,
    pub throttle: int,
    pub status: Status,
    pub config: FlightConfig,
    pub arena: ArenaBounds,
    pub zones: Seq<Rect>,
}

impl FlightModel {
    /// The state at start-up: at the start position, at rest, heading
    /// zero, throttle closed, flying.
    pub open spec fn startup(config: FlightConfig, arena: ArenaBounds, zones: Seq<Rect>) -> FlightModel {
        FlightModel {
            position: config.start@,
            velocity: Vector { x: 0, y: 0 },
            acceleration: Vector { x: 0, y: 0 },
            heading: 0,
            throttle: 0,
            status: Status::Flying,
            config,
            arena,
            zones,
        }
    }

    /// The start-up state of the same constants, arena and zones.
    pub open spec fn restarted(self) -> FlightModel {
        FlightModel::startup(self.config, self.arena, self.zones)
    }

    /// Change of heading that the yaw controls ask for: the demanded yaw
    /// less the share withheld by smoothing.
    pub open spec fn yaw_step(self, input: InputSnapshot) -> int {
        scaled_product(
            self.config.rotation_speed * input.yaw_axis(),
            SCALE - self.config.turn_smoothing,
        )
    }

    /// Heading after the control mapping.
    pub open spec fn steered_heading(self, input: InputSnapshot) -> int {
        clamped(self.heading + self.yaw_step(input), -HEADING_LIMIT as int, HEADING_LIMIT as int)
    }

    /// Strength of the pitch nudge that the pitch controls ask for.
    pub open spec fn pitch_input(self, input: InputSnapshot) -> int {
        self.config.pitch_speed * input.pitch_axis()
    }

    /// Throttle after the control mapping: one step up and no further than
    /// the maximum, one step down and no further than zero, or unchanged.
    pub open spec fn steered_throttle(self, input: InputSnapshot) -> int {
        match input.throttle_command() {
            ThrottleCommand::Raise => {
                if self.throttle + self.config.throttle_step > self.config.max_thrust {
                    self.config.max_thrust as int
                } else {
                    self.throttle + self.config.throttle_step
                }
            },
            ThrottleCommand::Lower => {
                if self.throttle - self.config.throttle_step < 0 {
                    0
                } else {
                    self.throttle - self.config.throttle_step
                }
            },
            ThrottleCommand::Hold => self.throttle,
        }
    }

    /// Drag: the configured share of the velocity, component by component.
    pub open spec fn drag(self) -> Vector {
        Vector {
            x: scaled_product(self.velocity.x, self.config.drag_coefficient as int),
            y: scaled_product(self.velocity.y, self.config.drag_coefficient as int),
        }
    }

    /// Acceleration of the tick: the thrust of the steered throttle less
    /// the drag on the velocity that the tick starts with.
    pub open spec fn forces(self, input: InputSnapshot, trig: Trig) -> Vector {
        thrust_vector(self.steered_throttle(input), trig).minus(self.drag())
    }

    /// Velocity after integration: thrust and pitch nudge are added, then
    /// the share that air resistance takes is removed.
    pub open spec fn next_velocity(self, input: InputSnapshot, trig: Trig) -> Vector {
        let pushed = self.velocity.plus(thrust_vector(self.steered_throttle(input), trig)).plus(
            pitch_vector(self.pitch_input(input), trig),
        );
        Vector {
            x: scaled_product(pushed.x, SCALE - self.config.air_resistance),
            y: scaled_product(pushed.y, SCALE - self.config.air_resistance),
        }
    }

    /// Position after integration: one tick of the new velocity.
    pub open spec fn next_position(self, input: InputSnapshot, trig: Trig) -> Vector {
        self.position.plus(self.next_velocity(input, trig))
    }

    /// Whether an aircraft at `p` has left the arena or entered a zone.
    pub open spec fn collides(self, p: Vector) -> bool {
        self.arena.leaves_out(p, self.config.margin as int) || some_zone_holds(self.zones, p)
    }

    /// A tick of an aircraft in flight.
    pub open spec fn flown(self, input: InputSnapshot, trig: Trig) -> FlightModel {
        FlightModel {
            position: self.next_position(input, trig),
            velocity: self.next_velocity(input, trig),
            acceleration: self.forces(input, trig),
            heading: self.steered_heading(input),
            throttle: self.steered_throttle(input),
            status: if self.collides(self.next_position(input, trig)) {
                Status::Crashed
            } else {
                Status::Flying
            },
            ..self
        }
    }

    /// One tick. A crashed aircraft restarts when reset is held and stays
    /// as it is otherwise; an aircraft in flight is steered, moved and
    /// tested for collisions. `trig` holds the cosine and sine of the
    /// steered heading.
    pub open spec fn tick(self, input: InputSnapshot, trig: Trig) -> FlightModel {
        if self.status == Status::Crashed {
            if input.reset {
                self.restarted()
            } else {
                self
            }
        } else {
            self.flown(input, trig)
        }
    }

    /// The state after the ticks of `ticks`, first to last.
    pub open spec fn run(self, ticks: Seq<Tick>) -> FlightModel
        decreases ticks.len(),
    {
        if ticks.len() == 0 {
            self
        } else {
            self.run(ticks.drop_last()).tick(ticks.last().input, ticks.last().trig)
        }
    }

    /// What every state of a simulation satisfies: valid constants and
    /// arena, a throttle within its range, and magnitudes small enough
    /// for one more tick to be computed.
    pub open spec fn wf(self) -> bool {
        &&& self.config.valid()
        &&& self.arena.valid()
        &&& 0 <= self.throttle <= self.config.max_thrust
        &&& -HEADING_LIMIT <= self.heading <= HEADING_LIMIT
        &&& self.position.within(5 * LIMIT)
        &&& self.velocity.within(4 * LIMIT)
        &&& self.acceleration.within(5 * LIMIT)
        &&& self.status == Status::Flying ==> {
            &&& self.position.within(LIMIT as int)
            &&& self.velocity.within(2 * LIMIT)
        }
    }
}

} // verus!
