//! The simulation itself: the state of one aircraft and the tick that
//! advances it.

use vstd::prelude::*;
use crate::config::FlightConfig;
use crate::fixed::{
    lemma_product_bounded, lemma_scaled_product_shrinks, magnitude, scale_mul, LIMIT, SCALE,
};
use crate::geometry::{any_zone_contains, ArenaBounds, Rect, Vec2, Vector};
use crate::input::{InputSnapshot, ThrottleCommand};
use crate::model::{pitch_vector, thrust_vector, FlightModel, Status, Trig, HEADING_LIMIT};

verus! {

/// Cosine and sine of a heading, in steps, each within one unit of zero.
#[derive(Clone, Copy, Debug)]
pub struct Direction {
    cos: i64,
    sin: i64,
}

impl View for Direction {
    type V = Trig;

    closed spec fn view(&self) -> Trig {
        Trig { cos: self.cos as int, sin: self.sin as int }
    }
}

impl Direction {
    #[verifier::type_invariant]
    spec fn in_range(self) -> bool {
        self@.valid()
    }

    /// The direction with the given cosine and sine, unless one of them
    /// exceeds one unit in magnitude.
    pub fn new(cos: i64, sin: i64) -> (direction: Option<Direction>)
        ensures
            direction is Some <==> (Trig { cos: cos as int, sin: sin as int }).valid(),
            direction is Some ==> direction->0@ == (Trig { cos: cos as int, sin: sin as int }),
    {
        if -SCALE <= cos && cos <= SCALE && -SCALE <= sin && sin <= SCALE {
            Some(Direction { cos, sin })
        } else {
            None
        }
    }

    /// The direction of heading zero: cosine one, sine zero.
    pub fn ahead() -> (direction: Direction)
        ensures
            direction@ == (Trig { cos: SCALE as int, sin: 0 }),
    {
        Direction { cos: SCALE, sin: 0 }
    }

    /// The cosine, in steps.
    pub fn cos(&self) -> (c: i64)
        ensures
            c == self@.cos,
            self@.valid(),
    {
        proof {
            use_type_invariant(self);
        }
        self.cos
    }

    /// The sine, in steps.
    pub fn sin(&self) -> (s: i64)
        ensures
            s == self@.sin,
            self@.valid(),
    {
        proof {
            use_type_invariant(self);
        }
        self.sin
    }
}

/// `rate` in the sense of `axis`, which is `-1`, `0` or `1`.
fn directed(rate: i64, axis: i64) -> (r: i64)
    requires
        -1 <= axis <= 1,
        0 <= rate <= LIMIT,
    ensures
        r == rate * axis,
        -rate <= r <= rate,
{
    if axis > 0 {
        assert(rate * 1 == rate);
        rate
    } else if axis < 0 {
        assert(rate * (-1) == -rate);
        -rate
    } else {
        assert(rate * 0 == 0);
        0
    }
}

/// Thrust of strength `throttle` along `direction`.
fn thrust(throttle: i64, direction: Direction) -> (v: Vec2)
    requires
        -LIMIT <= throttle <= LIMIT,
    ensures
        v@ == thrust_vector(throttle as int, direction@),
        v@.within(magnitude(throttle as int)),
{
    let c = direction.cos();
    let s = direction.sin();
    proof {
        lemma_product_bounded(throttle as int, c as int, LIMIT as int, SCALE as int);
        lemma_product_bounded(throttle as int, s as int, LIMIT as int, SCALE as int);
        lemma_scaled_product_shrinks(throttle as int, c as int);
        lemma_scaled_product_shrinks(throttle as int, s as int);
    }
    Vec2 { x: scale_mul(throttle, c), y: -scale_mul(throttle, s) }
}

/// Nudge of strength `pitch` at a right angle to `direction`.
fn nudge(pitch: i64, direction: Direction) -> (v: Vec2)
    requires
        -LIMIT <= pitch <= LIMIT,
    ensures
        v@ == pitch_vector(pitch as int, direction@),
        v@.within(magnitude(pitch as int)),
{
    let c = direction.cos();
    let s = direction.sin();
    proof {
        lemma_product_bounded(pitch as int, c as int, LIMIT as int, SCALE as int);
        lemma_product_bounded(pitch as int, s as int, LIMIT as int, SCALE as int);
        lemma_scaled_product_shrinks(pitch as int, c as int);
        lemma_scaled_product_shrinks(pitch as int, s as int);
    }
    Vec2 { x: scale_mul(pitch, s), y: -scale_mul(pitch, c) }
}

/// The part of the state that a tick rewrites.
#[derive(Clone, Copy, Debug)]
struct Motion {
    position: Vec2,
    velocity: Vec2,
    acceleration: Vec2,
    heading: i64,
    throttle: i64,
    status: Status,
}

/// One aircraft in its arena.
///
/// The state is created once, rewritten only by `advance` (and `reset`),
/// and read through the accessors after a tick has returned.
#[derive(Debug)]
pub struct FlightSimulator {
    config: FlightConfig,
    arena: ArenaBounds,
    zones: Vec<Rect>,
    motion: Motion,
}

impl View for FlightSimulator {
    type V = FlightModel;

    closed spec fn view(&self) -> FlightModel {
        FlightModel {
            position: self.motion.position@,
            velocity: self.motion.velocity@,
            acceleration: self.motion.acceleration@,
            heading: self.motion.heading as int,
            throttle: self.motion.throttle as int,
            status: self.motion.status,
            config: self.config,
            arena: self.arena,
            zones: self.zones@,
        }
    }
}

impl FlightSimulator {
    #[verifier::type_invariant]
    spec fn well_formed(self) -> bool {
        self@.wf()
    }

    /// A simulation in its start-up state, unless the constants or the
    /// arena are not valid.
    pub fn new(config: FlightConfig, arena: ArenaBounds, zones: Vec<Rect>) -> (sim: Option<
        FlightSimulator,
    >)
        ensures
            sim is Some <==> config.valid() && arena.valid(),
            sim is Some ==> sim->0@ == FlightModel::startup(config, arena, zones@),
            sim is Some ==> sim->0@.wf(),
    {
        if config.is_valid() && arena.is_valid() {
            Some(FlightSimulator { config, arena, zones, motion: Self::initial_motion(&config) })
        } else {
            None
        }
    }

    /// The motion that a simulation starts with.
    fn initial_motion(config: &FlightConfig) -> (motion: Motion)
        ensures
            motion.position == config.start,
            motion.velocity@ == (Vector { x: 0, y: 0 }),
            motion.acceleration@ == (Vector { x: 0, y: 0 }),
            motion.heading == 0,
            motion.throttle == 0,
            motion.status == Status::Flying,
    {
        Motion {
            position: config.start,
            velocity: Vec2::zero(),
            acceleration: Vec2::zero(),
            heading: 0,
            throttle: 0,
            status: Status::Flying,
        }
    }

    /// Puts the aircraft back into its start-up state, whatever it was
    /// doing. Constants, arena and zones stay.
    pub fn reset(&mut self)
        ensures
            final(self)@ == old(self)@.restarted(),
            final(self)@.wf(),
    {
        proof {
            use_type_invariant(&*self);
        }
        self.motion = Self::initial_motion(&self.config);
    }

    /// Takes the extent of the arena from the host, for the ticks that
    /// follow. An extent that is not valid is refused and changes nothing.
    pub fn set_arena_bounds(&mut self, arena: ArenaBounds) -> (accepted: bool)
        ensures
            accepted == arena.valid(),
            accepted ==> final(self)@ == (FlightModel { arena, ..old(self)@ }),
            !accepted ==> final(self)@ == old(self)@,
            final(self)@.wf(),
    {
        proof {
            use_type_invariant(&*self);
        }
        if arena.is_valid() {
            self.arena = arena;
            true
        } else {
            false
        }
    }

    /// Heading that the next tick with `input` steers to while the
    /// aircraft is flying. The direction handed to `advance` is the cosine
    /// and sine of this heading.
    pub fn steered_heading(&self, input: InputSnapshot) -> (heading: i64)
        ensures
            heading == self@.steered_heading(input),
    {
        proof {
            use_type_invariant(self);
        }
        let demanded = directed(self.config.rotation_speed, input.yaw());
        let kept = SCALE - self.config.turn_smoothing;
        proof {
            lemma_product_bounded(demanded as int, kept as int, LIMIT as int, SCALE as int);
            lemma_scaled_product_shrinks(demanded as int, kept as int);
        }
        let turned = self.motion.heading + scale_mul(demanded, kept);
        if turned < -HEADING_LIMIT {
            -HEADING_LIMIT
        } else if turned > HEADING_LIMIT {
            HEADING_LIMIT
        } else {
            turned
        }
    }

    /// Throttle that the next tick with `input` sets while the aircraft is
    /// flying.
    pub fn steered_throttle(&self, input: InputSnapshot) -> (throttle: i64)
        ensures
            throttle == self@.steered_throttle(input),
            0 <= throttle <= self@.config.max_thrust,
    {
        proof {
            use_type_invariant(self);
        }
        match input.throttle() {
            ThrottleCommand::Raise => {
                let raised = self.motion.throttle + self.config.throttle_step;
                if raised > self.config.max_thrust {
                    self.config.max_thrust
                } else {
                    raised
                }
            },
            ThrottleCommand::Lower => {
                let lowered = self.motion.throttle - self.config.throttle_step;
                if lowered < 0 {
                    0
                } else {
                    lowered
                }
            },
            ThrottleCommand::Hold => self.motion.throttle,
        }
    }

    /// Acceleration of a tick that flies with `input` along `direction`:
    /// thrust less drag.
    pub fn compute_forces(&self, input: InputSnapshot, direction: Direction) -> (acceleration: Vec2)
        ensures
            acceleration@ == self@.forces(input, direction@),
            acceleration@.within(5 * LIMIT),
    {
        proof {
            use_type_invariant(self);
        }
        let push = thrust(self.steered_throttle(input), direction);
        let velocity = self.motion.velocity;
        let share = self.config.drag_coefficient;
        proof {
            lemma_product_bounded(velocity.x as int, share as int, 4 * LIMIT, SCALE as int);
            lemma_product_bounded(velocity.y as int, share as int, 4 * LIMIT, SCALE as int);
            lemma_scaled_product_shrinks(velocity.x as int, share as int);
            lemma_scaled_product_shrinks(velocity.y as int, share as int);
        }
        let drag = Vec2 { x: scale_mul(velocity.x, share), y: scale_mul(velocity.y, share) };
        Vec2 { x: push.x - drag.x, y: push.y - drag.y }
    }

    /// Advances the simulation by one tick, given the direction of the
    /// heading that the tick steers to.
    ///
    /// A crashed aircraft restarts when reset is held and is left exactly
    /// as it is otherwise. An aircraft in flight is steered by `input`,
    /// accelerated along `direction`, moved by its new velocity, and
    /// crashes if its new position lies outside the arena or inside a
    /// zone. `direction` is meant to be the cosine and sine of
    /// `self.steered_heading(input)`; it is not read while crashed.
    pub fn advance_toward(&mut self, input: InputSnapshot, direction: Direction)
        ensures
            final(self)@ == old(self)@.tick(input, direction@),
            final(self)@.wf(),
    {
        proof {
            use_type_invariant(&*self);
        }
        match self.motion.status {
            Status::Crashed => {
                if input.reset {
                    self.reset();
                }
            },
            Status::Flying => {
                let heading = self.steered_heading(input);
                let pitch = directed(self.config.pitch_speed, input.pitch());
                let throttle = self.steered_throttle(input);
                let acceleration = self.compute_forces(input, direction);
                let push = thrust(throttle, direction);
                let lift = nudge(pitch, direction);
                let before = self.motion.velocity;
                let pushed = Vec2 {
                    x: before.x + push.x + lift.x,
                    y: before.y + push.y + lift.y,
                };
                let kept = SCALE - self.config.air_resistance;
                proof {
                    lemma_product_bounded(pushed.x as int, kept as int, 4 * LIMIT, SCALE as int);
                    lemma_product_bounded(pushed.y as int, kept as int, 4 * LIMIT, SCALE as int);
                    lemma_scaled_product_shrinks(pushed.x as int, kept as int);
                    lemma_scaled_product_shrinks(pushed.y as int, kept as int);
                }
                let velocity = Vec2 { x: scale_mul(pushed.x, kept), y: scale_mul(pushed.y, kept) };
                let position = Vec2 {
                    x: self.motion.position.x + velocity.x,
                    y: self.motion.position.y + velocity.y,
                };
                let crashed = self.arena.excludes(position, self.config.margin)
                    || any_zone_contains(&self.zones, position);
                self.motion = Motion {
                    position,
                    velocity,
                    acceleration,
                    heading,
                    throttle,
                    status: if crashed {
                        Status::Crashed
                    } else {
                        Status::Flying
                    },
                };
            },
        }
    }

    /// Advances the simulation by one tick, asking `compass` for the
    /// direction of the heading that the tick steers to.
    ///
    /// A crashed aircraft restarts when reset is held and is left exactly
    /// as it is otherwise; `compass` is not asked. For an aircraft in
    /// flight `compass` is asked once, for `self.steered_heading(input)`,
    /// and the tick is the one of `advance_toward` with its answer.
    pub fn advance<F: Fn(i64) -> Direction>(&mut self, input: InputSnapshot, compass: F)
        requires
            old(self)@.status == Status::Flying ==> forall|heading: i64|
                heading == old(self)@.steered_heading(input) ==> call_requires(
                    compass,
                    (heading,),
                ),
        ensures
            old(self)@.status == Status::Crashed ==> final(self)@ == (if input.reset {
                old(self)@.restarted()
            } else {
                old(self)@
            }),
            old(self)@.status == Status::Flying ==> exists|direction: Direction|
                {
                    &&& call_ensures(
                        compass,
                        (old(self)@.steered_heading(input) as i64,),
                        direction,
                    )
                    &&& final(self)@ == old(self)@.flown(input, direction@)
                },
            final(self)@.wf(),
    {
        match self.motion.status {
            Status::Crashed => {
                if input.reset {
                    self.reset();
                }
            },
            Status::Flying => {
                let heading = self.steered_heading(input);
                let direction = compass(heading);
                self.advance_toward(input, direction);
            },
        }
        proof {
            use_type_invariant(&*self);
        }
    }

    /// Where the aircraft is.
    pub fn position(&self) -> (position: Vec2)
        ensures
            position@ == self@.position,
    {
        self.motion.position
    }

    /// Displacement of the aircraft per tick.
    pub fn velocity(&self) -> (velocity: Vec2)
        ensures
            velocity@ == self@.velocity,
    {
        self.motion.velocity
    }

    /// Acceleration computed by the last tick in flight.
    pub fn acceleration(&self) -> (acceleration: Vec2)
        ensures
            acceleration@ == self@.acceleration,
    {
        self.motion.acceleration
    }

    /// Orientation of the aircraft, in steps of a radian.
    pub fn heading(&self) -> (heading: i64)
        ensures
            heading == self@.heading,
    {
        self.motion.heading
    }

    /// Setting of the throttle, between zero and the maximum thrust.
    pub fn throttle(&self) -> (throttle: i64)
        ensures
            throttle == self@.throttle,
            0 <= throttle <= self@.config.max_thrust,
    {
        proof {
            use_type_invariant(self);
        }
        self.motion.throttle
    }

    /// Whether the aircraft is flying or crashed.
    pub fn status(&self) -> (status: Status)
        ensures
            status == self@.status,
    {
        self.motion.status
    }

    /// Whether the aircraft is crashed.
    pub fn is_crashed(&self) -> (crashed: bool)
        ensures
            crashed == (self@.status == Status::Crashed),
    {
        match self.motion.status {
            Status::Crashed => true,
            Status::Flying => false,
        }
    }

    /// The constants that the simulation was made with.
    pub fn config(&self) -> (config: FlightConfig)
        ensures
            config == self@.config,
            config.valid(),
    {
        proof {
            use_type_invariant(self);
        }
        self.config
    }

    /// The extent of the arena that the next tick tests against.
    pub fn arena_bounds(&self) -> (arena: ArenaBounds)
        ensures
            arena == self@.arena,
            arena.valid(),
    {
        proof {
            use_type_invariant(self);
        }
        self.arena
    }

    /// The zones that the simulation was made with.
    pub fn zones(&self) -> (zones: &Vec<Rect>)
        ensures
            zones@ == self@.zones,
    {
        &self.zones
    }
}

} // verus!
