//! What holds of every tick and of every run of ticks.

use vstd::prelude::*;
use crate::fixed::{
    lemma_scaled_product_decays, lemma_scaled_product_shrinks, lemma_scaled_product_sign,
    lemma_scaled_product_unit, lemma_scaled_product_zero, magnitude, scaled_product, SCALE,
};
use crate::config::FlightConfig;
use crate::geometry::{some_zone_holds, ArenaBounds, Rect};
use crate::input::InputSnapshot;
use crate::model::{pitch_vector, thrust_vector, FlightModel, Status, Tick, Trig};

verus! {

/// Constants, arena and zones are the same after a tick as before it.
pub proof fn lemma_tick_keeps_surroundings(m: FlightModel, input: InputSnapshot, trig: Trig)
    ensures
        m.tick(input, trig).config == m.config,
        m.tick(input, trig).arena == m.arena,
        m.tick(input, trig).zones == m.zones,
{
}

/// Constants, arena and zones are the same after a run as before it.
pub proof fn lemma_run_keeps_surroundings(m: FlightModel, ticks: Seq<Tick>)
    ensures
        m.run(ticks).config == m.config,
        m.run(ticks).arena == m.arena,
        m.run(ticks).zones == m.zones,
    decreases ticks.len(),
{
    if ticks.len() > 0 {
        lemma_run_keeps_surroundings(m, ticks.drop_last());
    }
}

/// The start-up state of valid constants and a valid arena is well formed,
/// and it is flying.
pub proof fn lemma_startup_is_well_formed(
    config: FlightConfig,
    arena: ArenaBounds,
    zones: Seq<Rect>,
)
    requires
        config.valid(),
        arena.valid(),
    ensures
        FlightModel::startup(config, arena, zones).wf(),
        FlightModel::startup(config, arena, zones).status == Status::Flying,
{
}

/// A tick takes a well-formed state to a well-formed state.
pub proof fn lemma_tick_keeps_wf(m: FlightModel, input: InputSnapshot, trig: Trig)
    requires
        m.wf(),
        trig.valid(),
    ensures
        m.tick(input, trig).wf(),
{
    if m.status == Status::Flying {
        let throttle = m.steered_throttle(input);
        let pitch = m.pitch_input(input);
        let demanded = m.config.rotation_speed * input.yaw_axis();
        lemma_directed_rate_bounded(m.config.pitch_speed as int, input.pitch_axis());
        lemma_directed_rate_bounded(m.config.rotation_speed as int, input.yaw_axis());
        lemma_scaled_product_shrinks(demanded, SCALE - m.config.turn_smoothing);
        lemma_scaled_product_shrinks(throttle, trig.cos);
        lemma_scaled_product_shrinks(throttle, trig.sin);
        lemma_scaled_product_shrinks(pitch, trig.cos);
        lemma_scaled_product_shrinks(pitch, trig.sin);
        lemma_scaled_product_shrinks(m.velocity.x, m.config.drag_coefficient as int);
        lemma_scaled_product_shrinks(m.velocity.y, m.config.drag_coefficient as int);
        let push = thrust_vector(throttle, trig);
        let lift = pitch_vector(pitch, trig);
        let pushed = m.velocity.plus(push).plus(lift);
        lemma_scaled_product_shrinks(pushed.x, SCALE - m.config.air_resistance);
        lemma_scaled_product_shrinks(pushed.y, SCALE - m.config.air_resistance);
    }
}

/// A run of ticks takes a well-formed state to a well-formed state.
pub proof fn lemma_run_keeps_wf(m: FlightModel, ticks: Seq<Tick>)
    requires
        m.wf(),
        forall|i: int| 0 <= i < ticks.len() ==> (#[trigger] ticks[i]).trig.valid(),
    ensures
        m.run(ticks).wf(),
    decreases ticks.len(),
{
    if ticks.len() > 0 {
        lemma_run_keeps_wf(m, ticks.drop_last());
        lemma_tick_keeps_wf(m.run(ticks.drop_last()), ticks.last().input, ticks.last().trig);
    }
}

/// Whatever the controls do during a tick, a throttle within its range
/// stays within its range.
pub proof fn lemma_throttle_stays_in_range(m: FlightModel, input: InputSnapshot, trig: Trig)
    requires
        m.config.valid(),
        0 <= m.throttle <= m.config.max_thrust,
    ensures
        0 <= m.tick(input, trig).throttle <= m.config.max_thrust,
{
}

/// Whatever the controls do during a run of ticks, the throttle lies
/// within its range after every one of them.
pub proof fn lemma_throttle_in_range_throughout(m: FlightModel, ticks: Seq<Tick>)
    requires
        m.config.valid(),
        0 <= m.throttle <= m.config.max_thrust,
    ensures
        forall|k: int|
            0 <= k <= ticks.len() ==> 0 <= (#[trigger] m.run(ticks.take(k))).throttle
                <= m.config.max_thrust,
{
    assert forall|k: int| 0 <= k <= ticks.len() implies 0 <= (#[trigger] m.run(
        ticks.take(k),
    )).throttle <= m.config.max_thrust by {
        lemma_throttle_in_range_after(m, ticks.take(k));
    }
}

/// After a run of ticks the throttle lies within its range.
proof fn lemma_throttle_in_range_after(m: FlightModel, ticks: Seq<Tick>)
    requires
        m.config.valid(),
        0 <= m.throttle <= m.config.max_thrust,
    ensures
        0 <= m.run(ticks).throttle <= m.config.max_thrust,
    decreases ticks.len(),
{
    if ticks.len() > 0 {
        let before = m.run(ticks.drop_last());
        lemma_throttle_in_range_after(m, ticks.drop_last());
        lemma_run_keeps_surroundings(m, ticks.drop_last());
        lemma_throttle_stays_in_range(before, ticks.last().input, ticks.last().trig);
    }
}

/// A crashed aircraft is left exactly as it is by any run of ticks in
/// which reset is never held, whatever the other controls do.
pub proof fn lemma_crashed_stays_frozen(m: FlightModel, ticks: Seq<Tick>)
    requires
        m.status == Status::Crashed,
        forall|i: int| 0 <= i < ticks.len() ==> !(#[trigger] ticks[i]).input.reset,
    ensures
        m.run(ticks) == m,
    decreases ticks.len(),
{
    if ticks.len() > 0 {
        lemma_crashed_stays_frozen(m, ticks.drop_last());
    }
}

/// A tick with reset held takes a crashed aircraft to the start-up state
/// of its constants, arena and zones, whatever state it crashed in.
pub proof fn lemma_reset_restarts(m: FlightModel, input: InputSnapshot, trig: Trig)
    requires
        m.status == Status::Crashed,
        input.reset,
    ensures
        m.tick(input, trig) == FlightModel::startup(m.config, m.arena, m.zones),
        m.tick(input, trig).status == Status::Flying,
{
}

/// A crashed aircraft flies again only after a tick with reset held.
pub proof fn lemma_recovery_needs_reset(m: FlightModel, input: InputSnapshot, trig: Trig)
    requires
        m.status == Status::Crashed,
        m.tick(input, trig).status == Status::Flying,
    ensures
        input.reset,
{
}

/// An aircraft in flight crashes during a tick exactly when the position
/// that the tick moves it to lies outside the arena or inside a zone.
pub proof fn lemma_crash_means_collision(m: FlightModel, input: InputSnapshot, trig: Trig)
    requires
        m.status == Status::Flying,
    ensures
        m.tick(input, trig).status == Status::Crashed <==> m.collides(
            m.next_position(input, trig),
        ),
{
}

/// An aircraft in flight whose velocity carries it out of the arena
/// during a tick is crashed after that tick.
pub proof fn lemma_leaving_arena_crashes(m: FlightModel, input: InputSnapshot, trig: Trig)
    requires
        m.status == Status::Flying,
        m.arena.leaves_out(m.next_position(input, trig), m.config.margin as int),
    ensures
        m.tick(input, trig).status == Status::Crashed,
{
}

/// An aircraft in flight whose velocity carries it into a zone during a
/// tick is crashed after that tick.
pub proof fn lemma_entering_zone_crashes(m: FlightModel, input: InputSnapshot, trig: Trig)
    requires
        m.status == Status::Flying,
        some_zone_holds(m.zones, m.next_position(input, trig)),
    ensures
        m.tick(input, trig).status == Status::Crashed,
{
}

/// The controls of a tick that neither opens the throttle nor pitches.
pub open spec fn coasting(input: InputSnapshot) -> bool {
    !input.throttle_up && input.pitch_axis() == 0
}

/// With the throttle closed and no pitch, a tick enlarges neither
/// component of the velocity, and so not its length, and reverses the sign
/// of neither; the throttle stays closed.
pub proof fn lemma_coasting_slows(m: FlightModel, input: InputSnapshot, trig: Trig)
    requires
        m.config.valid(),
        m.throttle == 0,
        coasting(input),
    ensures
        magnitude(m.tick(input, trig).velocity.x) <= magnitude(m.velocity.x),
        magnitude(m.tick(input, trig).velocity.y) <= magnitude(m.velocity.y),
        m.velocity.x >= 0 ==> m.tick(input, trig).velocity.x >= 0,
        m.velocity.x <= 0 ==> m.tick(input, trig).velocity.x <= 0,
        m.velocity.y >= 0 ==> m.tick(input, trig).velocity.y >= 0,
        m.velocity.y <= 0 ==> m.tick(input, trig).velocity.y <= 0,
        m.tick(input, trig).velocity.norm_squared() <= m.velocity.norm_squared(),
        m.tick(input, trig).throttle == 0,
{
    let after = m.tick(input, trig);
    if m.status == Status::Flying {
        lemma_coasting_velocity(m, input, trig);
        let kept = SCALE - m.config.air_resistance;
        lemma_scaled_product_shrinks(m.velocity.x, kept);
        lemma_scaled_product_shrinks(m.velocity.y, kept);
        lemma_scaled_product_sign(m.velocity.x, kept);
        lemma_scaled_product_sign(m.velocity.y, kept);
    }
    lemma_square_grows_with_magnitude(after.velocity.x, m.velocity.x);
    lemma_square_grows_with_magnitude(after.velocity.y, m.velocity.y);
}

/// With the throttle closed, no pitch and some air resistance, a tick in
/// flight brings every non-zero component of the velocity strictly closer
/// to zero.
pub proof fn lemma_coasting_decays(m: FlightModel, input: InputSnapshot, trig: Trig)
    requires
        m.config.valid(),
        m.config.air_resistance > 0,
        m.status == Status::Flying,
        m.throttle == 0,
        coasting(input),
    ensures
        m.velocity.x != 0 ==> magnitude(m.tick(input, trig).velocity.x) < magnitude(
            m.velocity.x,
        ),
        m.velocity.y != 0 ==> magnitude(m.tick(input, trig).velocity.y) < magnitude(
            m.velocity.y,
        ),
{
    lemma_coasting_velocity(m, input, trig);
    let kept = SCALE - m.config.air_resistance;
    if m.velocity.x != 0 {
        lemma_scaled_product_decays(m.velocity.x, kept);
    }
    if m.velocity.y != 0 {
        lemma_scaled_product_decays(m.velocity.y, kept);
    }
}

/// With the throttle closed and no pitch, no run of ticks enlarges a
/// component of the velocity or reverses its sign.
pub proof fn lemma_coasting_run_slows(m: FlightModel, ticks: Seq<Tick>)
    requires
        m.config.valid(),
        m.throttle == 0,
        forall|i: int| 0 <= i < ticks.len() ==> coasting((#[trigger] ticks[i]).input),
    ensures
        magnitude(m.run(ticks).velocity.x) <= magnitude(m.velocity.x),
        magnitude(m.run(ticks).velocity.y) <= magnitude(m.velocity.y),
        m.velocity.x >= 0 ==> m.run(ticks).velocity.x >= 0,
        m.velocity.x <= 0 ==> m.run(ticks).velocity.x <= 0,
        m.velocity.y >= 0 ==> m.run(ticks).velocity.y >= 0,
        m.velocity.y <= 0 ==> m.run(ticks).velocity.y <= 0,
        m.run(ticks).velocity.norm_squared() <= m.velocity.norm_squared(),
        m.run(ticks).throttle == 0,
    decreases ticks.len(),
{
    if ticks.len() > 0 {
        let before = m.run(ticks.drop_last());
        lemma_coasting_run_slows(m, ticks.drop_last());
        lemma_run_keeps_surroundings(m, ticks.drop_last());
        lemma_coasting_slows(before, ticks.last().input, ticks.last().trig);
    }
}

/// The cosine and sine of heading zero.
pub open spec fn straight_ahead() -> Trig {
    Trig { cos: SCALE as int, sin: 0 }
}

/// An aircraft that flies at heading zero without pitch, and does not
/// move left, does not move left after the tick either; it moves right as
/// soon as the velocity it is pushed to, less the share of air resistance,
/// amounts to a step.
pub proof fn lemma_flying_ahead_keeps_right(m: FlightModel, input: InputSnapshot)
    requires
        m.config.valid(),
        0 <= m.throttle <= m.config.max_thrust,
        m.status == Status::Flying,
        input.pitch_axis() == 0,
        m.velocity.x >= 0,
    ensures
        m.tick(input, straight_ahead()).velocity.x == scaled_product(
            m.velocity.x + m.steered_throttle(input),
            SCALE - m.config.air_resistance,
        ),
        m.tick(input, straight_ahead()).velocity.x >= 0,
        m.tick(input, straight_ahead()).velocity.y == scaled_product(
            m.velocity.y,
            SCALE - m.config.air_resistance,
        ),
        m.tick(input, straight_ahead()).position.x >= m.position.x,
        (m.velocity.x + m.steered_throttle(input)) * (SCALE - m.config.air_resistance) >= SCALE
            ==> m.tick(input, straight_ahead()).position.x > m.position.x,
{
    let throttle = m.steered_throttle(input);
    let kept = SCALE - m.config.air_resistance;
    assert(m.pitch_input(input) == 0) by (nonlinear_arith)
        requires
            m.pitch_input(input) == m.config.pitch_speed * input.pitch_axis(),
            input.pitch_axis() == 0,
    ;
    lemma_scaled_product_unit(throttle);
    lemma_scaled_product_zero(throttle);
    lemma_scaled_product_zero(SCALE as int);
    lemma_scaled_product_sign(m.velocity.x + throttle, kept);
}

/// With the throttle closed and no pitch, the velocity after a tick in
/// flight is the velocity before it less the share of air resistance.
proof fn lemma_coasting_velocity(m: FlightModel, input: InputSnapshot, trig: Trig)
    requires
        m.config.valid(),
        m.status == Status::Flying,
        m.throttle == 0,
        coasting(input),
    ensures
        m.steered_throttle(input) == 0,
        m.tick(input, trig).velocity.x == scaled_product(
            m.velocity.x,
            SCALE - m.config.air_resistance,
        ),
        m.tick(input, trig).velocity.y == scaled_product(
            m.velocity.y,
            SCALE - m.config.air_resistance,
        ),
{
    assert(m.steered_throttle(input) == 0);
    assert(m.pitch_input(input) == 0) by (nonlinear_arith)
        requires
            m.pitch_input(input) == m.config.pitch_speed * input.pitch_axis(),
            input.pitch_axis() == 0,
    ;
    lemma_scaled_product_zero(trig.cos);
    lemma_scaled_product_zero(trig.sin);
}

/// A rate taken in the sense of an axis of `-1`, `0` or `1` keeps its
/// magnitude or vanishes.
proof fn lemma_directed_rate_bounded(rate: int, axis: int)
    by (nonlinear_arith)
    requires
        0 <= rate,
        -1 <= axis <= 1,
    ensures
        -rate <= rate * axis <= rate,
{
}

/// Of two integers, the one of smaller magnitude has the smaller square.
proof fn lemma_square_grows_with_magnitude(a: int, b: int)
    by (nonlinear_arith)
    requires
        magnitude(a) <= magnitude(b),
    ensures
        a * a <= b * b,
{
}

} // verus!
