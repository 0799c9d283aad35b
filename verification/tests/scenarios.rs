use std::cell::Cell;

use flight_simulator::fixed::SCALE;
use flight_simulator::{
    ArenaBounds, Direction, FlightConfig, FlightSimulator, InputSnapshot, Rect, Status, Vec2,
};

const U: i64 = 1_000_000;

fn screen() -> ArenaBounds {
    ArenaBounds { width: 1280 * U, height: 720 * U }
}

fn starting_at(x: i64, y: i64, zones: Vec<Rect>) -> FlightSimulator {
    let config = FlightConfig { start: Vec2::new(x, y), ..FlightConfig::default() };
    FlightSimulator::new(config, screen(), zones).unwrap()
}

fn toward(cos: i64, sin: i64) -> Direction {
    Direction::new(cos, sin).unwrap()
}

fn direction_of(heading: i64) -> Direction {
    let radians = heading as f64 / 1e6;
    let cos = (radians.cos() * 1e6).round() as i64;
    let sin = (radians.sin() * 1e6).round() as i64;
    Direction::new(cos, sin).unwrap()
}

fn throttle_up() -> InputSnapshot {
    let mut input = InputSnapshot::none();
    input.throttle_up = true;
    input
}

fn throttle_down() -> InputSnapshot {
    let mut input = InputSnapshot::none();
    input.throttle_down = true;
    input
}

fn reset() -> InputSnapshot {
    let mut input = InputSnapshot::none();
    input.reset = true;
    input
}

fn wall() -> Rect {
    Rect { x: 300 * U, y: 200 * U, w: 50 * U, h: 400 * U }
}

fn crashed_on_the_right_edge() -> FlightSimulator {
    let mut sim = starting_at(1280 * U - 1_000, 360 * U, Vec::new());
    sim.advance_toward(throttle_up(), toward(SCALE, 0));
    assert_eq!(sim.status(), Status::Crashed);
    sim
}

#[test]
fn fifty_ticks_of_throttle_fly_steadily_right() {
    let mut sim = FlightSimulator::new(FlightConfig::default(), screen(), Vec::new()).unwrap();
    let mut last_x = sim.position().x;
    assert_eq!(last_x, 640 * U);
    for _ in 0..50 {
        sim.advance_toward(throttle_up(), toward(SCALE, 0));
        assert!(sim.position().x > last_x);
        assert_eq!(sim.position().y, 360 * U);
        assert_eq!(sim.status(), Status::Flying);
        last_x = sim.position().x;
    }
    assert_eq!(sim.throttle(), 100_000);
    assert_eq!(sim.velocity(), Vec2::new(2_157_310, 0));
    assert_eq!(sim.acceleration(), Vec2::new(58_418, 0));
    assert_eq!(sim.position(), Vec2::new(678_873_925, 360 * U));
    assert_eq!(sim.heading(), 0);
}

#[test]
fn crashed_aircraft_is_frozen_until_reset() {
    let mut sim = crashed_on_the_right_edge();
    let position = sim.position();
    let velocity = sim.velocity();
    let acceleration = sim.acceleration();
    let heading = sim.heading();
    let throttle = sim.throttle();
    assert_eq!(position, Vec2::new(1_280_000_980, 360 * U));
    assert_eq!(velocity, Vec2::new(1_980, 0));
    assert_eq!(throttle, 2_000);
    for bits in 0..64u32 {
        let input = InputSnapshot {
            yaw_left: bits & 1 != 0,
            yaw_right: bits & 2 != 0,
            pitch_up: bits & 4 != 0,
            pitch_down: bits & 8 != 0,
            throttle_up: bits & 16 != 0,
            throttle_down: bits & 32 != 0,
            reset: false,
        };
        sim.advance_toward(input, toward(0, -SCALE));
        assert_eq!(sim.position(), position);
        assert_eq!(sim.velocity(), velocity);
        assert_eq!(sim.acceleration(), acceleration);
        assert_eq!(sim.heading(), heading);
        assert_eq!(sim.throttle(), throttle);
        assert_eq!(sim.status(), Status::Crashed);
        assert!(sim.is_crashed());
    }
}

#[test]
fn reset_while_crashed_gives_the_startup_state() {
    let mut sim = starting_at(1280 * U - 200_000, 360 * U, vec![wall()]);
    let mut input = throttle_up();
    input.yaw_right = true;
    input.pitch_up = true;
    let mut ticks = 0;
    while !sim.is_crashed() {
        sim.advance(input, direction_of);
        ticks += 1;
        assert!(ticks < 10_000);
    }
    assert!(sim.heading() != 0);
    assert!(sim.throttle() != 0);
    assert!(sim.velocity() != Vec2::zero());
    sim.advance_toward(reset(), toward(0, SCALE));
    assert_eq!(sim.status(), Status::Flying);
    assert_eq!(sim.position(), Vec2::new(1280 * U - 200_000, 360 * U));
    assert_eq!(sim.velocity(), Vec2::zero());
    assert_eq!(sim.acceleration(), Vec2::zero());
    assert_eq!(sim.heading(), 0);
    assert_eq!(sim.throttle(), 0);
    assert_eq!(sim.arena_bounds(), screen());
    assert_eq!(sim.zones(), &vec![wall()]);
}

#[test]
fn reset_tick_does_not_also_fly() {
    let mut sim = crashed_on_the_right_edge();
    let mut input = reset();
    input.throttle_up = true;
    input.yaw_right = true;
    sim.advance_toward(input, toward(SCALE, 0));
    assert_eq!(sim.position(), Vec2::new(1280 * U - 1_000, 360 * U));
    assert_eq!(sim.velocity(), Vec2::zero());
    assert_eq!(sim.throttle(), 0);
    assert_eq!(sim.heading(), 0);
    assert_eq!(sim.status(), Status::Flying);
}

#[test]
fn coasting_never_speeds_up_and_keeps_its_sense() {
    let mut sim = FlightSimulator::new(FlightConfig::default(), screen(), Vec::new()).unwrap();
    for _ in 0..20 {
        sim.advance_toward(throttle_up(), toward(SCALE, 0));
    }
    assert_eq!(sim.velocity(), Vec2::new(390_603, 0));
    for _ in 0..20 {
        sim.advance_toward(throttle_down(), toward(SCALE, 0));
    }
    assert_eq!(sim.throttle(), 0);
    assert_eq!(sim.velocity(), Vec2::new(649_941, 0));
    let expected = [643_441, 637_006, 630_635, 624_328, 618_084];
    let mut last = sim.velocity().x;
    for speed in expected {
        sim.advance_toward(InputSnapshot::none(), toward(SCALE, 0));
        assert_eq!(sim.velocity(), Vec2::new(speed, 0));
        assert!(sim.velocity().x >= 0 && sim.velocity().x <= last);
        assert_eq!(sim.throttle(), 0);
        last = sim.velocity().x;
    }
}

#[test]
fn coasting_backward_decays_toward_zero_from_below() {
    let mut sim = FlightSimulator::new(FlightConfig::default(), screen(), Vec::new()).unwrap();
    for _ in 0..3 {
        sim.advance_toward(throttle_up(), toward(-SCALE, 0));
    }
    for _ in 0..3 {
        sim.advance_toward(throttle_down(), toward(-SCALE, 0));
    }
    assert_eq!(sim.throttle(), 0);
    assert_eq!(sim.velocity(), Vec2::new(-17_290, 0));
    let expected = [-17_117, -16_945, -16_775];
    for speed in expected {
        sim.advance_toward(throttle_down(), toward(-SCALE, 0));
        assert_eq!(sim.velocity(), Vec2::new(speed, 0));
    }
}

#[test]
fn coasting_comes_to_rest() {
    let mut sim = FlightSimulator::new(FlightConfig::default(), screen(), Vec::new()).unwrap();
    let mut up_and_pitch = throttle_up();
    up_and_pitch.pitch_down = true;
    sim.advance_toward(up_and_pitch, toward(SCALE, 0));
    sim.advance_toward(throttle_down(), toward(SCALE, 0));
    assert_eq!(sim.throttle(), 0);
    let mut last = sim.velocity();
    assert!(last.x > 0 && last.y > 0);
    let mut ticks = 0;
    while sim.velocity() != Vec2::zero() {
        sim.advance_toward(InputSnapshot::none(), toward(SCALE, 0));
        let now = sim.velocity();
        assert!(0 <= now.x && now.x <= last.x);
        assert!(0 <= now.y && now.y <= last.y);
        assert!(now.x < last.x || now.y < last.y);
        last = now;
        ticks += 1;
        assert!(ticks < 100_000);
    }
    assert_eq!(sim.status(), Status::Flying);
}

#[test]
fn leaving_by_the_right_edge_crashes() {
    let sim = crashed_on_the_right_edge();
    assert_eq!(sim.position(), Vec2::new(1_280_000_980, 360 * U));
    assert!(sim.is_crashed());
}

#[test]
fn leaving_by_the_left_edge_crashes() {
    let mut sim = starting_at(1_000, 360 * U, Vec::new());
    sim.advance_toward(throttle_up(), toward(-SCALE, 0));
    assert_eq!(sim.position(), Vec2::new(-980, 360 * U));
    assert_eq!(sim.status(), Status::Crashed);
}

#[test]
fn leaving_by_the_top_edge_crashes() {
    let mut sim = starting_at(640 * U, 1_000, Vec::new());
    sim.advance_toward(throttle_up(), toward(0, SCALE));
    assert_eq!(sim.position(), Vec2::new(640 * U, -980));
    assert_eq!(sim.status(), Status::Crashed);
}

#[test]
fn leaving_by_the_bottom_edge_crashes() {
    let mut sim = starting_at(640 * U, 720 * U - 1_000, Vec::new());
    sim.advance_toward(throttle_up(), toward(0, -SCALE));
    assert_eq!(sim.position(), Vec2::new(640 * U, 720 * U + 980));
    assert_eq!(sim.status(), Status::Crashed);
}

#[test]
fn reaching_the_edge_itself_is_still_inside() {
    let mut sim = starting_at(1280 * U - 1_980, 360 * U, Vec::new());
    sim.advance_toward(throttle_up(), toward(SCALE, 0));
    assert_eq!(sim.position(), Vec2::new(1280 * U, 360 * U));
    assert_eq!(sim.status(), Status::Flying);
    sim.advance_toward(throttle_up(), toward(SCALE, 0));
    assert_eq!(sim.position(), Vec2::new(1_280_005_920, 360 * U));
    assert_eq!(sim.status(), Status::Crashed);
}

#[test]
fn margin_moves_the_crash_line_inward() {
    let config = FlightConfig {
        margin: 1_500_000,
        start: Vec2::new(1280 * U - 1_500_000 - 1_000, 360 * U),
        ..FlightConfig::default()
    };
    let mut sim = FlightSimulator::new(config, screen(), Vec::new()).unwrap();
    sim.advance_toward(throttle_up(), toward(SCALE, 0));
    assert_eq!(sim.position(), Vec2::new(1280 * U - 1_500_000 + 980, 360 * U));
    assert_eq!(sim.status(), Status::Crashed);

    let mut without = starting_at(1280 * U - 1_500_000 - 1_000, 360 * U, Vec::new());
    without.advance_toward(throttle_up(), toward(SCALE, 0));
    assert_eq!(without.status(), Status::Flying);
}

#[test]
fn entering_a_zone_crashes() {
    let mut sim = starting_at(300 * U - 1_000, 300 * U, vec![wall()]);
    sim.advance_toward(throttle_up(), toward(SCALE, 0));
    assert_eq!(sim.position(), Vec2::new(300_000_980, 300 * U));
    assert_eq!(sim.status(), Status::Crashed);
}

#[test]
fn passing_beside_a_zone_keeps_flying() {
    let mut above = starting_at(300 * U - 1_000, 200 * U - 1, vec![wall()]);
    above.advance_toward(throttle_up(), toward(SCALE, 0));
    assert_eq!(above.position(), Vec2::new(300_000_980, 200 * U - 1));
    assert_eq!(above.status(), Status::Flying);

    let mut below = starting_at(300 * U - 1_000, 600 * U, vec![wall()]);
    below.advance_toward(throttle_up(), toward(SCALE, 0));
    assert_eq!(below.position(), Vec2::new(300_000_980, 600 * U));
    assert_eq!(below.status(), Status::Flying);
}

#[test]
fn stopping_short_of_a_zone_keeps_flying_until_it_is_entered() {
    let mut sim = starting_at(300 * U - 1_981, 300 * U, vec![wall()]);
    sim.advance_toward(throttle_up(), toward(SCALE, 0));
    assert_eq!(sim.position(), Vec2::new(300 * U - 1, 300 * U));
    assert_eq!(sim.status(), Status::Flying);
    sim.advance_toward(throttle_up(), toward(SCALE, 0));
    assert_eq!(sim.position(), Vec2::new(300_005_919, 300 * U));
    assert_eq!(sim.status(), Status::Crashed);
}

#[test]
fn starting_inside_a_zone_crashes_at_the_first_tick() {
    let mut sim = starting_at(325 * U, 400 * U, vec![wall()]);
    assert_eq!(sim.status(), Status::Flying);
    sim.advance_toward(InputSnapshot::none(), toward(SCALE, 0));
    assert_eq!(sim.status(), Status::Crashed);
    assert_eq!(sim.position(), Vec2::new(325 * U, 400 * U));
}

#[test]
fn any_of_several_zones_crashes() {
    let zones = vec![
        Rect { x: 0, y: 0, w: 10 * U, h: 720 * U },
        Rect { x: 1270 * U, y: 0, w: 10 * U, h: 720 * U },
    ];
    let mut sim = starting_at(1270 * U - 1_000, 360 * U, zones);
    sim.advance_toward(throttle_up(), toward(SCALE, 0));
    assert_eq!(sim.status(), Status::Crashed);
}

#[test]
fn turning_right_then_thrusting_climbs_on_screen() {
    let mut sim = FlightSimulator::new(FlightConfig::default(), screen(), Vec::new()).unwrap();
    let mut right = InputSnapshot::none();
    right.yaw_right = true;
    for _ in 0..10 {
        sim.advance(right, direction_of);
    }
    assert_eq!(sim.heading(), 276_000);
    assert_eq!(sim.position(), Vec2::new(640 * U, 360 * U));
    let direction = direction_of(sim.steered_heading(throttle_up()));
    assert_eq!(direction.cos(), 962_153);
    assert_eq!(direction.sin(), 272_509);
    let expected = [
        (Vec2::new(640_001_904, 359_999_461), Vec2::new(1_904, -539), Vec2::new(1_924, -545)),
        (Vec2::new(640_007_598, 359_997_849), Vec2::new(5_694, -1_612), Vec2::new(3_810, -1_080)),
        (Vec2::new(640_018_949, 359_994_635), Vec2::new(11_351, -3_214), Vec2::new(5_659, -1_603)),
    ];
    for (position, velocity, acceleration) in expected {
        sim.advance(throttle_up(), direction_of);
        assert_eq!(sim.position(), position);
        assert_eq!(sim.velocity(), velocity);
        assert_eq!(sim.acceleration(), acceleration);
        assert_eq!(sim.heading(), 276_000);
    }
}

#[test]
fn turning_left_then_thrusting_and_pitching() {
    let mut sim = FlightSimulator::new(FlightConfig::default(), screen(), Vec::new()).unwrap();
    let mut left = InputSnapshot::none();
    left.yaw_left = true;
    for _ in 0..3 {
        sim.advance(left, direction_of);
    }
    assert_eq!(sim.heading(), -82_800);
    let mut input = throttle_up();
    input.pitch_up = true;
    let direction = direction_of(sim.steered_heading(input));
    assert_eq!(direction.cos(), 996_574);
    assert_eq!(direction.sin(), -82_705);
    sim.advance(input, direction_of);
    assert_eq!(sim.velocity(), Vec2::new(335, -19_568));
    assert_eq!(sim.acceleration(), Vec2::new(1_993, 165));
    assert_eq!(sim.position(), Vec2::new(640_000_335, 359_980_432));
    sim.advance(input, direction_of);
    assert_eq!(sim.velocity(), Vec2::new(2_640, -38_777));
    assert_eq!(sim.acceleration(), Vec2::new(3_980, 721));
    assert_eq!(sim.position(), Vec2::new(640_002_975, 359_941_655));
}

#[test]
fn advance_asks_the_compass_for_the_steered_heading() {
    let mut sim = FlightSimulator::new(FlightConfig::default(), screen(), Vec::new()).unwrap();
    let asked: Cell<Option<i64>> = Cell::new(None);
    let calls = Cell::new(0u32);
    let mut right = throttle_up();
    right.yaw_right = true;
    for tick in 1..=5i64 {
        let expected = sim.steered_heading(right);
        assert_eq!(expected, tick * 27_600);
        sim.advance(right, |heading| {
            asked.set(Some(heading));
            calls.set(calls.get() + 1);
            direction_of(heading)
        });
        assert_eq!(asked.get(), Some(expected));
        assert_eq!(sim.heading(), expected);
        assert_eq!(calls.get() as i64, tick);
    }
}

#[test]
fn advance_does_not_ask_the_compass_while_crashed() {
    let mut sim = crashed_on_the_right_edge();
    let calls = Cell::new(0u32);
    let position = sim.position();
    sim.advance(throttle_up(), |heading| {
        calls.set(calls.get() + 1);
        direction_of(heading)
    });
    assert_eq!(calls.get(), 0);
    assert_eq!(sim.position(), position);
    assert!(sim.is_crashed());
    sim.advance(reset(), |heading| {
        calls.set(calls.get() + 1);
        direction_of(heading)
    });
    assert_eq!(calls.get(), 0);
    assert_eq!(sim.status(), Status::Flying);
    assert_eq!(sim.position(), Vec2::new(1280 * U - 1_000, 360 * U));
    assert_eq!(sim.velocity(), Vec2::zero());
}

#[test]
fn advance_is_advance_toward_with_the_answer_of_the_compass() {
    let mut asking = FlightSimulator::new(FlightConfig::default(), screen(), Vec::new()).unwrap();
    let mut given = FlightSimulator::new(FlightConfig::default(), screen(), Vec::new()).unwrap();
    let mut input = throttle_up();
    input.yaw_left = true;
    input.pitch_down = true;
    for _ in 0..40 {
        let direction = direction_of(given.steered_heading(input));
        given.advance_toward(input, direction);
        asking.advance(input, direction_of);
        assert_eq!(asking.position(), given.position());
        assert_eq!(asking.velocity(), given.velocity());
        assert_eq!(asking.acceleration(), given.acceleration());
        assert_eq!(asking.heading(), given.heading());
        assert_eq!(asking.throttle(), given.throttle());
        assert_eq!(asking.status(), given.status());
    }
    assert_eq!(asking.heading(), -40 * 27_600);
}
