use sensor_history::motion::{
    BoundaryMode, Data3d, Direction, Movement, Position, FIELD_HEIGHT_MILLI, FIELD_WIDTH_MILLI,
};

fn walker_at(x: i64, y: i64, direction_x: Direction, mode: BoundaryMode) -> Movement {
    Movement {
        position: Position { sensor_id: 0, timestamp_usec: 0, position: Data3d { x, y, z: 0 } },
        direction_x,
        direction_y: Direction::Positive,
        mode,
    }
}

#[test]
fn boundary_reflection_clamps_and_turns_at_the_lower_edge() {
    let mut walker = walker_at(0, 50_000, Direction::Negative, BoundaryMode::Reflective);
    walker.advance(500, 0, 1);
    assert_eq!(walker.position.position.x, -500);
    walker.ensure_in_bounds();
    assert_eq!(walker.position.position.x, 0);
    assert_eq!(walker.direction_x, Direction::Positive);
    assert_eq!(walker.direction_y, Direction::Positive);
}

#[test]
fn boundary_reflection_clamps_and_turns_at_the_upper_edge() {
    let mut walker = walker_at(FIELD_WIDTH_MILLI, 50_000, Direction::Positive, BoundaryMode::Reflective);
    walker.advance(300, 0, 2);
    assert_eq!(walker.position.position.x, FIELD_WIDTH_MILLI + 300);
    walker.ensure_in_bounds();
    assert_eq!(walker.position.position.x, FIELD_WIDTH_MILLI);
    assert_eq!(walker.direction_x, Direction::Negative);
}

#[test]
fn clamping_mode_sticks_to_the_wall_without_turning() {
    let mut walker = walker_at(0, 50_000, Direction::Negative, BoundaryMode::Clamping);
    walker.advance(500, 0, 3);
    walker.ensure_in_bounds();
    assert_eq!(walker.position.position.x, 0);
    assert_eq!(walker.direction_x, Direction::Negative);
}

#[test]
fn on_field_positions_are_not_reflected() {
    let mut walker = walker_at(40_000, 50_000, Direction::Negative, BoundaryMode::Reflective);
    walker.advance(500, 500, 4);
    walker.ensure_in_bounds();
    assert_eq!(walker.position.position.x, 39_500);
    assert_eq!(walker.position.position.y, 50_500);
    assert_eq!(walker.direction_x, Direction::Negative);
    assert_eq!(walker.position.timestamp_usec, 4);
}

#[test]
fn direction_turn_flips_and_flips_back() {
    let mut direction = Direction::Positive;
    direction.turn();
    assert_eq!(direction, Direction::Negative);
    direction.turn();
    assert_eq!(direction, Direction::Positive);
}

#[test]
fn direction_factor_is_the_sign() {
    assert_eq!(Direction::Positive.get_factor(), 1);
    assert_eq!(Direction::Negative.get_factor(), -1);
}

#[test]
fn position_new_starts_on_field_with_its_id() {
    let position = Position::new(9);
    assert_eq!(position.sensor_id, 9);
    assert!(position.position.x >= 0 && position.position.x <= FIELD_WIDTH_MILLI);
    assert!(position.position.y >= 0 && position.position.y <= FIELD_HEIGHT_MILLI);
    assert_eq!(position.position.z, 0);
    assert!(position.timestamp_usec > 0);
}

#[test]
fn position_clamping_variant_never_turns_anything_and_stays_on_field() {
    let mut position = Position { sensor_id: 1, timestamp_usec: 0, position: Data3d { x: -700, y: 100_900, z: 0 } };
    position.ensure_in_bounds();
    assert_eq!(position.position.x, 0);
    assert_eq!(position.position.y, FIELD_HEIGHT_MILLI);
    assert_eq!(position.timestamp_usec, 0);
}

#[test]
fn reflective_ticks_stay_on_field() {
    let mut walker = Movement::new(Position::new(3));
    for _ in 0..200 {
        walker.tick();
        assert!(walker.position.position.x >= 0 && walker.position.position.x <= FIELD_WIDTH_MILLI);
        assert!(walker.position.position.y >= 0 && walker.position.position.y <= FIELD_HEIGHT_MILLI);
        assert_eq!(walker.position.position.z, 0);
        assert_eq!(walker.position.sensor_id, 3);
    }
}

#[test]
fn clamping_ticks_stay_on_field() {
    let mut position = Position::new(6);
    for velocity in [-1000i64, -500, 0, 500, 1000] {
        for _ in 0..50 {
            position.tick(velocity);
            assert!(position.position.x >= 0 && position.position.x <= FIELD_WIDTH_MILLI);
            assert!(position.position.y >= 0 && position.position.y <= FIELD_HEIGHT_MILLI);
        }
    }
    assert_eq!(position.sensor_id, 6);
}

#[test]
fn position_advance_adds_the_drawn_offsets_and_stamps_the_given_time() {
    let mut position =
        Position { sensor_id: 2, timestamp_usec: 0, position: Data3d { x: 10_000, y: 20_000, z: 0 } };
    position.advance(100, -100, 700, -700, 500, 42);
    assert_eq!(position.position.x, 11_300);
    assert_eq!(position.position.y, 19_700);
    assert_eq!(position.timestamp_usec, 42);
    assert_eq!(position.sensor_id, 2);
    assert_eq!(position.position.z, 0);
}

#[test]
fn position_update_refreshes_the_timestamp_from_the_clock() {
    let mut position =
        Position { sensor_id: 1, timestamp_usec: 0, position: Data3d { x: 50_000, y: 50_000, z: 0 } };
    position.update(0);
    assert!(position.timestamp_usec > 0);
}

#[test]
fn noise_cores_add_exactly_the_drawn_offsets() {
    let mut walker = walker_at(30_000, 40_000, Direction::Positive, BoundaryMode::Reflective);
    walker.apply_noise_by(300, -300);
    assert_eq!(walker.position.position.x, 30_300);
    assert_eq!(walker.position.position.y, 39_700);
    assert_eq!(walker.position.timestamp_usec, 0);
    assert_eq!(walker.direction_x, Direction::Positive);

    let mut position =
        Position { sensor_id: 4, timestamp_usec: 7, position: Data3d { x: 100, y: 200, z: 0 } };
    position.apply_noise_by(-100, 250);
    assert_eq!(position.position.x, 0);
    assert_eq!(position.position.y, 450);
    assert_eq!(position.timestamp_usec, 7);
}

#[test]
fn boundary_mode_is_chosen_at_construction() {
    let walker = Movement::new(Position::new(4));
    assert_eq!(walker.mode, BoundaryMode::Reflective);
    let mut sticky = Movement::new_with_mode(Position::new(5), BoundaryMode::Clamping);
    assert_eq!(sticky.mode, BoundaryMode::Clamping);
    for _ in 0..50 {
        sticky.tick();
        assert!(sticky.position.position.x >= 0 && sticky.position.position.x <= FIELD_WIDTH_MILLI);
        assert_eq!(sticky.mode, BoundaryMode::Clamping);
    }
}

#[test]
fn update_moves_along_the_stored_heading() {
    let mut walker = walker_at(50_000, 50_000, Direction::Negative, BoundaryMode::Reflective);
    walker.update();
    assert!(walker.position.position.x <= 50_000);
    assert!(walker.position.position.x >= 49_000);
    assert!(walker.position.position.y >= 50_000);
    assert!(walker.position.position.y <= 51_000);
}
