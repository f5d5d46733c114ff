//! Bounded random walk on a rectangular field.
//!
//! Coordinates are fixed-point milli-units: one unit of the field is 1000
//! milli-units, so the default 100 x 100 field spans 0..=100_000 on each
//! axis. Each tick displaces an entity by a bounded random amount, then adds
//! bounded uniform noise, then clamps the position back onto the field —
//! either reflecting the travel direction off the boundary or merely sticking
//! to it, depending on the configured boundary mode.

use vstd::prelude::*;

use crate::host;

verus! {

/// Width of the field, in milli-units.
pub const FIELD_WIDTH_MILLI: i64 = 100_000;

/// Height of the field, in milli-units.
pub const FIELD_HEIGHT_MILLI: i64 = 100_000;

/// Largest magnitude of the per-tick unit-range perturbation.
pub const STEP_RANGE_MILLI: i64 = 1000;

/// Largest magnitude of the per-tick direction drift term.
pub const DRIFT_RANGE_MILLI: i64 = 100;

/// Largest magnitude of the uniform noise added each tick.
pub const NOISE_RANGE_MILLI: i64 = 300;

/// How far outside the field a coordinate can stray within one tick, before
/// clamping pulls it back: drift, perturbation and external bias, plus
/// noise, can together displace an in-field coordinate by no more than this.
pub const TICK_SLACK_MILLI: i64 = 2500;

/// A coordinate lying on the field along an axis of extent `limit`.
pub open spec fn coord_in_field(x: int, limit: int) -> bool {
    0 <= x <= limit
}

/// The boundary clamp: out-of-field values stick to the nearer edge.
pub open spec fn clamp_coord(x: int, limit: int) -> int {
    if x < 0 {
        0
    } else if x > limit {
        limit
    } else {
        x
    }
}

/// A point in space, in milli-units. The walk is planar: `z` stays zero.
#[derive(Clone, Copy, PartialEq, Eq, Structural, Debug)]
pub struct Data3d {
    pub x: i64,
    pub y: i64,
    pub z: i64,
}

impl Data3d {
    /// Both planar coordinates on the field.
    pub open spec fn in_field(self) -> bool {
        coord_in_field(self.x as int, FIELD_WIDTH_MILLI as int)
            && coord_in_field(self.y as int, FIELD_HEIGHT_MILLI as int)
    }

    /// A uniformly random point on the field, on the z = 0 plane.
    pub fn new() -> (result: Self)
        ensures
            result.in_field(),
            result.z == 0,
    {
        Data3d {
            x: host::random_in_range(0, FIELD_WIDTH_MILLI),
            y: host::random_in_range(0, FIELD_HEIGHT_MILLI),
            z: 0,
        }
    }
}

/// One sensor reading: who, when, where.
#[derive(Clone, Copy, PartialEq, Eq, Structural, Debug)]
pub struct Position {
    pub sensor_id: u64,
    pub timestamp_usec: u64,
    pub position: Data3d,
}

impl Position {
    /// A fresh reading for `sensor_id`: a random on-field starting point,
    /// stamped with the current wall clock.
    pub fn new(sensor_id: u64) -> (result: Self)
        ensures
            result.sensor_id == sensor_id,
            result.position.in_field(),
            result.position.z == 0,
    {
        Position { sensor_id, timestamp_usec: host::now_micros(), position: Data3d::new() }
    }

    /// The deterministic core of one update: adds the given drift and
    /// perturbation plus the external bias to each planar coordinate, and
    /// stamps the reading with `now_usec`.
    pub fn advance(
        &mut self,
        drift_x: i64,
        drift_y: i64,
        perturb_x: i64,
        perturb_y: i64,
        velocity_milli: i64,
        now_usec: u64,
    )
        requires
            old(self).position.in_field(),
            -DRIFT_RANGE_MILLI <= drift_x <= DRIFT_RANGE_MILLI,
            -DRIFT_RANGE_MILLI <= drift_y <= DRIFT_RANGE_MILLI,
            -STEP_RANGE_MILLI <= perturb_x <= STEP_RANGE_MILLI,
            -STEP_RANGE_MILLI <= perturb_y <= STEP_RANGE_MILLI,
            -STEP_RANGE_MILLI <= velocity_milli <= STEP_RANGE_MILLI,
        ensures
            final(self).sensor_id == old(self).sensor_id,
            final(self).timestamp_usec == now_usec,
            final(self).position.z == old(self).position.z,
            final(self).position.x
                == old(self).position.x + drift_x + perturb_x + velocity_milli,
            final(self).position.y
                == old(self).position.y + drift_y + perturb_y + velocity_milli,
    {
        self.position.x = self.position.x + drift_x + perturb_x + velocity_milli;
        self.position.y = self.position.y + drift_y + perturb_y + velocity_milli;
        self.timestamp_usec = now_usec;
    }

    /// Random drift and perturbation plus the external bias `velocity_milli`,
    /// applied to both planar coordinates, and the timestamp refreshed from
    /// the wall clock. Identity and `z` are untouched; each coordinate moves
    /// by at most the bias plus `DRIFT_RANGE_MILLI + STEP_RANGE_MILLI`.
    pub fn update(&mut self, velocity_milli: i64)
        requires
            old(self).position.in_field(),
            -STEP_RANGE_MILLI <= velocity_milli <= STEP_RANGE_MILLI,
        ensures
            final(self).sensor_id == old(self).sensor_id,
            final(self).position.z == old(self).position.z,
            old(self).position.x + velocity_milli - (DRIFT_RANGE_MILLI + STEP_RANGE_MILLI)
                <= final(self).position.x
                <= old(self).position.x + velocity_milli + (DRIFT_RANGE_MILLI + STEP_RANGE_MILLI),
            old(self).position.y + velocity_milli - (DRIFT_RANGE_MILLI + STEP_RANGE_MILLI)
                <= final(self).position.y
                <= old(self).position.y + velocity_milli + (DRIFT_RANGE_MILLI + STEP_RANGE_MILLI),
    {
        let drift_x = host::random_in_range(-DRIFT_RANGE_MILLI, DRIFT_RANGE_MILLI);
        let drift_y = host::random_in_range(-DRIFT_RANGE_MILLI, DRIFT_RANGE_MILLI);
        let perturb_x = host::random_in_range(-STEP_RANGE_MILLI, STEP_RANGE_MILLI);
        let perturb_y = host::random_in_range(-STEP_RANGE_MILLI, STEP_RANGE_MILLI);
        let now = host::now_micros();
        self.advance(drift_x, drift_y, perturb_x, perturb_y, velocity_milli, now);
    }

    /// The deterministic core of the noise step: adds the given offsets, one
    /// per planar coordinate.
    pub fn apply_noise_by(&mut self, noise_x: i64, noise_y: i64)
        requires
            -NOISE_RANGE_MILLI <= noise_x <= NOISE_RANGE_MILLI,
            -NOISE_RANGE_MILLI <= noise_y <= NOISE_RANGE_MILLI,
            -(TICK_SLACK_MILLI - NOISE_RANGE_MILLI) <= old(self).position.x
                <= FIELD_WIDTH_MILLI + (TICK_SLACK_MILLI - NOISE_RANGE_MILLI),
            -(TICK_SLACK_MILLI - NOISE_RANGE_MILLI) <= old(self).position.y
                <= FIELD_HEIGHT_MILLI + (TICK_SLACK_MILLI - NOISE_RANGE_MILLI),
        ensures
            final(self).sensor_id == old(self).sensor_id,
            final(self).timestamp_usec == old(self).timestamp_usec,
            final(self).position.z == old(self).position.z,
            final(self).position.x == old(self).position.x + noise_x,
            final(self).position.y == old(self).position.y + noise_y,
    {
        self.position.x = self.position.x + noise_x;
        self.position.y = self.position.y + noise_y;
    }

    /// Independent uniform noise, at most `NOISE_RANGE_MILLI` in magnitude,
    /// added to both planar coordinates.
    pub fn apply_noise(&mut self)
        requires
            -(TICK_SLACK_MILLI - NOISE_RANGE_MILLI) <= old(self).position.x
                <= FIELD_WIDTH_MILLI + (TICK_SLACK_MILLI - NOISE_RANGE_MILLI),
            -(TICK_SLACK_MILLI - NOISE_RANGE_MILLI) <= old(self).position.y
                <= FIELD_HEIGHT_MILLI + (TICK_SLACK_MILLI - NOISE_RANGE_MILLI),
        ensures
            final(self).sensor_id == old(self).sensor_id,
            final(self).timestamp_usec == old(self).timestamp_usec,
            final(self).position.z == old(self).position.z,
            old(self).position.x - NOISE_RANGE_MILLI <= final(self).position.x
                <= old(self).position.x + NOISE_RANGE_MILLI,
            old(self).position.y - NOISE_RANGE_MILLI <= final(self).position.y
                <= old(self).position.y + NOISE_RANGE_MILLI,
    {
        let noise_x = host::random_in_range(-NOISE_RANGE_MILLI, NOISE_RANGE_MILLI);
        let noise_y = host::random_in_range(-NOISE_RANGE_MILLI, NOISE_RANGE_MILLI);
        self.apply_noise_by(noise_x, noise_y);
    }

    /// The plain clamping boundary: an off-field coordinate sticks to the
    /// nearer edge. No direction state exists here, so nothing turns.
    pub fn ensure_in_bounds(&mut self)
        ensures
            final(self).sensor_id == old(self).sensor_id,
            final(self).timestamp_usec == old(self).timestamp_usec,
            final(self).position.z == old(self).position.z,
            final(self).position.x == clamp_coord(old(self).position.x as int, FIELD_WIDTH_MILLI as int),
            final(self).position.y == clamp_coord(old(self).position.y as int, FIELD_HEIGHT_MILLI as int),
            final(self).position.in_field(),
    {
        if self.position.x < 0 {
            self.position.x = 0;
        } else if self.position.x > FIELD_WIDTH_MILLI {
            self.position.x = FIELD_WIDTH_MILLI;
        }
        if self.position.y < 0 {
            self.position.y = 0;
        } else if self.position.y > FIELD_HEIGHT_MILLI {
            self.position.y = FIELD_HEIGHT_MILLI;
        }
    }

    /// One full tick of the non-reflective walk: random update with the
    /// given bias (which also refreshes the timestamp), noise, then the
    /// clamp. An in-field reading stays in-field and each coordinate moves
    /// by at most the bias plus drift, perturbation and noise.
    pub fn tick(&mut self, velocity_milli: i64)
        requires
            old(self).position.in_field(),
            -STEP_RANGE_MILLI <= velocity_milli <= STEP_RANGE_MILLI,
        ensures
            final(self).sensor_id == old(self).sensor_id,
            final(self).position.z == old(self).position.z,
            final(self).position.in_field(),
            old(self).position.x + velocity_milli
                - (DRIFT_RANGE_MILLI + STEP_RANGE_MILLI + NOISE_RANGE_MILLI)
                <= final(self).position.x
                <= old(self).position.x + velocity_milli
                + (DRIFT_RANGE_MILLI + STEP_RANGE_MILLI + NOISE_RANGE_MILLI),
            old(self).position.y + velocity_milli
                - (DRIFT_RANGE_MILLI + STEP_RANGE_MILLI + NOISE_RANGE_MILLI)
                <= final(self).position.y
                <= old(self).position.y + velocity_milli
                + (DRIFT_RANGE_MILLI + STEP_RANGE_MILLI + NOISE_RANGE_MILLI),
    {
        self.update(velocity_milli);
        self.apply_noise();
        self.ensure_in_bounds();
    }
}

/// Sign of travel along one axis.
#[derive(Clone, Copy, PartialEq, Eq, Structural, Debug)]
pub enum Direction {
    Positive,
    Negative,
}

impl Direction {
    /// The opposite sign.
    pub open spec fn flip(self) -> Direction {
        match self {
            Direction::Positive => Direction::Negative,
            Direction::Negative => Direction::Positive,
        }
    }

    /// The sign as a multiplier.
    pub open spec fn factor_spec(self) -> int {
        match self {
            Direction::Positive => 1,
            Direction::Negative => -1,
        }
    }

    /// A uniformly random sign.
    pub fn random() -> (result: Direction) {
        if host::random_flag() {
            Direction::Positive
        } else {
            Direction::Negative
        }
    }

    /// Reverses the sign in place.
    pub fn turn(&mut self)
        ensures
            *final(self) == old(self).flip(),
    {
        match self {
            Direction::Positive => {
                *self = Direction::Negative;
            }
            Direction::Negative => {
                *self = Direction::Positive;
            }
        }
    }

    /// The sign as an executable multiplier.
    pub fn get_factor(&self) -> (result: i64)
        ensures
            result == self.factor_spec(),
    {
        match self {
            Direction::Positive => 1,
            Direction::Negative => -1,
        }
    }
}

/// What a boundary crossing does to the stored travel direction: reflective
/// entities turn back inward, clamping entities keep their heading and may
/// stick to the wall until chance frees them.
#[derive(Clone, Copy, PartialEq, Eq, Structural, Debug)]
pub enum BoundaryMode {
    Reflective,
    Clamping,
}

/// One moving entity: its latest reading and its heading along each axis.
pub struct Movement {
    pub position: Position,
    pub direction_x: Direction,
    pub direction_y: Direction,
    pub mode: BoundaryMode,
}

impl Movement {
    /// A reflective walker starting from `position`, with random headings.
    pub fn new(position: Position) -> (result: Self)
        ensures
            result.position == position,
            result.mode == BoundaryMode::Reflective,
    {
        Movement {
            position,
            direction_x: Direction::random(),
            direction_y: Direction::random(),
            mode: BoundaryMode::Reflective,
        }
    }

    /// A walker with the given boundary mode, with random headings.
    pub fn new_with_mode(position: Position, mode: BoundaryMode) -> (result: Self)
        ensures
            result.position == position,
            result.mode == mode,
    {
        Movement { position, direction_x: Direction::random(), direction_y: Direction::random(), mode }
    }

    /// The deterministic core of one update: displaces each coordinate by the
    /// given non-negative step, signed by the stored heading, and stamps the
    /// reading with `now_usec`.
    pub fn advance(&mut self, step_x: i64, step_y: i64, now_usec: u64)
        requires
            old(self).position.position.in_field(),
            0 <= step_x <= STEP_RANGE_MILLI,
            0 <= step_y <= STEP_RANGE_MILLI,
        ensures
            old(self).direction_x == Direction::Positive
                ==> final(self).position.position.x == old(self).position.position.x + step_x,
            old(self).direction_x == Direction::Negative
                ==> final(self).position.position.x == old(self).position.position.x - step_x,
            old(self).direction_y == Direction::Positive
                ==> final(self).position.position.y == old(self).position.position.y + step_y,
            old(self).direction_y == Direction::Negative
                ==> final(self).position.position.y == old(self).position.position.y - step_y,
            final(self).position.position.z == old(self).position.position.z,
            final(self).position.sensor_id == old(self).position.sensor_id,
            final(self).position.timestamp_usec == now_usec,
            final(self).direction_x == old(self).direction_x,
            final(self).direction_y == old(self).direction_y,
            final(self).mode == old(self).mode,
    {
        match self.direction_x {
            Direction::Positive => {
                self.position.position.x = self.position.position.x + step_x;
            }
            Direction::Negative => {
                self.position.position.x = self.position.position.x - step_x;
            }
        }
        match self.direction_y {
            Direction::Positive => {
                self.position.position.y = self.position.position.y + step_y;
            }
            Direction::Negative => {
                self.position.position.y = self.position.position.y - step_y;
            }
        }
        self.position.timestamp_usec = now_usec;
    }

    /// One random update: each coordinate moves by at most one unit-range
    /// step along its stored heading, and the timestamp is refreshed from
    /// the wall clock. Headings and identity are untouched.
    pub fn update(&mut self)
        requires
            old(self).position.position.in_field(),
        ensures
            final(self).position.sensor_id == old(self).position.sensor_id,
            final(self).position.position.z == old(self).position.position.z,
            final(self).direction_x == old(self).direction_x,
            final(self).direction_y == old(self).direction_y,
            final(self).mode == old(self).mode,
            old(self).direction_x == Direction::Positive ==> old(self).position.position.x
                <= final(self).position.position.x
                <= old(self).position.position.x + STEP_RANGE_MILLI,
            old(self).direction_x == Direction::Negative
                ==> old(self).position.position.x - STEP_RANGE_MILLI
                <= final(self).position.position.x <= old(self).position.position.x,
            old(self).direction_y == Direction::Positive ==> old(self).position.position.y
                <= final(self).position.position.y
                <= old(self).position.position.y + STEP_RANGE_MILLI,
            old(self).direction_y == Direction::Negative
                ==> old(self).position.position.y - STEP_RANGE_MILLI
                <= final(self).position.position.y <= old(self).position.position.y,
    {
        let step_x = host::random_in_range(0, STEP_RANGE_MILLI);
        let step_y = host::random_in_range(0, STEP_RANGE_MILLI);
        let now = host::now_micros();
        self.advance(step_x, step_y, now);
    }

    /// The deterministic core of the noise step: adds the given offsets, one
    /// per planar coordinate. Headings are untouched.
    pub fn apply_noise_by(&mut self, noise_x: i64, noise_y: i64)
        requires
            -NOISE_RANGE_MILLI <= noise_x <= NOISE_RANGE_MILLI,
            -NOISE_RANGE_MILLI <= noise_y <= NOISE_RANGE_MILLI,
            -(TICK_SLACK_MILLI - NOISE_RANGE_MILLI) <= old(self).position.position.x
                <= FIELD_WIDTH_MILLI + (TICK_SLACK_MILLI - NOISE_RANGE_MILLI),
            -(TICK_SLACK_MILLI - NOISE_RANGE_MILLI) <= old(self).position.position.y
                <= FIELD_HEIGHT_MILLI + (TICK_SLACK_MILLI - NOISE_RANGE_MILLI),
        ensures
            final(self).position.sensor_id == old(self).position.sensor_id,
            final(self).position.timestamp_usec == old(self).position.timestamp_usec,
            final(self).position.position.z == old(self).position.position.z,
            final(self).direction_x == old(self).direction_x,
            final(self).direction_y == old(self).direction_y,
            final(self).mode == old(self).mode,
            final(self).position.position.x == old(self).position.position.x + noise_x,
            final(self).position.position.y == old(self).position.position.y + noise_y,
    {
        self.position.position.x = self.position.position.x + noise_x;
        self.position.position.y = self.position.position.y + noise_y;
    }

    /// Independent uniform noise, at most `NOISE_RANGE_MILLI` in magnitude,
    /// added to both planar coordinates. Headings are untouched.
    pub fn apply_noise(&mut self)
        requires
            -(TICK_SLACK_MILLI - NOISE_RANGE_MILLI) <= old(self).position.position.x
                <= FIELD_WIDTH_MILLI + (TICK_SLACK_MILLI - NOISE_RANGE_MILLI),
            -(TICK_SLACK_MILLI - NOISE_RANGE_MILLI) <= old(self).position.position.y
                <= FIELD_HEIGHT_MILLI + (TICK_SLACK_MILLI - NOISE_RANGE_MILLI),
        ensures
            final(self).position.sensor_id == old(self).position.sensor_id,
            final(self).position.timestamp_usec == old(self).position.timestamp_usec,
            final(self).position.position.z == old(self).position.position.z,
            final(self).direction_x == old(self).direction_x,
            final(self).direction_y == old(self).direction_y,
            final(self).mode == old(self).mode,
            old(self).position.position.x - NOISE_RANGE_MILLI <= final(self).position.position.x
                <= old(self).position.position.x + NOISE_RANGE_MILLI,
            old(self).position.position.y - NOISE_RANGE_MILLI <= final(self).position.position.y
                <= old(self).position.position.y + NOISE_RANGE_MILLI,
    {
        let noise_x = host::random_in_range(-NOISE_RANGE_MILLI, NOISE_RANGE_MILLI);
        let noise_y = host::random_in_range(-NOISE_RANGE_MILLI, NOISE_RANGE_MILLI);
        self.apply_noise_by(noise_x, noise_y);
    }

    /// The boundary step. An off-field coordinate is clamped to the nearer
    /// edge; in reflective mode the heading on that axis also turns inward,
    /// so the next tick reads the flipped direction and walks back into the
    /// field. On-field coordinates and their headings are untouched.
    pub fn ensure_in_bounds(&mut self)
        ensures
            final(self).position.sensor_id == old(self).position.sensor_id,
            final(self).position.timestamp_usec == old(self).position.timestamp_usec,
            final(self).position.position.z == old(self).position.position.z,
            final(self).mode == old(self).mode,
            final(self).position.position.x
                == clamp_coord(old(self).position.position.x as int, FIELD_WIDTH_MILLI as int),
            final(self).position.position.y
                == clamp_coord(old(self).position.position.y as int, FIELD_HEIGHT_MILLI as int),
            final(self).direction_x == if old(self).mode == BoundaryMode::Reflective
                && !coord_in_field(old(self).position.position.x as int, FIELD_WIDTH_MILLI as int) {
                old(self).direction_x.flip()
            } else {
                old(self).direction_x
            },
            final(self).direction_y == if old(self).mode == BoundaryMode::Reflective
                && !coord_in_field(old(self).position.position.y as int, FIELD_HEIGHT_MILLI as int) {
                old(self).direction_y.flip()
            } else {
                old(self).direction_y
            },
            final(self).position.position.in_field(),
    {
        let reflective = match self.mode {
            BoundaryMode::Reflective => true,
            BoundaryMode::Clamping => false,
        };
        if self.position.position.x < 0 {
            self.position.position.x = 0;
            if reflective {
                self.direction_x.turn();
            }
        } else if self.position.position.x > FIELD_WIDTH_MILLI {
            self.position.position.x = FIELD_WIDTH_MILLI;
            if reflective {
                self.direction_x.turn();
            }
        }
        if self.position.position.y < 0 {
            self.position.position.y = 0;
            if reflective {
                self.direction_y.turn();
            }
        } else if self.position.position.y > FIELD_HEIGHT_MILLI {
            self.position.position.y = FIELD_HEIGHT_MILLI;
            if reflective {
                self.direction_y.turn();
            }
        }
    }

    /// One full tick: random update, noise, then the boundary step. An
    /// in-field entity is in-field again afterwards, under the same identity,
    /// displaced along each stored heading by at most one step plus noise and
    /// against it by at most the noise.
    pub fn tick(&mut self)
        requires
            old(self).position.position.in_field(),
        ensures
            final(self).position.sensor_id == old(self).position.sensor_id,
            final(self).position.position.z == old(self).position.position.z,
            final(self).mode == old(self).mode,
            final(self).position.position.in_field(),
            old(self).direction_x == Direction::Positive
                ==> old(self).position.position.x - NOISE_RANGE_MILLI
                <= final(self).position.position.x
                <= old(self).position.position.x + STEP_RANGE_MILLI + NOISE_RANGE_MILLI,
            old(self).direction_x == Direction::Negative
                ==> old(self).position.position.x - STEP_RANGE_MILLI - NOISE_RANGE_MILLI
                <= final(self).position.position.x
                <= old(self).position.position.x + NOISE_RANGE_MILLI,
            old(self).direction_y == Direction::Positive
                ==> old(self).position.position.y - NOISE_RANGE_MILLI
                <= final(self).position.position.y
                <= old(self).position.position.y + STEP_RANGE_MILLI + NOISE_RANGE_MILLI,
            old(self).direction_y == Direction::Negative
                ==> old(self).position.position.y - STEP_RANGE_MILLI - NOISE_RANGE_MILLI
                <= final(self).position.position.y
                <= old(self).position.position.y + NOISE_RANGE_MILLI,
    {
        self.update();
        self.apply_noise();
        self.ensure_in_bounds();
    }
}

} // verus!
