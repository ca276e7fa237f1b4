use vstd::prelude::*;

use crate::heading::{
    heading_of, lemma_projection_bounds, lemma_turn_bounds, reflect, turn_delta, valid_turn,
    DirectionVector, Heading, ProjectionTable, Turn, Wall, ANGLE_LIMIT, UNIT,
};

verus! {

/// Radius of influence and lookahead distance, in world units.
pub const RADIUS: i64 = 200;

/// Distance a bird covers in one step, in world units.
pub const SPEED: i64 = 2;

/// Largest magnitude of a coordinate that a step accepts, in fixed-point steps.
pub const COORD_LIMIT: i64 = 0x10_0000_0000_0000;

/// What a bird is: a position at scale `UNIT` and a heading.
pub struct BirdModel {
    pub x: int,
    pub y: int,
    pub heading: Heading,
}

/// The bird's coordinates and angle are small enough for a step's arithmetic.
pub open spec fn within_limits(b: BirdModel) -> bool {
    &&& -COORD_LIMIT <= b.x <= COORD_LIMIT
    &&& -COORD_LIMIT <= b.y <= COORD_LIMIT
    &&& -ANGLE_LIMIT <= b.heading.angle <= ANGLE_LIMIT
}

/// The point one influence radius ahead of the bird along its heading.
pub open spec fn lookahead(b: BirdModel) -> (int, int) {
    (b.x + b.heading.dx * RADIUS, b.y + b.heading.dy * RADIUS)
}

/// The bird after taking heading `h` and advancing `SPEED` along it.
pub open spec fn advanced(b: BirdModel, h: Heading) -> BirdModel {
    BirdModel { x: b.x + h.dx * SPEED, y: b.y + h.dy * SPEED, heading: h }
}

/// Squared Euclidean distance between two birds, at scale `UNIT²`.
pub open spec fn dist_sq(a: BirdModel, b: BirdModel) -> int {
    (a.x - b.x) * (a.x - b.x) + (a.y - b.y) * (a.y - b.y)
}

/// A position, used as the lookahead probe of a bird.
#[derive(Clone, Copy)]
pub struct Point {
    x: i64,
    y: i64,
}

impl View for Point {
    type V = (int, int);

    closed spec fn view(&self) -> (int, int) {
        (self.x as int, self.y as int)
    }
}

impl Point {
    pub fn new(x: i64, y: i64) -> (r: Point)
        ensures
            r@ == (x as int, y as int),
    {
        Point { x, y }
    }

    pub fn x(&self) -> (r: i64)
        ensures
            r == self@.0,
    {
        self.x
    }

    pub fn y(&self) -> (r: i64)
        ensures
            r == self@.1,
    {
        self.y
    }
}

/// A point agent: a position at scale `UNIT` and a direction.
#[derive(Clone, Copy)]
pub struct Bird {
    coord_x: i64,
    coord_y: i64,
    direction: DirectionVector,
}

impl View for Bird {
    type V = BirdModel;

    closed spec fn view(&self) -> BirdModel {
        BirdModel { x: self.coord_x as int, y: self.coord_y as int, heading: self.direction@ }
    }
}

impl Bird {
    pub fn new(x: i64, y: i64, direction: DirectionVector) -> (r: Bird)
        ensures
            r@ == (BirdModel { x: x as int, y: y as int, heading: direction@ }),
    {
        Bird { coord_x: x, coord_y: y, direction }
    }

    pub fn coord_x(&self) -> (r: i64)
        ensures
            r == self@.x,
    {
        self.coord_x
    }

    pub fn coord_y(&self) -> (r: i64)
        ensures
            r == self@.y,
    {
        self.coord_y
    }

    pub fn direction(&self) -> (r: DirectionVector)
        ensures
            r@ == self@.heading,
    {
        self.direction
    }

    pub(crate) fn set_direction(&mut self, direction: DirectionVector)
        ensures
            final(self)@ == (BirdModel { heading: direction@, ..old(self)@ }),
    {
        self.direction = direction;
    }

    /// Whether the coordinates and angle are small enough for a step's arithmetic.
    pub fn within_limits(&self) -> (r: bool)
        ensures
            r == within_limits(self@),
    {
        let a = self.direction.angle();
        -COORD_LIMIT <= self.coord_x && self.coord_x <= COORD_LIMIT && -COORD_LIMIT <= self.coord_y
            && self.coord_y <= COORD_LIMIT && -ANGLE_LIMIT <= a && a <= ANGLE_LIMIT
    }

    /// The point one influence radius ahead along the heading.
    pub fn direction_line_stop(&self) -> (r: Point)
        requires
            within_limits(self@),
        ensures
            r@ == lookahead(self@),
    {
        proof {
            use_type_invariant(&self.direction);
            lemma_projection_bounds(self@.heading.dx, self@.heading.dy);
        }
        Point { x: self.coord_x + self.direction.norm_cos(), y: self.coord_y + self.direction.norm_sin() }
    }

    /// Squared Euclidean distance to `other`, at scale `UNIT²`.
    pub fn distance_sq_to(&self, other: &Bird) -> (r: i128)
        requires
            within_limits(self@),
            within_limits(other@),
        ensures
            r == dist_sq(self@, other@),
    {
        let x_diff = self.coord_x as i128 - other.coord_x as i128;
        let y_diff = self.coord_y as i128 - other.coord_y as i128;
        assert(0 <= x_diff * x_diff <= 0x20_0000_0000_0000 * 0x20_0000_0000_0000) by (nonlinear_arith)
            requires
                -0x20_0000_0000_0000 <= x_diff <= 0x20_0000_0000_0000,
        ;
        assert(0 <= y_diff * y_diff <= 0x20_0000_0000_0000 * 0x20_0000_0000_0000) by (nonlinear_arith)
            requires
                -0x20_0000_0000_0000 <= y_diff <= 0x20_0000_0000_0000,
        ;
        x_diff * x_diff + y_diff * y_diff
    }

    /// Turns by `t`, then advances `SPEED` along the new heading.
    pub fn fly(&mut self, t: Turn, table: &ProjectionTable)
        requires
            valid_turn(t),
            within_limits(old(self)@),
        ensures
            final(self)@ == advanced(
                old(self)@,
                heading_of(table@, old(self)@.heading.angle + turn_delta(t)),
            ),
    {
        self.direction.turn(t, table);
        self.update_coordinates();
    }

    /// Bounces off edge `w`, turns by `t`, then advances `SPEED`.
    pub fn wall_bounce(&mut self, w: Wall, t: Turn, table: &ProjectionTable)
        requires
            valid_turn(t),
            within_limits(old(self)@),
        ensures
            final(self)@ == advanced(
                old(self)@,
                heading_of(table@, reflect(old(self)@.heading.angle, w) + turn_delta(t)),
            ),
    {
        self.direction.invert(w, table);
        proof {
            lemma_turn_bounds(t);
        }
        self.direction.turn(t, table);
        self.update_coordinates();
    }

    fn update_coordinates(&mut self)
        requires
            -COORD_LIMIT <= old(self)@.x <= COORD_LIMIT,
            -COORD_LIMIT <= old(self)@.y <= COORD_LIMIT,
        ensures
            final(self)@ == advanced(old(self)@, old(self)@.heading),
    {
        proof {
            use_type_invariant(&self.direction);
            lemma_projection_bounds(self@.heading.dx, self@.heading.dy);
        }
        self.coord_x = self.coord_x + self.direction.cos() * SPEED;
        self.coord_y = self.coord_y + self.direction.sin() * SPEED;
    }
}

} // verus!
