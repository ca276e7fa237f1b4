//! A flock of point agents moving inside a bounded rectangle, in fixed-point
//! arithmetic: each step every bird advances along its heading, bounces off
//! the edges and aligns its heading with nearby birds.

pub mod area;
pub mod bird;
pub mod heading;
pub mod laws;
mod random;
pub mod text;

pub use area::{Area, ConfigError, NeighborInfo, DEFAULT_HEIGHT, DEFAULT_WIDTH, REACH};
pub use bird::{Bird, Point, COORD_LIMIT, RADIUS, SPEED};
pub use heading::{
    canonical, DirectionVector, Heading, ProjectionTable, Turn, Wall, ANGLE_LIMIT, HALF_TURN, MAX_ANGLE, NB_MAX,
    NB_SCALE, QUARTER_TURN, TURN, UNIT,
};
