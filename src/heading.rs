use vstd::prelude::*;

use crate::random::{random_bool, random_in};

verus! {

/// Fixed-point scale: one world unit of length is `UNIT` steps, and a
/// projection (cosine or sine) of `UNIT` stands for 1.
pub const UNIT: i64 = 1_000_000;

/// Angle units in a full turn (2π).
pub const TURN: i64 = 65536;

/// Half a turn (π).
pub const HALF_TURN: i64 = 32768;

/// A quarter turn (π/2).
pub const QUARTER_TURN: i64 = 16384;

/// Largest deliberate turn of one step, π/4, in angle units.
pub const MAX_ANGLE: i64 = 8192;

/// Scale of a turn draw: a draw of `NB_SCALE` stands for 1.
pub const NB_SCALE: i64 = 1000;

/// Largest turn draw, 1.1 at scale `NB_SCALE`.
pub const NB_MAX: u32 = 1100;

/// Largest magnitude of a raw angle that a step accepts.
pub const ANGLE_LIMIT: i64 = 0x10_0000_0000_0000;

/// Canonical form of an angle: its remainder modulo a full turn, in `[0, TURN)`.
pub open spec fn canon(a: int) -> int {
    a % (TURN as int)
}

/// A projection pair has unit length, up to the rounding of each part to a
/// whole fixed-point step.
pub open spec fn unit_projection(c: int, s: int) -> bool {
    UNIT * UNIT - 2 * UNIT <= c * c + s * s <= UNIT * UNIT + 2 * UNIT
}

/// The signs of a projection pair agree with the quadrant of canonical angle `k`.
pub open spec fn in_quadrant(k: int, c: int, s: int) -> bool {
    &&& (0 <= k <= QUARTER_TURN ==> c >= 0 && s >= 0)
    &&& (QUARTER_TURN <= k <= HALF_TURN ==> c <= 0 && s >= 0)
    &&& (HALF_TURN <= k <= 3 * QUARTER_TURN ==> c <= 0 && s <= 0)
    &&& (3 * QUARTER_TURN <= k < TURN ==> c >= 0 && s <= 0)
}

pub open spec fn valid_entry(k: int, e: (i64, i64)) -> bool {
    unit_projection(e.0 as int, e.1 as int) && in_quadrant(k, e.0 as int, e.1 as int)
}

/// A projection table holds, for each canonical angle, its (cos, sin) pair.
pub open spec fn valid_table(t: Seq<(i64, i64)>) -> bool {
    &&& t.len() == TURN
    &&& forall|k: int| 0 <= k < TURN ==> #[trigger] valid_entry(k, t[k])
}

/// The (cos, sin) of every canonical angle at scale `UNIT`, as the host
/// computed them.
pub struct ProjectionTable {
    entries: Vec<(i64, i64)>,
}

impl View for ProjectionTable {
    type V = Seq<(i64, i64)>;

    closed spec fn view(&self) -> Seq<(i64, i64)> {
        self.entries@
    }
}

/// The bounds that a unit-length pair puts on each of its parts.
pub proof fn lemma_projection_bounds(c: int, s: int)
    requires
        unit_projection(c, s),
    ensures
        -UNIT - 1 <= c <= UNIT + 1,
        -UNIT - 1 <= s <= UNIT + 1,
{
    assert(c * c <= UNIT * UNIT + 2 * UNIT) by (nonlinear_arith)
        requires
            unit_projection(c, s),
    ;
    assert(s * s <= UNIT * UNIT + 2 * UNIT) by (nonlinear_arith)
        requires
            unit_projection(c, s),
    ;
    assert(-UNIT - 1 <= c <= UNIT + 1) by (nonlinear_arith)
        requires
            c * c <= UNIT * UNIT + 2 * UNIT,
    ;
    assert(-UNIT - 1 <= s <= UNIT + 1) by (nonlinear_arith)
        requires
            s * s <= UNIT * UNIT + 2 * UNIT,
    ;
}

fn check_entry(k: i64, c: i64, s: i64) -> (r: bool)
    requires
        0 <= k < TURN,
    ensures
        r == valid_entry(k as int, (c, s)),
{
    let bound: i64 = 2 * UNIT;
    if c < -bound || c > bound || s < -bound || s > bound {
        proof {
            if unit_projection(c as int, s as int) {
                lemma_projection_bounds(c as int, s as int);
            }
        }
        return false;
    }
    assert(0 <= c * c <= 4 * UNIT * UNIT && 0 <= s * s <= 4 * UNIT * UNIT) by (nonlinear_arith)
        requires
            -2 * UNIT <= c <= 2 * UNIT,
            -2 * UNIT <= s <= 2 * UNIT,
    ;
    let len2 = c * c + s * s;
    let unit = UNIT * UNIT - 2 * UNIT <= len2 && len2 <= UNIT * UNIT + 2 * UNIT;
    let quadrant = (!(k <= QUARTER_TURN) || (c >= 0 && s >= 0)) && (!(QUARTER_TURN <= k && k
        <= HALF_TURN) || (c <= 0 && s >= 0)) && (!(HALF_TURN <= k && k <= 3 * QUARTER_TURN) || (
    c <= 0 && s <= 0)) && (!(3 * QUARTER_TURN <= k) || (c >= 0 && s <= 0));
    unit && quadrant
}

impl ProjectionTable {
    /// Every table holds a valid entry for each canonical angle.
    #[verifier::type_invariant]
    pub open spec fn inv(&self) -> bool {
        valid_table(self@)
    }

    /// Accepts `entries` as a table when it holds one valid entry for each
    /// canonical angle, in order.
    pub fn new(entries: Vec<(i64, i64)>) -> (r: Option<ProjectionTable>)
        ensures
            r.is_some() <==> valid_table(entries@),
            r.is_some() ==> r.unwrap()@ == entries@,
    {
        if entries.len() != TURN as usize {
            return None;
        }
        let mut k: usize = 0;
        while k < entries.len()
            invariant
                entries@.len() == TURN,
                0 <= k <= TURN,
                forall|j: int| 0 <= j < k ==> #[trigger] valid_entry(j, entries@[j]),
            decreases TURN - k,
        {
            let (c, s) = entries[k];
            if !check_entry(k as i64, c, s) {
                return None;
            }
            k = k + 1;
        }
        Some(ProjectionTable { entries })
    }

    /// The (cos, sin) pair of angle `a`.
    pub fn projection(&self, a: i64) -> (r: (i64, i64))
        ensures
            r == self@[canon(a as int)],
            valid_entry(canon(a as int), r),
    {
        proof {
            use_type_invariant(self);
        }
        let k = canonical(a);
        self.entries[k as usize]
    }
}

/// Reduces an angle to its canonical form.
pub fn canonical(a: i64) -> (r: i64)
    ensures
        0 <= r < TURN,
        r == canon(a as int),
{
    let m = a % TURN;
    if m < 0 {
        m + TURN
    } else {
        m
    }
}

/// What a heading is: a raw angle and its cached projections.
pub struct Heading {
    pub angle: int,
    pub dx: int,
    pub dy: int,
}

/// The heading of angle `a` with the projections that table `t` gives it.
pub open spec fn heading_of(t: Seq<(i64, i64)>, a: int) -> Heading {
    Heading { angle: a, dx: t[canon(a)].0 as int, dy: t[canon(a)].1 as int }
}

/// A heading's cached projections are those that table `t` gives its angle.
pub open spec fn projected_by(h: Heading, t: Seq<(i64, i64)>) -> bool {
    h == heading_of(t, h.angle)
}

/// A heading's cached projections have unit length and point into the
/// quadrant of its angle.
pub open spec fn consistent(h: Heading) -> bool {
    unit_projection(h.dx, h.dy) && in_quadrant(canon(h.angle), h.dx, h.dy)
}

/// Which edge a bird bounces off.
#[derive(Clone, Copy, PartialEq, Eq, Structural)]
pub enum Wall {
    /// The lookahead left the world across a side edge: factor 1.
    Horizontal,
    /// The lookahead left the world across the top or bottom edge: factor 2.
    Vertical,
}

/// The reflection factor of an edge, in half turns.
pub open spec fn wall_factor(w: Wall) -> int {
    match w {
        Wall::Horizontal => 1,
        Wall::Vertical => 2,
    }
}

/// The angle after a bounce off edge `w`: `factor·π − a`.
pub open spec fn reflect(a: int, w: Wall) -> int {
    wall_factor(w) * HALF_TURN - a
}

/// One draw of turning noise: a magnitude in `[0, 1.1]` at scale `NB_SCALE`
/// and a side.
#[derive(Clone, Copy, PartialEq, Eq, Structural)]
pub struct Turn {
    pub nb: u32,
    pub negative: bool,
}

pub open spec fn valid_turn(t: Turn) -> bool {
    t.nb <= NB_MAX
}

/// The turn of a draw: `nb² · (MAX_ANGLE / 2)`, signed by its side.
pub open spec fn turn_delta(t: Turn) -> int {
    let m = (t.nb as int) * (t.nb as int) * (MAX_ANGLE / 2) / (NB_SCALE * NB_SCALE);
    if t.negative {
        -m
    } else {
        m
    }
}

/// The largest angle that one turn adds or takes away.
pub proof fn lemma_turn_bounds(t: Turn)
    requires
        valid_turn(t),
    ensures
        -5000 <= turn_delta(t) <= 5000,
{
    let n = t.nb as int;
    assert(0 <= n * n * (MAX_ANGLE / 2) <= 1100 * 1100 * (MAX_ANGLE / 2)) by (nonlinear_arith)
        requires
            0 <= n <= 1100,
    ;
}

impl Turn {
    /// Draws one turn from the thread's random source.
    pub fn random() -> (r: Turn)
        ensures
            valid_turn(r),
    {
        let nb = random_in(0, NB_MAX as i64 + 1);
        let negative = random_bool();
        Turn { nb: nb as u32, negative }
    }

    /// The signed angle of this turn.
    pub fn delta(&self) -> (r: i64)
        requires
            valid_turn(*self),
        ensures
            r == turn_delta(*self),
    {
        let n = self.nb as i64;
        assert(0 <= n * n <= 1100 * 1100) by (nonlinear_arith)
            requires
                0 <= n <= 1100,
        ;
        let m = n * n * (MAX_ANGLE / 2) / (NB_SCALE * NB_SCALE);
        if self.negative {
            -m
        } else {
            m
        }
    }
}

/// A unit direction: a raw angle, not wrapped, with its cos and sin cached at
/// scale `UNIT`.
#[derive(Clone, Copy)]
pub struct DirectionVector {
    dx: i64,
    dy: i64,
    rad: i64,
}

impl View for DirectionVector {
    type V = Heading;

    closed spec fn view(&self) -> Heading {
        Heading { angle: self.rad as int, dx: self.dx as int, dy: self.dy as int }
    }
}

impl DirectionVector {
    /// Every direction's cached projections agree with its angle.
    #[verifier::type_invariant]
    pub open spec fn inv(&self) -> bool {
        consistent(self@)
    }

    /// The direction of angle `rad`, with the projections that `table` gives it.
    pub fn from_rad(rad: i64, table: &ProjectionTable) -> (r: DirectionVector)
        ensures
            r@ == heading_of(table@, rad as int),
    {
        let (dx, dy) = table.projection(rad);
        DirectionVector { dx, dy, rad }
    }

    /// A direction at an angle drawn uniformly from `[0, TURN]`.
    pub fn random(table: &ProjectionTable) -> (r: DirectionVector)
        ensures
            0 <= r@.angle <= TURN,
            projected_by(r@, table@),
    {
        let a = random_in(0, TURN + 1);
        DirectionVector::from_rad(a, table)
    }

    /// The cached cosine, at scale `UNIT`.
    pub fn dx(&self) -> (r: i64)
        ensures
            r == self@.dx,
    {
        self.dx
    }

    /// The cached sine, at scale `UNIT`.
    pub fn dy(&self) -> (r: i64)
        ensures
            r == self@.dy,
    {
        self.dy
    }

    /// The canonical angle, in `[0, TURN)`.
    pub fn rad(&self) -> (r: i64)
        ensures
            0 <= r < TURN,
            r == canon(self@.angle),
    {
        canonical(self.rad)
    }

    /// The raw angle, as accumulated.
    pub fn angle(&self) -> (r: i64)
        ensures
            r == self@.angle,
    {
        self.rad
    }

    /// The cosine of the angle, at scale `UNIT`.
    pub fn cos(&self) -> (r: i64)
        ensures
            r == self@.dx,
    {
        self.dx
    }

    /// The sine of the angle, at scale `UNIT`.
    pub fn sin(&self) -> (r: i64)
        ensures
            r == self@.dy,
    {
        self.dy
    }

    /// The horizontal part of the lookahead offset, `cos · RADIUS`.
    pub fn norm_cos(&self) -> (r: i64)
        ensures
            r == self@.dx * crate::bird::RADIUS,
    {
        proof {
            use_type_invariant(self);
            lemma_projection_bounds(self@.dx, self@.dy);
        }
        self.dx * crate::bird::RADIUS
    }

    /// The vertical part of the lookahead offset, `sin · RADIUS`.
    pub fn norm_sin(&self) -> (r: i64)
        ensures
            r == self@.dy * crate::bird::RADIUS,
    {
        proof {
            use_type_invariant(self);
            lemma_projection_bounds(self@.dx, self@.dy);
        }
        self.dy * crate::bird::RADIUS
    }

    /// Turns by `t` and recomputes the projections.
    pub fn turn(&mut self, t: Turn, table: &ProjectionTable)
        requires
            valid_turn(t),
            -2 * ANGLE_LIMIT <= old(self)@.angle <= 2 * ANGLE_LIMIT,
        ensures
            final(self)@ == heading_of(table@, old(self)@.angle + turn_delta(t)),
            projected_by(final(self)@, table@),
    {
        proof {
            lemma_turn_bounds(t);
        }
        *self = DirectionVector::from_rad(self.rad + t.delta(), table);
    }

    /// Applies one random turn of noise.
    pub fn randomize_in_range(&mut self, table: &ProjectionTable)
        requires
            -ANGLE_LIMIT <= old(self)@.angle <= ANGLE_LIMIT,
        ensures
            projected_by(final(self)@, table@),
            exists|t: Turn|
                valid_turn(t) && final(self)@ == heading_of(
                    table@,
                    old(self)@.angle + turn_delta(t),
                ),
    {
        let t = Turn::random();
        self.turn(t, table);
    }

    /// Bounces off edge `w`: the angle becomes `factor·π − angle`.
    pub fn invert(&mut self, w: Wall, table: &ProjectionTable)
        requires
            -ANGLE_LIMIT <= old(self)@.angle <= ANGLE_LIMIT,
        ensures
            final(self)@ == heading_of(table@, reflect(old(self)@.angle, w)),
            projected_by(final(self)@, table@),
    {
        let fact: i64 = match w {
            Wall::Horizontal => 1,
            Wall::Vertical => 2,
        };
        *self = DirectionVector::from_rad(fact * HALF_TURN - self.rad, table);
    }
}

} // verus!
