use vstd::prelude::*;

use crate::bird::{
    advanced, dist_sq, lookahead, within_limits, Bird, BirdModel, COORD_LIMIT, RADIUS,
};
use crate::heading::{
    canon, heading_of, projected_by, reflect, turn_delta, valid_table, valid_turn,
    DirectionVector, Heading, ProjectionTable, Turn, Wall, MAX_ANGLE, TURN, UNIT,
};
use crate::random::random_in;

verus! {

/// Influence radius at scale `UNIT`.
pub const REACH: i64 = RADIUS * UNIT;

/// Width of the default world, in world units.
pub const DEFAULT_WIDTH: u32 = 1000;

/// Height of the default world, in world units.
pub const DEFAULT_HEIGHT: u32 = 800;

/// Why a bird could not be spawned.
#[derive(Clone, Copy, PartialEq, Eq, Structural, Debug)]
pub enum ConfigError {
    /// The world is not wider and taller than twice the influence radius, so
    /// the spawn range is empty.
    TooSmall,
}

/// What a world is: its size at scale `UNIT`, its birds in order, and the
/// projection table that gives headings their cos and sin.
pub struct AreaModel {
    pub width: int,
    pub height: int,
    pub birds: Seq<BirdModel>,
    pub table: Seq<(i64, i64)>,
}

/// Every bird of `birds` is within the limits of a step's arithmetic.
pub open spec fn all_within_limits(birds: Seq<BirdModel>) -> bool {
    forall|i: int| 0 <= i < birds.len() ==> within_limits(#[trigger] birds[i])
}

/// The edge, if any, that a bird's lookahead point crosses; a crossing of a
/// side edge takes priority over one of the top or bottom.
pub open spec fn wall_hit(m: AreaModel, b: BirdModel) -> Option<Wall> {
    let p = lookahead(b);
    if p.0 < 0 || p.0 >= m.width {
        Some(Wall::Horizontal)
    } else if p.1 < 0 || p.1 >= m.height {
        Some(Wall::Vertical)
    } else {
        None
    }
}

/// Bird `j` of `prev` is another bird than `i`, within the influence radius of it.
pub open spec fn is_neighbor(prev: Seq<BirdModel>, i: int, j: int) -> bool {
    j != i && dist_sq(prev[i], prev[j]) <= REACH * REACH
}

/// What a neighbor record holds.
pub struct Neighbor {
    pub id: int,
    pub heading: Heading,
    pub distance_sq: int,
}

/// The neighbors of bird `i` among the first `n` birds of `prev`, in order.
pub open spec fn neighbors(prev: Seq<BirdModel>, i: int, n: int) -> Seq<Neighbor>
    decreases n,
{
    if n <= 0 {
        seq![]
    } else {
        let rest = neighbors(prev, i, n - 1);
        if is_neighbor(prev, i, n - 1) {
            rest.push(
                Neighbor {
                    id: n - 1,
                    heading: prev[n - 1].heading,
                    distance_sq: dist_sq(prev[i], prev[n - 1]),
                },
            )
        } else {
            rest
        }
    }
}

/// The sum of the canonical angles of the records.
pub open spec fn angle_sum(ns: Seq<Neighbor>) -> int
    decreases ns.len(),
{
    if ns.len() == 0 {
        0
    } else {
        angle_sum(ns.drop_last()) + canon(ns.last().heading.angle)
    }
}

/// The arithmetic mean of the canonical angles, reduced modulo a full turn.
pub open spec fn mean_angle(ns: Seq<Neighbor>) -> int {
    (angle_sum(ns) / (ns.len() as int)) % (TURN as int)
}

/// The angle of bird `i` after alignment: the mean of its neighbors' angles
/// where it has any, its own angle otherwise.
pub open spec fn aligned_angle(prev: Seq<BirdModel>, i: int) -> int {
    let ns = neighbors(prev, i, prev.len() as int);
    if ns.len() > 0 {
        mean_angle(ns)
    } else {
        prev[i].heading.angle
    }
}

/// The angle that bird `i` flies along this step, with turn `t`: reflected
/// where its lookahead leaves the world, aligned otherwise.
pub open spec fn planned_angle(m: AreaModel, i: int, t: Turn) -> int {
    match wall_hit(m, m.birds[i]) {
        Some(w) => reflect(m.birds[i].heading.angle, w) + turn_delta(t),
        None => aligned_angle(m.birds, i) + turn_delta(t),
    }
}

/// Bird `i` after one step with turn `t`.
pub open spec fn next_bird(m: AreaModel, i: int, t: Turn) -> BirdModel {
    advanced(m.birds[i], heading_of(m.table, planned_angle(m, i, t)))
}

/// The birds after one step, bird `i` turning by `turns[i]`; every bird
/// reads the birds as they were before the step.
pub open spec fn stepped(m: AreaModel, turns: Seq<Turn>) -> Seq<BirdModel> {
    Seq::new(m.birds.len(), |i: int| next_bird(m, i, turns[i]))
}

/// The spawn range of a world: `[REACH, width − REACH) × [REACH, height − REACH)`.
pub open spec fn spawn_ok(m: AreaModel, b: BirdModel) -> bool {
    &&& REACH <= b.x < m.width - REACH
    &&& REACH <= b.y < m.height - REACH
    &&& 0 <= b.heading.angle <= TURN
    &&& projected_by(b.heading, m.table)
}

pub open spec fn birds_view(v: Seq<Bird>) -> Seq<BirdModel> {
    v.map_values(|b: Bird| b@)
}

/// A record of one neighbor found during a step.
#[derive(Clone, Copy)]
pub struct NeighborInfo {
    bird_id: usize,
    direction: DirectionVector,
    distance_sq: i128,
}

impl View for NeighborInfo {
    type V = Neighbor;

    closed spec fn view(&self) -> Neighbor {
        Neighbor {
            id: self.bird_id as int,
            heading: self.direction@,
            distance_sq: self.distance_sq as int,
        }
    }
}

pub open spec fn neighbors_view(v: Seq<NeighborInfo>) -> Seq<Neighbor> {
    v.map_values(|n: NeighborInfo| n@)
}

impl NeighborInfo {
    pub fn bird_id(&self) -> (r: usize)
        ensures
            r == self@.id,
    {
        self.bird_id
    }

    pub fn direction(&self) -> (r: DirectionVector)
        ensures
            r@ == self@.heading,
    {
        self.direction
    }

    pub fn distance_sq(&self) -> (r: i128)
        ensures
            r == self@.distance_sq,
    {
        self.distance_sq
    }
}

/// A bounded world and its flock.
pub struct Area {
    width: i64,
    height: i64,
    birds: Vec<Bird>,
    table: ProjectionTable,
}

impl View for Area {
    type V = AreaModel;

    closed spec fn view(&self) -> AreaModel {
        AreaModel {
            width: self.width as int,
            height: self.height as int,
            birds: birds_view(self.birds@),
            table: self.table@,
        }
    }
}

/// A world is well formed: its size is positive and within the limits of a
/// step's arithmetic, its table is valid, and every heading's projections are
/// those of the table.
pub open spec fn area_wf(m: AreaModel) -> bool {
    &&& 0 < m.width <= COORD_LIMIT
    &&& 0 < m.height <= COORD_LIMIT
    &&& valid_table(m.table)
    &&& forall|i: int| 0 <= i < m.birds.len() ==> projected_by(#[trigger] m.birds[i].heading, m.table)
}

impl Area {
    /// The default world, `DEFAULT_WIDTH × DEFAULT_HEIGHT`, with no birds.
    pub fn new(table: ProjectionTable) -> (r: Area)
        ensures
            area_wf(r@),
            r@ == (AreaModel {
                width: DEFAULT_WIDTH * UNIT,
                height: DEFAULT_HEIGHT * UNIT,
                birds: seq![],
                table: table@,
            }),
    {
        Area::with_size(DEFAULT_WIDTH, DEFAULT_HEIGHT, table)
    }

    /// A world `width × height` world units in size, with no birds.
    pub fn with_size(width: u32, height: u32, table: ProjectionTable) -> (r: Area)
        requires
            width > 0,
            height > 0,
        ensures
            area_wf(r@),
            r@ == (AreaModel {
                width: width * UNIT,
                height: height * UNIT,
                birds: seq![],
                table: table@,
            }),
    {
        proof {
            use_type_invariant(&table);
        }
        let birds: Vec<Bird> = Vec::new();
        let r = Area { width: width as i64 * UNIT, height: height as i64 * UNIT, birds, table };
        assert(birds_view(r.birds@) =~= seq![]);
        r
    }

    /// Width at scale `UNIT`.
    pub fn width(&self) -> (r: i64)
        ensures
            r == self@.width,
    {
        self.width
    }

    /// Height at scale `UNIT`.
    pub fn height(&self) -> (r: i64)
        ensures
            r == self@.height,
    {
        self.height
    }

    /// The influence radius, in world units.
    pub fn bird_radius(&self) -> (r: i64)
        ensures
            r == RADIUS,
    {
        RADIUS
    }

    /// The largest deliberate turn of one step, in angle units.
    pub fn max_angle(&self) -> (r: i64)
        ensures
            r == MAX_ANGLE,
    {
        MAX_ANGLE
    }

    pub fn nb_birds(&self) -> (r: usize)
        ensures
            r == self@.birds.len(),
    {
        self.birds.len()
    }

    /// The birds, in order.
    pub fn get_birds(&self) -> (r: Vec<Bird>)
        ensures
            birds_view(r@) == self@.birds,
    {
        let mut r: Vec<Bird> = Vec::new();
        let mut i: usize = 0;
        while i < self.birds.len()
            invariant
                0 <= i <= self.birds@.len(),
                birds_view(r@) == birds_view(self.birds@).take(i as int),
            decreases self.birds@.len() - i,
        {
            let ghost r0 = r@;
            let b = self.birds[i];
            r.push(b);
            assert(birds_view(r@) =~= birds_view(r0).push(b@));
            i = i + 1;
            assert(birds_view(r@) =~= birds_view(self.birds@).take(i as int));
        }
        assert(birds_view(self.birds@).take(i as int) =~= birds_view(self.birds@));
        r
    }

    /// The projection table of this world.
    pub fn table(&self) -> (r: &ProjectionTable)
        ensures
            r@ == self@.table,
    {
        &self.table
    }

    /// Whether every bird is within the limits of a step's arithmetic.
    pub fn within_limits(&self) -> (r: bool)
        ensures
            r == all_within_limits(self@.birds),
    {
        let mut i: usize = 0;
        while i < self.birds.len()
            invariant
                0 <= i <= self.birds@.len(),
                forall|j: int| 0 <= j < i ==> within_limits(#[trigger] birds_view(self.birds@)[j]),
            decreases self.birds@.len() - i,
        {
            if !self.birds[i].within_limits() {
                assert(!within_limits(birds_view(self.birds@)[i as int]));
                return false;
            }
            i = i + 1;
        }
        true
    }

    /// Appends a bird at `(x, y)`, at scale `UNIT`, heading along angle `rad`.
    pub fn place_bird(&mut self, x: i64, y: i64, rad: i64)
        requires
            area_wf(old(self)@),
        ensures
            area_wf(final(self)@),
            final(self)@ == (AreaModel {
                birds: old(self)@.birds.push(
                    BirdModel { x: x as int, y: y as int, heading: heading_of(old(self)@.table, rad as int) },
                ),
                ..old(self)@
            }),
    {
        let bird = Bird::new(x, y, DirectionVector::from_rad(rad, &self.table));
        self.birds.push(bird);
        assert(birds_view(self.birds@) =~= birds_view(old(self).birds@).push(bird@));
    }

    /// Spawns a bird at a random position of the spawn range, with a random
    /// heading; fails, leaving the world as it was, where the range is empty.
    pub fn add_bird(&mut self) -> (r: Result<(), ConfigError>)
        requires
            area_wf(old(self)@),
        ensures
            area_wf(final(self)@),
            r.is_ok() <==> (old(self)@.width > 2 * REACH && old(self)@.height > 2 * REACH),
            r.is_err() ==> r == Err::<(), ConfigError>(ConfigError::TooSmall) && final(self)@ == old(self)@,
            r.is_ok() ==> exists|b: BirdModel|
                spawn_ok(old(self)@, b) && final(self)@ == (AreaModel {
                    birds: old(self)@.birds.push(b),
                    ..old(self)@
                }),
    {
        if self.width <= 2 * REACH || self.height <= 2 * REACH {
            return Err(ConfigError::TooSmall);
        }
        let x = random_in(REACH, self.width - REACH);
        let y = random_in(REACH, self.height - REACH);
        let rad = random_in(0, TURN + 1);
        self.place_bird(x, y, rad);
        proof {
            use_type_invariant(&self.table);
            let b = BirdModel { x: x as int, y: y as int, heading: heading_of(old(self)@.table, rad as int) };
            assert(spawn_ok(old(self)@, b));
        }
        Ok(())
    }

    /// The neighbors of `bird`, bird `i` of the snapshot `prev`, in order.
    pub fn update_neighbors(&self, i: usize, bird: &Bird, prev: &Vec<Bird>) -> (r: Vec<NeighborInfo>)
        requires
            0 <= i < prev@.len(),
            bird@ == prev@[i as int]@,
            all_within_limits(birds_view(prev@)),
        ensures
            neighbors_view(r@) == neighbors(birds_view(prev@), i as int, prev@.len() as int),
    {
        let ghost snap = birds_view(prev@);
        let mut r: Vec<NeighborInfo> = Vec::new();
        let mut j: usize = 0;
        while j < prev.len()
            invariant
                0 <= j <= prev@.len(),
                0 <= i < prev@.len(),
                snap == birds_view(prev@),
                bird@ == snap[i as int],
                all_within_limits(snap),
                neighbors_view(r@) == neighbors(snap, i as int, j as int),
            decreases prev@.len() - j,
        {
            let bird_j = &prev[j];
            assert(within_limits(snap[i as int]) && within_limits(snap[j as int]));
            if i != j {
                let distance_sq = bird.distance_sq_to(bird_j);
                if distance_sq <= REACH as i128 * REACH as i128 {
                    let info = NeighborInfo { bird_id: j, direction: bird_j.direction(), distance_sq };
                    let ghost r0 = r@;
                    r.push(info);
                    assert(neighbors_view(r@) =~= neighbors_view(r0).push(info@));
                }
            }
            proof {
                assert(neighbors_view(r@) =~= neighbors(snap, i as int, j + 1));
            }
            j = j + 1;
        }
        r
    }

    /// The mean of the neighbors' canonical angles, reduced modulo a full turn.
    pub fn compute_average_direction(&self, neighbors: &Vec<NeighborInfo>) -> (r: i64)
        requires
            neighbors@.len() > 0,
        ensures
            r == mean_angle(neighbors_view(neighbors@)),
            0 <= r < TURN,
    {
        let ghost ns = neighbors_view(neighbors@);
        let mut sum: u128 = 0;
        let mut k: usize = 0;
        while k < neighbors.len()
            invariant
                0 <= k <= neighbors@.len(),
                ns == neighbors_view(neighbors@),
                sum == angle_sum(ns.take(k as int)),
                sum <= k * (TURN as int),
            decreases neighbors@.len() - k,
        {
            let a = neighbors[k].direction().rad();
            proof {
                assert(ns.take(k + 1).drop_last() =~= ns.take(k as int));
            }
            sum = sum + a as u128;
            k = k + 1;
        }
        assert(ns.take(k as int) =~= ns);
        let n = neighbors.len() as u128;
        let avg = sum / n;
        proof {
            assert(avg <= TURN) by (nonlinear_arith)
                requires
                    avg == sum / n,
                    sum <= n * TURN,
                    n > 0,
            ;
        }
        (avg % TURN as u128) as i64
    }

    fn handle_bird_movement(&self, i: usize, bird: &mut Bird, prev: &Vec<Bird>, t: Turn)
        requires
            0 <= i < prev@.len(),
            birds_view(prev@) == self@.birds,
            old(bird)@ == prev@[i as int]@,
            area_wf(self@),
            all_within_limits(self@.birds),
            valid_turn(t),
        ensures
            final(bird)@ == next_bird(self@, i as int, t),
    {
        assert(within_limits(self@.birds[i as int]));
        let pt = bird.direction_line_stop();
        if pt.x() < 0 || pt.x() >= self.width {
            bird.wall_bounce(Wall::Horizontal, t, &self.table);
        } else if pt.y() < 0 || pt.y() >= self.height {
            bird.wall_bounce(Wall::Vertical, t, &self.table);
        } else {
            let neighbors = self.update_neighbors(i, bird, prev);
            if neighbors.len() > 0 {
                let average_direction = self.compute_average_direction(&neighbors);
                bird.set_direction(DirectionVector::from_rad(average_direction, &self.table));
            } else {
                assert(projected_by(self@.birds[i as int].heading, self@.table));
            }
            bird.fly(t, &self.table);
        }
    }

    /// One step in which bird `i` turns by `turns[i]`: every bird reads the
    /// birds as they were before the step, and the new flock replaces the old
    /// one at its end.
    pub fn tick_with(&mut self, turns: &Vec<Turn>)
        requires
            area_wf(old(self)@),
            all_within_limits(old(self)@.birds),
            turns@.len() == old(self)@.birds.len(),
            forall|i: int| 0 <= i < turns@.len() ==> valid_turn(#[trigger] turns@[i]),
        ensures
            area_wf(final(self)@),
            final(self)@ == (AreaModel { birds: stepped(old(self)@, turns@), ..old(self)@ }),
    {
        let n = self.nb_birds();
        let mut tmp: Vec<Bird> = Vec::new();
        let mut i: usize = 0;
        while i < n
            invariant
                n == self@.birds.len(),
                0 <= i <= n,
                self@ == old(self)@,
                area_wf(self@),
                all_within_limits(self@.birds),
                turns@.len() == n,
                forall|k: int| 0 <= k < turns@.len() ==> valid_turn(#[trigger] turns@[k]),
                birds_view(tmp@) == stepped(self@, turns@).take(i as int),
            decreases n - i,
        {
            let mut bird = self.birds[i];
            self.handle_bird_movement(i, &mut bird, &self.birds, turns[i]);
            let ghost t0 = tmp@;
            tmp.push(bird);
            assert(birds_view(tmp@) =~= birds_view(t0).push(bird@));
            i = i + 1;
            assert(birds_view(tmp@) =~= stepped(self@, turns@).take(i as int));
        }
        assert(stepped(self@, turns@).take(n as int) =~= stepped(self@, turns@));
        let ghost before = self@;
        self.birds = tmp;
        proof {
            assert forall|k: int| 0 <= k < self@.birds.len() implies projected_by(
                #[trigger] self@.birds[k].heading,
                self@.table,
            ) by {
                assert(self@.birds[k] == next_bird(before, k, turns@[k]));
            }
        }
    }

    /// One step, with a turn for each bird drawn from the thread's random source.
    pub fn tick(&mut self)
        requires
            area_wf(old(self)@),
            all_within_limits(old(self)@.birds),
        ensures
            area_wf(final(self)@),
            exists|turns: Seq<Turn>|
                turns.len() == old(self)@.birds.len() && (forall|i: int|
                    0 <= i < turns.len() ==> valid_turn(#[trigger] turns[i])) && final(self)@ == (
                AreaModel { birds: #[trigger] stepped(old(self)@, turns), ..old(self)@ }),
    {
        let n = self.nb_birds();
        let mut turns: Vec<Turn> = Vec::new();
        let mut i: usize = 0;
        while i < n
            invariant
                0 <= i <= n,
                turns@.len() == i,
                forall|k: int| 0 <= k < turns@.len() ==> valid_turn(#[trigger] turns@[k]),
            decreases n - i,
        {
            turns.push(Turn::random());
            i = i + 1;
        }
        self.tick_with(&turns);
    }
}

} // verus!
