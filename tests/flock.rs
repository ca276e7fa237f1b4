use flock::{
    canonical, Area, Bird, ConfigError, DirectionVector, ProjectionTable, Turn, Wall, HALF_TURN,
    MAX_ANGLE, NB_MAX, QUARTER_TURN, RADIUS, REACH, SPEED, TURN, UNIT,
};

fn table() -> ProjectionTable {
    let mut entries = Vec::with_capacity(TURN as usize);
    for k in 0..TURN {
        let a = k as f64 * 2.0 * std::f64::consts::PI / TURN as f64;
        let c = (a.cos() * UNIT as f64).round() as i64;
        let s = (a.sin() * UNIT as f64).round() as i64;
        entries.push((c, s));
    }
    ProjectionTable::new(entries).expect("a table of cos and sin is valid")
}

fn units(rad: f64) -> i64 {
    (rad * TURN as f64 / (2.0 * std::f64::consts::PI)).round() as i64
}

fn radians(a: i64) -> f64 {
    a as f64 * 2.0 * std::f64::consts::PI / TURN as f64
}

fn world(x: f64) -> i64 {
    (x * UNIT as f64).round() as i64
}

fn still() -> Turn {
    Turn { nb: 0, negative: false }
}

fn same_bird(a: &Bird, b: &Bird) -> bool {
    a.coord_x() == b.coord_x()
        && a.coord_y() == b.coord_y()
        && a.direction().angle() == b.direction().angle()
        && a.direction().dx() == b.direction().dx()
        && a.direction().dy() == b.direction().dy()
}

#[test]
fn cached_projections_match_cos_and_sin() {
    let t = table();
    for &a in &[0i64, 1, 1043, QUARTER_TURN, HALF_TURN + 7, 64673, -5000, 3 * TURN + 12345] {
        let d = DirectionVector::from_rad(a, &t);
        let angle = radians(a);
        assert!((d.dx() as f64 / UNIT as f64 - angle.cos()).abs() < 1e-5);
        assert!((d.dy() as f64 / UNIT as f64 - angle.sin()).abs() < 1e-5);
        assert_eq!(d.cos(), d.dx());
        assert_eq!(d.sin(), d.dy());
        assert_eq!(d.angle(), a);
    }
}

#[test]
fn canonical_angle_lies_in_one_turn() {
    let t = table();
    for &a in &[0i64, 5, TURN - 1, TURN, -1, -TURN, -3 * TURN - 5, 1_000_000_007] {
        let r = DirectionVector::from_rad(a, &t).rad();
        assert!(0 <= r && r < TURN);
        assert_eq!((a - r).rem_euclid(TURN), 0);
        assert_eq!(canonical(a), r);
    }
    assert_eq!(canonical(-1), TURN - 1);
    assert_eq!(canonical(TURN + 3), 3);
}

#[test]
fn table_rejects_wrong_entries() {
    assert!(ProjectionTable::new(vec![(UNIT, 0); 10]).is_none());
    let mut entries: Vec<(i64, i64)> = Vec::new();
    for k in 0..TURN {
        let a = radians(k);
        entries.push(((a.cos() * UNIT as f64).round() as i64, (a.sin() * UNIT as f64).round() as i64));
    }
    let mut oversized = entries.clone();
    oversized[100] = (2 * UNIT, 0);
    assert!(ProjectionTable::new(oversized).is_none());
    let mut wrong_quadrant = entries.clone();
    wrong_quadrant[100] = (-wrong_quadrant[100].0, wrong_quadrant[100].1);
    assert!(ProjectionTable::new(wrong_quadrant).is_none());
    assert!(ProjectionTable::new(entries).is_some());
}

#[test]
fn turn_delta_values() {
    assert_eq!(Turn { nb: 0, negative: false }.delta(), 0);
    assert_eq!(Turn { nb: 1000, negative: false }.delta(), MAX_ANGLE / 2);
    assert_eq!(Turn { nb: 1000, negative: true }.delta(), -MAX_ANGLE / 2);
    assert_eq!(Turn { nb: NB_MAX, negative: false }.delta(), 4956);
    assert_eq!(Turn { nb: 500, negative: true }.delta(), -1024);
    for _ in 0..100 {
        assert!(Turn::random().nb <= NB_MAX);
    }
}

#[test]
fn invert_reflects_by_edge_factor() {
    let t = table();
    let mut d = DirectionVector::from_rad(1000, &t);
    d.invert(Wall::Horizontal, &t);
    assert_eq!(d.angle(), HALF_TURN - 1000);
    let mut d = DirectionVector::from_rad(1000, &t);
    d.invert(Wall::Vertical, &t);
    assert_eq!(d.angle(), TURN - 1000);
    assert_eq!(d.dx(), DirectionVector::from_rad(TURN - 1000, &t).dx());
    let mut d = DirectionVector::from_rad(1000, &t);
    d.turn(Turn { nb: 1000, negative: true }, &t);
    assert_eq!(d.angle(), 1000 - MAX_ANGLE / 2);
}

#[test]
fn lookahead_point_is_one_radius_ahead() {
    let t = table();
    let b = Bird::new(world(500.0), world(400.0), DirectionVector::from_rad(0, &t));
    let p = b.direction_line_stop();
    assert_eq!(p.x(), world(500.0) + RADIUS * UNIT);
    assert_eq!(p.y(), world(400.0));
    let d = DirectionVector::from_rad(QUARTER_TURN, &t);
    assert_eq!(d.norm_cos(), 0);
    assert_eq!(d.norm_sin(), RADIUS * UNIT);
}

#[test]
fn corner_lookahead_reflects_off_side_edge_only() {
    let mut area = Area::new(table());
    area.place_bird(world(990.0), world(790.0), MAX_ANGLE);
    let p = area.get_birds()[0].direction_line_stop();
    assert!(p.x() >= area.width() && p.y() >= area.height());
    area.tick_with(&vec![still()]);
    let b = area.get_birds()[0];
    assert_eq!(b.direction().angle(), HALF_TURN - MAX_ANGLE);
    assert!(b.coord_x() < world(990.0));
}

#[test]
fn top_edge_reflects_with_vertical_factor() {
    let mut area = Area::new(table());
    area.place_bird(world(500.0), world(790.0), QUARTER_TURN);
    area.tick_with(&vec![still()]);
    let b = area.get_birds()[0];
    assert_eq!(b.direction().angle(), TURN - QUARTER_TURN);
    assert_eq!(b.coord_x(), world(500.0));
    assert_eq!(b.coord_y(), world(790.0) - SPEED * UNIT);
}

#[test]
fn swapping_birds_swaps_the_step() {
    let t = table();
    let mut first = Area::new(table());
    first.place_bird(world(500.0), world(400.0), 1000);
    first.place_bird(world(530.0), world(440.0), 9000);
    let mut second = Area::new(t);
    second.place_bird(world(530.0), world(440.0), 9000);
    second.place_bird(world(500.0), world(400.0), 1000);
    let ta = Turn { nb: 700, negative: false };
    let tb = Turn { nb: 300, negative: true };
    first.tick_with(&vec![ta, tb]);
    second.tick_with(&vec![tb, ta]);
    let f = first.get_birds();
    let s = second.get_birds();
    assert!(same_bird(&f[0], &s[1]));
    assert!(same_bird(&f[1], &s[0]));
    assert_eq!(f[0].direction().angle(), 9000 + ta.delta());
    assert_eq!(f[1].direction().angle(), 1000 + tb.delta());
}

#[test]
fn small_world_refuses_spawn() {
    let mut area = Area::with_size(300, 300, table());
    assert_eq!(area.add_bird(), Err(ConfigError::TooSmall));
    assert_eq!(area.nb_birds(), 0);
    let mut tall = Area::with_size(1000, 400, table());
    assert_eq!(tall.add_bird(), Err(ConfigError::TooSmall));
    assert_eq!(tall.nb_birds(), 0);
}

#[test]
fn spawn_stays_in_range() {
    let mut area = Area::new(table());
    for _ in 0..50 {
        assert_eq!(area.add_bird(), Ok(()));
    }
    assert_eq!(area.nb_birds(), 50);
    let mut xs = Vec::new();
    for b in area.get_birds() {
        assert!(REACH <= b.coord_x() && b.coord_x() < area.width() - REACH);
        assert!(REACH <= b.coord_y() && b.coord_y() < area.height() - REACH);
        let a = b.direction().angle();
        assert!(0 <= a && a <= TURN);
        xs.push(b.coord_x());
    }
    xs.dedup();
    assert!(xs.len() > 1);
    let d = DirectionVector::random(area.table());
    assert!(0 <= d.angle() && d.angle() <= TURN);
}

#[test]
fn lone_bird_moves_by_speed() {
    let mut area = Area::new(table());
    area.place_bird(world(500.0), world(400.0), 0);
    assert!(area.within_limits());
    area.tick();
    let b = area.get_birds()[0];
    let dx = (b.coord_x() - world(500.0)) as f64 / UNIT as f64;
    let dy = (b.coord_y() - world(400.0)) as f64 / UNIT as f64;
    assert!(((dx * dx + dy * dy).sqrt() - 2.0).abs() < 1e-5);
    let a = radians(b.direction().angle());
    assert!((dx - a.cos() * 2.0).abs() < 1e-5);
    assert!(b.direction().angle().abs() <= 4956);
}

#[test]
fn straight_flight_moves_two_units_along_x() {
    let mut area = Area::new(table());
    area.place_bird(world(500.0), world(400.0), 0);
    area.tick_with(&vec![still()]);
    let b = area.get_birds()[0];
    assert_eq!(b.coord_x(), world(502.0));
    assert_eq!(b.coord_y(), world(400.0));
}

#[test]
fn mean_of_wrapping_angles_points_backwards() {
    let mut area = Area::new(table());
    area.place_bird(world(500.0), world(400.0), units(0.1));
    area.place_bird(world(550.0), world(400.0), units(6.2));
    area.place_bird(world(525.0), world(400.0), 0);
    let birds = area.get_birds();
    let ns = area.update_neighbors(2, &birds[2], &birds);
    assert_eq!(ns.len(), 2);
    assert_eq!(ns[0].bird_id(), 0);
    assert_eq!(ns[1].bird_id(), 1);
    assert_eq!(ns[0].distance_sq(), (25 * UNIT as i128) * (25 * UNIT as i128));
    let mean = area.compute_average_direction(&ns);
    assert!((radians(mean) - 3.15).abs() < 1e-3);
    let two = area.update_neighbors(0, &birds[0], &birds);
    assert_eq!(two.len(), 2);
    area.tick_with(&vec![still(), still(), still()]);
    let c = area.get_birds()[2];
    assert!((radians(c.direction().angle()) - 3.15).abs() < 1e-3);
    assert!(c.coord_x() < world(525.0));
}

#[test]
fn pair_aligns_to_each_others_old_heading() {
    let mut area = Area::new(table());
    area.place_bird(world(500.0), world(400.0), units(0.1));
    area.place_bird(world(550.0), world(400.0), units(6.2));
    area.tick_with(&vec![still(), still()]);
    let b = area.get_birds();
    assert_eq!(b[0].direction().angle(), units(6.2));
    assert_eq!(b[1].direction().angle(), units(0.1));
}

#[test]
fn far_birds_keep_their_heading() {
    let mut area = Area::new(table());
    area.place_bird(world(300.0), world(400.0), 0);
    area.place_bird(world(501.0), world(400.0), HALF_TURN);
    let birds = area.get_birds();
    assert_eq!(area.update_neighbors(0, &birds[0], &birds).len(), 0);
    area.tick_with(&vec![still(), still()]);
    let b = area.get_birds();
    assert_eq!(b[0].direction().angle(), 0);
    assert_eq!(b[1].direction().angle(), HALF_TURN);
}

#[test]
fn neighbor_at_exactly_the_radius_counts() {
    let mut area = Area::new(table());
    area.place_bird(world(300.0), world(400.0), 0);
    area.place_bird(world(500.0), world(400.0), 0);
    let birds = area.get_birds();
    assert_eq!(area.update_neighbors(0, &birds[0], &birds).len(), 1);
}

#[test]
fn reads_repeat_without_step() {
    let mut area = Area::new(table());
    for _ in 0..5 {
        area.add_bird().unwrap();
    }
    let first = area.get_birds();
    let second = area.get_birds();
    assert_eq!(first.len(), second.len());
    for (a, b) in first.iter().zip(second.iter()) {
        assert!(same_bird(a, b));
    }
}

#[test]
fn flock_keeps_its_size_over_steps() {
    let mut area = Area::new(table());
    for _ in 0..20 {
        area.add_bird().unwrap();
    }
    for _ in 0..200 {
        assert!(area.within_limits());
        area.tick();
    }
    assert_eq!(area.nb_birds(), 20);
}

#[test]
fn world_constants() {
    let area = Area::new(table());
    assert_eq!(area.width(), 1000 * UNIT);
    assert_eq!(area.height(), 800 * UNIT);
    assert_eq!(area.bird_radius(), 200);
    assert_eq!(area.max_angle(), TURN / 8);
    assert_eq!(area.nb_birds(), 0);
    assert_eq!(area.get_birds().len(), 0);
}

#[test]
fn bird_text_shows_position_and_direction() {
    let t = table();
    let b = Bird::new(world(500.0), world(400.0), DirectionVector::from_rad(0, &t));
    assert_eq!(b.to_string(), "[x: 500; y: 400; direction: (1, 0)]");
    let a = Bird::new(world(1.0), world(2.0), DirectionVector::from_rad(0, &t));
    assert_eq!(a.to_string(), "[x: 1; y: 2; direction: (1, 0)]");
    let c = Bird::new(-world(1.5), 7, DirectionVector::from_rad(HALF_TURN, &t));
    assert_eq!(c.to_string(), "[x: -1.5; y: 0.000007; direction: (-1, 0)]");
    let d = Bird::new(world(0.12), -world(0.5), DirectionVector::from_rad(QUARTER_TURN, &t));
    assert_eq!(d.to_string(), "[x: 0.12; y: -0.5; direction: (0, 1)]");
}

#[test]
fn direction_text_shows_cos_and_sin() {
    let t = table();
    assert_eq!(DirectionVector::from_rad(0, &t).to_string(), "(1, 0)");
    assert_eq!(DirectionVector::from_rad(QUARTER_TURN, &t).to_string(), "(0, 1)");
    assert_eq!(DirectionVector::from_rad(3 * QUARTER_TURN, &t).to_string(), "(0, -1)");
    let d = DirectionVector::from_rad(TURN / 8, &t);
    assert_eq!(d.to_string(), "(0.707107, 0.707107)");
}
