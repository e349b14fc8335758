use skirmish::bullet::Bullet;
use skirmish::entities::{Entities, Entity, EntityBehavior};
use skirmish::explosion::Explosion;
use skirmish::helpers::Position;
use skirmish::ship::{fire_at, target_valid, Ship, Team};

fn no_world() -> Entities {
    vec![]
}

fn still_ship(pos: Position, team: Team) -> Ship {
    Ship {
        position: pos,
        prev_position: pos,
        destination: pos,
        alive: true,
        move_power: 0,
        bullet_power: 0,
        team,
    }
}

#[test]
fn bullet_moves_every_other_tick() {
    let mut rng = rand::thread_rng();
    let world = no_world();
    let b = Bullet::new(Position(5, 5), (1, 1));

    let (b, spawned) = b.take_turn(&mut rng, &world, 80, 24);
    assert!(spawned.is_none());
    assert_eq!(b.position, Position(6, 6));
    assert_eq!(b.prev_position, Position(5, 5));
    assert!(b.active);

    // skip tick: no movement
    let (b, _) = b.take_turn(&mut rng, &world, 80, 24);
    assert_eq!(b.position, Position(6, 6));

    // move tick again
    let (b, _) = b.take_turn(&mut rng, &world, 80, 24);
    assert_eq!(b.position, Position(7, 7));
}

#[test]
fn bullet_deactivates_at_edge() {
    let mut rng = rand::thread_rng();
    let world = no_world();
    let b = Bullet::new(Position(1, 1), (-1, 0));

    let (b, spawned) = b.take_turn(&mut rng, &world, 80, 24);
    assert!(spawned.is_none());
    assert!(!b.active);
    // position unchanged from the tick before deactivation
    assert_eq!(b.position, Position(1, 1));
    assert!(b.should_remove());
    assert!(!b.on_remove_explode());
}

#[test]
fn bullet_deactivates_past_right_edge() {
    let mut rng = rand::thread_rng();
    let world = no_world();
    let b = Bullet::new(Position(80, 10), (1, 1));
    let (b, _) = b.take_turn(&mut rng, &world, 80, 24);
    assert!(!b.active);
    assert_eq!(b.position, Position(80, 10));
}

#[test]
fn bullet_dies_on_any_contact() {
    let b = Bullet::new(Position(5, 5), (1, 0));
    let other = Entity::Bullet(Bullet::new(Position(5, 5), (-1, 0)));
    let b = b.on_collide(&other);
    assert!(!b.active);

    let b2 = Bullet::new(Position(5, 5), (1, 0));
    let friend = Entity::Ship(still_ship(Position(5, 5), Team::BLUE));
    assert!(!b2.on_collide(&friend).active);
}

#[test]
fn explosion_burns_down_and_is_removed() {
    let mut rng = rand::thread_rng();
    let world = no_world();
    let mut x = Explosion::new(Position(3, 3));
    assert_eq!(x.health, 10);
    for expected in (0..10).rev() {
        let (next, spawned) = x.take_turn(&mut rng, &world, 80, 24);
        assert!(spawned.is_none());
        assert_eq!(next.health, expected);
        assert_eq!(next.position, Position(3, 3));
        x = next;
    }
    assert!(x.should_remove());
    // at zero it stays at zero
    let (x, _) = x.take_turn(&mut rng, &world, 80, 24);
    assert_eq!(x.health, 0);
    assert!(x.should_remove());
    assert!(!x.on_remove_explode());
}

#[test]
fn explosion_absorption_strictly_greater_wins() {
    let a = Explosion { position: Position(2, 2), health: 12 };
    let b = Explosion { position: Position(2, 2), health: 10 };
    let a2 = a.on_collide(&Entity::Explosion(b));
    let b2 = b.on_collide(&Entity::Explosion(a));
    assert_eq!(a2.health, 112);
    assert_eq!(b2.health, 0);
}

#[test]
fn explosion_absorption_equal_health_zeroes_both() {
    let a = Explosion { position: Position(2, 2), health: 10 };
    let b = Explosion { position: Position(3, 3), health: 10 };
    assert_eq!(a.on_collide(&Entity::Explosion(b)).health, 0);
    assert_eq!(b.on_collide(&Entity::Explosion(a)).health, 0);
}

#[test]
fn explosion_feeds_on_other_contact() {
    let x = Explosion::new(Position(2, 2));
    let s = Entity::Ship(still_ship(Position(2, 2), Team::RED));
    assert_eq!(x.on_collide(&s).health, 110);
    let b = Entity::Bullet(Bullet::new(Position(2, 2), (1, 0)));
    assert_eq!(x.on_collide(&b).health, 110);
}

#[test]
fn ship_killed_by_enemy_ship_only() {
    let s = still_ship(Position(4, 4), Team::BLUE);
    let enemy = Entity::Ship(still_ship(Position(4, 4), Team::RED));
    let friend = Entity::Ship(still_ship(Position(4, 4), Team::BLUE));
    let explosion = Entity::Explosion(Explosion::new(Position(4, 4)));
    let bullet = Entity::Bullet(Bullet::new(Position(4, 4), (1, 0)));

    assert!(!s.on_collide(&enemy).alive);
    assert!(s.on_collide(&friend).alive);
    assert!(s.on_collide(&explosion).alive);
    assert!(!s.on_collide(&bullet).alive);
    assert!(s.on_remove_explode());
}

#[test]
fn ship_spawns_on_wall_with_interior_destination() {
    let mut rng = rand::thread_rng();
    for _ in 0..50 {
        let s = Ship::new(Team::GREEN, &mut rng, 80, 24);
        assert_eq!(s.team, Team::GREEN);
        assert!(s.alive);
        assert_eq!(s.move_power, 3);
        assert!(0 <= s.bullet_power && s.bullet_power <= 10);
        assert_eq!(s.prev_position, s.position);
        let p = s.position;
        let on_edge = (p.1 == 1 && 0 <= p.0 && p.0 < 80) || (p.1 == 24 && 0 <= p.0 && p.0 < 80)
            || (p.0 == 1 && 0 <= p.1 && p.1 < 24) || (p.0 == 80 && 0 <= p.1 && p.1 < 24);
        assert!(on_edge);
        let d = s.destination;
        assert!(1 <= d.0 && d.0 <= 80);
        assert!(2 <= d.1 && d.1 <= 25);
    }
}

#[test]
fn ship_steps_diagonally_toward_destination() {
    let mut rng = rand::thread_rng();
    let mut s = still_ship(Position(5, 5), Team::BLUE);
    s.destination = Position(8, 3);
    s.move_power = 3;
    let world = no_world();
    let (s, spawned) = s.take_turn(&mut rng, &world, 80, 24);
    assert!(spawned.is_none());
    assert_eq!(s.position, Position(6, 4));
    assert_eq!(s.prev_position, Position(5, 5));
    assert_eq!(s.move_power, 0);
}

#[test]
fn ship_waits_for_move_power() {
    let mut rng = rand::thread_rng();
    let mut s = still_ship(Position(5, 5), Team::BLUE);
    s.destination = Position(8, 3);
    s.move_power = 1;
    let world = no_world();
    let (s, _) = s.take_turn(&mut rng, &world, 80, 24);
    assert_eq!(s.position, Position(5, 5));
    assert_eq!(s.move_power, 2);
}

#[test]
fn aligned_same_column_fires_upward() {
    let shooter = still_ship(Position(3, 3), Team::BLUE);
    let target = still_ship(Position(3, 7), Team::RED);
    // x distance 0, y distance 4: same column, a straight shot
    assert!(target_valid(&shooter, &target));
    let b = fire_at(&shooter, &target);
    assert_eq!(b.direction, (0, 1));
    assert_eq!(b.position, Position(3, 4));
    assert_eq!(b.prev_position, Position(3, 4));
    assert!(b.active);
}

#[test]
fn unaligned_target_rejected() {
    let shooter = still_ship(Position(3, 3), Team::BLUE);
    let target = still_ship(Position(5, 6), Team::RED);
    // x distance 2, y distance 3: both nonzero and unequal, no shot
    assert!(!target_valid(&shooter, &target));
}

#[test]
fn exact_diagonal_accepted() {
    let shooter = still_ship(Position(3, 3), Team::BLUE);
    let target = still_ship(Position(6, 6), Team::RED);
    assert!(target_valid(&shooter, &target));
    let b = fire_at(&shooter, &target);
    assert_eq!(b.direction, (1, 1));
    assert_eq!(b.position, Position(4, 4));
}

#[test]
fn own_team_and_own_cell_rejected() {
    let shooter = still_ship(Position(3, 3), Team::BLUE);
    let friend = still_ship(Position(3, 7), Team::BLUE);
    assert!(!target_valid(&shooter, &friend));
    let overlapping = still_ship(Position(3, 3), Team::RED);
    assert!(!target_valid(&shooter, &overlapping));
}

#[test]
fn avatars_are_fixed_glyphs() {
    let b = Bullet::new(Position(1, 1), (1, 0));
    assert_eq!(b.avatar(), "\u{1F538}");
    let x = Explosion::new(Position(1, 1));
    assert_eq!(x.avatar(), "\u{1B}[0;91m*\u{1B}[0m");
    let s = still_ship(Position(1, 1), Team::BLUE);
    assert_eq!(s.avatar(), "\u{1B}[0;34m@\u{1B}[0m");
    let s = still_ship(Position(1, 1), Team::YELLOW);
    assert_eq!(s.avatar(), "\u{1B}[0;33mX\u{1B}[0m");
}
