use skirmish::bullet::Bullet;
use skirmish::entities::Entity;
use skirmish::game::Game;
use skirmish::helpers::Position;
use skirmish::ship::{Ship, Team};

fn idle_ship(pos: Position, team: Team) -> Ship {
    Ship {
        position: pos,
        prev_position: pos,
        destination: pos,
        alive: true,
        move_power: 0,
        bullet_power: 0,
        team,
    }
}

fn live_ship_count(game: &Game) -> usize {
    game.entities.iter().filter(|e| matches!(e, Entity::Ship(_))).count()
}

#[test]
fn new_game_clamps_out_of_range_parameters() {
    let g = Game::new(0, 500, 80, 24);
    assert_eq!(g.num_teams, 2);
    assert_eq!(g.max_ships_per_wave, 20);
    assert!(g.entities.is_empty());
    assert_eq!(g.ship_count, 0);
    assert!(!g.over);

    let g = Game::new(9, 101, 80, 24);
    assert_eq!(g.num_teams, 2);
    assert_eq!(g.max_ships_per_wave, 20);
}

#[test]
fn new_game_keeps_in_range_parameters() {
    let g = Game::new(5, 50, 80, 24);
    assert_eq!(g.num_teams, 5);
    assert_eq!(g.max_ships_per_wave, 50);
    assert_eq!(g.width, 80);
    assert_eq!(g.height, 24);
}

#[test]
fn smallest_wave_spawns_one_or_two_ships_of_one_team() {
    for _ in 0..30 {
        let g = Game::new(2, 1, 80, 24).before_game();
        let n = live_ship_count(&g);
        assert!(n == 1 || n == 2);
        assert_eq!(g.entities.len(), n);
        let mut teams: Vec<Team> = Vec::new();
        for e in &g.entities {
            match e {
                Entity::Ship(s) => teams.push(s.team),
                _ => panic!("a fresh wave holds only ships"),
            }
        }
        for t in &teams {
            assert_eq!(*t, teams[0]);
        }
        assert_eq!(g.ship_count as usize, n);
    }
}

#[test]
fn largest_wave_respects_the_cap() {
    for _ in 0..10 {
        let g = Game::new(8, 100, 80, 24).reinforce();
        let n = live_ship_count(&g);
        assert!(1 <= n && n <= 100);
        assert_eq!(g.ship_count as usize, n);
    }
}

#[test]
fn bullet_strike_leaves_one_explosion() {
    let mut g = Game::new(2, 20, 80, 24);
    g.entities.push(Entity::Ship(idle_ship(Position(5, 5), Team::BLUE)));
    g.entities.push(Entity::Bullet(Bullet::new(Position(6, 6), (-1, -1))));

    // one bullet move tick puts the bullet on the ship's cell
    let g = g.take_turns();
    assert_eq!(g.entities.len(), 2);
    match &g.entities[1] {
        Entity::Bullet(b) => assert_eq!(b.position, Position(5, 5)),
        _ => panic!("the bullet is still a bullet after its turn"),
    }

    let g = g.check_collisions();
    match &g.entities[0] {
        Entity::Ship(s) => assert!(!s.alive),
        _ => panic!("the ship is still a ship after the collision pass"),
    }
    match &g.entities[1] {
        Entity::Bullet(b) => assert!(!b.active),
        _ => panic!("the bullet is still a bullet after the collision pass"),
    }

    // the ship yields an explosion at (5,5), the bullet yields nothing
    let g = g.remove_entities();
    assert_eq!(g.entities.len(), 1);
    match &g.entities[0] {
        Entity::Explosion(x) => {
            assert_eq!(x.position, Position(5, 5));
            assert_eq!(x.health, 10);
        },
        _ => panic!("only the explosion remains"),
    }
}

#[test]
fn enemy_ships_on_one_cell_explode_together() {
    let mut g = Game::new(2, 20, 80, 24);
    g.entities.push(Entity::Ship(idle_ship(Position(7, 7), Team::BLUE)));
    g.entities.push(Entity::Ship(idle_ship(Position(7, 7), Team::RED)));
    let g = g.check_collisions().remove_entities();
    assert_eq!(g.entities.len(), 2);
    for e in &g.entities {
        match e {
            Entity::Explosion(x) => assert_eq!(x.position, Position(7, 7)),
            _ => panic!("both ships became explosions"),
        }
    }
}

#[test]
fn same_team_ships_pass_through() {
    let mut g = Game::new(2, 20, 80, 24);
    g.entities.push(Entity::Ship(idle_ship(Position(7, 7), Team::BLUE)));
    g.entities.push(Entity::Ship(idle_ship(Position(7, 7), Team::BLUE)));
    let g = g.check_collisions().remove_entities();
    assert_eq!(g.entities.len(), 2);
    for e in &g.entities {
        assert!(matches!(e, Entity::Ship(s) if s.alive));
    }
}

#[test]
fn append_merges_spawned_entities() {
    let mut g = Game::new(2, 20, 80, 24);
    g.entities.push(Entity::Ship(idle_ship(Position(5, 5), Team::BLUE)));
    g.new_entities.push(Entity::Bullet(Bullet::new(Position(6, 6), (1, 0))));
    g.append_new_entities();
    assert_eq!(g.entities.len(), 2);
    assert!(g.new_entities.is_empty());
    assert!(matches!(g.entities[1], Entity::Bullet(_)));
}

#[test]
fn status_counts_live_and_destroyed() {
    let g = Game::new(2, 10, 80, 24).before_game();
    let (live, destroyed) = g.get_status();
    assert_eq!(live as usize, live_ship_count(&g));
    assert_eq!(destroyed, 0);
}

#[test]
fn status_counts_after_a_loss() {
    let mut g = Game::new(2, 20, 80, 24);
    g.entities.push(Entity::Ship(idle_ship(Position(5, 5), Team::BLUE)));
    g.entities.push(Entity::Bullet(Bullet::new(Position(6, 6), (-1, -1))));
    g.ship_count = 1;
    let g = g.take_turns().check_collisions().remove_entities();
    let (live, destroyed) = g.get_status();
    assert_eq!(live, 0);
    assert_eq!(destroyed, 1);
}

#[test]
fn long_run_stays_consistent() {
    let mut g = Game::new(4, 10, 60, 20).before_game();
    for tick in 0..300 {
        g = g.take_turns().check_collisions().remove_entities();
        g.append_new_entities();
        if tick % 40 == 0 {
            g = g.reinforce();
        }
        let (live, _) = g.get_status();
        assert!(live <= g.ship_count);
        assert!(live as usize <= g.entities.len());
    }
}
