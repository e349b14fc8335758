//! Ships: the only entities with behaviour of their own. A ship drifts
//! one cell per move-phase tick toward a destination, picks a new
//! destination on arrival, and fires a bullet along a straight line of
//! sight when its shot counter comes up.

use vstd::prelude::*;

use crate::bullet::{bullet_spawn, Bullet};
use crate::entities::{all_wf, as_ship, Entities, Entity, EntityBehavior};
use crate::helpers::{
    abs, in_spawn_range, positions_are_same, random_position, ship_coord_ok, ship_pos_ok,
    wall_position, Position,
};
use crate::rng::{rand_below, rand_coin};

verus! {

/// The eight fixed teams a ship can fight for.
#[derive(Copy, Clone, PartialEq, Eq, Structural, Debug)]
pub enum Team {
    BLUE,
    RED,
    YELLOW,
    GREEN,
    ORANGE,
    BROWN,
    PURPLE,
    WHITE,
}

/// The team the draw `i` lands on; everything past the seventh falls
/// to white.
pub open spec fn team_from(i: u32) -> Team {
    if i == 0 {
        Team::BLUE
    } else if i == 1 {
        Team::RED
    } else if i == 2 {
        Team::YELLOW
    } else if i == 3 {
        Team::GREEN
    } else if i == 4 {
        Team::ORANGE
    } else if i == 5 {
        Team::BROWN
    } else if i == 6 {
        Team::PURPLE
    } else {
        Team::WHITE
    }
}

impl Team {
    pub fn from_rand(i: u32) -> (t: Team)
        ensures
            t == team_from(i),
    {
        if i == 0 {
            Team::BLUE
        } else if i == 1 {
            Team::RED
        } else if i == 2 {
            Team::YELLOW
        } else if i == 3 {
            Team::GREEN
        } else if i == 4 {
            Team::ORANGE
        } else if i == 5 {
            Team::BROWN
        } else if i == 6 {
            Team::PURPLE
        } else {
            Team::WHITE
        }
    }
}

#[derive(Copy, Clone, Debug)]
pub struct Ship {
    pub position: Position,
    pub prev_position: Position,
    pub destination: Position,
    pub alive: bool,
    /// Counts up to 3; the ship steps only on the tick it stands at 3.
    pub move_power: i32,
    /// Counts up to 15; the ship attempts a shot only at exactly 15.
    pub bullet_power: i32,
    pub team: Team,
}

/// What holds of every ship that reinforcement spawns: it starts on a
/// display edge with no history, ready to move, with a destination in
/// the interior band and a shot counter somewhere in its first run.
pub open spec fn spawned_ship_ok(s: Ship, t: Team, width: u16, height: u16) -> bool {
    &&& s.team == t
    &&& s.alive
    &&& s.move_power == 3
    &&& 0 <= s.bullet_power <= 10
    &&& crate::helpers::on_wall(width, height, s.position)
    &&& s.prev_position == s.position
    &&& in_spawn_range(width, height, s.destination)
}

/// One coordinate of a one-cell step toward `d`.
pub open spec fn step_coord(c: i32, d: i32) -> i32 {
    if c < d {
        (c + 1) as i32
    } else if c > d {
        (c - 1) as i32
    } else {
        c
    }
}

/// A ship after one move step: each axis independently steps one cell
/// toward the destination, and the previous position is recorded per
/// axis, only on the axes that moved.
pub open spec fn step_toward(pre: Ship) -> Ship {
    Ship {
        position: Position(
            step_coord(pre.position.0, pre.destination.0),
            step_coord(pre.position.1, pre.destination.1),
        ),
        prev_position: Position(
            if pre.position.0 == pre.destination.0 {
                pre.prev_position.0
            } else {
                pre.position.0
            },
            if pre.position.1 == pre.destination.1 {
                pre.prev_position.1
            } else {
                pre.position.1
            },
        ),
        ..pre
    }
}

/// The position of the first enemy ship at or after index `i` of the
/// world, scanning in list order.
pub open spec fn first_enemy_from(world: Seq<Entity>, team: Team, i: int) -> Option<Position>
    decreases world.len() - i,
{
    if i < 0 || i >= world.len() {
        None
    } else {
        match world[i] {
            Entity::Ship(s) => {
                if s.team != team {
                    Some(s.position)
                } else {
                    first_enemy_from(world, team, i + 1)
                }
            },
            _ => first_enemy_from(world, team, i + 1),
        }
    }
}

/// The destinations a ship may pick on arrival: a random point of the
/// interior band, or the position of the first enemy ship in the world
/// (the fallback when the coin asks for an enemy and none exists is
/// again a random interior point).
pub open spec fn dest_ok(team: Team, world: Seq<Entity>, width: u16, height: u16, d: Position) -> bool {
    ||| in_spawn_range(width, height, d)
    ||| first_enemy_from(world, team, 0) == Some(d)
}

/// The move half of a ship's tick. Off-phase ticks only advance the
/// counter; on the phase tick the ship steps toward its destination
/// and, exactly when it arrives, picks a new destination.
pub open spec fn move_rel(pre: Ship, world: Seq<Entity>, width: u16, height: u16, post: Ship) -> bool {
    if pre.move_power != 3 {
        post == Ship { move_power: (pre.move_power + 1) as i32, ..pre }
    } else {
        let stepped = Ship { move_power: 0, ..step_toward(pre) };
        if stepped.position == stepped.destination {
            exists|d: Position|
                dest_ok(pre.team, world, width, height, d) && post == Ship { destination: d, ..stepped }
        } else {
            post == stepped
        }
    }
}

/// A straight line of sight: same column, same row, or an exact
/// diagonal.
pub open spec fn aligned(a: Position, b: Position) -> bool {
    let xd = vstd::math::abs(a.0 - b.0);
    let yd = vstd::math::abs(a.1 - b.1);
    xd == 0 || yd == 0 || xd == yd
}

/// A ship the shooter may fire at: an enemy, not on the shooter's own
/// cell, along a straight line of sight.
pub open spec fn valid_target(shooter: Ship, target: Ship) -> bool {
    &&& target.team != shooter.team
    &&& target.position != shooter.position
    &&& aligned(shooter.position, target.position)
}

/// The unit sign pointing from `from` toward `to`.
pub open spec fn dir_sign(from: i32, to: i32) -> int {
    if from > to {
        -1
    } else if from < to {
        1
    } else {
        0
    }
}

/// The bullet fired from `shooter` at `target`: spawned one cell ahead
/// of the shooter along the unit sign of the displacement.
pub open spec fn fire_spec(shooter: Ship, target: Ship) -> Bullet {
    let dx = dir_sign(shooter.position.0, target.position.0);
    let dy = dir_sign(shooter.position.1, target.position.1);
    bullet_spawn(
        Position((shooter.position.0 + dx) as i32, (shooter.position.1 + dy) as i32),
        (dx as i8, dy as i8),
    )
}

/// The shoot half of a ship's tick. Off-phase ticks only advance the
/// counter. On the phase tick the counter resets and the ship fires at
/// most one bullet, at some valid target from the world; no shot is
/// always a possible outcome (the coin may decline, or no valid target
/// may exist).
pub open spec fn shoot_rel(pre: Ship, world: Seq<Entity>, post: Ship, shot: Option<Bullet>) -> bool {
    if pre.bullet_power != 15 {
        post == Ship { bullet_power: (pre.bullet_power + 1) as i32, ..pre } && shot is None
    } else {
        &&& post == Ship { bullet_power: 0, ..pre }
        &&& match shot {
            None => true,
            Some(b) => exists|j: int|
                0 <= j < world.len() && (#[trigger] as_ship(world[j]) matches Some(t)
                    && valid_target(pre, t) && b == fire_spec(pre, t)),
        }
    }
}

/// Index `k` steps after `start`, wrapping at `n`.
pub open spec fn wrap_idx(start: int, k: int, n: int) -> int {
    if start + k < n {
        start + k
    } else {
        start + k - n
    }
}

/// The first valid target of a circular scan of `ships` that begins
/// `k` steps after `start`.
pub open spec fn scan_from(shooter: Ship, ships: Seq<Ship>, start: int, k: int) -> Option<int>
    decreases ships.len() - k,
{
    if !(0 <= start < ships.len()) || !(0 <= k < ships.len()) {
        None
    } else {
        let idx = wrap_idx(start, k, ships.len() as int);
        if valid_target(shooter, ships[idx]) {
            Some(idx)
        } else {
            scan_from(shooter, ships, start, k + 1)
        }
    }
}

/// Whether `target` is a ship the shooter may fire at.
pub fn target_valid(shooter: &Ship, target: &Ship) -> (r: bool)
    requires
        ship_pos_ok(shooter.position),
        ship_pos_ok(target.position),
    ensures
        r == valid_target(*shooter, *target),
{
    if shooter.team == target.team {
        return false;
    }
    if positions_are_same(shooter.position, target.position) {
        return false;
    }
    let x_dis = abs(shooter.position.0 - target.position.0);
    let y_dis = abs(shooter.position.1 - target.position.1);

    // no straight shot
    if x_dis != 0 && y_dis != 0 && x_dis - y_dis != 0 {
        return false;
    }
    true
}

/// The bullet fired from `shooter` at `target`, one cell ahead of the
/// shooter along the unit sign of the displacement.
pub fn fire_at(shooter: &Ship, target: &Ship) -> (b: Bullet)
    requires
        ship_pos_ok(shooter.position),
    ensures
        b == fire_spec(*shooter, *target),
        b.wf_spec(),
{
    let mut x_pos: i8 = 0;
    let mut y_pos: i8 = 0;

    if shooter.position.0 > target.position.0 {
        x_pos = -1;
    } else if shooter.position.0 < target.position.0 {
        x_pos = 1;
    }

    if shooter.position.1 > target.position.1 {
        y_pos = -1;
    } else if shooter.position.1 < target.position.1 {
        y_pos = 1;
    }

    let pos = Position(
        shooter.position.0 + x_pos as i32,
        shooter.position.1 + y_pos as i32,
    );
    Bullet::new(pos, (x_pos, y_pos))
}

/// First valid target of the circular scan of `ships` starting at
/// `start`, or nothing when no ship in the list is a valid target.
pub fn find_target(shooter: &Ship, ships: &Vec<Ship>, start: usize) -> (r: Option<usize>)
    requires
        start < ships@.len(),
        ship_pos_ok(shooter.position),
        forall|i: int| 0 <= i < ships@.len() ==> ship_pos_ok(#[trigger] ships@[i].position),
    ensures
        match r {
            Some(i) => i < ships@.len() && scan_from(*shooter, ships@, start as int, 0) == Some(
                i as int,
            ) && valid_target(*shooter, ships@[i as int]),
            None => scan_from(*shooter, ships@, start as int, 0) is None,
        },
{
    let n = ships.len();
    let mut k: usize = 0;
    let mut idx = start;
    while k < n
        invariant
            n == ships@.len(),
            start < n,
            k <= n,
            idx == wrap_idx(start as int, k as int, n as int),
            ship_pos_ok(shooter.position),
            forall|i: int| 0 <= i < ships@.len() ==> ship_pos_ok(#[trigger] ships@[i].position),
            scan_from(*shooter, ships@, start as int, 0) == scan_from(
                *shooter,
                ships@,
                start as int,
                k as int,
            ),
        decreases n - k,
    {
        if target_valid(shooter, &ships[idx]) {
            return Some(idx);
        }
        k = k + 1;
        idx = if idx + 1 == n {
            0
        } else {
            idx + 1
        };
    }
    None
}

impl Ship {
    /// Positions and destination within their working ranges, the two
    /// counters within their cycles.
    pub open spec fn wf(&self) -> bool {
        &&& ship_pos_ok(self.position)
        &&& ship_pos_ok(self.prev_position)
        &&& ship_pos_ok(self.destination)
        &&& 0 <= self.move_power <= 3
        &&& 0 <= self.bullet_power <= 15
    }

    /// A freshly reinforced ship of team `t`, placed at a random point
    /// of a random display edge, headed for a random interior point.
    pub fn new(t: Team, rng: &mut rand::rngs::ThreadRng, width: u16, height: u16) -> (s: Ship)
        requires
            width >= 1,
            height >= 1,
        ensures
            spawned_ship_ok(s, t, width, height),
            s.wf_spec(),
    {
        let wall_pos = wall_position(rng, width, height);

        Ship {
            position: wall_pos,
            prev_position: wall_pos,
            destination: random_position(rng, width, height),
            alive: true,
            move_power: 3,
            bullet_power: rand_below(rng, 11) as i32,
            team: t,
        }
    }

    fn shoot(&mut self, rng: &mut rand::rngs::ThreadRng, entities: &Entities) -> (r: Option<
        Bullet,
    >)
        requires
            old(self).wf_spec(),
            all_wf(entities@),
        ensures
            shoot_rel(*old(self), entities@, *final(self), r),
            final(self).wf_spec(),
            r matches Some(b) ==> b.wf_spec(),
    {
        if self.bullet_power != 15 {
            self.bullet_power = self.bullet_power + 1;
            return None;
        }

        self.bullet_power = 0;

        // wuss out
        if rand_coin(rng) {
            return None;
        }

        let ships = crate::helpers::get_ships_from_entities(entities);

        if ships.len() == 0 {
            return None;
        }

        proof {
            assert forall|i: int| 0 <= i < ships@.len() implies ship_pos_ok(
                #[trigger] ships@[i].position,
            ) by {
                crate::helpers::lemma_ships_of_index(entities@, i);
                let j = choose|j: int|
                    0 <= j < entities@.len() && entities@[j] == Entity::Ship(ships@[i]);
                assert(crate::entities::entity_wf(entities@[j]));
            }
        }

        let start = rand_below(rng, ships.len());

        match find_target(self, &ships, start) {
            None => None,
            Some(i) => {
                let b = fire_at(self, &ships[i]);
                proof {
                    crate::helpers::lemma_ships_of_index(entities@, i as int);
                    let j = choose|j: int|
                        0 <= j < entities@.len() && entities@[j] == Entity::Ship(
                            ships@[i as int],
                        );
                    assert(as_ship(entities@[j]) == Some(ships@[i as int]));
                }
                Some(b)
            },
        }
    }

    fn move_ship(
        &mut self,
        rng: &mut rand::rngs::ThreadRng,
        entities: &Entities,
        width: u16,
        height: u16,
    )
        requires
            old(self).wf_spec(),
            all_wf(entities@),
            width >= 1,
            height >= 1,
        ensures
            move_rel(*old(self), entities@, width, height, *final(self)),
            final(self).wf_spec(),
            final(self).bullet_power == old(self).bullet_power,
            final(self).team == old(self).team,
    {
        if self.move_power != 3 {
            self.move_power = self.move_power + 1;
            return;
        }

        self.move_power = 0;
        self.move_toward_destination();

        if self.has_reached_destination() {
            let d = self.get_destination(rng, entities, width, height);
            self.destination = d;
        }
    }

    fn get_destination(
        &self,
        rng: &mut rand::rngs::ThreadRng,
        entities: &Entities,
        width: u16,
        height: u16,
    ) -> (d: Position)
        requires
            all_wf(entities@),
            width >= 1,
            height >= 1,
        ensures
            dest_ok(self.team, entities@, width, height, d),
            ship_pos_ok(d),
    {
        if rand_coin(rng) {
            return random_position(rng, width, height);
        }

        let n = entities.len();
        let mut i: usize = 0;
        while i < n
            invariant
                i <= n,
                n == entities@.len(),
                all_wf(entities@),
                first_enemy_from(entities@, self.team, 0) == first_enemy_from(
                    entities@,
                    self.team,
                    i as int,
                ),
            decreases n - i,
        {
            let e = entities[i];
            match e {
                Entity::Ship(s) => {
                    if s.team != self.team {
                        proof {
                            assert(entities@[i as int].wf_spec());
                        }
                        return s.position;
                    }
                },
                _ => {},
            }
            i = i + 1;
        }

        random_position(rng, width, height)
    }

    fn has_reached_destination(&self) -> (r: bool)
        ensures
            r == (self.position == self.destination),
    {
        positions_are_same(self.position, self.destination)
    }

    fn move_toward_destination(&mut self)
        requires
            old(self).wf_spec(),
        ensures
            *final(self) == step_toward(*old(self)),
            final(self).wf_spec(),
    {
        if self.position.0 < self.destination.0 {
            self.move_right();
        } else if self.position.0 > self.destination.0 {
            self.move_left();
        }

        if self.position.1 < self.destination.1 {
            self.move_up();
        } else if self.position.1 > self.destination.1 {
            self.move_down();
        }
    }

    fn move_up(&mut self)
        requires
            old(self).position.1 < old(self).destination.1,
            ship_coord_ok(old(self).destination.1 as int),
        ensures
            *final(self) == (Ship {
                position: Position(old(self).position.0, (old(self).position.1 + 1) as i32),
                prev_position: Position(old(self).prev_position.0, old(self).position.1),
                ..*old(self)
            }),
    {
        self.prev_position.1 = self.position.1;
        self.position.1 = self.position.1 + 1;
    }

    fn move_down(&mut self)
        requires
            old(self).position.1 > old(self).destination.1,
            ship_coord_ok(old(self).destination.1 as int),
        ensures
            *final(self) == (Ship {
                position: Position(old(self).position.0, (old(self).position.1 - 1) as i32),
                prev_position: Position(old(self).prev_position.0, old(self).position.1),
                ..*old(self)
            }),
    {
        self.prev_position.1 = self.position.1;
        self.position.1 = self.position.1 - 1;
    }

    fn move_right(&mut self)
        requires
            old(self).position.0 < old(self).destination.0,
            ship_coord_ok(old(self).destination.0 as int),
        ensures
            *final(self) == (Ship {
                position: Position((old(self).position.0 + 1) as i32, old(self).position.1),
                prev_position: Position(old(self).position.0, old(self).prev_position.1),
                ..*old(self)
            }),
    {
        self.prev_position.0 = self.position.0;
        self.position.0 = self.position.0 + 1;
    }

    fn move_left(&mut self)
        requires
            old(self).position.0 > old(self).destination.0,
            ship_coord_ok(old(self).destination.0 as int),
        ensures
            *final(self) == (Ship {
                position: Position((old(self).position.0 - 1) as i32, old(self).position.1),
                prev_position: Position(old(self).position.0, old(self).prev_position.1),
                ..*old(self)
            }),
    {
        self.prev_position.0 = self.position.0;
        self.position.0 = self.position.0 - 1;
    }
}

impl EntityBehavior for Ship {
    open spec fn pos_spec(&self) -> Position {
        self.position
    }

    open spec fn prev_spec(&self) -> Position {
        self.prev_position
    }

    open spec fn wf_spec(&self) -> bool {
        self.wf()
    }

    open spec fn remove_spec(&self) -> bool {
        !self.alive
    }

    open spec fn explode_spec(&self) -> bool {
        true
    }

    open spec fn avatar_spec(&self) -> Seq<char> {
        match self.team {
            Team::BLUE => "\u{1B}[0;34m@\u{1B}[0m"@,
            Team::BROWN => "\u{1B}[0;40m#\u{1B}[0m"@,
            Team::GREEN => "\u{1B}[0;32m$\u{1B}[0m"@,
            Team::ORANGE => "\u{1B}[0;36m%\u{1B}[0m"@,
            Team::PURPLE => "\u{1B}[0;35m&\u{1B}[0m"@,
            Team::RED => "\u{1B}[0;31m?\u{1B}[0m"@,
            Team::WHITE => "\u{1B}[0;37m!\u{1B}[0m"@,
            Team::YELLOW => "\u{1B}[0;33mX\u{1B}[0m"@,
        }
    }

    open spec fn turn_spec(
        &self,
        world: Seq<Entity>,
        width: u16,
        height: u16,
        post: Ship,
        spawned: Option<Entity>,
    ) -> bool {
        exists|mid: Ship|
            #[trigger] move_rel(*self, world, width, height, mid) && match spawned {
                None => shoot_rel(mid, world, post, None),
                Some(e) => e matches Entity::Bullet(b) && shoot_rel(mid, world, post, Some(b)),
            }
    }

    open spec fn collide_spec(&self, other: Entity) -> Ship {
        match other {
            Entity::Ship(s) => {
                if s.team != self.team {
                    Ship { alive: false, ..*self }
                } else {
                    *self
                }
            },
            Entity::Bullet(_) => Ship { alive: false, ..*self },
            Entity::Explosion(_) => *self,
        }
    }

    fn get_position(&self) -> (p: Position) {
        self.position
    }

    fn get_prev_position(&self) -> (p: Position) {
        self.prev_position
    }

    fn should_remove(&self) -> (r: bool) {
        !self.alive
    }

    fn avatar(&self) -> (r: &'static str) {
        match self.team {
            Team::BLUE => "\u{1B}[0;34m@\u{1B}[0m",
            Team::BROWN => "\u{1B}[0;40m#\u{1B}[0m",
            Team::GREEN => "\u{1B}[0;32m$\u{1B}[0m",
            Team::ORANGE => "\u{1B}[0;36m%\u{1B}[0m",
            Team::PURPLE => "\u{1B}[0;35m&\u{1B}[0m",
            Team::RED => "\u{1B}[0;31m?\u{1B}[0m",
            Team::WHITE => "\u{1B}[0;37m!\u{1B}[0m",
            Team::YELLOW => "\u{1B}[0;33mX\u{1B}[0m",
        }
    }

    fn take_turn(
        self,
        rng: &mut rand::rngs::ThreadRng,
        entities: &Entities,
        width: u16,
        height: u16,
    ) -> (r: (Ship, Option<Entity>)) {
        let mut next = self;
        next.move_ship(rng, entities, width, height);
        let ghost mid = next;
        let shot = next.shoot(rng, entities);
        proof {
            assert(move_rel(self, entities@, width, height, mid));
        }
        match shot {
            Some(bullet) => (next, Some(Entity::Bullet(bullet))),
            None => (next, None),
        }
    }

    fn on_collide(self, e: &Entity) -> (r: Ship) {
        let mut next = self;
        match e {
            Entity::Ship(ship) => {
                if ship.team != next.team {
                    next.alive = false;
                }
            },
            Entity::Bullet(_) => {
                next.alive = false;
            },
            Entity::Explosion(_) => {},
        }
        next
    }

    fn on_remove_explode(&self) -> (r: bool) {
        true
    }
}

} // verus!
