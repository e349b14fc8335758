//! Bullets: projectiles that advance one cell along a fixed direction
//! on every other tick and die on any contact or on leaving the display.

use vstd::prelude::*;

use crate::entities::{Entities, Entity, EntityBehavior};
use crate::helpers::{bullet_pos_ok, Position};

verus! {

#[derive(Copy, Clone, Debug)]
pub struct Bullet {
    pub position: Position,
    pub prev_position: Position,
    /// Unit direction vector; each component is -1, 0 or 1 when the
    /// bullet was fired by a ship.
    pub direction: (i8, i8),
    pub active: bool,
    /// Alternates between 1 (about to move) and 0 (skipping this tick).
    pub bullet_power: u16,
}

/// A freshly fired bullet: active, about to move, with no history.
pub open spec fn bullet_spawn(pos: Position, direction: (i8, i8)) -> Bullet {
    Bullet {
        position: pos,
        prev_position: pos,
        direction,
        active: true,
        bullet_power: 1,
    }
}

/// One tick of a bullet. On a move-phase tick it steps one cell along
/// its direction, or goes inactive (position unchanged) when that step
/// would leave the bounds [1, width] x [1, height]; on the other ticks
/// only the phase flag flips.
pub open spec fn bullet_step(b: Bullet, width: u16, height: u16) -> Bullet {
    if b.bullet_power == 1 {
        let nx = b.position.0 + b.direction.0 as int;
        let ny = b.position.1 + b.direction.1 as int;
        if nx < 1 || nx > width || ny < 1 || ny > height {
            Bullet { prev_position: b.position, active: false, bullet_power: 0, ..b }
        } else {
            Bullet {
                prev_position: b.position,
                position: Position(nx as i32, ny as i32),
                bullet_power: 0,
                ..b
            }
        }
    } else {
        Bullet { bullet_power: 1, ..b }
    }
}

impl Bullet {
    /// Positions within their working ranges, phase flag binary.
    pub open spec fn wf(&self) -> bool {
        &&& bullet_pos_ok(self.position)
        &&& bullet_pos_ok(self.prev_position)
        &&& self.bullet_power <= 1
    }

    pub fn new(pos: Position, direction: (i8, i8)) -> (b: Bullet)
        requires
            bullet_pos_ok(pos),
        ensures
            b == bullet_spawn(pos, direction),
            b.wf_spec(),
    {
        Bullet {
            position: pos,
            prev_position: pos,
            direction,
            active: true,
            bullet_power: 1,
        }
    }

    fn move_self(&mut self, width: u16, height: u16)
        requires
            old(self).wf_spec(),
            old(self).bullet_power == 1,
        ensures
            *final(self) == (Bullet { bullet_power: 1, ..bullet_step(*old(self), width, height) }),
            final(self).wf_spec(),
    {
        self.prev_position = self.position;
        let x_pos = self.position.0 + self.direction.0 as i32;
        let y_pos = self.position.1 + self.direction.1 as i32;

        if x_pos < 1 || x_pos > width as i32 || y_pos < 1 || y_pos > height as i32 {
            self.active = false;
        } else {
            self.position = Position(x_pos, y_pos);
        }
    }
}

impl EntityBehavior for Bullet {
    open spec fn pos_spec(&self) -> Position {
        self.position
    }

    open spec fn prev_spec(&self) -> Position {
        self.prev_position
    }

    open spec fn wf_spec(&self) -> bool {
        self.wf()
    }

    open spec fn remove_spec(&self) -> bool {
        !self.active
    }

    open spec fn explode_spec(&self) -> bool {
        false
    }

    open spec fn avatar_spec(&self) -> Seq<char> {
        "\u{1F538}"@
    }

    open spec fn turn_spec(
        &self,
        world: Seq<Entity>,
        width: u16,
        height: u16,
        post: Bullet,
        spawned: Option<Entity>,
    ) -> bool {
        post == bullet_step(*self, width, height) && spawned is None
    }

    open spec fn collide_spec(&self, other: Entity) -> Bullet {
        Bullet { active: false, ..*self }
    }

    fn get_position(&self) -> (p: Position) {
        self.position
    }

    fn get_prev_position(&self) -> (p: Position) {
        self.prev_position
    }

    fn should_remove(&self) -> (r: bool) {
        !self.active
    }

    fn avatar(&self) -> (r: &'static str) {
        "\u{1F538}"
    }

    fn take_turn(
        self,
        _rng: &mut rand::rngs::ThreadRng,
        _entities: &Entities,
        width: u16,
        height: u16,
    ) -> (r: (Bullet, Option<Entity>)) {
        let mut next = self;
        if next.bullet_power == 1 {
            next.move_self(width, height);
            next.bullet_power = 0;
        } else {
            next.bullet_power = 1;
        }
        (next, None)
    }

    fn on_collide(self, _other: &Entity) -> (r: Bullet) {
        let mut next = self;
        next.active = false;
        next
    }

    fn on_remove_explode(&self) -> (r: bool) {
        false
    }
}

/// A bullet moves on at most one of any two consecutive ticks: when a
/// tick changed its position, the next tick leaves it in place.
pub proof fn lemma_bullet_alternates(b: Bullet, width: u16, height: u16)
    requires
        b.wf_spec(),
    ensures
        !(bullet_step(b, width, height).position != b.position
            && bullet_step(bullet_step(b, width, height), width, height).position
                != bullet_step(b, width, height).position),
{
}

/// The cell one step along the bullet's direction lies outside the
/// bounds [1, width] x [1, height].
pub open spec fn next_step_out(b: Bullet, width: u16, height: u16) -> bool {
    let nx = b.position.0 + b.direction.0 as int;
    let ny = b.position.1 + b.direction.1 as int;
    nx < 1 || nx > width || ny < 1 || ny > height
}

/// A bullet whose next step would leave the bounds [1, width] x
/// [1, height] goes inactive instead, with its position unchanged.
pub proof fn lemma_bullet_leaves_bounds(b: Bullet, width: u16, height: u16)
    requires
        b.wf_spec(),
        b.bullet_power == 1,
        next_step_out(b, width, height),
    ensures
        !bullet_step(b, width, height).active,
        bullet_step(b, width, height).position == b.position,
{
}

} // verus!
