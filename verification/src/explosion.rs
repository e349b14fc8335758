//! Explosions: stationary blasts that burn down by one health point per
//! tick and absorb whatever runs into them.

use vstd::prelude::*;

use crate::entities::{Entities, Entity, EntityBehavior};
use crate::helpers::Position;

verus! {

#[derive(Copy, Clone, Debug)]
pub struct Explosion {
    pub position: Position,
    pub health: u16,
}

/// The explosion a removed ship leaves behind.
pub open spec fn explosion_at(pos: Position) -> Explosion {
    Explosion { position: pos, health: 10 }
}

/// One tick: health burns down by one, floored at zero.
pub open spec fn explosion_step(x: Explosion) -> Explosion {
    if x.health > 0 {
        Explosion { health: (x.health - 1) as u16, ..x }
    } else {
        x
    }
}

/// Health gain on contact, capped at the top of `u16` so the counter
/// can never wrap.
pub open spec fn health_plus_100(h: u16) -> u16 {
    if h + 100 <= u16::MAX {
        (h + 100) as u16
    } else {
        u16::MAX
    }
}

/// The absorption rule. Against another explosion, strictly greater
/// health wins and gains 100, otherwise (equal included) this side is
/// zeroed; both sides of a colliding pair are resolved against the
/// other's pre-collision state, so an equal-health pair zeroes both.
/// Contact with anything else adds 100.
pub open spec fn explosion_collide(x: Explosion, other: Entity) -> Explosion {
    match other {
        Entity::Explosion(o) => {
            if x.health > o.health {
                Explosion { health: health_plus_100(x.health), ..x }
            } else {
                Explosion { health: 0, ..x }
            }
        },
        _ => Explosion { health: health_plus_100(x.health), ..x },
    }
}

impl Explosion {
    /// An explosion is well-formed in any state: it never moves and
    /// its health is bounded by its type.
    pub open spec fn wf(&self) -> bool {
        true
    }

    pub fn new(pos: Position) -> (x: Explosion)
        ensures
            x == explosion_at(pos),
    {
        Explosion { position: pos, health: 10 }
    }
}

impl EntityBehavior for Explosion {
    open spec fn pos_spec(&self) -> Position {
        self.position
    }

    open spec fn prev_spec(&self) -> Position {
        self.position
    }

    open spec fn wf_spec(&self) -> bool {
        self.wf()
    }

    open spec fn remove_spec(&self) -> bool {
        self.health == 0
    }

    open spec fn explode_spec(&self) -> bool {
        false
    }

    open spec fn avatar_spec(&self) -> Seq<char> {
        "\u{1B}[0;91m*\u{1B}[0m"@
    }

    open spec fn turn_spec(
        &self,
        world: Seq<Entity>,
        width: u16,
        height: u16,
        post: Explosion,
        spawned: Option<Entity>,
    ) -> bool {
        post == explosion_step(*self) && spawned is None
    }

    open spec fn collide_spec(&self, other: Entity) -> Explosion {
        explosion_collide(*self, other)
    }

    fn get_position(&self) -> (p: Position) {
        self.position
    }

    fn get_prev_position(&self) -> (p: Position) {
        self.position
    }

    fn should_remove(&self) -> (r: bool) {
        self.health == 0
    }

    fn avatar(&self) -> (r: &'static str) {
        "\u{1B}[0;91m*\u{1B}[0m"
    }

    fn take_turn(
        self,
        _rng: &mut rand::rngs::ThreadRng,
        _entities: &Entities,
        _width: u16,
        _height: u16,
    ) -> (r: (Explosion, Option<Entity>)) {
        let mut next = self;
        if next.health > 0 {
            next.health = next.health - 1;
        }
        (next, None)
    }

    fn on_collide(self, other: &Entity) -> (r: Explosion) {
        let mut next = self;
        match other {
            Entity::Explosion(other_explosion) => {
                if next.health > other_explosion.health {
                    next.health = add_100(next.health);
                } else {
                    next.health = 0;
                }
            },
            _ => {
                next.health = add_100(next.health);
            },
        }
        next
    }

    fn on_remove_explode(&self) -> (r: bool) {
        false
    }
}

fn add_100(h: u16) -> (r: u16)
    ensures
        r == health_plus_100(h),
{
    if h <= u16::MAX - 100 {
        h + 100
    } else {
        u16::MAX
    }
}

/// An explosion's health strictly decreases by exactly one per tick
/// until it reaches zero; at zero it stays zero and the explosion is
/// flagged for removal.
pub proof fn lemma_explosion_burns_down(x: Explosion)
    ensures
        x.health > 0 ==> explosion_step(x).health == x.health - 1,
        x.health == 0 ==> explosion_step(x).health == 0 && explosion_step(x).remove_spec(),
{
}

/// Two explosions colliding, each resolved against the other's
/// pre-collision state: the strictly healthier one gains exactly 100,
/// the other is zeroed, and an equal-health pair is zeroed on both
/// sides. The bound on the winner's health keeps the gain exact: at
/// the very top of `u16` the gain saturates instead.
pub proof fn lemma_explosion_absorption(a: Explosion, b: Explosion)
    requires
        a.health <= u16::MAX - 100,
        b.health <= u16::MAX - 100,
    ensures
        a.health > b.health ==> explosion_collide(a, Entity::Explosion(b)).health == a.health
            + 100 && explosion_collide(b, Entity::Explosion(a)).health == 0,
        a.health == b.health ==> explosion_collide(a, Entity::Explosion(b)).health == 0
            && explosion_collide(b, Entity::Explosion(a)).health == 0,
{
}

} // verus!
