//! The closed set of simulated objects and the per-tick behaviour
//! contract they share.

use vstd::prelude::*;

use crate::bullet::Bullet;
use crate::explosion::{explosion_at, Explosion};
use crate::helpers::Position;
use crate::ship::{spawned_ship_ok, Ship, Team};

verus! {

#[derive(Copy, Clone, Debug)]
pub enum Entity {
    Ship(Ship),
    Bullet(Bullet),
    Explosion(Explosion),
}

pub type Entities = Vec<Entity>;

/// The ship inside an entity, if that is what it is.
pub open spec fn as_ship(e: Entity) -> Option<Ship> {
    match e {
        Entity::Ship(s) => Some(s),
        _ => None,
    }
}

/// Positions and counters of an entity are within their working
/// ranges, whichever kind it is.
pub open spec fn entity_wf(e: Entity) -> bool {
    match e {
        Entity::Ship(s) => s.wf(),
        Entity::Bullet(b) => b.wf(),
        Entity::Explosion(x) => x.wf(),
    }
}

/// Every entity of the world is well-formed.
pub open spec fn all_wf(world: Seq<Entity>) -> bool {
    forall|i: int| 0 <= i < world.len() ==> #[trigger] entity_wf(world[i])
}

/// The behaviour every simulated object implements: where it stands,
/// when it dies, and how one tick transforms it.
pub trait EntityBehavior: Sized {
    /// The entity's current cell.
    spec fn pos_spec(&self) -> Position;

    /// The cell the entity stood on before its last move.
    spec fn prev_spec(&self) -> Position;

    /// Positions and counters are within their working ranges.
    spec fn wf_spec(&self) -> bool;

    /// The engine must drop the entity this tick.
    spec fn remove_spec(&self) -> bool;

    /// Dropping the entity leaves an explosion at its last position.
    spec fn explode_spec(&self) -> bool;

    /// The glyph the display draws for the entity.
    spec fn avatar_spec(&self) -> Seq<char>;

    /// Relates the entity to its state after one tick taken against
    /// the pre-tick world: `post` is the updated entity and `spawned`
    /// is what the turn brought into the world, if anything.
    spec fn turn_spec(
        &self,
        world: Seq<Entity>,
        width: u16,
        height: u16,
        post: Self,
        spawned: Option<Entity>,
    ) -> bool;

    /// The entity after a collision with `other`, resolved against
    /// `other`'s pre-collision state.
    spec fn collide_spec(&self, other: Entity) -> Self;

    fn get_position(&self) -> (p: Position)
        ensures
            p == self.pos_spec(),
    ;

    fn get_prev_position(&self) -> (p: Position)
        ensures
            p == self.prev_spec(),
    ;

    fn should_remove(&self) -> (r: bool)
        ensures
            r == self.remove_spec(),
    ;

    fn avatar(&self) -> (r: &'static str)
        ensures
            r@ == self.avatar_spec(),
    ;

    fn take_turn(
        self,
        rng: &mut rand::rngs::ThreadRng,
        entities: &Entities,
        width: u16,
        height: u16,
    ) -> (r: (Self, Option<Entity>))
        requires
            self.wf_spec(),
            all_wf(entities@),
            width >= 1,
            height >= 1,
        ensures
            self.turn_spec(entities@, width, height, r.0, r.1),
            r.0.wf_spec(),
            r.1 matches Some(e) ==> entity_wf(e),
    ;

    fn on_collide(self, other: &Entity) -> (r: Self)
        ensures
            r == self.collide_spec(*other),
            self.wf_spec() ==> r.wf_spec(),
    ;

    fn on_remove_explode(&self) -> (r: bool)
        ensures
            r == self.explode_spec(),
    ;
}

impl Entity {
    /// A freshly reinforced ship of team `t`, wrapped as an entity.
    pub fn ship(t: Team, rng: &mut rand::rngs::ThreadRng, width: u16, height: u16) -> (e: Entity)
        requires
            width >= 1,
            height >= 1,
        ensures
            e matches Entity::Ship(s) && spawned_ship_ok(s, t, width, height),
            e.wf_spec(),
    {
        Entity::Ship(Ship::new(t, rng, width, height))
    }

    /// The explosion a removed ship leaves behind, wrapped as an entity.
    pub fn explosion(pos: Position) -> (e: Entity)
        ensures
            e == Entity::Explosion(explosion_at(pos)),
    {
        Entity::Explosion(Explosion::new(pos))
    }
}

impl EntityBehavior for Entity {
    open spec fn pos_spec(&self) -> Position {
        match *self {
            Entity::Ship(e) => e.pos_spec(),
            Entity::Bullet(e) => e.pos_spec(),
            Entity::Explosion(e) => e.pos_spec(),
        }
    }

    open spec fn prev_spec(&self) -> Position {
        match *self {
            Entity::Ship(e) => e.prev_spec(),
            Entity::Bullet(e) => e.prev_spec(),
            Entity::Explosion(e) => e.prev_spec(),
        }
    }

    open spec fn wf_spec(&self) -> bool {
        entity_wf(*self)
    }

    open spec fn remove_spec(&self) -> bool {
        match *self {
            Entity::Ship(e) => e.remove_spec(),
            Entity::Bullet(e) => e.remove_spec(),
            Entity::Explosion(e) => e.remove_spec(),
        }
    }

    open spec fn explode_spec(&self) -> bool {
        match *self {
            Entity::Ship(e) => e.explode_spec(),
            Entity::Bullet(e) => e.explode_spec(),
            Entity::Explosion(e) => e.explode_spec(),
        }
    }

    open spec fn avatar_spec(&self) -> Seq<char> {
        match *self {
            Entity::Ship(e) => e.avatar_spec(),
            Entity::Bullet(e) => e.avatar_spec(),
            Entity::Explosion(e) => e.avatar_spec(),
        }
    }

    open spec fn turn_spec(
        &self,
        world: Seq<Entity>,
        width: u16,
        height: u16,
        post: Entity,
        spawned: Option<Entity>,
    ) -> bool {
        match *self {
            Entity::Ship(e) => post matches Entity::Ship(p) && e.turn_spec(
                world,
                width,
                height,
                p,
                spawned,
            ),
            Entity::Bullet(e) => post matches Entity::Bullet(p) && e.turn_spec(
                world,
                width,
                height,
                p,
                spawned,
            ),
            Entity::Explosion(e) => post matches Entity::Explosion(p) && e.turn_spec(
                world,
                width,
                height,
                p,
                spawned,
            ),
        }
    }

    open spec fn collide_spec(&self, other: Entity) -> Entity {
        match *self {
            Entity::Ship(e) => Entity::Ship(e.collide_spec(other)),
            Entity::Bullet(e) => Entity::Bullet(e.collide_spec(other)),
            Entity::Explosion(e) => Entity::Explosion(e.collide_spec(other)),
        }
    }

    fn get_position(&self) -> (p: Position) {
        match self {
            Entity::Ship(e) => e.get_position(),
            Entity::Bullet(e) => e.get_position(),
            Entity::Explosion(e) => e.get_position(),
        }
    }

    fn get_prev_position(&self) -> (p: Position) {
        match self {
            Entity::Ship(e) => e.get_prev_position(),
            Entity::Bullet(e) => e.get_prev_position(),
            Entity::Explosion(e) => e.get_prev_position(),
        }
    }

    fn should_remove(&self) -> (r: bool) {
        match self {
            Entity::Ship(e) => e.should_remove(),
            Entity::Bullet(e) => e.should_remove(),
            Entity::Explosion(e) => e.should_remove(),
        }
    }

    fn avatar(&self) -> (r: &'static str) {
        match self {
            Entity::Ship(e) => e.avatar(),
            Entity::Bullet(e) => e.avatar(),
            Entity::Explosion(e) => e.avatar(),
        }
    }

    fn take_turn(
        self,
        rng: &mut rand::rngs::ThreadRng,
        entities: &Entities,
        width: u16,
        height: u16,
    ) -> (r: (Entity, Option<Entity>)) {
        match self {
            Entity::Ship(e) => {
                let (e, other) = e.take_turn(rng, entities, width, height);
                (Entity::Ship(e), other)
            },
            Entity::Bullet(e) => {
                let (e, other) = e.take_turn(rng, entities, width, height);
                (Entity::Bullet(e), other)
            },
            Entity::Explosion(e) => {
                let (e, other) = e.take_turn(rng, entities, width, height);
                (Entity::Explosion(e), other)
            },
        }
    }

    fn on_collide(self, other: &Entity) -> (r: Entity) {
        match self {
            Entity::Ship(e) => Entity::Ship(e.on_collide(other)),
            Entity::Bullet(e) => Entity::Bullet(e.on_collide(other)),
            Entity::Explosion(e) => Entity::Explosion(e.on_collide(other)),
        }
    }

    fn on_remove_explode(&self) -> (r: bool) {
        match self {
            Entity::Ship(e) => e.on_remove_explode(),
            Entity::Bullet(e) => e.on_remove_explode(),
            Entity::Explosion(e) => e.on_remove_explode(),
        }
    }
}

} // verus!
