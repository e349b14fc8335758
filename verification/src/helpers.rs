//! Grid geometry: positions, the collision test, and the random
//! placement helpers the simulation spawns entities with.

use vstd::prelude::*;

use crate::entities::{Entities, Entity, EntityBehavior};
use crate::rng::rand_below;
use crate::ship::Ship;

verus! {

/// A cell of the display grid, 1-indexed in both axes.
#[derive(Copy, Clone, PartialEq, Eq, Structural, Debug)]
pub struct Position(pub i32, pub i32);

/// Coordinates a ship may hold: far inside `i32`, so a one-cell step
/// never overflows.
pub open spec fn ship_coord_ok(c: int) -> bool {
    -1000000 <= c <= 1000000
}

pub open spec fn ship_pos_ok(p: Position) -> bool {
    ship_coord_ok(p.0 as int) && ship_coord_ok(p.1 as int)
}

/// Coordinates a bullet may hold. Slightly wider than the ship bound:
/// a bullet is spawned one cell ahead of a ship, and its direction
/// components fit in `i8`, so the slack keeps every move free of overflow.
pub open spec fn bullet_coord_ok(c: int) -> bool {
    -2000000 <= c <= 2000000
}

pub open spec fn bullet_pos_ok(p: Position) -> bool {
    bullet_coord_ok(p.0 as int) && bullet_coord_ok(p.1 as int)
}

/// The cells `random_position` can hand out: the interior band where
/// destinations are placed.
pub open spec fn in_spawn_range(width: u16, height: u16, p: Position) -> bool {
    &&& 1 <= p.0 <= width
    &&& 2 <= p.1 <= height + 1
}

/// The cells `wall_position` can hand out: a point on one of the four
/// display edges.
pub open spec fn on_wall(width: u16, height: u16, p: Position) -> bool {
    ||| p.1 == 1 && 0 <= p.0 < width
    ||| p.1 == height && 0 <= p.0 < width
    ||| p.0 == 1 && 0 <= p.1 < height
    ||| p.0 == width && 0 <= p.1 < height
}

/// Two entities have collided: they share a cell, or they swapped
/// cells since the previous tick (same-tick opposite movement that
/// would otherwise pass through without ever sharing a cell).
pub open spec fn collided_spec<E1: EntityBehavior, E2: EntityBehavior>(a: E1, b: E2) -> bool {
    ||| a.pos_spec() == b.pos_spec()
    ||| (a.pos_spec() == b.prev_spec() && b.pos_spec() == a.prev_spec())
}

pub fn collided<E1, E2>(entity_a: &E1, entity_b: &E2) -> (r: bool) where
    E1: EntityBehavior,
    E2: EntityBehavior,

    ensures
        r == collided_spec(*entity_a, *entity_b),
{
    let pos_a = entity_a.get_position();
    let pos_b = entity_b.get_position();

    if positions_are_same(pos_a, pos_b) {
        return true;
    }

    let prev_pos_a = entity_a.get_prev_position();
    let prev_pos_b = entity_b.get_prev_position();

    // swapped position
    if positions_are_same(pos_a, prev_pos_b) && positions_are_same(pos_b, prev_pos_a) {
        return true;
    }

    false
}

/// The collision test does not care which side it is asked from.
pub proof fn lemma_collided_symmetric<E1: EntityBehavior, E2: EntityBehavior>(a: E1, b: E2)
    ensures
        collided_spec(a, b) == collided_spec(b, a),
{
}

/// The ships of the world, in list order.
pub open spec fn ships_of(s: Seq<Entity>) -> Seq<Ship>
    decreases s.len(),
{
    if s.len() == 0 {
        Seq::empty()
    } else {
        ships_of(s.drop_last()) + match s.last() {
            Entity::Ship(sh) => seq![sh],
            _ => Seq::<Ship>::empty(),
        }
    }
}

/// How many of the world's entities are ships.
pub open spec fn num_ships(s: Seq<Entity>) -> int {
    ships_of(s).len() as int
}

/// Every extracted ship stands somewhere in the world.
pub proof fn lemma_ships_of_index(s: Seq<Entity>, k: int)
    requires
        0 <= k < ships_of(s).len(),
    ensures
        exists|j: int| 0 <= j < s.len() && s[j] == Entity::Ship(ships_of(s)[k]),
    decreases s.len(),
{
    let sub = s.drop_last();
    match s.last() {
        Entity::Ship(sh) => {
            if k < ships_of(sub).len() {
                lemma_ships_of_index(sub, k);
                let j = choose|j: int| 0 <= j < sub.len() && sub[j] == Entity::Ship(
                    ships_of(sub)[k],
                );
                assert(s[j] == Entity::Ship(ships_of(s)[k]));
            } else {
                assert(s[s.len() - 1] == Entity::Ship(ships_of(s)[k]));
            }
        },
        _ => {
            lemma_ships_of_index(sub, k);
            let j = choose|j: int| 0 <= j < sub.len() && sub[j] == Entity::Ship(ships_of(sub)[k]);
            assert(s[j] == Entity::Ship(ships_of(s)[k]));
        },
    }
}

/// Extracting the ships of a concatenation splits over the parts.
pub proof fn lemma_ships_of_concat(a: Seq<Entity>, b: Seq<Entity>)
    ensures
        ships_of(a + b) == ships_of(a) + ships_of(b),
    decreases b.len(),
{
    if b.len() == 0 {
        assert(a + b =~= a);
        assert(ships_of(a) + ships_of(b) =~= ships_of(a));
    } else {
        lemma_ships_of_concat(a, b.drop_last());
        assert((a + b).drop_last() =~= a + b.drop_last());
        assert((a + b).last() == b.last());
        match b.last() {
            Entity::Ship(sh) => {
                assert(ships_of(a) + ships_of(b) =~= ships_of(a) + ships_of(b.drop_last())
                    + seq![sh]);
            },
            _ => {
                assert(ships_of(b) == ships_of(b.drop_last()));
            },
        }
    }
}

pub fn get_ships_from_entities(entities: &Entities) -> (r: Vec<Ship>)
    ensures
        r@ == ships_of(entities@),
{
    let mut r: Vec<Ship> = Vec::new();
    let n = entities.len();
    let mut i: usize = 0;
    while i < n
        invariant
            i <= n,
            n == entities@.len(),
            r@ == ships_of(entities@.subrange(0, i as int)),
        decreases n - i,
    {
        match entities[i] {
            Entity::Ship(ship) => {
                r.push(ship);
            },
            _ => {},
        }
        proof {
            assert(entities@.subrange(0, i + 1).drop_last() =~= entities@.subrange(0, i as int));
            assert(entities@.subrange(0, i + 1).last() == entities@[i as int]);
        }
        i = i + 1;
    }
    proof {
        assert(entities@.subrange(0, n as int) =~= entities@);
    }
    r
}

/// How many of the world's entities are ships, as the status line
/// reports it: wrapped into a `u16`.
pub fn count_ships(entities: &Entities) -> (r: u16)
    ensures
        r as int == num_ships(entities@) % 0x10000,
{
    let ships = get_ships_from_entities(entities);
    (ships.len() % 0x10000) as u16
}

pub fn positions_are_same(a: Position, b: Position) -> (r: bool)
    ensures
        r == (a == b),
{
    a.0 == b.0 && a.1 == b.1
}

/// Magnitude of a coordinate difference.
pub fn abs(i: i32) -> (r: i32)
    requires
        i != i32::MIN,
    ensures
        r == vstd::math::abs(i as int),
{
    if i < 0 {
        -i
    } else {
        i
    }
}

/// A uniformly random point of the interior band: x in [1, width],
/// y in [2, height + 1]. The band starts one row below the top edge,
/// which the status line occupies.
pub fn random_position(rng: &mut rand::rngs::ThreadRng, width: u16, height: u16) -> (p: Position)
    requires
        width >= 1,
        height >= 1,
    ensures
        in_spawn_range(width, height, p),
{
    let x = rand_below(rng, width as usize) + 1;
    let y = rand_below(rng, height as usize) + 2;
    Position(x as i32, y as i32)
}

/// A random point on one of the four display edges, the edge itself
/// chosen uniformly.
pub fn wall_position(rng: &mut rand::rngs::ThreadRng, width: u16, height: u16) -> (p: Position)
    requires
        width >= 1,
        height >= 1,
    ensures
        on_wall(width, height, p),
{
    let side = rand_below(rng, 4);
    if side == 0 {
        // top
        Position(rand_below(rng, width as usize) as i32, 1)
    } else if side == 1 {
        // bottom
        Position(rand_below(rng, width as usize) as i32, height as i32)
    } else if side == 2 {
        // left
        Position(1, rand_below(rng, height as usize) as i32)
    } else {
        // right
        Position(width as i32, rand_below(rng, height as usize) as i32)
    }
}

} // verus!
