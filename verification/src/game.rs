//! The simulation engine: owns the entity population and drives the
//! phases of a tick. The caller sequences the phases (and renders
//! between them); each phase replaces the population wholesale, so
//! every entity of a tick acts on the same pre-tick snapshot.

use vstd::prelude::*;

use crate::entities::{all_wf, as_ship, entity_wf, Entities, Entity, EntityBehavior};
use crate::explosion::explosion_at;
use crate::helpers::{collided_spec, lemma_ships_of_concat, num_ships};
use crate::rng::{new_rng, rand_below};
use crate::ship::{spawned_ship_ok, team_from, Team};

verus! {

/// What the options of a turn pass spawned, in order, dropping the
/// empty ones.
pub open spec fn flatten_opts(sp: Seq<Option<Entity>>) -> Seq<Entity>
    decreases sp.len(),
{
    if sp.len() == 0 {
        Seq::empty()
    } else {
        flatten_opts(sp.drop_last()) + match sp.last() {
            Some(e) => seq![e],
            None => Seq::<Entity>::empty(),
        }
    }
}

/// The turn pass against witnessed spawn choices `sp`: every entity of
/// `post` is its `pre` counterpart one tick later, taken against the
/// whole pre-tick world.
pub open spec fn turns_sp_rel(
    pre: Seq<Entity>,
    width: u16,
    height: u16,
    post: Seq<Entity>,
    sp: Seq<Option<Entity>>,
) -> bool {
    &&& post.len() == pre.len()
    &&& sp.len() == pre.len()
    &&& forall|i: int|
        0 <= i < pre.len() ==> pre[i].turn_spec(pre, width, height, #[trigger] post[i], sp[i])
}

/// The turn pass: each entity of `post` is its `pre` counterpart one
/// tick later, and `spawned` collects what the turns brought into the
/// world, in entity order.
pub open spec fn turns_rel(
    pre: Seq<Entity>,
    width: u16,
    height: u16,
    post: Seq<Entity>,
    spawned: Seq<Entity>,
) -> bool {
    exists|sp: Seq<Option<Entity>>|
        #[trigger] flatten_opts(sp) == spawned && turns_sp_rel(pre, width, height, post, sp)
}

/// The first entity other than `i` itself, at or after index `j`, that
/// entity `i` has collided with.
pub open spec fn find_partner(s: Seq<Entity>, i: int, j: int) -> Option<int>
    decreases s.len() - j,
{
    if j < 0 || j >= s.len() {
        None
    } else if j != i && collided_spec(s[i], s[j]) {
        Some(j)
    } else {
        find_partner(s, i, j + 1)
    }
}

/// Entity `i` after the collision pass: resolved against its first
/// collision partner's pre-collision state, or untouched when it
/// collided with nothing.
pub open spec fn collide_step(s: Seq<Entity>, i: int) -> Entity {
    match find_partner(s, i, 0) {
        Some(j) => s[i].collide_spec(s[j]),
        None => s[i],
    }
}

/// What the removal pass leaves of one entity: the entity itself when
/// it stays; a fresh explosion at its position when it is dropped and
/// explodes; nothing otherwise.
pub open spec fn removed_part(e: Entity) -> Seq<Entity> {
    if !e.remove_spec() {
        seq![e]
    } else if e.explode_spec() {
        seq![Entity::Explosion(explosion_at(e.pos_spec()))]
    } else {
        Seq::<Entity>::empty()
    }
}

/// The removal pass over a whole population, in order.
pub open spec fn remove_seq(s: Seq<Entity>) -> Seq<Entity>
    decreases s.len(),
{
    if s.len() == 0 {
        Seq::empty()
    } else {
        remove_seq(s.drop_last()) + removed_part(s.last())
    }
}

/// One reinforcement wave: `k` ships of the single team `t` appended
/// to the population, everything else untouched, and the spawn total
/// raised by `k` (capped at the top of `u64`).
pub open spec fn reinforce_rel(pre: Game, post: Game, t: Team, k: int) -> bool {
    &&& 1 <= k <= pre.max_ships_per_wave
    &&& (exists|d: u32| d < pre.num_teams as u32 && t == team_from(d))
    &&& post.entities@.len() == pre.entities@.len() + k
    &&& forall|i: int| 0 <= i < pre.entities@.len() ==> post.entities@[i] == pre.entities@[i]
    &&& forall|i: int|
        pre.entities@.len() <= i < post.entities@.len() ==> (#[trigger] as_ship(post.entities@[i])
            matches Some(s) && spawned_ship_ok(s, t, pre.width, pre.height))
    &&& post.ship_count == (if pre.ship_count + k <= u64::MAX {
        pre.ship_count + k
    } else {
        u64::MAX as int
    })
    &&& post.new_entities@ == pre.new_entities@
    &&& post.width == pre.width
    &&& post.height == pre.height
    &&& post.num_teams == pre.num_teams
    &&& post.max_ships_per_wave == pre.max_ships_per_wave
    &&& post.over == pre.over
}

pub struct Game {
    pub over: bool,
    pub num_teams: u16,
    pub max_ships_per_wave: u16,
    /// Columns of the display the simulation plays on.
    pub width: u16,
    /// Rows of the display below the status line.
    pub height: u16,
    pub entities: Entities,
    pub new_entities: Entities,
    /// How many ships reinforcement has spawned over the whole run,
    /// saturating at the top of `u64`.
    pub ship_count: u64,
    pub rng: rand::rngs::ThreadRng,
}

impl Game {
    /// The engine's invariant: parameters in their clamped ranges, a
    /// display of at least one cell, every entity well-formed, and no
    /// more ships alive than were ever spawned (unless the spawn total
    /// has saturated).
    pub open spec fn wf(&self) -> bool {
        &&& 1 <= self.num_teams <= 8
        &&& 1 <= self.max_ships_per_wave <= 100
        &&& self.width >= 1
        &&& self.height >= 1
        &&& all_wf(self.entities@)
        &&& all_wf(self.new_entities@)
        &&& (num_ships(self.entities@) + num_ships(self.new_entities@) <= self.ship_count
            || self.ship_count == u64::MAX)
    }

    /// A fresh game on a `width` x `height` display. Out-of-range
    /// parameters clamp to the defaults: 2 teams, waves of at most 20.
    pub fn new(team_count: u16, max_wave_count: u16, width: u16, height: u16) -> (g: Game)
        requires
            width >= 1,
            height >= 1,
        ensures
            g.num_teams == (if 1 <= team_count <= 8 {
                team_count
            } else {
                2u16
            }),
            g.max_ships_per_wave == (if 1 <= max_wave_count <= 100 {
                max_wave_count
            } else {
                20u16
            }),
            g.width == width,
            g.height == height,
            g.entities@ == Seq::<Entity>::empty(),
            g.new_entities@ == Seq::<Entity>::empty(),
            g.ship_count == 0,
            !g.over,
            g.wf(),
    {
        let num_teams = if team_count < 1 || team_count > 8 {
            2
        } else {
            team_count
        };

        let max_ships_per_wave = if max_wave_count < 1 || max_wave_count > 100 {
            20
        } else {
            max_wave_count
        };

        Game {
            over: false,
            num_teams,
            max_ships_per_wave,
            width,
            height,
            entities: Vec::new(),
            new_entities: Vec::new(),
            ship_count: 0,
            rng: new_rng(),
        }
    }

    /// Everything before the first tick: the initial reinforcement
    /// wave. Display setup (cursor, clearing) is the caller's concern.
    pub fn before_game(self) -> (g: Game)
        requires
            self.wf(),
        ensures
            g.wf(),
            exists|t: Team, k: int| reinforce_rel(self, g, t, k),
    {
        self.reinforce()
    }

    /// Spawns one wave: a uniformly random team among the first
    /// `num_teams`, and a uniformly random wave size in
    /// [1, max_ships_per_wave].
    pub fn reinforce(self) -> (g: Game)
        requires
            self.wf(),
        ensures
            g.wf(),
            exists|t: Team, k: int| reinforce_rel(self, g, t, k),
    {
        let mut game = self;
        let ghost pre = game;

        let draw = rand_below(&mut game.rng, game.num_teams as usize) as u32;
        let team = Team::from_rand(draw);
        let wave = rand_below(&mut game.rng, game.max_ships_per_wave as usize) + 1;

        let ghost orig = game.entities@;
        let mut c: usize = 0;
        while c < wave
            invariant
                c <= wave,
                1 <= wave <= pre.max_ships_per_wave,
                game.width == pre.width && game.height == pre.height,
                game.num_teams == pre.num_teams,
                game.max_ships_per_wave == pre.max_ships_per_wave,
                game.ship_count == pre.ship_count,
                game.over == pre.over,
                game.new_entities@ == pre.new_entities@,
                pre.wf(),
                orig == pre.entities@,
                game.entities@.len() == orig.len() + c,
                forall|i: int| 0 <= i < orig.len() ==> game.entities@[i] == orig[i],
                forall|i: int|
                    orig.len() <= i < game.entities@.len() ==> (#[trigger] as_ship(
                        game.entities@[i],
                    ) matches Some(s) && spawned_ship_ok(s, team, pre.width, pre.height)),
                num_ships(game.entities@) == num_ships(orig) + c,
                all_wf(game.entities@),
            decreases wave - c,
        {
            let e = Entity::ship(team, &mut game.rng, game.width, game.height);
            let ghost before = game.entities@;
            game.entities.push(e);
            proof {
                assert(game.entities@.drop_last() =~= before);
                assert forall|i: int| 0 <= i < game.entities@.len() implies entity_wf(
                    #[trigger] game.entities@[i],
                ) by {
                    if i < before.len() {
                        assert(entity_wf(before[i]));
                    }
                }
            }
            c = c + 1;
        }

        let added = wave as u64;
        if game.ship_count <= u64::MAX - added {
            game.ship_count = game.ship_count + added;
        } else {
            game.ship_count = u64::MAX;
        }

        proof {
            assert(reinforce_rel(pre, game, team, wave as int));
        }
        game
    }

    /// The turn pass: every entity computes its next state and at most
    /// one spawned entity from the pre-tick snapshot of the world; the
    /// spawned entities are collected for the append pass.
    pub fn take_turns(self) -> (g: Game)
        requires
            self.wf(),
        ensures
            g.wf(),
            turns_rel(self.entities@, self.width, self.height, g.entities@, g.new_entities@),
            g.entities@.len() == self.entities@.len(),
            g.width == self.width && g.height == self.height,
            g.num_teams == self.num_teams,
            g.max_ships_per_wave == self.max_ships_per_wave,
            g.ship_count == self.ship_count,
            g.over == self.over,
    {
        let mut game = self;
        let ghost pre = game;
        let ghost orig = game.entities@;

        let mut new_list: Vec<Entity> = Vec::new();
        let mut spawned_list: Vec<Entity> = Vec::new();
        let ghost mut sp: Seq<Option<Entity>> = Seq::empty();

        let n = game.entities.len();
        let mut i: usize = 0;
        while i < n
            invariant
                i <= n,
                n == orig.len(),
                orig == pre.entities@,
                game.entities@ == orig,
                game.width == pre.width && game.height == pre.height,
                game.num_teams == pre.num_teams,
                game.max_ships_per_wave == pre.max_ships_per_wave,
                game.ship_count == pre.ship_count,
                game.over == pre.over,
                game.new_entities@ == pre.new_entities@,
                pre.wf(),
                new_list@.len() == i,
                sp.len() == i,
                forall|j: int|
                    0 <= j < i ==> orig[j].turn_spec(
                        orig,
                        pre.width,
                        pre.height,
                        #[trigger] new_list@[j],
                        sp[j],
                    ),
                forall|j: int| 0 <= j < i ==> entity_wf(#[trigger] new_list@[j]),
                spawned_list@ == flatten_opts(sp),
                num_ships(spawned_list@) == 0,
                num_ships(new_list@) == num_ships(orig.subrange(0, i as int)),
                all_wf(spawned_list@),
            decreases n - i,
        {
            let e = game.entities[i];
            proof {
                assert(entity_wf(orig[i as int]));
            }
            let (e2, spawned) = e.take_turn(&mut game.rng, &game.entities, game.width, game.height);
            let ghost spawned_snap = spawned;
            let ghost new_snap = new_list@;
            let ghost sp_snap = spawned_list@;
            new_list.push(e2);
            match spawned {
                Some(b) => {
                    spawned_list.push(b);
                },
                None => {},
            }
            proof {
                let sp_old = sp;
                sp = sp.push(spawned_snap);
                assert(sp.drop_last() =~= sp_old);
                assert(sp.last() == spawned_snap);

                assert(new_list@.drop_last() =~= new_snap);
                assert(orig.subrange(0, i + 1).drop_last() =~= orig.subrange(0, i as int));
                assert(orig.subrange(0, i + 1).last() == orig[i as int]);

                match spawned_snap {
                    Some(b) => {
                        assert(spawned_list@.drop_last() =~= sp_snap);
                        assert(spawned_list@.last() == b);
                        assert(b matches Entity::Bullet(_));
                        assert(entity_wf(b));
                    },
                    None => {
                        assert(spawned_list@ == sp_snap);
                        assert(flatten_opts(sp) =~= flatten_opts(sp_old));
                    },
                }
            }
            i = i + 1;
        }

        proof {
            assert(orig.subrange(0, n as int) =~= orig);
            assert(flatten_opts(sp) == spawned_list@ && turns_sp_rel(
                orig,
                pre.width,
                pre.height,
                new_list@,
                sp,
            ));
        }

        game.entities = new_list;
        game.new_entities = spawned_list;
        game
    }

    /// The collision pass: every entity is resolved against the first
    /// other entity it has collided with, both sides judged from the
    /// post-turn, pre-collision snapshot.
    pub fn check_collisions(self) -> (g: Game)
        requires
            self.wf(),
        ensures
            g.wf(),
            g.entities@.len() == self.entities@.len(),
            forall|i: int|
                0 <= i < self.entities@.len() ==> #[trigger] g.entities@[i] == collide_step(
                    self.entities@,
                    i,
                ),
            g.new_entities@ == self.new_entities@,
            g.width == self.width && g.height == self.height,
            g.num_teams == self.num_teams,
            g.max_ships_per_wave == self.max_ships_per_wave,
            g.ship_count == self.ship_count,
            g.over == self.over,
    {
        let mut game = self;
        let ghost orig = game.entities@;

        let mut new_list: Vec<Entity> = Vec::new();
        let n = game.entities.len();
        let mut i: usize = 0;
        while i < n
            invariant
                i <= n,
                n == orig.len(),
                game.entities@ == orig,
                all_wf(orig),
                new_list@.len() == i,
                forall|j: int| 0 <= j < i ==> #[trigger] new_list@[j] == collide_step(orig, j),
                forall|j: int| 0 <= j < i ==> entity_wf(#[trigger] new_list@[j]),
                num_ships(new_list@) == num_ships(orig.subrange(0, i as int)),
            decreases n - i,
        {
            let e = game.entities[i];
            let ghost new_snap = new_list@;
            match find_partner_exec(&game.entities, i) {
                Some(j) => {
                    let hit = e.on_collide(&game.entities[j]);
                    new_list.push(hit);
                },
                None => {
                    new_list.push(e);
                },
            }
            proof {
                assert(new_list@.drop_last() =~= new_snap);
                assert(orig.subrange(0, i + 1).drop_last() =~= orig.subrange(0, i as int));
                assert(orig.subrange(0, i + 1).last() == orig[i as int]);
                assert(entity_wf(orig[i as int]));
            }
            i = i + 1;
        }

        proof {
            assert(orig.subrange(0, n as int) =~= orig);
        }

        game.entities = new_list;
        game
    }

    /// The removal pass: drops every entity flagged for removal and
    /// puts a fresh explosion where each exploding one stood.
    pub fn remove_entities(self) -> (g: Game)
        requires
            self.wf(),
        ensures
            g.wf(),
            g.entities@ == remove_seq(self.entities@),
            g.new_entities@ == self.new_entities@,
            g.width == self.width && g.height == self.height,
            g.num_teams == self.num_teams,
            g.max_ships_per_wave == self.max_ships_per_wave,
            g.ship_count == self.ship_count,
            g.over == self.over,
    {
        let mut game = self;
        let ghost orig = game.entities@;

        let mut remaining_entities: Vec<Entity> = Vec::new();
        let n = game.entities.len();
        let mut i: usize = 0;
        while i < n
            invariant
                i <= n,
                n == orig.len(),
                game.entities@ == orig,
                all_wf(orig),
                remaining_entities@ == remove_seq(orig.subrange(0, i as int)),
                forall|j: int|
                    0 <= j < remaining_entities@.len() ==> entity_wf(
                        #[trigger] remaining_entities@[j],
                    ),
                num_ships(remaining_entities@) <= num_ships(orig.subrange(0, i as int)),
            decreases n - i,
        {
            let e = game.entities[i];
            let ghost rem_snap = remaining_entities@;
            if !e.should_remove() {
                remaining_entities.push(e);
                proof {
                    assert(remaining_entities@.drop_last() =~= rem_snap);
                    assert(entity_wf(orig[i as int]));
                }
            } else if e.on_remove_explode() {
                let explosion = Entity::explosion(e.get_position());
                remaining_entities.push(explosion);
                proof {
                    assert(remaining_entities@.drop_last() =~= rem_snap);
                }
            }
            proof {
                assert(orig.subrange(0, i + 1).drop_last() =~= orig.subrange(0, i as int));
                assert(orig.subrange(0, i + 1).last() == orig[i as int]);
            }
            i = i + 1;
        }

        proof {
            assert(orig.subrange(0, n as int) =~= orig);
        }

        game.entities = remaining_entities;
        game
    }

    /// The append pass: merges the entities spawned this tick into the
    /// live population for the next tick.
    pub fn append_new_entities(&mut self)
        requires
            old(self).wf(),
        ensures
            final(self).wf(),
            final(self).entities@ == old(self).entities@ + old(self).new_entities@,
            final(self).new_entities@ == Seq::<Entity>::empty(),
            final(self).width == old(self).width && final(self).height == old(self).height,
            final(self).num_teams == old(self).num_teams,
            final(self).max_ships_per_wave == old(self).max_ships_per_wave,
            final(self).ship_count == old(self).ship_count,
            final(self).over == old(self).over,
    {
        let ghost a = self.entities@;
        let ghost b = self.new_entities@;
        self.entities.append(&mut self.new_entities);
        proof {
            lemma_ships_of_concat(a, b);
            assert forall|i: int| 0 <= i < self.entities@.len() implies entity_wf(
                #[trigger] self.entities@[i],
            ) by {
                if i < a.len() {
                    assert(entity_wf(a[i]));
                } else {
                    assert(entity_wf(b[i - a.len()]));
                }
            }
        }
    }

    /// The numbers the status line reports: how many ships are alive,
    /// and how many of all ships ever spawned have been destroyed.
    pub fn get_status(&self) -> (r: (u64, u64))
        requires
            self.wf(),
        ensures
            r.0 == num_ships(self.entities@),
            r.1 == self.ship_count - num_ships(self.entities@),
    {
        let ghost orig = self.entities@;
        let mut count: u64 = 0;
        let n = self.entities.len();
        let mut i: usize = 0;
        while i < n
            invariant
                i <= n,
                n == orig.len(),
                self.entities@ == orig,
                count <= i,
                count == num_ships(orig.subrange(0, i as int)),
            decreases n - i,
        {
            match self.entities[i] {
                Entity::Ship(_) => {
                    count = count + 1;
                },
                _ => {},
            }
            proof {
                assert(orig.subrange(0, i + 1).drop_last() =~= orig.subrange(0, i as int));
                assert(orig.subrange(0, i + 1).last() == orig[i as int]);
            }
            i = i + 1;
        }
        proof {
            assert(orig.subrange(0, n as int) =~= orig);
        }
        (count, self.ship_count - count)
    }
}

/// The index of the first entity other than `i` itself that entity `i`
/// has collided with, in list order.
fn find_partner_exec(entities: &Entities, i: usize) -> (r: Option<usize>)
    requires
        i < entities@.len(),
    ensures
        match r {
            Some(j) => j < entities@.len() && find_partner(entities@, i as int, 0) == Some(
                j as int,
            ),
            None => find_partner(entities@, i as int, 0) is None,
        },
{
    let n = entities.len();
    let mut j: usize = 0;
    while j < n
        invariant
            j <= n,
            n == entities@.len(),
            i < n,
            find_partner(entities@, i as int, 0) == find_partner(entities@, i as int, j as int),
        decreases n - j,
    {
        if j != i && crate::helpers::collided(&entities[i], &entities[j]) {
            return Some(j);
        }
        j = j + 1;
    }
    None
}

/// A removed ship always yields exactly one fresh explosion at its
/// pre-removal position; a removed bullet never yields one.
pub proof fn lemma_removal_spawns(s: Seq<Entity>, e: Entity)
    ensures
        (e matches Entity::Ship(sh) && !sh.alive) ==> remove_seq(s.push(e)) == remove_seq(s)
            + seq![Entity::Explosion(explosion_at(e.pos_spec()))],
        (e matches Entity::Bullet(b) && !b.active) ==> remove_seq(s.push(e)) == remove_seq(s),
{
    assert(s.push(e).drop_last() =~= s);
    assert(s.push(e).last() == e);
}

} // verus!
