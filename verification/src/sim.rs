//! One tick of the whole simulation, in the fixed order of the game loop:
//! age the shots, move everything, test the ship against the asteroids
//! (terminal), then resolve shot-asteroid hits with snapshot semantics —
//! every hit asteroid is decided against the shots as they stand in that
//! moment, its children are appended only after the whole pass, and the
//! consuming shot leaves by a swap with the last one.

use vstd::prelude::*;
use crate::collision::is_collided;
use crate::collision::is_collided_spec;
use crate::config::SimConfig;
use crate::config::cfg_valid;
use crate::config::CONFIG_BOUND;
use crate::entity::Entity;
use crate::entity::entity_in;
use crate::entity::moved_entity_spec;
use crate::entity::move_entities;
use crate::entity::lemma_moved_rel_value;
use crate::entity::lemma_moved_bounds;
use crate::fp::FP_BOUND;
use crate::shot::Shot;
use crate::shot::age_seq;
use crate::shot::age_shots;
use crate::shot::dec_shot;
use crate::shot::move_shots;
use crate::shot::lemma_age_seq_elems;
use crate::spawn::split_asteroid;
use crate::spawn::split_child_ok;

verus! {

/// Index of the first shot colliding with this asteroid at or after `j`;
/// the length when none does.
pub open spec fn first_hit_from(a: Entity, shots: Seq<Shot>, j: int, wx: int, wy: int) -> int
    decreases shots.len() - j,
        when 0 <= j <= shots.len()
{
    if j >= shots.len() {
        shots.len() as int
    } else if is_collided_spec(a, shots[j].entity, wx, wy) {
        j
    } else {
        first_hit_from(a, shots, j + 1, wx, wy)
    }
}

/// The first-hit index lies between `j` and the length, hits where it
/// points, and clears everything before it.
proof fn lemma_first_hit_props(a: Entity, shots: Seq<Shot>, j: int, wx: int, wy: int)
    requires
        0 <= j <= shots.len(),
    ensures
        j <= first_hit_from(a, shots, j, wx, wy) <= shots.len(),
        first_hit_from(a, shots, j, wx, wy) < shots.len() ==> is_collided_spec(
            a,
            shots[first_hit_from(a, shots, j, wx, wy)].entity,
            wx,
            wy,
        ),
        forall|m: int|
            j <= m < first_hit_from(a, shots, j, wx, wy) ==> !is_collided_spec(
                a,
                #[trigger] shots[m].entity,
                wx,
                wy,
            ),
    decreases shots.len() - j,
{
    if j < shots.len() && !is_collided_spec(a, shots[j].entity, wx, wy) {
        lemma_first_hit_props(a, shots, j + 1, wx, wy);
    }
}

/// Any index that hits and clears everything before it is the first-hit
/// index.
proof fn lemma_first_hit_unique(a: Entity, shots: Seq<Shot>, wx: int, wy: int, r: int)
    requires
        0 <= r <= shots.len(),
        r < shots.len() ==> is_collided_spec(a, shots[r].entity, wx, wy),
        forall|m: int| 0 <= m < r ==> !is_collided_spec(a, #[trigger] shots[m].entity, wx, wy),
    ensures
        first_hit_from(a, shots, 0, wx, wy) == r,
{
    lemma_first_hit_props(a, shots, 0, wx, wy);
}

/// Find the first shot colliding with this asteroid; the length when none
/// does.
fn first_hit_shot(a: &Entity, shots: &Vec<Shot>, world_x: i64, world_y: i64) -> (r: usize)
    requires
        entity_in(*a, FP_BOUND as int),
        forall|i: int|
            0 <= i < shots@.len() ==> entity_in(#[trigger] shots@[i].entity, FP_BOUND as int),
        0 < world_x <= FP_BOUND,
        0 < world_y <= FP_BOUND,
    ensures
        r == first_hit_from(*a, shots@, 0, world_x as int, world_y as int),
        r <= shots@.len(),
{
    let mut i: usize = 0;
    while i < shots.len()
        invariant
            0 <= i <= shots@.len(),
            entity_in(*a, FP_BOUND as int),
            forall|j: int|
                0 <= j < shots@.len() ==> entity_in(#[trigger] shots@[j].entity, FP_BOUND as int),
            0 < world_x <= FP_BOUND,
            0 < world_y <= FP_BOUND,
            forall|m: int|
                0 <= m < i ==> !is_collided_spec(
                    *a,
                    #[trigger] shots@[m].entity,
                    world_x as int,
                    world_y as int,
                ),
        decreases shots@.len() - i,
    {
        if is_collided(a, &shots[i].entity, world_x, world_y) {
            proof {
                lemma_first_hit_unique(*a, shots@, world_x as int, world_y as int, i as int);
            }
            return i;
        }
        i = i + 1;
    }
    proof {
        lemma_first_hit_unique(*a, shots@, world_x as int, world_y as int, shots@.len() as int);
    }
    i
}

/// A sequence after `Vec::swap_remove`: the removed slot takes the last
/// element and the sequence shrinks by one.
pub open spec fn swap_remove_seq(s: Seq<Shot>, i: int) -> Seq<Shot> {
    s.update(i, s.last()).drop_last()
}

/// The whole shot-asteroid pass over a snapshot, asteroid by asteroid in
/// order: each asteroid is tested against the shots as they then stand; a
/// hit consumes the first colliding shot by a swap with the last and marks
/// the asteroid a split parent when its radius reaches the threshold;
/// anything unhit is kept in order. Yields (kept asteroids, remaining
/// shots, split parents in order).
pub open spec fn resolve_spec(
    asts: Seq<Entity>,
    shots: Seq<Shot>,
    wx: int,
    wy: int,
    threshold: int,
) -> (Seq<Entity>, Seq<Shot>, Seq<Entity>)
    decreases asts.len(),
{
    if asts.len() == 0 {
        (Seq::<Entity>::empty(), shots, Seq::<Entity>::empty())
    } else {
        let j = first_hit_from(asts[0], shots, 0, wx, wy);
        if j == shots.len() {
            let r = resolve_spec(asts.drop_first(), shots, wx, wy, threshold);
            (seq![asts[0]] + r.0, r.1, r.2)
        } else {
            let r = resolve_spec(
                asts.drop_first(),
                swap_remove_seq(shots, j),
                wx,
                wy,
                threshold,
            );
            if asts[0].collision_radius >= threshold {
                (r.0, r.1, seq![asts[0]] + r.2)
            } else {
                r
            }
        }
    }
}

/// Run the shot-asteroid pass: consume shots, keep the unhit asteroids, and
/// append four half-radius children for every split parent — after the full
/// pass, so no child is tested in the tick that made it.
pub fn resolve_collisions(
    asteroids: &mut Vec<Entity>,
    shots: &mut Vec<Shot>,
    world_x: i64,
    world_y: i64,
    cfg: &SimConfig,
)
    requires
        cfg_valid(*cfg),
        0 < world_x <= FP_BOUND,
        0 < world_y <= FP_BOUND,
        forall|i: int|
            0 <= i < old(asteroids)@.len() ==> entity_in(#[trigger] old(asteroids)@[i], FP_BOUND as int)
                && old(asteroids)@[i].collision_radius >= 0,
        forall|i: int|
            0 <= i < old(shots)@.len() ==> entity_in(#[trigger] old(shots)@[i].entity, FP_BOUND as int),
    ensures
        ({
            let r = resolve_spec(
                old(asteroids)@,
                old(shots)@,
                world_x as int,
                world_y as int,
                cfg.split_threshold as int,
            );
            &&& final(shots)@ == r.1
            &&& final(asteroids)@.len() == r.0.len() + 4 * r.2.len()
            &&& forall|i: int| 0 <= i < r.0.len() ==> final(asteroids)@[i] == r.0[i]
            &&& forall|j: int, k: int|
                0 <= j < r.2.len() && 0 <= k < 4 ==> split_child_ok(
                    #[trigger] final(asteroids)@[r.0.len() + 4 * j + k],
                    r.2[j],
                    *cfg,
                    k,
                )
        }),
{
    let ghost orig_asts = asteroids@;
    let ghost orig_shots = shots@;
    let ghost wx = world_x as int;
    let ghost wy = world_y as int;
    let ghost thr = cfg.split_threshold as int;
    let ghost full = resolve_spec(orig_asts, orig_shots, wx, wy, thr);
    let mut kept: Vec<Entity> = Vec::new();
    let mut children: Vec<Entity> = Vec::new();
    let ghost mut parents_seen: Seq<Entity> = Seq::empty();
    let mut ai: usize = 0;
    proof {
        assert(orig_asts.skip(0) =~= orig_asts);
    }
    while ai < asteroids.len()
        invariant
            asteroids@ == orig_asts,
            0 <= ai <= orig_asts.len(),
            cfg_valid(*cfg),
            0 < world_x <= FP_BOUND,
            0 < world_y <= FP_BOUND,
            wx == world_x as int,
            wy == world_y as int,
            thr == cfg.split_threshold as int,
            full == resolve_spec(orig_asts, orig_shots, wx, wy, thr),
            forall|i: int|
                0 <= i < orig_asts.len() ==> entity_in(#[trigger] orig_asts[i], FP_BOUND as int)
                    && orig_asts[i].collision_radius >= 0,
            forall|i: int|
                0 <= i < shots@.len() ==> entity_in(#[trigger] shots@[i].entity, FP_BOUND as int),
            full.0 == kept@ + resolve_spec(orig_asts.skip(ai as int), shots@, wx, wy, thr).0,
            full.1 == resolve_spec(orig_asts.skip(ai as int), shots@, wx, wy, thr).1,
            full.2 == parents_seen + resolve_spec(orig_asts.skip(ai as int), shots@, wx, wy, thr).2,
            children@.len() == 4 * parents_seen.len(),
            forall|j: int, k: int|
                0 <= j < parents_seen.len() && 0 <= k < 4 ==> split_child_ok(
                    #[trigger] children@[4 * j + k],
                    parents_seen[j],
                    *cfg,
                    k,
                ),
        decreases orig_asts.len() - ai,
    {
        let ghost pre_shots = shots@;
        let ghost sub = resolve_spec(orig_asts.skip(ai as int), pre_shots, wx, wy, thr);
        let a = asteroids[ai];
        proof {
            assert(orig_asts.skip(ai as int).len() > 0);
            assert(orig_asts.skip(ai as int)[0] == orig_asts[ai as int]);
            assert(orig_asts.skip(ai as int).drop_first() =~= orig_asts.skip(ai as int + 1));
        }
        let h = first_hit_shot(&a, shots, world_x, world_y);
        if h < shots.len() {
            shots.swap_remove(h);
            proof {
                assert(shots@ =~= swap_remove_seq(pre_shots, h as int));
                assert forall|i: int|
                    0 <= i < shots@.len() implies entity_in(
                    #[trigger] shots@[i].entity,
                    FP_BOUND as int,
                ) by {
                    assert(shots@[i] == pre_shots[i] || shots@[i] == pre_shots[pre_shots.len() - 1]);
                }
            }
            let ghost sub_next = resolve_spec(
                orig_asts.skip(ai as int + 1),
                shots@,
                wx,
                wy,
                thr,
            );
            let ghost children_pre = children@;
            let ghost parents_pre = parents_seen;
            let mut cs = split_asteroid(&a, cfg);
            let ghost cs_view = cs@;
            children.append(&mut cs);
            proof {
                if a.collision_radius >= cfg.split_threshold {
                    assert(sub.2 == seq![a] + sub_next.2);
                    parents_seen = parents_seen.push(a);
                    assert(parents_pre + (seq![a] + sub_next.2) =~= parents_seen + sub_next.2);
                } else {
                    assert(cs_view.len() == 0);
                    assert(children_pre + cs_view =~= children_pre);
                }
                assert(full.0 == kept@ + sub_next.0);
                assert(full.1 == sub_next.1);
                assert(full.2 == parents_seen + sub_next.2);
                assert(children@ == children_pre + cs_view);
                assert(children@.len() == 4 * parents_seen.len());
                assert forall|j: int, k: int|
                    0 <= j < parents_seen.len() && 0 <= k < 4 implies split_child_ok(
                    #[trigger] children@[4 * j + k],
                    parents_seen[j],
                    *cfg,
                    k,
                ) by {
                    if j < parents_pre.len() {
                        assert(children@[4 * j + k] == children_pre[4 * j + k]);
                        assert(split_child_ok(children_pre[4 * j + k], parents_pre[j], *cfg, k));
                    } else {
                        assert(children@[4 * j + k] == cs_view[k]);
                        assert(split_child_ok(cs_view[k], a, *cfg, k));
                    }
                }
            }
        } else {
            let ghost kept_pre = kept@;
            kept.push(a);
            proof {
                let sub_next = resolve_spec(orig_asts.skip(ai as int + 1), shots@, wx, wy, thr);
                assert(sub.0 == seq![a] + sub_next.0);
                assert(kept_pre + (seq![a] + sub_next.0) =~= kept@ + sub_next.0);
            }
        }
        ai = ai + 1;
    }
    proof {
        assert(orig_asts.skip(orig_asts.len() as int) =~= Seq::<Entity>::empty());
        let sub_end = resolve_spec(Seq::<Entity>::empty(), shots@, wx, wy, thr);
        assert(full.0 =~= kept@);
        assert(full.2 =~= parents_seen);
    }
    let ghost kept_view = kept@;
    let ghost children_view = children@;
    *asteroids = kept;
    asteroids.append(&mut children);
    proof {
        assert(asteroids@ == kept_view + children_view);
        assert forall|i: int| 0 <= i < full.0.len() implies asteroids@[i] == full.0[i] by {
            assert(asteroids@[i] == kept_view[i]);
        }
        assert forall|j: int, k: int|
            0 <= j < full.2.len() && 0 <= k < 4 implies split_child_ok(
            #[trigger] asteroids@[full.0.len() + 4 * j + k],
            full.2[j],
            *cfg,
            k,
        ) by {
            assert(asteroids@[kept_view.len() + 4 * j + k] == children_view[4 * j + k]);
            assert(split_child_ok(children_view[4 * j + k], parents_seen[j], *cfg, k));
        }
    }
}

/// Does the ship collide with any asteroid?
pub fn ship_hit(ship: &Entity, asteroids: &Vec<Entity>, world_x: i64, world_y: i64) -> (r: bool)
    requires
        entity_in(*ship, FP_BOUND as int),
        forall|i: int|
            0 <= i < asteroids@.len() ==> entity_in(#[trigger] asteroids@[i], FP_BOUND as int),
        0 < world_x <= FP_BOUND,
        0 < world_y <= FP_BOUND,
    ensures
        r == exists|i: int|
            0 <= i < asteroids@.len() && is_collided_spec(
                *ship,
                #[trigger] asteroids@[i],
                world_x as int,
                world_y as int,
            ),
{
    let mut i: usize = 0;
    while i < asteroids.len()
        invariant
            0 <= i <= asteroids@.len(),
            entity_in(*ship, FP_BOUND as int),
            forall|j: int|
                0 <= j < asteroids@.len() ==> entity_in(#[trigger] asteroids@[j], FP_BOUND as int),
            0 < world_x <= FP_BOUND,
            0 < world_y <= FP_BOUND,
            forall|m: int|
                0 <= m < i ==> !is_collided_spec(
                    *ship,
                    #[trigger] asteroids@[m],
                    world_x as int,
                    world_y as int,
                ),
        decreases asteroids@.len() - i,
    {
        if is_collided(ship, &asteroids[i], world_x, world_y) {
            return true;
        }
        i = i + 1;
    }
    false
}

/// A shot one tick of movement later, counter untouched.
pub open spec fn moved_shot_spec(s: Shot, wx: int, wy: int) -> Shot {
    Shot { entity: moved_entity_spec(s.entity, wx, wy), time_to_live: s.time_to_live }
}

/// One full simulation tick, in the fixed order of the game loop: age and
/// expire the shots, move the ship, the asteroids and the shots, then test
/// the ship — a hit ends the game with the rest of the tick undone — and
/// finally resolve shot-asteroid hits and splits.
pub fn tick(
    ship: &mut Entity,
    asteroids: &mut Vec<Entity>,
    shots: &mut Vec<Shot>,
    cfg: &SimConfig,
) -> (game_over: bool)
    requires
        cfg_valid(*cfg),
        entity_in(*old(ship), CONFIG_BOUND as int),
        forall|i: int|
            0 <= i < old(asteroids)@.len() ==> entity_in(
                #[trigger] old(asteroids)@[i],
                CONFIG_BOUND as int,
            ) && old(asteroids)@[i].collision_radius >= 0,
        forall|i: int|
            0 <= i < old(shots)@.len() ==> entity_in(
                (#[trigger] old(shots)@[i]).entity,
                CONFIG_BOUND as int,
            ) && old(shots)@[i].time_to_live >= 1,
    ensures
        ({
            let wx = cfg.world_x as int;
            let wy = cfg.world_y as int;
            let s1 = moved_entity_spec(*old(ship), wx, wy);
            let moved_asts = old(asteroids)@.map_values(|a: Entity| moved_entity_spec(a, wx, wy));
            let moved_shots = age_seq(old(shots)@).map_values(
                |s: Shot| moved_shot_spec(s, wx, wy),
            );
            &&& *final(ship) == s1
            &&& game_over == exists|i: int|
                0 <= i < moved_asts.len() && is_collided_spec(s1, #[trigger] moved_asts[i], wx, wy)
            &&& game_over ==> final(asteroids)@ == moved_asts && final(shots)@ == moved_shots
            &&& !game_over ==> ({
                let r = resolve_spec(moved_asts, moved_shots, wx, wy, cfg.split_threshold as int);
                &&& final(shots)@ == r.1
                &&& final(asteroids)@.len() == r.0.len() + 4 * r.2.len()
                &&& forall|i: int| 0 <= i < r.0.len() ==> final(asteroids)@[i] == r.0[i]
                &&& forall|j: int, k: int|
                    0 <= j < r.2.len() && 0 <= k < 4 ==> split_child_ok(
                        #[trigger] final(asteroids)@[r.0.len() + 4 * j + k],
                        r.2[j],
                        *cfg,
                        k,
                    )
            })
        }),
{
    let ghost wx = cfg.world_x as int;
    let ghost wy = cfg.world_y as int;
    let ghost shots0 = shots@;
    let ghost asts0 = asteroids@;
    age_shots(shots);
    proof {
        lemma_age_seq_elems(shots0);
        assert forall|i: int|
            0 <= i < shots@.len() implies entity_in(#[trigger] shots@[i].entity, CONFIG_BOUND as int)
            && shots@[i].time_to_live >= 1 by {
            let j = choose|j: int|
                0 <= j < shots0.len() && shots@[i] == dec_shot(shots0[j])
                    && shots0[j].time_to_live > 1;
            assert(shots@[i].entity == shots0[j].entity);
        }
    }
    let ghost aged = shots@;
    ship.shift(cfg.world_x, cfg.world_y);
    proof {
        lemma_moved_rel_value(*old(ship), *ship, wx, wy);
        lemma_moved_bounds(*old(ship), wx, wy);
    }
    move_entities(asteroids, cfg.world_x, cfg.world_y);
    proof {
        assert forall|i: int|
            0 <= i < asts0.len() implies #[trigger] asteroids@[i] == moved_entity_spec(
            asts0[i],
            wx,
            wy,
        ) && entity_in(asteroids@[i], 0x800_0000) && asteroids@[i].collision_radius >= 0 by {
            lemma_moved_rel_value(asts0[i], asteroids@[i], wx, wy);
            lemma_moved_bounds(asts0[i], wx, wy);
        }
        assert(asteroids@ =~= asts0.map_values(|a: Entity| moved_entity_spec(a, wx, wy)));
    }
    move_shots(shots, cfg.world_x, cfg.world_y);
    proof {
        assert forall|i: int|
            0 <= i < aged.len() implies #[trigger] shots@[i] == moved_shot_spec(aged[i], wx, wy)
            && entity_in(shots@[i].entity, 0x800_0000) by {
            lemma_moved_rel_value(aged[i].entity, shots@[i].entity, wx, wy);
            lemma_moved_bounds(aged[i].entity, wx, wy);
        }
        assert(shots@ =~= aged.map_values(|s: Shot| moved_shot_spec(s, wx, wy)));
    }
    let over = ship_hit(ship, asteroids, cfg.world_x, cfg.world_y);
    if over {
        return true;
    }
    resolve_collisions(asteroids, shots, cfg.world_x, cfg.world_y, cfg);
    false
}

} // verus!
