//! The projectile lifecycle: firing a shot from the ship, moving live
//! shots, and counting their time to live down to expiry.
//!
//! A shot spawns offset from the ship along its heading by the ship's
//! collision radius plus a configured gap, inherits the ship's velocity plus
//! a launch speed along the heading, and lives a configured number of ticks.
//! Each tick every counter drops by one and the shots that reach zero leave
//! the live collection.

use vstd::prelude::*;
use crate::affine::Vec3;
use crate::affine::apply;
use crate::affine::rotator;
use crate::config::SimConfig;
use crate::config::cfg_valid;
use crate::entity::Entity;
use crate::entity::entity_in;
use crate::entity::moved_rel;
use crate::entity::move_entity;
use crate::entity::ENTITY_BOUND;
use crate::fp::FP;
use crate::fp::FP_BOUND;
use crate::fp::fp_scale;
use crate::trig::sin_spec;
use crate::trig::cos_spec;
use crate::trig::lemma_trig_bounds;

verus! {

/// A projectile: an entity plus its remaining ticks.
#[derive(Clone, Copy, Debug, PartialEq, Eq, Structural)]
pub struct Shot {
    pub entity: Entity,
    pub time_to_live: u64,
}

/// Spawn offset of a shot from the ship's centre, along the ship's heading.
pub open spec fn shot_offset_x(ship: Entity, cfg: SimConfig) -> int {
    fp_scale((ship.collision_radius + cfg.shot_gap) * sin_spec(ship.angle as int))
}

pub open spec fn shot_offset_y(ship: Entity, cfg: SimConfig) -> int {
    fp_scale((ship.collision_radius + cfg.shot_gap) * cos_spec(ship.angle as int))
}

/// Launch velocity added to the ship's own, along the ship's heading.
pub open spec fn shot_launch_x(ship: Entity, cfg: SimConfig) -> int {
    fp_scale(cfg.shot_speed * sin_spec(ship.angle as int))
}

pub open spec fn shot_launch_y(ship: Entity, cfg: SimConfig) -> int {
    fp_scale(cfg.shot_speed * cos_spec(ship.angle as int))
}

/// What a shot fired by this ship looks like; the homogeneous third
/// components hold the constant "1" of a homogeneous point.
pub open spec fn shot_matches(ship: Entity, cfg: SimConfig, s: Shot) -> bool {
    &&& s.entity.position.x == ship.position.x + shot_offset_x(ship, cfg)
    &&& s.entity.position.y == ship.position.y + shot_offset_y(ship, cfg)
    &&& s.entity.position.w == FP
    &&& s.entity.velocity.x == ship.velocity.x + shot_launch_x(ship, cfg)
    &&& s.entity.velocity.y == ship.velocity.y + shot_launch_y(ship, cfg)
    &&& s.entity.velocity.w == FP
    &&& s.entity.acceleration == 0
    &&& s.entity.angle == ship.angle
    &&& s.entity.angle_speed == 0
    &&& s.entity.collision_radius == cfg.shot_radius
    &&& s.time_to_live == cfg.shot_ttl
}

/// Fire: append one shot built from the ship's current state.
pub fn add_shot(ship: &Entity, shots: &mut Vec<Shot>, cfg: &SimConfig)
    requires
        cfg_valid(*cfg),
        entity_in(*ship, FP_BOUND as int),
    ensures
        final(shots)@.len() == old(shots)@.len() + 1,
        forall|i: int| 0 <= i < old(shots)@.len() ==> final(shots)@[i] == old(shots)@[i],
        shot_matches(*ship, *cfg, final(shots)@.last()),
{
    proof {
        lemma_trig_bounds(ship.angle as int);
        let gap = ship.collision_radius + cfg.shot_gap;
        assert(-0x1000_0000_0000_0000 <= gap * sin_spec(ship.angle as int)
            <= 0x1000_0000_0000_0000) by (nonlinear_arith)
            requires
                -0x2000_0000 <= gap <= 0x2000_0000,
                -1024 <= sin_spec(ship.angle as int) <= 1024,
        ;
        assert(-0x1000_0000_0000_0000 <= gap * cos_spec(ship.angle as int)
            <= 0x1000_0000_0000_0000) by (nonlinear_arith)
            requires
                -0x2000_0000 <= gap <= 0x2000_0000,
                -1024 <= cos_spec(ship.angle as int) <= 1024,
        ;
        assert(-0x1000_0000_0000_0000 <= cfg.shot_speed as int * sin_spec(ship.angle as int)
            <= 0x1000_0000_0000_0000) by (nonlinear_arith)
            requires
                0 <= cfg.shot_speed <= 0x100_0000,
                -1024 <= sin_spec(ship.angle as int) <= 1024,
        ;
        assert(-0x1000_0000_0000_0000 <= cfg.shot_speed as int * cos_spec(ship.angle as int)
            <= 0x1000_0000_0000_0000) by (nonlinear_arith)
            requires
                0 <= cfg.shot_speed <= 0x100_0000,
                -1024 <= cos_spec(ship.angle as int) <= 1024,
        ;
        crate::fp::lemma_tdiv_bounds(gap * sin_spec(ship.angle as int), FP as int);
        crate::fp::lemma_tdiv_bounds(gap * cos_spec(ship.angle as int), FP as int);
        crate::fp::lemma_tdiv_bounds(cfg.shot_speed as int * sin_spec(ship.angle as int), FP as int);
        crate::fp::lemma_tdiv_bounds(cfg.shot_speed as int * cos_spec(ship.angle as int), FP as int);
    }
    let rot = rotator(ship.angle);
    let offset = apply(
        &Vec3 { x: 0, y: ship.collision_radius + cfg.shot_gap, w: FP },
        &rot,
    );
    let launch = apply(&Vec3 { x: 0, y: cfg.shot_speed, w: FP }, &rot);
    let position = Vec3 {
        x: ship.position.x + offset.x,
        y: ship.position.y + offset.y,
        w: FP,
    };
    let velocity = Vec3 {
        x: ship.velocity.x + launch.x,
        y: ship.velocity.y + launch.y,
        w: FP,
    };
    shots.push(
        Shot {
            entity: Entity {
                position,
                velocity,
                acceleration: 0,
                angle: ship.angle,
                angle_speed: 0,
                collision_radius: cfg.shot_radius,
            },
            time_to_live: cfg.shot_ttl,
        },
    );
}

impl Shot {
    /// One tick of movement; the counter is handled separately.
    pub fn shift(&mut self, world_x: i64, world_y: i64)
        requires
            entity_in(old(self).entity, ENTITY_BOUND as int),
            0 < world_x <= ENTITY_BOUND,
            0 < world_y <= ENTITY_BOUND,
        ensures
            moved_rel(old(self).entity, final(self).entity, world_x as int, world_y as int),
            final(self).time_to_live == old(self).time_to_live,
    {
        move_entity(&mut self.entity, world_x, world_y);
    }
}

/// Advance every live shot by one tick.
pub fn move_shots(shots: &mut Vec<Shot>, world_x: i64, world_y: i64)
    requires
        forall|i: int|
            0 <= i < old(shots)@.len() ==> entity_in(
                #[trigger] old(shots)@[i].entity,
                ENTITY_BOUND as int,
            ),
        0 < world_x <= ENTITY_BOUND,
        0 < world_y <= ENTITY_BOUND,
    ensures
        final(shots)@.len() == old(shots)@.len(),
        forall|i: int|
            0 <= i < old(shots)@.len() ==> moved_rel(
                old(shots)@[i].entity,
                #[trigger] final(shots)@[i].entity,
                world_x as int,
                world_y as int,
            ) && final(shots)@[i].time_to_live == old(shots)@[i].time_to_live,
{
    let ghost orig = shots@;
    let mut moved: Vec<Shot> = Vec::new();
    let mut i: usize = 0;
    while i < shots.len()
        invariant
            shots@ == orig,
            0 <= i <= orig.len(),
            moved@.len() == i,
            forall|j: int|
                0 <= j < orig.len() ==> entity_in(#[trigger] orig[j].entity, ENTITY_BOUND as int),
            0 < world_x <= ENTITY_BOUND,
            0 < world_y <= ENTITY_BOUND,
            forall|j: int|
                0 <= j < i ==> moved_rel(
                    orig[j].entity,
                    #[trigger] moved@[j].entity,
                    world_x as int,
                    world_y as int,
                ) && moved@[j].time_to_live == orig[j].time_to_live,
        decreases orig.len() - i,
    {
        let mut s = shots[i];
        s.shift(world_x, world_y);
        moved.push(s);
        i = i + 1;
    }
    *shots = moved;
}

/// A shot one tick older.
pub open spec fn dec_shot(s: Shot) -> Shot {
    Shot { entity: s.entity, time_to_live: (s.time_to_live - 1) as u64 }
}

/// One aging pass: every counter drops by one and the shots that reach zero
/// are gone, order otherwise kept.
pub open spec fn age_seq(s: Seq<Shot>) -> Seq<Shot>
    decreases s.len(),
{
    if s.len() == 0 {
        Seq::empty()
    } else {
        let rest = age_seq(s.drop_first());
        if s[0].time_to_live > 1 {
            seq![dec_shot(s[0])] + rest
        } else {
            rest
        }
    }
}

/// Aging distributes over appending one shot at the back.
proof fn lemma_age_seq_push(s: Seq<Shot>, x: Shot)
    ensures
        age_seq(s.push(x)) == age_seq(s) + if x.time_to_live > 1 {
            seq![dec_shot(x)]
        } else {
            Seq::<Shot>::empty()
        },
    decreases s.len(),
{
    let tail = if x.time_to_live > 1 {
        seq![dec_shot(x)]
    } else {
        Seq::<Shot>::empty()
    };
    let t = s.push(x);
    reveal_with_fuel(age_seq, 3);
    if s.len() == 0 {
        assert(t.drop_first() =~= Seq::<Shot>::empty());
        assert(t[0] == x);
        assert(age_seq(t) =~= age_seq(s) + tail);
    } else {
        assert(t.drop_first() =~= s.drop_first().push(x));
        lemma_age_seq_push(s.drop_first(), x);
        assert(t[0] == s[0]);
        assert(age_seq(t) =~= age_seq(s) + tail);
    }
}

/// Count every live shot down by one and drop the expired.
pub fn age_shots(shots: &mut Vec<Shot>)
    requires
        forall|i: int| 0 <= i < old(shots)@.len() ==> old(shots)@[i].time_to_live >= 1,
    ensures
        final(shots)@ == age_seq(old(shots)@),
{
    let ghost orig = shots@;
    let mut result: Vec<Shot> = Vec::new();
    let mut i: usize = 0;
    while i < shots.len()
        invariant
            shots@ == orig,
            0 <= i <= orig.len(),
            forall|j: int| 0 <= j < orig.len() ==> orig[j].time_to_live >= 1,
            result@ == age_seq(orig.take(i as int)),
        decreases orig.len() - i,
    {
        proof {
            assert(orig.take(i + 1) =~= orig.take(i as int).push(orig[i as int]));
            lemma_age_seq_push(orig.take(i as int), orig[i as int]);
            if orig[i as int].time_to_live > 1 {
                assert(age_seq(orig.take(i as int)).push(dec_shot(orig[i as int])) =~= age_seq(
                    orig.take(i as int),
                ) + seq![dec_shot(orig[i as int])]);
            } else {
                assert(age_seq(orig.take(i as int)) + Seq::<Shot>::empty() =~= age_seq(
                    orig.take(i as int),
                ));
            }
        }
        let shot = shots[i];
        let ttl = shot.time_to_live - 1;
        if ttl > 0 {
            result.push(Shot { entity: shot.entity, time_to_live: ttl });
        }
        i = i + 1;
    }
    proof {
        assert(orig.take(orig.len() as int) =~= orig);
    }
    *shots = result;
}

/// Every survivor of an aging pass is some input shot, one tick older, that
/// had more than one tick left.
pub proof fn lemma_age_seq_elems(s: Seq<Shot>)
    ensures
        forall|i: int|
            0 <= i < age_seq(s).len() ==> exists|j: int|
                0 <= j < s.len() && (#[trigger] age_seq(s)[i]) == dec_shot(s[j])
                    && s[j].time_to_live > 1,
    decreases s.len(),
{
    reveal_with_fuel(age_seq, 2);
    if s.len() > 0 {
        lemma_age_seq_elems(s.drop_first());
        let rest = age_seq(s.drop_first());
        assert forall|i: int| 0 <= i < age_seq(s).len() implies exists|j: int|
            0 <= j < s.len() && (#[trigger] age_seq(s)[i]) == dec_shot(s[j])
                && s[j].time_to_live > 1 by {
            if s[0].time_to_live > 1 {
                if i == 0 {
                    assert(age_seq(s)[0] == dec_shot(s[0]) && s[0].time_to_live > 1);
                } else {
                    let jr = choose|j: int|
                        0 <= j < s.drop_first().len() && rest[i - 1] == dec_shot(
                            s.drop_first()[j],
                        ) && s.drop_first()[j].time_to_live > 1;
                    assert(s.drop_first()[jr] == s[jr + 1]);
                    assert(age_seq(s)[i] == dec_shot(s[jr + 1]) && s[jr + 1].time_to_live > 1);
                }
            } else {
                let jr = choose|j: int|
                    0 <= j < s.drop_first().len() && rest[i] == dec_shot(s.drop_first()[j])
                        && s.drop_first()[j].time_to_live > 1;
                assert(s.drop_first()[jr] == s[jr + 1]);
                assert(age_seq(s)[i] == dec_shot(s[jr + 1]) && s[jr + 1].time_to_live > 1);
            }
        }
    }
}

/// Several aging passes in a row.
pub open spec fn age_iter(s: Seq<Shot>, k: nat) -> Seq<Shot>
    decreases k,
{
    if k == 0 {
        s
    } else {
        age_iter(age_seq(s), (k - 1) as nat)
    }
}

/// Aging an empty collection leaves it empty.
proof fn lemma_age_iter_empty(k: nat)
    ensures
        age_iter(Seq::<Shot>::empty(), k) == Seq::<Shot>::empty(),
    decreases k,
{
    reveal_with_fuel(age_seq, 2);
    assert(age_seq(Seq::<Shot>::empty()) =~= Seq::<Shot>::empty());
    if k > 0 {
        lemma_age_iter_empty((k - 1) as nat);
    }
}

/// The shot lifecycle: a never-colliding shot is still live after `k` ticks
/// exactly when `k` is below its initial counter, with the counter reduced
/// by `k`; from the tick its counter reaches zero onward it is absent.
pub proof fn lemma_shot_lifecycle(sh: Shot, k: nat)
    requires
        sh.time_to_live >= 1,
    ensures
        k < sh.time_to_live ==> age_iter(seq![sh], k) == seq![
            Shot { entity: sh.entity, time_to_live: (sh.time_to_live - k) as u64 },
        ],
        k >= sh.time_to_live ==> age_iter(seq![sh], k) == Seq::<Shot>::empty(),
    decreases k,
{
    reveal_with_fuel(age_seq, 3);
    if k == 0 {
        assert(seq![sh][0] == sh);
        assert(age_iter(seq![sh], 0) =~= seq![
            Shot { entity: sh.entity, time_to_live: (sh.time_to_live - 0) as u64 },
        ]);
    } else {
        let s = seq![sh];
        assert(s.drop_first() =~= Seq::<Shot>::empty());
        if sh.time_to_live > 1 {
            assert(age_seq(s) =~= seq![dec_shot(sh)]);
            lemma_shot_lifecycle(dec_shot(sh), (k - 1) as nat);
        } else {
            assert(age_seq(s) =~= Seq::<Shot>::empty());
            lemma_age_iter_empty((k - 1) as nat);
        }
    }
}

} // verus!
