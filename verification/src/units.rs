//! The enemy-unit behaviour system: the roaming/combat state machine, its
//! weighted random transitions, locomotion and orientation, targeting,
//! ranged attacks and the death explosion.

use vstd::prelude::*;

use crate::math::SCALE;
use crate::player::{Projectile, ProjectileEntity};
use crate::rng::GameRng;
use crate::vec3::{dist, dist_sq, dist_sq_i128, distance, moved_along, moved_toward, Vec3Fix};
use crate::Health;

verus! {

/// Longest simulation step the per-tick passes accept, in time subunits.
pub const DT_LIMIT: i64 = 10_000_000;

/// Largest spawn-anchor coordinate magnitude a unit accepts.
pub const SPAWN_LIMIT: i64 = 100_000_000_000;

/// Largest roam radius a unit accepts.
pub const RADIUS_LIMIT: i64 = 1_000_000_000;

/// Largest unit position coordinate: the spawn bound plus the roam bound.
pub const UNIT_POS_LIMIT: i64 = 101_000_000_000;

/// Largest movement speed a unit accepts, in subunits per second.
pub const SPEED_LIMIT: i64 = 10_000_000;

/// Largest engagement range a unit accepts.
pub const RANGE_LIMIT: i64 = 1_000_000_000;

/// Largest state-timer value, covering every band drawn below.
pub const TIMER_LIMIT: i64 = 10_000_000;

/// Distance under which a walking unit counts as arrived.
pub const ARRIVE_EPS: i64 = 100_000;

/// Height of a unit's head over its position: ray and shot origin.
pub const HEAD_HEIGHT: i64 = 1_650_000;

/// Sideways muzzle offset of a unit's shot.
pub const MUZZLE_OFFSET: i64 = 200_000;

/// Speed of a unit-fired projectile, in subunits per second.
pub const UNIT_SHOT_SPEED: i64 = 100_000_000;

/// Travel cap of a unit-fired projectile.
pub const UNIT_SHOT_RANGE: i64 = 1_000_000_000;

/// The behaviour states of a unit.
#[derive(Clone, Copy, PartialEq, Eq, Structural, Debug)]
pub enum UnitsStates {
    Walk,
    Idle,
    Bob,
    Bonk,
    Fire,
    WalkLazy,
    Stop,
}

/// The states the engaged-table draw can produce: an engaged unit never
/// idles, reels or stops outright.
pub open spec fn engaged_state(s: UnitsStates) -> bool {
    s is Walk || s is Bob || s is Fire || s is WalkLazy
}

/// Animation clip handles for each unit state, plus the unit scene itself,
/// as plain identifiers handed out by the asset loader.
pub struct UnitAssets {
    pub unit1: u64,
    pub walk: u64,
    pub idle: u64,
    pub bob: u64,
    pub bonk: u64,
    pub fire: u64,
    pub walk_lazy: u64,
}

impl UnitsStates {
    /// Weighted draw over the full roam table
    /// (Walk 100, Idle 15, Bob 7, Bonk 1, Fire 1, WalkLazy 20, Stop 100).
    /// Any of the seven states can come back.
    pub fn rng_pick(rng: &mut GameRng) -> UnitsStates {
        let weights: Vec<u32> = vec![100, 15, 7, 1, 1, 20, 100];
        assert(weights@[0] == 100u32);
        let idx = rng.pick_weighted(&weights);
        match idx {
            0 => UnitsStates::Walk,
            1 => UnitsStates::Idle,
            2 => UnitsStates::Bob,
            3 => UnitsStates::Bonk,
            4 => UnitsStates::Fire,
            5 => UnitsStates::WalkLazy,
            _ => UnitsStates::Stop,
        }
    }

    /// Weighted draw over the engaged table
    /// (Walk 40, Bob 7, Fire 100, WalkLazy 20): never Idle, Bonk or Stop.
    pub fn rng_pick_attacking(rng: &mut GameRng) -> (r: UnitsStates)
        ensures
            engaged_state(r),
    {
        let weights: Vec<u32> = vec![40, 7, 100, 20];
        assert(weights@[0] == 40u32);
        let idx = rng.pick_weighted(&weights);
        match idx {
            0 => UnitsStates::Walk,
            1 => UnitsStates::Bob,
            2 => UnitsStates::Fire,
            _ => UnitsStates::WalkLazy,
        }
    }

    /// The clip a state plays, if any: `Stop` plays none.
    pub open spec fn spec_get_anim(self, ass: UnitAssets) -> Option<u64> {
        match self {
            UnitsStates::Walk => Some(ass.walk),
            UnitsStates::Idle => Some(ass.idle),
            UnitsStates::Bob => Some(ass.bob),
            UnitsStates::Bonk => Some(ass.bonk),
            UnitsStates::Fire => Some(ass.fire),
            UnitsStates::WalkLazy => Some(ass.walk_lazy),
            UnitsStates::Stop => None,
        }
    }

    pub fn get_anim(&self, ass: &UnitAssets) -> (r: Option<u64>)
        ensures
            r == self.spec_get_anim(*ass),
    {
        match self {
            UnitsStates::Walk => Some(ass.walk),
            UnitsStates::Idle => Some(ass.idle),
            UnitsStates::Bob => Some(ass.bob),
            UnitsStates::Bonk => Some(ass.bonk),
            UnitsStates::Fire => Some(ass.fire),
            UnitsStates::WalkLazy => Some(ass.walk_lazy),
            UnitsStates::Stop => None,
        }
    }

    /// Whether a state's clip loops: only `Bonk` and `Stop` do not.
    pub open spec fn spec_does_loop(self) -> bool {
        match self {
            UnitsStates::Bonk => false,
            UnitsStates::Stop => false,
            _ => true,
        }
    }

    pub fn does_loop(&self) -> (r: bool)
        ensures
            r == self.spec_does_loop(),
    {
        match self {
            UnitsStates::Bonk => false,
            UnitsStates::Stop => false,
            _ => true,
        }
    }

    /// Whether a state's clip plays at the unit's own movement speed:
    /// the locomotion-like states Walk, Bob and WalkLazy.
    pub open spec fn spec_use_unit_speed(self) -> bool {
        match self {
            UnitsStates::Walk => true,
            UnitsStates::Bob => true,
            UnitsStates::WalkLazy => true,
            _ => false,
        }
    }

    pub fn use_unit_speed(&self) -> (r: bool)
        ensures
            r == self.spec_use_unit_speed(),
    {
        match self {
            UnitsStates::Walk => true,
            UnitsStates::Bob => true,
            UnitsStates::WalkLazy => true,
            _ => false,
        }
    }
}

/// Per-unit behaviour state.
#[derive(Clone, Copy)]
pub struct UnitData {
    /// Fixed anchor point, set at creation.
    pub spawn: Vec3Fix,
    /// Half-width of the roam box around `spawn`.
    pub max_radius: i64,
    /// Current movement target; meaningful in the walking states.
    pub dest: Vec3Fix,
    /// Position of the current target, if one passed the sight check.
    pub target_to_shoot: Option<Vec3Fix>,
    /// Entity whose health the unit's shots charge, if targeting holds.
    pub target_to_apply_damage: Option<u64>,
    pub current_state: UnitsStates,
    /// Time left until the next state transition.
    pub state_timer: i64,
    /// Clip last requested, to suppress redundant restarts.
    pub current_clip: Option<u64>,
    /// Movement speed, in subunits per second.
    pub speed: i64,
    /// Whether the unit reached its destination.
    pub arrived: bool,
    /// Whether the first (forced Walk) transition has happened; units
    /// that never walk may fail to render, so the first one is forced.
    pub init: bool,
    /// Engagement range.
    pub range: i64,
    /// Attack cooldown; firing waits until it reaches zero.
    pub fire_cooldown: i64,
    /// Rate at which the cooldown drains, per second.
    pub fire_rate: i64,
}

impl UnitData {
    /// Well-formedness: every scalar within its machine bound, the
    /// destination inside the roam box at spawn height, and the two
    /// target fields set or cleared together.
    pub open spec fn wf(self) -> bool {
        &&& -SPAWN_LIMIT <= self.spawn.x <= SPAWN_LIMIT
        &&& -SPAWN_LIMIT <= self.spawn.y <= SPAWN_LIMIT
        &&& -SPAWN_LIMIT <= self.spawn.z <= SPAWN_LIMIT
        &&& 0 < self.max_radius <= RADIUS_LIMIT
        &&& self.spawn.x - self.max_radius <= self.dest.x <= self.spawn.x + self.max_radius
        &&& self.dest.y == self.spawn.y
        &&& self.spawn.z - self.max_radius <= self.dest.z <= self.spawn.z + self.max_radius
        &&& 0 <= self.state_timer <= TIMER_LIMIT
        &&& 0 <= self.speed <= SPEED_LIMIT
        &&& 0 <= self.range <= RANGE_LIMIT
        &&& -SCALE <= self.fire_cooldown <= SCALE
        &&& 0 <= self.fire_rate <= 100_000_000
        &&& self.target_to_shoot.is_some() == self.target_to_apply_damage.is_some()
        &&& self.target_to_shoot.is_some() ==> {
            let t = self.target_to_shoot->0;
            &&& -200_000_000_000 <= t.x <= 200_000_000_000
            &&& -200_000_000_000 <= t.y <= 200_000_000_000
            &&& -200_000_000_000 <= t.z <= 200_000_000_000
        }
    }

    /// What holds of a freshly spawned unit: stopped, staggered by a long
    /// randomized initial timer, a randomized walking speed, the fixed
    /// roam radius, engagement range and fire pacing.
    pub open spec fn freshly_spawned(self, spawn: Vec3Fix) -> bool {
        &&& self.spawn == spawn
        &&& self.max_radius == 2_000_000
        &&& self.dest == spawn
        &&& self.target_to_shoot.is_none()
        &&& self.target_to_apply_damage.is_none()
        &&& self.current_state is Stop
        &&& 5_500_000 <= self.state_timer < 6_500_000
        &&& self.current_clip.is_none()
        &&& 800_000 <= self.speed < 2_500_000
        &&& !self.arrived
        &&& !self.init
        &&& self.range == 43_000_000
        &&& self.fire_cooldown == SCALE
        &&& self.fire_rate == 4_000_000
    }

    /// A freshly spawned unit: stopped, staggered by a long randomized
    /// initial timer, with a randomized walking speed.
    pub fn fresh(spawn: Vec3Fix, rng: &mut GameRng) -> (r: UnitData)
        requires
            -SPAWN_LIMIT <= spawn.x <= SPAWN_LIMIT,
            -SPAWN_LIMIT <= spawn.y <= SPAWN_LIMIT,
            -SPAWN_LIMIT <= spawn.z <= SPAWN_LIMIT,
        ensures
            r.wf(),
            r.freshly_spawned(spawn),
    {
        UnitData {
            spawn,
            max_radius: 2_000_000,
            dest: spawn,
            target_to_shoot: None,
            target_to_apply_damage: None,
            current_state: UnitsStates::Stop,
            state_timer: rng.gen_range(5_500_000, 6_500_000),
            current_clip: None,
            speed: rng.gen_range(800_000, 2_500_000),
            arrived: false,
            init: false,
            range: 43_000_000,
            fire_cooldown: SCALE,
            fire_rate: 4_000_000,
        }
    }
}

/// What a state transition guarantees: the first one is a forced Walk,
/// an engaged one stays in the engaged table, a walking one draws a fresh
/// destination in the roam box, and the timer restarts in its band.
pub open spec fn transition_rel(pre: UnitData, post: UnitData) -> bool {
    &&& post.init
    &&& !pre.init ==> post.current_state is Walk
    &&& (pre.init && pre.target_to_shoot.is_some()) ==> engaged_state(post.current_state)
    &&& (post.current_state is Walk || post.current_state is WalkLazy) ==> {
        &&& !post.arrived
        &&& pre.spawn.x - pre.max_radius <= post.dest.x < pre.spawn.x + pre.max_radius
        &&& post.dest.y == pre.spawn.y
        &&& pre.spawn.z - pre.max_radius <= post.dest.z < pre.spawn.z + pre.max_radius
    }
    &&& !(post.current_state is Walk || post.current_state is WalkLazy) ==> {
        &&& post.arrived
        &&& post.dest == pre.dest
    }
    &&& post.current_state is Bonk ==> 2_000_000 <= post.state_timer < 3_000_000
    &&& !(post.current_state is Bonk) ==> 1_000_000 <= post.state_timer < 2_000_000
}

/// One unit's state-machine step: what `roam` does to each unit. While
/// the timer has not run out it just drains; at expiry the next state is
/// drawn and `transition_rel` holds.
pub open spec fn roam_rel(pre: UnitData, post: UnitData, dt: int) -> bool {
    &&& post.spawn == pre.spawn
    &&& post.max_radius == pre.max_radius
    &&& post.speed == pre.speed
    &&& post.range == pre.range
    &&& post.fire_rate == pre.fire_rate
    &&& post.fire_cooldown == pre.fire_cooldown
    &&& post.current_clip == pre.current_clip
    &&& post.target_to_shoot == pre.target_to_shoot
    &&& post.target_to_apply_damage == pre.target_to_apply_damage
    &&& if pre.state_timer - dt >= 0 {
        &&& post.state_timer == pre.state_timer - dt
        &&& post.current_state == pre.current_state
        &&& post.dest == pre.dest
        &&& post.arrived == pre.arrived
        &&& post.init == pre.init
    } else {
        transition_rel(pre, post)
    }
}

impl UnitData {
    /// Drain the state timer by `dt`; on expiry, draw the next state
    /// (the very first transition is a forced Walk), a fresh destination
    /// for the walking states, and a fresh timer from the state's band.
    pub fn roam_step(&mut self, rng: &mut GameRng, dt: i64)
        requires
            old(self).wf(),
            0 <= dt <= DT_LIMIT,
        ensures
            final(self).wf(),
            roam_rel(*old(self), *final(self), dt as int),
    {
        if self.state_timer - dt >= 0 {
            self.state_timer = self.state_timer - dt;
            return ;
        }
        let next = if self.init {
            if self.target_to_shoot.is_some() {
                UnitsStates::rng_pick_attacking(rng)
            } else {
                UnitsStates::rng_pick(rng)
            }
        } else {
            self.init = true;
            UnitsStates::Walk
        };
        self.current_state = next;
        match next {
            UnitsStates::Walk | UnitsStates::WalkLazy => {
                self.state_timer = rng.gen_range(1_000_000, 2_000_000);
                let r = self.max_radius;
                self.dest = Vec3Fix {
                    x: self.spawn.x + rng.gen_range(-r, r),
                    y: self.spawn.y,
                    z: self.spawn.z + rng.gen_range(-r, r),
                };
                self.arrived = false;
            },
            UnitsStates::Bonk => {
                self.state_timer = rng.gen_range(2_000_000, 3_000_000);
                self.arrived = true;
            },
            _ => {
                self.state_timer = rng.gen_range(1_000_000, 2_000_000);
                self.arrived = true;
            },
        }
    }
}

/// Largest coordinate of a facing vector: the span from a unit to the
/// farthest point it can look at.
pub const FACING_LIMIT: i64 = 400_000_000_000;

/// What one orientation pass does to a unit's facing: in `Fire` it looks
/// at the target, in the walking states at the destination, both projected
/// to spawn height; other states leave it alone.
pub open spec fn face_rel(u: UnitData, pos: Vec3Fix, pre: Vec3Fix, post: Vec3Fix) -> bool {
    if u.current_state is Fire && u.target_to_shoot.is_some() {
        let t = u.target_to_shoot->0;
        &&& post.x == t.x - pos.x
        &&& post.y == u.spawn.y - pos.y
        &&& post.z == t.z - pos.z
    } else if u.current_state is Walk || u.current_state is WalkLazy {
        &&& post.x == u.dest.x - pos.x
        &&& post.y == u.spawn.y - pos.y
        &&& post.z == u.dest.z - pos.z
    } else {
        post == pre
    }
}

/// Orient a unit: face the target while firing, the destination while
/// walking, both held at spawn height.
pub fn face_dest_pos(facing: &mut Vec3Fix, pos: Vec3Fix, unit: &UnitData)
    requires
        unit.wf(),
        -UNIT_POS_LIMIT <= pos.x <= UNIT_POS_LIMIT,
        -UNIT_POS_LIMIT <= pos.y <= UNIT_POS_LIMIT,
        -UNIT_POS_LIMIT <= pos.z <= UNIT_POS_LIMIT,
        -FACING_LIMIT <= old(facing).x <= FACING_LIMIT,
        -FACING_LIMIT <= old(facing).y <= FACING_LIMIT,
        -FACING_LIMIT <= old(facing).z <= FACING_LIMIT,
    ensures
        face_rel(*unit, pos, *old(facing), *final(facing)),
        -FACING_LIMIT <= final(facing).x <= FACING_LIMIT,
        -FACING_LIMIT <= final(facing).y <= FACING_LIMIT,
        -FACING_LIMIT <= final(facing).z <= FACING_LIMIT,
{
    match unit.current_state {
        UnitsStates::Fire => {
            if let Some(target) = unit.target_to_shoot {
                *facing = Vec3Fix {
                    x: target.x - pos.x,
                    y: unit.spawn.y - pos.y,
                    z: target.z - pos.z,
                };
            }
        },
        UnitsStates::Walk | UnitsStates::WalkLazy => {
            *facing = Vec3Fix {
                x: unit.dest.x - pos.x,
                y: unit.spawn.y - pos.y,
                z: unit.dest.z - pos.z,
            };
        },
        _ => {},
    }
}

/// Step length of one movement tick: the unit's speed at the fixed
/// per-tick scale (five thousandths of a second's travel).
pub open spec fn move_step(speed: int) -> int {
    speed / 200
}

/// What one locomotion pass does to a walking unit: outside the arrival
/// epsilon it moves one fixed step straight toward the destination;
/// within it, it marks itself arrived. Other states do nothing.
pub open spec fn move_rel(
    pre_u: UnitData,
    pre_p: Vec3Fix,
    post_u: UnitData,
    post_p: Vec3Fix,
) -> bool {
    if pre_u.current_state is Walk || pre_u.current_state is WalkLazy {
        if dist(pre_p, pre_u.dest) > ARRIVE_EPS {
            &&& post_u == pre_u
            &&& (post_p.x as int, post_p.y as int, post_p.z as int) == moved_toward(
                pre_p,
                pre_u.dest,
                move_step(pre_u.speed as int),
            )
        } else {
            &&& post_u == UnitData { arrived: true, ..pre_u }
            &&& post_p == pre_p
        }
    } else {
        &&& post_u == pre_u
        &&& post_p == pre_p
    }
}

/// Move a walking unit one fixed step toward its destination, or mark it
/// arrived once within the epsilon.
pub fn move_to_dest(pos: &mut Vec3Fix, unit: &mut UnitData)
    requires
        old(unit).wf(),
        -UNIT_POS_LIMIT <= old(pos).x <= UNIT_POS_LIMIT,
        -UNIT_POS_LIMIT <= old(pos).y <= UNIT_POS_LIMIT,
        -UNIT_POS_LIMIT <= old(pos).z <= UNIT_POS_LIMIT,
    ensures
        final(unit).wf(),
        move_rel(*old(unit), *old(pos), *final(unit), *final(pos)),
        -UNIT_POS_LIMIT <= final(pos).x <= UNIT_POS_LIMIT,
        -UNIT_POS_LIMIT <= final(pos).y <= UNIT_POS_LIMIT,
        -UNIT_POS_LIMIT <= final(pos).z <= UNIT_POS_LIMIT,
{
    match unit.current_state {
        UnitsStates::Walk | UnitsStates::WalkLazy => {
            let d = distance(*pos, unit.dest);
            if d > ARRIVE_EPS {
                let step = unit.speed / 200;
                proof {
                    crate::math::lemma_mul_div_between(
                        unit.dest.x - pos.x,
                        step as int,
                        d as int,
                    );
                    crate::math::lemma_mul_div_between(
                        unit.dest.y - pos.y,
                        step as int,
                        d as int,
                    );
                    crate::math::lemma_mul_div_between(
                        unit.dest.z - pos.z,
                        step as int,
                        d as int,
                    );
                }
                *pos = crate::vec3::advance_toward(*pos, unit.dest, step);
            } else {
                unit.arrived = true;
            }
        },
        _ => {},
    }
}

/// A candidate the targeting pass may pick: an entity the units are
/// allowed to shoot, with its position and, for the player's visual
/// entity, the physics body it resolves to.
#[derive(Clone, Copy, PartialEq, Eq, Structural, Debug)]
pub struct Shootable {
    pub entity: u64,
    pub pos: Vec3Fix,
    /// The player's physics collider, distinct from its visual entity;
    /// a sight ray that hits it still counts as seeing the player.
    pub logical_player: Option<u64>,
}

impl Shootable {
    pub open spec fn wf(self) -> bool {
        &&& -crate::player::PROJ_POS_LIMIT <= self.pos.x <= crate::player::PROJ_POS_LIMIT
        &&& -crate::player::PROJ_POS_LIMIT <= self.pos.y <= crate::player::PROJ_POS_LIMIT
        &&& -crate::player::PROJ_POS_LIMIT <= self.pos.z <= crate::player::PROJ_POS_LIMIT
    }
}

/// The first-listed nearest candidate: closer than every earlier one,
/// no farther than any later one.
pub open spec fn first_nearest(unit_pos: Vec3Fix, s: Seq<Shootable>, i: int) -> bool {
    &&& 0 <= i < s.len()
    &&& forall|j: int|
        0 <= j < i ==> dist_sq(unit_pos, #[trigger] s[j].pos) > dist_sq(unit_pos, s[i].pos)
    &&& forall|j: int|
        0 <= j < s.len() ==> dist_sq(unit_pos, #[trigger] s[j].pos) >= dist_sq(unit_pos, s[i].pos)
}

/// Scan the candidates for the nearest one; earlier entries win ties.
pub fn nearest_shootable(unit_pos: Vec3Fix, shootables: &Vec<Shootable>) -> (r: Option<usize>)
    requires
        -UNIT_POS_LIMIT <= unit_pos.x <= UNIT_POS_LIMIT,
        -UNIT_POS_LIMIT <= unit_pos.y <= UNIT_POS_LIMIT,
        -UNIT_POS_LIMIT <= unit_pos.z <= UNIT_POS_LIMIT,
        forall|i: int| 0 <= i < shootables@.len() ==> (#[trigger] shootables@[i]).wf(),
    ensures
        r.is_none() <==> shootables@.len() == 0,
        r.is_some() ==> first_nearest(unit_pos, shootables@, r->0 as int),
{
    if shootables.len() == 0 {
        return None;
    }
    let mut best: usize = 0;
    let mut best_sq = dist_sq_i128(unit_pos, shootables[0].pos);
    let mut i: usize = 1;
    while i < shootables.len()
        invariant
            shootables@.len() > 0,
            1 <= i <= shootables@.len(),
            0 <= best < i,
            forall|i2: int| 0 <= i2 < shootables@.len() ==> (#[trigger] shootables@[i2]).wf(),
            -UNIT_POS_LIMIT <= unit_pos.x <= UNIT_POS_LIMIT,
            -UNIT_POS_LIMIT <= unit_pos.y <= UNIT_POS_LIMIT,
            -UNIT_POS_LIMIT <= unit_pos.z <= UNIT_POS_LIMIT,
            best_sq == dist_sq(unit_pos, shootables@[best as int].pos),
            forall|j: int|
                0 <= j < best ==> dist_sq(unit_pos, #[trigger] shootables@[j].pos) > dist_sq(
                    unit_pos,
                    shootables@[best as int].pos,
                ),
            forall|j: int|
                0 <= j < i ==> dist_sq(unit_pos, #[trigger] shootables@[j].pos) >= dist_sq(
                    unit_pos,
                    shootables@[best as int].pos,
                ),
        decreases shootables@.len() - i,
    {
        let sq = dist_sq_i128(unit_pos, shootables[i].pos);
        if sq < best_sq {
            best = i;
            best_sq = sq;
        }
        i = i + 1;
    }
    Some(best)
}

/// Whether a sight ray's first hit counts as seeing the candidate: it
/// struck the candidate itself, or the physics body the candidate's
/// visual entity resolves to.
pub open spec fn los_accepts(s: Shootable, hit: Option<u64>) -> bool {
    match hit {
        Some(h) => h == s.entity || (s.logical_player.is_some() && h == s.logical_player->0),
        None => false,
    }
}

/// Clear a unit's target: no candidate was eligible this tick.
pub fn clear_target(unit: &mut UnitData)
    requires
        old(unit).wf(),
    ensures
        final(unit).wf(),
        *final(unit) == (UnitData {
            target_to_shoot: None,
            target_to_apply_damage: None,
            ..*old(unit)
        }),
{
    unit.target_to_shoot = None;
    unit.target_to_apply_damage = None;
}

/// Commit the targeting verdict on a unit for its nearest candidate:
/// the target is set exactly when the candidate is within engagement
/// range and the sight ray accepted it; otherwise both fields clear.
pub fn commit_target(
    unit: &mut UnitData,
    unit_pos: Vec3Fix,
    candidate: &Shootable,
    hit: Option<u64>,
)
    requires
        old(unit).wf(),
        candidate.wf(),
        -UNIT_POS_LIMIT <= unit_pos.x <= UNIT_POS_LIMIT,
        -UNIT_POS_LIMIT <= unit_pos.y <= UNIT_POS_LIMIT,
        -UNIT_POS_LIMIT <= unit_pos.z <= UNIT_POS_LIMIT,
    ensures
        final(unit).wf(),
        *final(unit) == (if dist_sq(unit_pos, candidate.pos) < old(unit).range * old(
            unit,
        ).range && los_accepts(*candidate, hit) {
            UnitData {
                target_to_shoot: Some(candidate.pos),
                target_to_apply_damage: Some(candidate.entity),
                ..*old(unit)
            }
        } else {
            UnitData { target_to_shoot: None, target_to_apply_damage: None, ..*old(unit) }
        }),
{
    unit.target_to_shoot = None;
    unit.target_to_apply_damage = None;
    let sq = dist_sq_i128(unit_pos, candidate.pos);
    proof {
        assert(0 <= (unit.range as i128) * (unit.range as i128)
            <= 1_000_000_000_000_000_000int) by (nonlinear_arith)
            requires
                0 <= unit.range <= RANGE_LIMIT,
        ;
    }
    let range_sq = (unit.range as i128) * (unit.range as i128);
    if sq < range_sq {
        let accepted = match hit {
            Some(h) => {
                if h == candidate.entity {
                    true
                } else {
                    match candidate.logical_player {
                        Some(lp) => h == lp,
                        None => false,
                    }
                }
            },
            None => false,
        };
        if accepted {
            unit.target_to_shoot = Some(candidate.pos);
            unit.target_to_apply_damage = Some(candidate.entity);
        }
    }
}

/// The first-listed nearest candidate is unique.
pub proof fn lemma_first_nearest_unique(unit_pos: Vec3Fix, s: Seq<Shootable>, i: int, j: int)
    requires
        first_nearest(unit_pos, s, i),
        first_nearest(unit_pos, s, j),
    ensures
        i == j,
{
    if i < j {
        assert(dist_sq(unit_pos, s[i].pos) > dist_sq(unit_pos, s[j].pos));
        assert(dist_sq(unit_pos, s[i].pos) <= dist_sq(unit_pos, s[j].pos));
    }
    if j < i {
        assert(dist_sq(unit_pos, s[j].pos) > dist_sq(unit_pos, s[i].pos));
        assert(dist_sq(unit_pos, s[j].pos) <= dist_sq(unit_pos, s[i].pos));
    }
}

/// One unit's whole targeting tick: find the nearest candidate and
/// commit it exactly when it is within engagement range and the sight
/// ray (`hit` being the first strike of the ray cast toward it) accepted
/// it; with no candidate, or a failed check, the target clears.
pub fn target_shootables(
    unit: &mut UnitData,
    unit_pos: Vec3Fix,
    shootables: &Vec<Shootable>,
    hit: Option<u64>,
)
    requires
        old(unit).wf(),
        -UNIT_POS_LIMIT <= unit_pos.x <= UNIT_POS_LIMIT,
        -UNIT_POS_LIMIT <= unit_pos.y <= UNIT_POS_LIMIT,
        -UNIT_POS_LIMIT <= unit_pos.z <= UNIT_POS_LIMIT,
        forall|i: int| 0 <= i < shootables@.len() ==> (#[trigger] shootables@[i]).wf(),
    ensures
        final(unit).wf(),
        shootables@.len() == 0 ==> *final(unit) == (UnitData {
            target_to_shoot: None,
            target_to_apply_damage: None,
            ..*old(unit)
        }),
        forall|i: int|
            first_nearest(unit_pos, shootables@, i) ==> *final(unit) == (if dist_sq(
                unit_pos,
                shootables@[i].pos,
            ) < old(unit).range * old(unit).range && los_accepts(shootables@[i], hit) {
                UnitData {
                    target_to_shoot: Some(shootables@[i].pos),
                    target_to_apply_damage: Some(shootables@[i].entity),
                    ..*old(unit)
                }
            } else {
                UnitData { target_to_shoot: None, target_to_apply_damage: None, ..*old(unit) }
            }),
{
    match nearest_shootable(unit_pos, shootables) {
        Some(chosen) => {
            commit_target(unit, unit_pos, &shootables[chosen], hit);
            proof {
                assert forall|i: int| first_nearest(unit_pos, shootables@, i) implies i
                    == chosen as int by {
                    lemma_first_nearest_unique(unit_pos, shootables@, i, chosen as int);
                }
            }
        },
        None => {
            clear_target(unit);
        },
    }
}

/// Head-height origin of a unit's sight rays and shots.
pub fn los_origin(unit_pos: Vec3Fix) -> (r: Vec3Fix)
    requires
        -UNIT_POS_LIMIT <= unit_pos.y <= UNIT_POS_LIMIT,
    ensures
        r == (Vec3Fix { x: unit_pos.x, y: (unit_pos.y + HEAD_HEIGHT) as i64, z: unit_pos.z }),
{
    Vec3Fix { x: unit_pos.x, y: unit_pos.y + HEAD_HEIGHT, z: unit_pos.z }
}

/// State coverage: a unit's state is always one of the seven behaviour
/// states, by construction of the type.
pub proof fn lemma_state_coverage(s: UnitsStates)
    ensures
        s is Walk || s is Idle || s is Bob || s is Bonk || s is Fire || s is WalkLazy
            || s is Stop,
{
}

/// The first transition is forced: whatever the generator draws, a unit
/// whose first-ever timer expiry fires comes out walking.
pub proof fn lemma_first_transition_walk(pre: UnitData, post: UnitData, dt: int)
    requires
        roam_rel(pre, post, dt),
        !pre.init,
        pre.state_timer - dt < 0,
    ensures
        post.current_state is Walk,
{
}

/// Engaged-state exclusivity at transitions: a timer expiry on a unit
/// that holds a target never produces Idle, Bonk or Stop (the first,
/// forced transition is a Walk, and the engaged table has no such entry).
pub proof fn lemma_engaged_transition_exclusive(pre: UnitData, post: UnitData, dt: int)
    requires
        roam_rel(pre, post, dt),
        pre.target_to_shoot.is_some(),
        pre.state_timer - dt < 0,
    ensures
        !(post.current_state is Idle),
        !(post.current_state is Bonk),
        !(post.current_state is Stop),
{
}

/// Target consistency: a well-formed unit holds a target position
/// exactly when it holds a target entity; every pass keeps units
/// well-formed, so the two fields are never mixed.
pub proof fn lemma_target_consistency(u: UnitData)
    requires
        u.wf(),
    ensures
        u.target_to_shoot.is_some() == u.target_to_apply_damage.is_some(),
{
}

/// The difficulty setting: picks the damage a unit shot charges the
/// player with on each tick of contact.
#[derive(Clone, Copy, PartialEq, Eq, Structural, Debug)]
pub enum Difficulty {
    Easy,
    Medium,
    Hard,
    Ultra,
}

impl Default for Difficulty {
    fn default() -> (r: Self)
        ensures
            r is Easy,
    {
        Difficulty::Easy
    }
}

impl Difficulty {
    /// Damage payload of a unit shot, per tick of contact.
    pub open spec fn spec_bot_dmg(self) -> int {
        match self {
            Difficulty::Easy => 6_000,
            Difficulty::Medium => 12_000,
            Difficulty::Hard => 24_000,
            Difficulty::Ultra => 48_000,
        }
    }

    pub fn bot_dmg(&self) -> (r: i64)
        ensures
            r == self.spec_bot_dmg(),
    {
        match self {
            Difficulty::Easy => 6_000,
            Difficulty::Medium => 12_000,
            Difficulty::Hard => 24_000,
            Difficulty::Ultra => 48_000,
        }
    }
}

/// The fire cooldown after one tick's drain: it falls by
/// `fire_rate * dt`, held at one second's worth below zero so the stored
/// value stays bounded (everything at or below zero means ready).
pub open spec fn cooldown_after(pre: UnitData, dt: int) -> int {
    let drained = pre.fire_cooldown - pre.fire_rate * dt / (SCALE as int);
    if drained < -SCALE {
        -SCALE as int
    } else {
        drained
    }
}

/// Whether a unit fires this tick: cooldown ready, in the `Fire` state,
/// with a committed target.
pub open spec fn fires(pre: UnitData, dt: int) -> bool {
    &&& cooldown_after(pre, dt) <= 0
    &&& pre.current_state is Fire
    &&& pre.target_to_apply_damage.is_some()
    &&& pre.target_to_shoot.is_some()
}

/// The muzzle of a unit's shot: head height, offset sideways along the
/// unit's right (the horizontal perpendicular of its facing).
pub open spec fn muzzle_of(pos: Vec3Fix, facing: Vec3Fix) -> (int, int, int) {
    let head = Vec3Fix { x: pos.x, y: (pos.y + HEAD_HEIGHT) as i64, z: pos.z };
    let right = Vec3Fix { x: (-facing.z) as i64, y: 0, z: facing.x };
    moved_along(head, right, MUZZLE_OFFSET as int)
}

/// The projectile a firing unit spawns: from the muzzle, aimed at the
/// target position pulled slightly down and sideways (so the shot does
/// not ride exactly down the player's view axis), with the difficulty's
/// damage payload.
pub open spec fn unit_shot(
    pre: UnitData,
    pos: Vec3Fix,
    facing: Vec3Fix,
    difficulty: Difficulty,
) -> ProjectileEntity {
    let m = muzzle_of(pos, facing);
    let t = pre.target_to_shoot->0;
    ProjectileEntity {
        pos: Vec3Fix { x: m.0 as i64, y: m.1 as i64, z: m.2 as i64 },
        dir: Vec3Fix {
            x: (t.x - 10_000 - m.0) as i64,
            y: (t.y - 100_000 - m.1) as i64,
            z: (t.z - 10_000 - m.2) as i64,
        },
        projectile: Projectile {
            speed: UNIT_SHOT_SPEED,
            max_dist: UNIT_SHOT_RANGE,
            dist_trav: 0,
        },
        damage: Some(difficulty.spec_bot_dmg() as i64),
    }
}

/// One unit's combat tick: drain the cooldown by `fire_rate * dt`
/// whatever the state; fire exactly when the cooldown has run out, the
/// state is `Fire` and a target is committed, resetting the cooldown to
/// its fixed baseline of one second.
pub fn shoot_stuff(
    unit: &mut UnitData,
    unit_pos: Vec3Fix,
    facing: Vec3Fix,
    dt: i64,
    difficulty: &Difficulty,
) -> (r: Option<ProjectileEntity>)
    requires
        old(unit).wf(),
        -UNIT_POS_LIMIT <= unit_pos.x <= UNIT_POS_LIMIT,
        -UNIT_POS_LIMIT <= unit_pos.y <= UNIT_POS_LIMIT,
        -UNIT_POS_LIMIT <= unit_pos.z <= UNIT_POS_LIMIT,
        -FACING_LIMIT <= facing.x <= FACING_LIMIT,
        -FACING_LIMIT <= facing.y <= FACING_LIMIT,
        -FACING_LIMIT <= facing.z <= FACING_LIMIT,
        0 <= dt <= DT_LIMIT,
    ensures
        final(unit).wf(),
        *final(unit) == (UnitData {
            fire_cooldown: final(unit).fire_cooldown,
            ..*old(unit)
        }),
        fires(*old(unit), dt as int) ==> {
            &&& final(unit).fire_cooldown == SCALE
            &&& r == Some(unit_shot(*old(unit), unit_pos, facing, *difficulty))
            &&& r->0.wf()
        },
        !fires(*old(unit), dt as int) ==> {
            &&& final(unit).fire_cooldown == cooldown_after(*old(unit), dt as int)
            &&& r.is_none()
        },
{
    proof {
        let rate = unit.fire_rate;
        assert(0 <= rate * dt <= 1_000_000_000_000_000int) by (nonlinear_arith)
            requires
                0 <= rate <= 100_000_000,
                0 <= dt <= DT_LIMIT,
        ;
        assert(0 <= rate * dt / 1_000_000 <= 1_000_000_000_000_000int) by (nonlinear_arith)
            requires
                0 <= rate * dt <= 1_000_000_000_000_000int,
        ;
    }
    let drain = (unit.fire_rate * dt) / SCALE;
    let drained = unit.fire_cooldown - drain;
    unit.fire_cooldown = if drained < -SCALE {
        -SCALE
    } else {
        drained
    };
    if unit.fire_cooldown > 0 {
        return None;
    }
    if let UnitsStates::Fire = unit.current_state {
        if unit.target_to_apply_damage.is_some() {
            if let Some(target) = unit.target_to_shoot {
                unit.fire_cooldown = SCALE;
                let head = Vec3Fix { x: unit_pos.x, y: unit_pos.y + HEAD_HEIGHT, z: unit_pos.z };
                let right = Vec3Fix { x: -facing.z, y: 0, z: facing.x };
                let muzzle = crate::vec3::advance_along(head, right, MUZZLE_OFFSET);
                let dir = Vec3Fix {
                    x: (target.x - 10_000) - muzzle.x,
                    y: (target.y - 100_000) - muzzle.y,
                    z: (target.z - 10_000) - muzzle.z,
                };
                let shot = ProjectileEntity {
                    pos: muzzle,
                    dir,
                    projectile: Projectile {
                        speed: UNIT_SHOT_SPEED,
                        max_dist: UNIT_SHOT_RANGE,
                        dist_trav: 0,
                    },
                    damage: Some(difficulty.bot_dmg()),
                };
                return Some(shot);
            }
        }
    }
    None
}

/// Speed of an explosion-debris projectile.
pub const DEBRIS_SPEED: i64 = 35_000_000;

/// Travel cap of an explosion-debris projectile.
pub const DEBRIS_RANGE: i64 = 20_000_000;

/// How many decorative projectiles a dying unit bursts into.
pub const DEBRIS_COUNT: usize = 16;

/// A decorative explosion fragment at a dead unit's position: one unit
/// above it, flung along a random direction drawn sideways within a unit
/// box and upward within a fixed band, carrying no damage.
pub open spec fn is_debris(p: ProjectileEntity, origin: Vec3Fix) -> bool {
    &&& p.pos.x == origin.x
    &&& p.pos.y == origin.y + SCALE
    &&& p.pos.z == origin.z
    &&& -SCALE <= p.dir.x < SCALE
    &&& 400_000 <= p.dir.y < SCALE
    &&& -SCALE <= p.dir.z < SCALE
    &&& p.projectile == (Projectile { speed: DEBRIS_SPEED, max_dist: DEBRIS_RANGE, dist_trav: 0 })
    &&& p.damage.is_none()
}

/// The burst of sixteen decorative projectiles a dying unit leaves.
pub fn explosion_debris(origin: Vec3Fix, rng: &mut GameRng) -> (r: Vec<ProjectileEntity>)
    requires
        -UNIT_POS_LIMIT <= origin.x <= UNIT_POS_LIMIT,
        -UNIT_POS_LIMIT <= origin.y <= UNIT_POS_LIMIT,
        -UNIT_POS_LIMIT <= origin.z <= UNIT_POS_LIMIT,
    ensures
        r@.len() == DEBRIS_COUNT,
        forall|k: int| 0 <= k < r@.len() ==> is_debris(#[trigger] r@[k], origin) && r@[k].wf(),
{
    let mut out: Vec<ProjectileEntity> = Vec::new();
    let mut k: usize = 0;
    while k < DEBRIS_COUNT
        invariant
            0 <= k <= DEBRIS_COUNT,
            out@.len() == k,
            -UNIT_POS_LIMIT <= origin.x <= UNIT_POS_LIMIT,
            -UNIT_POS_LIMIT <= origin.y <= UNIT_POS_LIMIT,
            -UNIT_POS_LIMIT <= origin.z <= UNIT_POS_LIMIT,
            forall|j: int| 0 <= j < out@.len() ==> is_debris(#[trigger] out@[j], origin)
                && out@[j].wf(),
        decreases DEBRIS_COUNT - k,
    {
        let dir = Vec3Fix {
            x: rng.gen_range(-SCALE, SCALE),
            y: rng.gen_range(400_000, SCALE),
            z: rng.gen_range(-SCALE, SCALE),
        };
        let p = ProjectileEntity {
            pos: Vec3Fix { x: origin.x, y: origin.y + SCALE, z: origin.z },
            dir,
            projectile: Projectile {
                speed: DEBRIS_SPEED,
                max_dist: DEBRIS_RANGE,
                dist_trav: 0,
            },
            damage: None,
        };
        out.push(p);
        k = k + 1;
    }
    out
}

/// What the animation pass asks the clip-playback collaborator to do.
#[derive(Clone, Copy, PartialEq, Eq, Structural, Debug)]
pub enum AnimAction {
    /// Start (or restart) a clip, with its loop flag and, for the
    /// locomotion-like states, the unit's own speed as playback rate.
    Play { clip: u64, repeat: bool, speed: Option<i64> },
    /// The right clip is already playing: leave it alone.
    Continue,
    /// No clip for this state: stop any looping playback.
    StopRepeating,
}

/// The clip a unit's state resolves to: walking states play nothing
/// while the unit stands at its destination.
pub open spec fn resolved_clip(u: UnitData, ass: UnitAssets) -> Option<u64> {
    match u.current_state {
        UnitsStates::Walk | UnitsStates::WalkLazy => if !u.arrived {
            u.current_state.spec_get_anim(ass)
        } else {
            None
        },
        _ => u.current_state.spec_get_anim(ass),
    }
}

/// Whether a resolved clip is (re)started: when it differs from the one
/// last requested, or when the state's clip does not loop (non-looping
/// clips always restart, for motion emphasis).
pub open spec fn should_play(u: UnitData, clip: u64) -> bool {
    match u.current_clip {
        Some(current) => current != clip || !u.current_state.spec_does_loop(),
        None => true,
    }
}

/// The per-unit animation pass: map the state to a clip, suppress
/// redundant restarts of a looping clip, and remember what was requested.
pub fn play_animations(unit: &mut UnitData, ass: &UnitAssets) -> (r: AnimAction)
    requires
        old(unit).wf(),
    ensures
        final(unit).wf(),
        resolved_clip(*old(unit), *ass).is_none() ==> r is StopRepeating && *final(unit) == *old(
            unit,
        ),
        (resolved_clip(*old(unit), *ass).is_some() && should_play(
            *old(unit),
            resolved_clip(*old(unit), *ass)->0,
        )) ==> {
            &&& r == (AnimAction::Play {
                clip: resolved_clip(*old(unit), *ass)->0,
                repeat: old(unit).current_state.spec_does_loop(),
                speed: if old(unit).current_state.spec_use_unit_speed() {
                    Some(old(unit).speed)
                } else {
                    None
                },
            })
            &&& *final(unit) == (UnitData {
                current_clip: Some(resolved_clip(*old(unit), *ass)->0),
                ..*old(unit)
            })
        },
        (resolved_clip(*old(unit), *ass).is_some() && !should_play(
            *old(unit),
            resolved_clip(*old(unit), *ass)->0,
        )) ==> r is Continue && *final(unit) == *old(unit),
{
    let clip = match unit.current_state {
        UnitsStates::Walk | UnitsStates::WalkLazy => {
            if !unit.arrived {
                unit.current_state.get_anim(ass)
            } else {
                None
            }
        },
        _ => unit.current_state.get_anim(ass),
    };
    match clip {
        Some(clip) => {
            let play = match unit.current_clip {
                Some(current) => {
                    if current != clip {
                        true
                    } else {
                        !unit.current_state.does_loop()
                    }
                },
                None => true,
            };
            if play {
                unit.current_clip = Some(clip);
                let repeat = unit.current_state.does_loop();
                let speed = if unit.current_state.use_unit_speed() {
                    Some(unit.speed)
                } else {
                    None
                };
                AnimAction::Play { clip, repeat, speed }
            } else {
                AnimAction::Continue
            }
        },
        None => AnimAction::StopRepeating,
    }
}

/// Largest health magnitude the passes accept.
pub const HEALTH_LIMIT: i64 = 1_000_000_000_000;

/// A whole enemy entity: identity, spatial state, behaviour state and
/// wound state, as the per-tick passes see it.
#[derive(Clone, Copy)]
pub struct UnitEntity {
    pub entity: u64,
    pub pos: Vec3Fix,
    /// The direction the unit looks along, set by the orientation pass.
    pub facing: Vec3Fix,
    pub data: UnitData,
    pub health: Health,
}

impl UnitEntity {
    pub open spec fn wf(self) -> bool {
        &&& self.data.wf()
        &&& -UNIT_POS_LIMIT <= self.pos.x <= UNIT_POS_LIMIT
        &&& -UNIT_POS_LIMIT <= self.pos.y <= UNIT_POS_LIMIT
        &&& -UNIT_POS_LIMIT <= self.pos.z <= UNIT_POS_LIMIT
        &&& -FACING_LIMIT <= self.facing.x <= FACING_LIMIT
        &&& -FACING_LIMIT <= self.facing.y <= FACING_LIMIT
        &&& -FACING_LIMIT <= self.facing.z <= FACING_LIMIT
        &&& -HEALTH_LIMIT <= self.health.0 <= HEALTH_LIMIT
    }
}

/// A unit with health left.
pub open spec fn alive(u: UnitEntity) -> bool {
    u.health.0 > 0
}

/// The units that survive a death pass: the ones with health left,
/// in order.
pub open spec fn living(s: Seq<UnitEntity>) -> Seq<UnitEntity>
    decreases s.len(),
{
    if s.len() == 0 {
        Seq::empty()
    } else {
        let rest = living(s.drop_last());
        if alive(s.last()) {
            rest.push(s.last())
        } else {
            rest
        }
    }
}

/// The positions of the units a death pass removes, in order.
pub open spec fn dead_positions(s: Seq<UnitEntity>) -> Seq<Vec3Fix>
    decreases s.len(),
{
    if s.len() == 0 {
        Seq::empty()
    } else {
        let rest = dead_positions(s.drop_last());
        if alive(s.last()) {
            rest
        } else {
            rest.push(s.last().pos)
        }
    }
}

/// Everything `living` keeps has health left.
pub proof fn lemma_living_alive(s: Seq<UnitEntity>, j: int)
    requires
        0 <= j < living(s).len(),
    ensures
        alive(living(s)[j]),
    decreases s.len(),
{
    if s.len() > 0 {
        if alive(s.last()) {
            if j < living(s).len() - 1 {
                lemma_living_alive(s.drop_last(), j);
            }
        } else {
            lemma_living_alive(s.drop_last(), j);
        }
    }
}

/// A unit whose health has run out does not survive a death pass, and
/// its position is among the explosion sites.
pub proof fn lemma_death_triggers_explosion(s: Seq<UnitEntity>, i: int)
    requires
        0 <= i < s.len(),
        !alive(s[i]),
    ensures
        !living(s).contains(s[i]),
        dead_positions(s).contains(s[i].pos),
    decreases s.len(),
{
    if living(s).contains(s[i]) {
        let j = choose|j: int| 0 <= j < living(s).len() && living(s)[j] == s[i];
        lemma_living_alive(s, j);
    }
    if i == s.len() - 1 {
        assert(s[i] == s.last());
        assert(dead_positions(s).last() == s[i].pos);
    } else {
        lemma_death_triggers_explosion(s.drop_last(), i);
        assert(s.drop_last()[i] == s[i]);
        let p = s[i].pos;
        let j = choose|j: int|
            0 <= j < dead_positions(s.drop_last()).len() && dead_positions(s.drop_last())[j] == p;
        if alive(s.last()) {
            assert(dead_positions(s)[j] == s[i].pos);
        } else {
            assert(dead_positions(s)[j] == s[i].pos);
        }
    }
}

/// The per-tick death pass: every unit whose health has run out is
/// removed, and exactly sixteen decorative debris projectiles are spawned
/// at its position, appended in unit order.
pub fn blowup(
    units: &mut Vec<UnitEntity>,
    projectiles: &mut Vec<ProjectileEntity>,
    rng: &mut GameRng,
)
    requires
        forall|i: int| 0 <= i < old(units)@.len() ==> (#[trigger] old(units)@[i]).wf(),
        forall|i: int| 0 <= i < old(projectiles)@.len() ==> (#[trigger] old(projectiles)@[i]).wf(),
    ensures
        final(units)@ == living(old(units)@),
        final(projectiles)@.len() == old(projectiles)@.len() + 16 * dead_positions(
            old(units)@,
        ).len(),
        final(projectiles)@.subrange(0, old(projectiles)@.len() as int) == old(projectiles)@,
        forall|d: int, k: int|
            0 <= d < dead_positions(old(units)@).len() && 0 <= k < 16 ==> is_debris(
                #[trigger] final(projectiles)@[old(projectiles)@.len() + 16 * d + k],
                dead_positions(old(units)@)[d],
            ),
        forall|i: int| 0 <= i < final(units)@.len() ==> (#[trigger] final(units)@[i]).wf(),
        forall|i: int|
            0 <= i < final(projectiles)@.len() ==> (#[trigger] final(projectiles)@[i]).wf(),
{
    let n = units.len();
    let base = projectiles.len();
    let mut out: Vec<UnitEntity> = Vec::new();
    let mut i: usize = 0;
    proof {
        assert(units@.take(0) =~= Seq::<UnitEntity>::empty());
        assert(projectiles@.subrange(0, base as int) =~= projectiles@);
    }
    while i < n
        invariant
            n == units@.len(),
            units@ == old(units)@,
            base == old(projectiles)@.len(),
            0 <= i <= n,
            forall|j: int| 0 <= j < n ==> (#[trigger] units@[j]).wf(),
            out@ == living(units@.take(i as int)),
            forall|j: int| 0 <= j < out@.len() ==> (#[trigger] out@[j]).wf(),
            projectiles@.len() == base + 16 * dead_positions(units@.take(i as int)).len(),
            projectiles@.subrange(0, base as int) == old(projectiles)@,
            forall|d: int, k: int|
                0 <= d < dead_positions(units@.take(i as int)).len() && 0 <= k < 16 ==> is_debris(
                    #[trigger] projectiles@[base + 16 * d + k],
                    dead_positions(units@.take(i as int))[d],
                ),
            forall|j: int| 0 <= j < projectiles@.len() ==> (#[trigger] projectiles@[j]).wf(),
        decreases n - i,
    {
        let u = units[i];
        proof {
            assert(units@.take(i + 1).drop_last() =~= units@.take(i as int));
            assert(units@.take(i + 1).last() == units@[i as int]);
        }
        if u.health.0 > 0 {
            out.push(u);
        } else {
            let ghost pre_projs = projectiles@;
            let mut debris = explosion_debris(u.pos, rng);
            projectiles.append(&mut debris);
            proof {
                assert(projectiles@.subrange(0, base as int) =~= pre_projs.subrange(
                    0,
                    base as int,
                ));
            }
        }
        i = i + 1;
    }
    proof {
        assert(units@.take(n as int) =~= units@);
    }
    *units = out;
}

/// Damage a unit shot charges the player while within one world unit of
/// it; a plain (decorative or player-fired) projectile charges nothing.
pub open spec fn proximity_damage(player_pos: Vec3Fix, p: ProjectileEntity) -> int {
    if p.damage.is_some() && dist_sq(p.pos, player_pos) < 1_000_000_000_000 {
        p.damage->0 as int
    } else {
        0
    }
}

/// Total damage the live projectiles charge the player this tick.
pub open spec fn total_proximity_damage(player_pos: Vec3Fix, s: Seq<ProjectileEntity>) -> int
    decreases s.len(),
{
    if s.len() == 0 {
        0
    } else {
        total_proximity_damage(player_pos, s.drop_last()) + proximity_damage(player_pos, s.last())
    }
}

/// The per-tick proximity-damage pass: every live unit shot within one
/// world unit of the player charges its payload to the player's health.
/// The projectile is not despawned by a hit: it can charge damage on
/// several consecutive ticks while it stays in range.
pub fn damage_player(
    player_pos: Vec3Fix,
    health: &mut Health,
    projectiles: &Vec<ProjectileEntity>,
)
    requires
        -crate::player::PROJ_POS_LIMIT <= player_pos.x <= crate::player::PROJ_POS_LIMIT,
        -crate::player::PROJ_POS_LIMIT <= player_pos.y <= crate::player::PROJ_POS_LIMIT,
        -crate::player::PROJ_POS_LIMIT <= player_pos.z <= crate::player::PROJ_POS_LIMIT,
        -HEALTH_LIMIT <= old(health).0 <= HEALTH_LIMIT,
        forall|i: int| 0 <= i < projectiles@.len() ==> (#[trigger] projectiles@[i]).wf(),
        projectiles@.len() <= 1_000_000,
    ensures
        final(health).0 == old(health).0 - total_proximity_damage(player_pos, projectiles@),
{
    let n = projectiles.len();
    let mut i: usize = 0;
    proof {
        assert(projectiles@.take(0) =~= Seq::<ProjectileEntity>::empty());
    }
    while i < n
        invariant
            n == projectiles@.len() <= 1_000_000,
            0 <= i <= n,
            forall|j: int| 0 <= j < n ==> (#[trigger] projectiles@[j]).wf(),
            -crate::player::PROJ_POS_LIMIT <= player_pos.x <= crate::player::PROJ_POS_LIMIT,
            -crate::player::PROJ_POS_LIMIT <= player_pos.y <= crate::player::PROJ_POS_LIMIT,
            -crate::player::PROJ_POS_LIMIT <= player_pos.z <= crate::player::PROJ_POS_LIMIT,
            0 <= total_proximity_damage(player_pos, projectiles@.take(i as int)) <= i * 1_000_000,
            health.0 == old(health).0 - total_proximity_damage(
                player_pos,
                projectiles@.take(i as int),
            ),
            -HEALTH_LIMIT <= old(health).0 <= HEALTH_LIMIT,
        decreases n - i,
    {
        let p = projectiles[i];
        proof {
            assert(projectiles@.take(i + 1).drop_last() =~= projectiles@.take(i as int));
            assert(projectiles@.take(i + 1).last() == projectiles@[i as int]);
        }
        match p.damage {
            Some(dmg) => {
                let sq = dist_sq_i128(p.pos, player_pos);
                if sq < 1_000_000_000_000i128 {
                    health.0 = health.0 - dmg;
                }
            },
            None => {},
        }
        i = i + 1;
    }
    proof {
        assert(projectiles@.take(n as int) =~= projectiles@);
    }
}

/// The per-tick state-machine pass over every unit.
pub fn roam(units: &mut Vec<UnitData>, rng: &mut GameRng, dt: i64)
    requires
        forall|i: int| 0 <= i < old(units)@.len() ==> #[trigger] old(units)@[i].wf(),
        0 <= dt <= DT_LIMIT,
    ensures
        final(units)@.len() == old(units)@.len(),
        forall|i: int|
            0 <= i < old(units)@.len() ==> #[trigger] final(units)@[i].wf() && roam_rel(
                old(units)@[i],
                final(units)@[i],
                dt as int,
            ),
{
    let n = units.len();
    let mut i: usize = 0;
    while i < n
        invariant
            n == units@.len() == old(units)@.len(),
            0 <= i <= n,
            0 <= dt <= DT_LIMIT,
            forall|j: int| i <= j < n ==> #[trigger] units@[j] == old(units)@[j],
            forall|j: int| 0 <= j < n ==> #[trigger] units@[j].wf(),
            forall|j: int|
                0 <= j < i ==> roam_rel(old(units)@[j], #[trigger] units@[j], dt as int),
        decreases n - i,
    {
        let mut unit = units[i];
        proof {
            assert(unit == old(units)@[i as int]);
        }
        unit.roam_step(rng, dt);
        units.set(i, unit);
        proof {
            assert(units@[i as int].wf());
            assert(roam_rel(old(units)@[i as int], units@[i as int], dt as int));
        }
        i = i + 1;
    }
}

} // verus!
