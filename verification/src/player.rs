//! Projectiles and the player's side of combat: the shared projectile
//! flight pass, the player's fire gate, the hit-scan damage falloff and
//! the proximity damage that unit shots charge the player with.

use vstd::prelude::*;

use crate::math::{clamp_spec, sqrt_floor, SCALE};
use crate::vec3::{moved_along, Vec3Fix};
use crate::Health;

verus! {

/// Largest projectile speed accepted, in subunits per second.
pub const PROJ_SPEED_LIMIT: i64 = 1_000_000_000;

/// Largest projectile travel cap accepted.
pub const PROJ_DIST_LIMIT: i64 = 2_000_000_000;

/// Largest single-tick travel: `PROJ_SPEED_LIMIT` for `DT_LIMIT` seconds.
pub const PROJ_STEP_LIMIT: i64 = 10_000_000_000;

/// Largest coordinate a projectile can start from.
pub const PROJ_POS_LIMIT: i64 = 200_000_000_000;

/// A travelling shot: player-fired, unit-fired or explosion debris.
#[derive(Clone, Copy, PartialEq, Eq, Structural, Debug)]
pub struct Projectile {
    /// Flight speed, in subunits per second.
    pub speed: i64,
    /// Total travel allowed before despawning.
    pub max_dist: i64,
    /// Travel accumulated so far.
    pub dist_trav: i64,
}

/// A live projectile with its spatial state and optional damage payload
/// (present only on unit shots aimed at the player).
#[derive(Clone, Copy, PartialEq, Eq, Structural, Debug)]
pub struct ProjectileEntity {
    pub pos: Vec3Fix,
    /// Facing: the direction of flight, not necessarily normalised.
    pub dir: Vec3Fix,
    pub projectile: Projectile,
    /// Damage charged to the player on proximity, if any.
    pub damage: Option<i64>,
}

impl ProjectileEntity {
    /// Well-formedness: speed and caps within machine bounds, and the
    /// position within the start bound plus the distance travelled.
    pub open spec fn wf(self) -> bool {
        &&& 0 <= self.projectile.speed <= PROJ_SPEED_LIMIT
        &&& 0 <= self.projectile.max_dist <= PROJ_DIST_LIMIT
        &&& 0 <= self.projectile.dist_trav <= PROJ_DIST_LIMIT + PROJ_STEP_LIMIT
        &&& -PROJ_POS_LIMIT - self.projectile.dist_trav <= self.pos.x <= PROJ_POS_LIMIT
            + self.projectile.dist_trav
        &&& -PROJ_POS_LIMIT - self.projectile.dist_trav <= self.pos.y <= PROJ_POS_LIMIT
            + self.projectile.dist_trav
        &&& -PROJ_POS_LIMIT - self.projectile.dist_trav <= self.pos.z <= PROJ_POS_LIMIT
            + self.projectile.dist_trav
        &&& self.dir.in_range()
        &&& (self.damage.is_some() ==> 0 <= self.damage->0 <= SCALE)
    }
}

/// Travel a projectile accumulates over a step of `dt`.
pub open spec fn travel_of(p: ProjectileEntity, dt: int) -> int {
    p.projectile.speed * dt / (SCALE as int)
}

/// A projectile already at or past its cap: despawned by the flight pass
/// before it would move.
pub open spec fn spent(p: ProjectileEntity) -> bool {
    p.projectile.dist_trav >= p.projectile.max_dist
}

/// A projectile after one step: moved `travel_of` subunits along its
/// facing, the same amount added to its accumulated travel.
pub open spec fn advanced(p: ProjectileEntity, dt: int) -> ProjectileEntity {
    let t = travel_of(p, dt);
    let m = moved_along(p.pos, p.dir, t);
    ProjectileEntity {
        pos: Vec3Fix { x: m.0 as i64, y: m.1 as i64, z: m.2 as i64 },
        dir: p.dir,
        projectile: Projectile {
            speed: p.projectile.speed,
            max_dist: p.projectile.max_dist,
            dist_trav: (p.projectile.dist_trav + t) as i64,
        },
        damage: p.damage,
    }
}

/// What one flight pass leaves of a projectile list: the spent ones are
/// dropped, the rest advanced, order kept.
pub open spec fn stepped(s: Seq<ProjectileEntity>, dt: int) -> Seq<ProjectileEntity>
    decreases s.len(),
{
    if s.len() == 0 {
        Seq::empty()
    } else {
        let rest = stepped(s.drop_last(), dt);
        let p = s.last();
        if spent(p) {
            rest
        } else {
            rest.push(advanced(p, dt))
        }
    }
}

/// One projectile's step, where it survives. The move truncates toward
/// zero componentwise, so each coordinate changes by at most the travel.
fn advance_projectile(p: ProjectileEntity, dt: i64) -> (r: ProjectileEntity)
    requires
        p.wf(),
        !spent(p),
        0 <= dt <= crate::units::DT_LIMIT,
    ensures
        r == advanced(p, dt as int),
        r.wf(),
{
    proof {
        assert(0 <= p.projectile.speed * dt <= 10_000_000_000_000_000int) by (nonlinear_arith)
            requires
                0 <= p.projectile.speed <= PROJ_SPEED_LIMIT,
                0 <= dt <= crate::units::DT_LIMIT,
        ;
        assert(0 <= travel_of(p, dt as int) <= PROJ_STEP_LIMIT) by (nonlinear_arith)
            requires
                0 <= p.projectile.speed * dt <= 10_000_000_000_000_000int,
                travel_of(p, dt as int) == p.projectile.speed * dt / 1_000_000,
        ;
    }
    let travel = (p.projectile.speed * dt) / SCALE;
    let pos = crate::vec3::advance_along(p.pos, p.dir, travel);
    ProjectileEntity {
        pos,
        dir: p.dir,
        projectile: Projectile {
            speed: p.projectile.speed,
            max_dist: p.projectile.max_dist,
            dist_trav: p.projectile.dist_trav + travel,
        },
        damage: p.damage,
    }
}

/// The per-tick flight pass: despawn what has run out its cap, advance
/// the rest. The despawn check runs before the move, so a projectile can
/// overshoot its cap by one step and is removed the tick after.
pub fn progress_projectiles(projectiles: &mut Vec<ProjectileEntity>, dt: i64)
    requires
        forall|i: int|
            0 <= i < old(projectiles)@.len() ==> #[trigger] old(projectiles)@[i].wf(),
        0 <= dt <= crate::units::DT_LIMIT,
    ensures
        final(projectiles)@ == stepped(old(projectiles)@, dt as int),
        forall|i: int|
            0 <= i < final(projectiles)@.len() ==> #[trigger] final(projectiles)@[i].wf(),
{
    let n = projectiles.len();
    let mut out: Vec<ProjectileEntity> = Vec::new();
    let mut i: usize = 0;
    proof {
        assert(old(projectiles)@.take(0) =~= Seq::<ProjectileEntity>::empty());
    }
    while i < n
        invariant
            n == projectiles@.len(),
            projectiles@ == old(projectiles)@,
            0 <= i <= n,
            0 <= dt <= crate::units::DT_LIMIT,
            forall|j: int| 0 <= j < n ==> #[trigger] projectiles@[j].wf(),
            out@ == stepped(projectiles@.take(i as int), dt as int),
            forall|j: int| 0 <= j < out@.len() ==> #[trigger] out@[j].wf(),
        decreases n - i,
    {
        let p = projectiles[i];
        proof {
            assert(projectiles@.take(i + 1).drop_last() =~= projectiles@.take(i as int));
            assert(projectiles@.take(i + 1).last() == projectiles@[i as int]);
        }
        if p.projectile.dist_trav >= p.projectile.max_dist {
            // spent: despawned this tick
        } else {
            let q = advance_projectile(p, dt);
            out.push(q);
        }
        i = i + 1;
    }
    proof {
        assert(projectiles@.take(n as int) =~= projectiles@);
    }
    *projectiles = out;
}

/// The player's gun: damage, cooldown and pacing.
#[derive(Clone, Copy, PartialEq, Eq, Structural, Debug)]
pub struct PlayerGun {
    /// Hit-scan damage before distance falloff.
    pub attack_damage: i64,
    /// Cooldown; firing waits until it reaches zero.
    pub fire_cooldown: i64,
    /// Rate at which the cooldown drains, per second.
    pub fire_rate: i64,
}

impl PlayerGun {
    pub open spec fn wf(self) -> bool {
        &&& 0 <= self.attack_damage <= 1_000_000_000
        &&& -SCALE <= self.fire_cooldown <= SCALE
        &&& 0 <= self.fire_rate <= 100_000_000
    }

    /// The player's gun as spawned: 0.3 damage, pacing ten per second.
    pub fn fresh() -> (r: PlayerGun)
        ensures
            r == (PlayerGun { attack_damage: 300_000, fire_cooldown: SCALE, fire_rate: 10_000_000 }),
            r.wf(),
    {
        PlayerGun { attack_damage: 300_000, fire_cooldown: SCALE, fire_rate: 10_000_000 }
    }
}

/// The gun's cooldown after one tick's drain, held at one second's worth
/// below zero (everything at or below zero means ready).
pub open spec fn gun_cooldown_after(g: PlayerGun, dt: int) -> int {
    let drained = g.fire_cooldown - g.fire_rate * dt / (SCALE as int);
    if drained < -SCALE {
        -SCALE as int
    } else {
        drained
    }
}

/// Whether the player's shot goes off this tick: trigger held, no UI
/// focus stealing the pointer, cooldown ready, and the level shows the gun.
pub open spec fn player_fires(
    g: PlayerGun,
    dt: int,
    pressed: bool,
    ui_wants_pointer: bool,
    show_gun: bool,
) -> bool {
    pressed && !ui_wants_pointer && gun_cooldown_after(g, dt) <= 0 && show_gun
}

/// The player's fire gate: drain the cooldown, and fire exactly when the
/// trigger is held, the UI does not want the pointer, the cooldown has
/// run out and the level shows the gun; firing resets the cooldown to one
/// second. The returned flag also drives the muzzle-flash visibility.
pub fn player_shoot(
    gun: &mut PlayerGun,
    dt: i64,
    pressed: bool,
    ui_wants_pointer: bool,
    show_gun: bool,
) -> (fires: bool)
    requires
        old(gun).wf(),
        0 <= dt <= crate::units::DT_LIMIT,
    ensures
        final(gun).wf(),
        final(gun).attack_damage == old(gun).attack_damage,
        final(gun).fire_rate == old(gun).fire_rate,
        fires == player_fires(*old(gun), dt as int, pressed, ui_wants_pointer, show_gun),
        fires ==> final(gun).fire_cooldown == SCALE,
        !fires ==> final(gun).fire_cooldown == gun_cooldown_after(*old(gun), dt as int),
{
    proof {
        let rate = gun.fire_rate;
        assert(0 <= rate * dt <= 1_000_000_000_000_000int) by (nonlinear_arith)
            requires
                0 <= rate <= 100_000_000,
                0 <= dt <= crate::units::DT_LIMIT,
        ;
        assert(0 <= rate * dt / 1_000_000 <= 1_000_000_000_000_000int) by (nonlinear_arith)
            requires
                0 <= rate * dt <= 1_000_000_000_000_000int,
        ;
    }
    let drain = (gun.fire_rate * dt) / SCALE;
    let drained = gun.fire_cooldown - drain;
    gun.fire_cooldown = if drained < -SCALE {
        -SCALE
    } else {
        drained
    };
    if !pressed || ui_wants_pointer || gun.fire_cooldown > 0 || !show_gun {
        return false;
    }
    gun.fire_cooldown = SCALE;
    true
}

/// Largest camera coordinate the player's fire functions accept.
pub const CAMERA_LIMIT: i64 = 100_000_000_000;

/// Where the player's visual projectile starts: the camera origin pushed
/// a fifth of a unit along the camera's right and a tenth against its up.
pub open spec fn player_shot_pos(origin: Vec3Fix, right: Vec3Fix, up: Vec3Fix) -> (int, int, int) {
    let m1 = moved_along(origin, right, 200_000);
    let v1 = Vec3Fix { x: m1.0 as i64, y: m1.1 as i64, z: m1.2 as i64 };
    let down = Vec3Fix { x: (-up.x) as i64, y: (-up.y) as i64, z: (-up.z) as i64 };
    moved_along(v1, down, 100_000)
}

/// The visual projectile's facing: from its start toward the point a
/// thousand units down the camera's forward ray.
pub open spec fn player_shot_dir(
    origin: Vec3Fix,
    forward: Vec3Fix,
    right: Vec3Fix,
    up: Vec3Fix,
) -> (int, int, int) {
    let look = moved_along(origin, forward, 1_000_000_000);
    let p = player_shot_pos(origin, right, up);
    (look.0 - p.0, look.1 - p.1, look.2 - p.2)
}

/// The visual projectile of a player shot, from the camera frame: purely
/// decorative, no damage payload (the hit itself is the separate
/// hit-scan ray).
pub fn player_projectile(origin: Vec3Fix, forward: Vec3Fix, right: Vec3Fix, up: Vec3Fix) -> (r:
    ProjectileEntity)
    requires
        -CAMERA_LIMIT <= origin.x <= CAMERA_LIMIT,
        -CAMERA_LIMIT <= origin.y <= CAMERA_LIMIT,
        -CAMERA_LIMIT <= origin.z <= CAMERA_LIMIT,
        forward.in_range(),
        right.in_range(),
        up.in_range(),
    ensures
        (r.pos.x as int, r.pos.y as int, r.pos.z as int) == player_shot_pos(origin, right, up),
        (r.dir.x as int, r.dir.y as int, r.dir.z as int) == player_shot_dir(
            origin,
            forward,
            right,
            up,
        ),
        r.projectile == (Projectile { speed: 250_000_000, max_dist: 1_000_000_000, dist_trav: 0 }),
        r.damage.is_none(),
        r.wf(),
{
    let p1 = crate::vec3::advance_along(origin, right, 200_000);
    let down = Vec3Fix { x: -up.x, y: -up.y, z: -up.z };
    let pos = crate::vec3::advance_along(p1, down, 100_000);
    let look = crate::vec3::advance_along(origin, forward, 1_000_000_000);
    let dir = Vec3Fix { x: look.x - pos.x, y: look.y - pos.y, z: look.z - pos.z };
    ProjectileEntity {
        pos,
        dir,
        projectile: Projectile { speed: 250_000_000, max_dist: 1_000_000_000, dist_trav: 0 },
        damage: None,
    }
}

/// Hit-scan damage after distance falloff: undiminished up to 35 world
/// units, then divided by the square root of the distance past that
/// threshold, the divisor clamped to the band of 1 to 100 units.
pub open spec fn hitscan_damage_spec(base: int, toi: int) -> int {
    let c = clamp_spec(toi - 35_000_000, 1_000_000, 100_000_000);
    base * 1000 / (sqrt_floor(c as nat) as int)
}

/// Compute the hit-scan damage for a hit at ray distance `toi`.
pub fn hitscan_damage(base: i64, toi: i64) -> (r: i64)
    requires
        0 <= base <= 1_000_000_000,
        0 <= toi,
    ensures
        r == hitscan_damage_spec(base as int, toi as int),
        0 <= r <= base,
{
    let c = crate::math::clamp_i64(toi - 35_000_000, 1_000_000, 100_000_000);
    let root = crate::math::isqrt(c as u128);
    proof {
        lemma_sqrt_band(c as nat);
    }
    let dmg = (base * 1000) / (root as i64);
    proof {
        let f = sqrt_floor(c as nat) as int;
        vstd::arithmetic::div_mod::lemma_div_is_ordered_by_denominator(base * 1000, 1000, f);
        assert(base * 1000 / 1000 == base) by (nonlinear_arith);
        vstd::arithmetic::div_mod::lemma_div_pos_is_pos(base * 1000, f);
    }
    dmg
}

/// The square-root floor of a clamped falloff divisor lies between 1000
/// and 10000.
proof fn lemma_sqrt_band(c: nat)
    requires
        1_000_000 <= c <= 100_000_000,
    ensures
        1000 <= sqrt_floor(c) <= 10_000,
{
    assert(1000nat * 1000nat <= 1_000_000nat < 1001nat * 1001nat) by (nonlinear_arith);
    assert(10_000nat * 10_000nat <= 100_000_000nat < 10_001nat * 10_001nat) by (nonlinear_arith);
    crate::math::lemma_sqrt_floor_unique(1_000_000nat, 1000nat);
    crate::math::lemma_sqrt_floor_unique(100_000_000nat, 10_000nat);
    crate::math::lemma_sqrt_floor_mono(1_000_000nat, c);
    crate::math::lemma_sqrt_floor_mono(c, 100_000_000nat);
}

/// Damage falloff is monotone: a farther hit never deals more damage.
pub proof fn lemma_hitscan_monotone(base: int, d1: int, d2: int)
    requires
        0 <= base,
        0 <= d1 <= d2,
    ensures
        hitscan_damage_spec(base, d1) >= hitscan_damage_spec(base, d2),
{
    let c1 = clamp_spec(d1 - 35_000_000, 1_000_000, 100_000_000);
    let c2 = clamp_spec(d2 - 35_000_000, 1_000_000, 100_000_000);
    lemma_sqrt_band(c1 as nat);
    lemma_sqrt_band(c2 as nat);
    crate::math::lemma_sqrt_floor_mono(c1 as nat, c2 as nat);
    assert(0 <= base * 1000) by (nonlinear_arith)
        requires
            0 <= base,
    ;
    vstd::arithmetic::div_mod::lemma_div_is_ordered_by_denominator(
        base * 1000,
        sqrt_floor(c1 as nat) as int,
        sqrt_floor(c2 as nat) as int,
    );
}

/// Up to the 35-unit threshold the hit-scan damage is the undiminished
/// base value.
pub proof fn lemma_hitscan_close_full(base: int, d: int)
    requires
        0 <= base,
        0 <= d <= 35_000_000,
    ensures
        hitscan_damage_spec(base, d) == base,
{
    let c = clamp_spec(d - 35_000_000, 1_000_000, 100_000_000);
    assert(c == 1_000_000);
    assert(1000nat * 1000nat <= 1_000_000nat < 1001nat * 1001nat) by (nonlinear_arith);
    crate::math::lemma_sqrt_floor_unique(1_000_000nat, 1000nat);
    assert(base * 1000 / 1000 == base) by (nonlinear_arith);
}

/// Apply a hit-scan hit to a health pool, saturating at the health bound
/// so the stored value stays within machine limits.
pub fn apply_hitscan(health: &mut Health, attack_damage: i64, toi: i64)
    requires
        -crate::units::HEALTH_LIMIT <= old(health).0 <= crate::units::HEALTH_LIMIT,
        0 <= attack_damage <= 1_000_000_000,
        0 <= toi,
    ensures
        final(health).0 == if old(health).0 - hitscan_damage_spec(attack_damage as int, toi as int)
            < -crate::units::HEALTH_LIMIT {
            -crate::units::HEALTH_LIMIT as int
        } else {
            old(health).0 - hitscan_damage_spec(attack_damage as int, toi as int)
        },
        -crate::units::HEALTH_LIMIT <= final(health).0 <= crate::units::HEALTH_LIMIT,
{
    let dmg = hitscan_damage(attack_damage, toi);
    let next = health.0 - dmg;
    health.0 = if next < -crate::units::HEALTH_LIMIT {
        -crate::units::HEALTH_LIMIT
    } else {
        next
    };
}

/// Whether the player must respawn: fallen out of the world or out of
/// health.
pub fn respawn_due(pos_y: i64, health: &Health) -> (r: bool)
    ensures
        r == (pos_y < -500_000_000 || health.0 <= 0),
{
    pos_y < -500_000_000 || health.0 <= 0
}

/// Every projectile that survives a flight pass stems from one that had
/// travel left: once `dist_trav` reaches `max_dist`, the projectile is
/// gone within that pass.
pub proof fn lemma_projectile_bound(s: Seq<ProjectileEntity>, dt: int, j: int)
    requires
        0 <= j < stepped(s, dt).len(),
    ensures
        exists|i: int|
            0 <= i < s.len() && !spent(s[i]) && stepped(s, dt)[j] == advanced(s[i], dt),
    decreases s.len(),
{
    if s.len() > 0 {
        let rest = stepped(s.drop_last(), dt);
        if spent(s.last()) {
            lemma_projectile_bound(s.drop_last(), dt, j);
            let i = choose|i: int|
                0 <= i < s.drop_last().len() && !spent(s.drop_last()[i]) && rest[j] == advanced(
                    s.drop_last()[i],
                    dt,
                );
            assert(s[i] == s.drop_last()[i]);
        } else {
            if j < rest.len() {
                lemma_projectile_bound(s.drop_last(), dt, j);
                let i = choose|i: int|
                    0 <= i < s.drop_last().len() && !spent(s.drop_last()[i]) && rest[j] == advanced(
                        s.drop_last()[i],
                        dt,
                    );
                assert(s[i] == s.drop_last()[i]);
            } else {
                assert(stepped(s, dt)[j] == advanced(s.last(), dt));
                assert(s[s.len() - 1] == s.last());
            }
        }
    }
}

/// A projectile with travel left is never removed by a flight pass: its
/// advanced self is in the pass's output.
pub proof fn lemma_projectile_survives(s: Seq<ProjectileEntity>, dt: int, i: int)
    requires
        0 <= i < s.len(),
        !spent(s[i]),
    ensures
        stepped(s, dt).contains(advanced(s[i], dt)),
    decreases s.len(),
{
    let rest = stepped(s.drop_last(), dt);
    if i == s.len() - 1 {
        assert(s[i] == s.last());
        assert(stepped(s, dt).last() == advanced(s[i], dt));
    } else {
        lemma_projectile_survives(s.drop_last(), dt, i);
        let k = choose|k: int| 0 <= k < rest.len() && rest[k] == advanced(s.drop_last()[i], dt);
        assert(s.drop_last()[i] == s[i]);
        if spent(s.last()) {
            assert(stepped(s, dt)[k] == advanced(s[i], dt));
        } else {
            assert(stepped(s, dt)[k] == advanced(s[i], dt));
        }
    }
}

} // verus!
