//! End-to-end checks of the unit behaviour system, the projectile flight
//! pass and damage resolution, on concrete seeds and values.

use traverse::math::{isqrt, SCALE};
use traverse::player::{
    apply_hitscan, hitscan_damage, player_projectile, player_shoot, progress_projectiles,
    respawn_due, PlayerGun, Projectile, ProjectileEntity,
};
use traverse::rng::GameRng;
use traverse::units::{
    blowup, clear_target, commit_target, damage_player, explosion_debris, face_dest_pos,
    los_origin, move_to_dest, nearest_shootable, play_animations, roam, shoot_stuff,
    target_shootables, AnimAction, Difficulty, Shootable, UnitAssets, UnitData, UnitEntity,
    UnitsStates,
};
use traverse::vec3::Vec3Fix;
use traverse::Health;

fn v(x: i64, y: i64, z: i64) -> Vec3Fix {
    Vec3Fix { x, y, z }
}

fn test_assets() -> UnitAssets {
    UnitAssets { unit1: 1, walk: 2, idle: 3, bob: 4, bonk: 5, fire: 6, walk_lazy: 7 }
}

#[test]
fn isqrt_exact_values() {
    assert_eq!(isqrt(0), 0);
    assert_eq!(isqrt(1), 1);
    assert_eq!(isqrt(3), 1);
    assert_eq!(isqrt(4), 2);
    assert_eq!(isqrt(1_000_000), 1000);
    assert_eq!(isqrt(100_000_000), 10_000);
    assert_eq!(isqrt(99_999_999), 9999);
}

#[test]
fn gen_range_stays_in_band() {
    let mut rng = GameRng::new(7, 11);
    for _ in 0..1000 {
        let x = rng.gen_range(5_500_000, 6_500_000);
        assert!((5_500_000..6_500_000).contains(&x));
    }
}

#[test]
fn same_seed_same_draws() {
    let mut a = GameRng::new(42, 54);
    let mut b = GameRng::new(42, 54);
    for _ in 0..100 {
        assert_eq!(a.gen_range(0, 1_000_000), b.gen_range(0, 1_000_000));
    }
}

#[test]
fn engaged_pick_never_idles_bonks_or_stops() {
    let mut rng = GameRng::new(3, 9);
    for _ in 0..2000 {
        let s = UnitsStates::rng_pick_attacking(&mut rng);
        assert!(matches!(
            s,
            UnitsStates::Walk | UnitsStates::Bob | UnitsStates::Fire | UnitsStates::WalkLazy
        ));
    }
}

#[test]
fn roam_pick_covers_only_the_seven_states() {
    let mut rng = GameRng::new(5, 23);
    for _ in 0..2000 {
        // Any result is one of the seven enum states by type; exercise the
        // weighted sampler for panics and obvious bias.
        let s = UnitsStates::rng_pick(&mut rng);
        let _ = s.does_loop();
    }
}

#[test]
fn fresh_unit_fields() {
    let mut rng = GameRng::new(1, 2);
    let u = UnitData::fresh(v(0, 0, 0), &mut rng);
    assert!(matches!(u.current_state, UnitsStates::Stop));
    assert!((5_500_000..6_500_000).contains(&u.state_timer));
    assert!((800_000..2_500_000).contains(&u.speed));
    assert_eq!(u.max_radius, 2_000_000);
    assert_eq!(u.range, 43_000_000);
    assert_eq!(u.fire_cooldown, SCALE);
    assert_eq!(u.fire_rate, 4_000_000);
    assert!(!u.init);
    assert!(u.target_to_shoot.is_none());
    assert!(u.target_to_apply_damage.is_none());
}

// Scenario: a unit spawned at the origin with a two-unit roam radius
// comes out of its initial Stop walking, toward a point inside the box.
#[test]
fn first_transition_is_walk_into_the_roam_box() {
    for seed in 0..50u64 {
        let mut rng = GameRng::new(seed, seed ^ 0x5ca1ab1e);
        let mut u = UnitData::fresh(v(0, 0, 0), &mut rng);
        // The initial timer is at most 6.5 seconds: one 6.5-second tick
        // forces the first expiry.
        let mut units = vec![u];
        roam(&mut units, &mut rng, 6_500_000);
        u = units[0];
        assert!(matches!(u.current_state, UnitsStates::Walk));
        assert!(u.init);
        assert!(!u.arrived);
        assert!(u.dest.x >= -2_000_000 && u.dest.x < 2_000_000);
        assert_eq!(u.dest.y, 0);
        assert!(u.dest.z >= -2_000_000 && u.dest.z < 2_000_000);
        assert!((1_000_000..2_000_000).contains(&u.state_timer));
    }
}

#[test]
fn timer_drains_without_transition() {
    let mut rng = GameRng::new(8, 8);
    let mut u = UnitData::fresh(v(0, 0, 0), &mut rng);
    let before = u.state_timer;
    let mut units = vec![u];
    roam(&mut units, &mut rng, 1_000_000);
    u = units[0];
    assert_eq!(u.state_timer, before - 1_000_000);
    assert!(matches!(u.current_state, UnitsStates::Stop));
    assert!(!u.init);
}

// While a target is held, transitions only land in the engaged table.
#[test]
fn engaged_transitions_exclude_idle_bonk_stop() {
    let mut rng = GameRng::new(77, 3);
    let mut u = UnitData::fresh(v(0, 0, 0), &mut rng);
    u.init = true;
    u.target_to_shoot = Some(v(10_000_000, 0, 0));
    u.target_to_apply_damage = Some(99);
    for _ in 0..200 {
        let mut units = vec![u];
        roam(&mut units, &mut rng, 10_000_000);
        u = units[0];
        assert!(matches!(
            u.current_state,
            UnitsStates::Walk | UnitsStates::Bob | UnitsStates::Fire | UnitsStates::WalkLazy
        ));
    }
}

#[test]
fn movement_approaches_destination_and_arrives() {
    let mut rng = GameRng::new(4, 4);
    let mut u = UnitData::fresh(v(0, 0, 0), &mut rng);
    u.current_state = UnitsStates::Walk;
    u.dest = v(1_000_000, 0, 0);
    u.arrived = false;
    let mut pos = v(0, 0, 0);
    let step = u.speed / 200;
    let mut moved = 0i64;
    for _ in 0..2000 {
        let before = pos;
        move_to_dest(&mut pos, &mut u);
        if u.arrived {
            break;
        }
        assert!(pos.x > before.x);
        moved += pos.x - before.x;
        assert!(pos.x - before.x <= step);
    }
    assert!(u.arrived);
    // Arrived only within the 0.1-unit epsilon.
    assert!((1_000_000 - pos.x).abs() <= 100_000 + step);
    assert!(moved <= 1_000_000);
}

#[test]
fn locomotion_ignores_non_walking_states() {
    let mut rng = GameRng::new(4, 5);
    let mut u = UnitData::fresh(v(0, 0, 0), &mut rng);
    u.current_state = UnitsStates::Idle;
    u.dest = v(1_000_000, 0, 0);
    let mut pos = v(0, 0, 0);
    move_to_dest(&mut pos, &mut u);
    assert_eq!(pos, v(0, 0, 0));
}

#[test]
fn facing_tracks_target_when_firing() {
    let mut rng = GameRng::new(4, 6);
    let mut u = UnitData::fresh(v(0, 0, 0), &mut rng);
    u.current_state = UnitsStates::Fire;
    u.target_to_shoot = Some(v(5_000_000, 3_000_000, -2_000_000));
    u.target_to_apply_damage = Some(7);
    let mut facing = v(0, 0, -1_000_000);
    face_dest_pos(&mut facing, v(1_000_000, 0, 0), &u);
    // Aim is projected onto spawn height: the y component comes from the
    // spawn, not the target.
    assert_eq!(facing, v(4_000_000, 0, -2_000_000));
}

#[test]
fn nearest_candidate_prefers_closest_then_earliest() {
    let unit_pos = v(0, 0, 0);
    let shootables = vec![
        Shootable { entity: 1, pos: v(20_000_000, 0, 0), logical_player: None },
        Shootable { entity: 2, pos: v(10_000_000, 0, 0), logical_player: None },
        Shootable { entity: 3, pos: v(10_000_000, 0, 0), logical_player: None },
    ];
    assert_eq!(nearest_shootable(unit_pos, &shootables), Some(1));
    assert_eq!(nearest_shootable(unit_pos, &Vec::new()), None);
}

// Scenario: a player at distance 10 with clear line of sight is acquired,
// and the next ready Fire tick spawns exactly one projectile carrying the
// difficulty's payload.
#[test]
fn clear_sight_acquires_and_fires_with_difficulty_payload() {
    let mut rng = GameRng::new(10, 20);
    let unit_pos = v(0, 0, 0);
    let mut u = UnitData::fresh(unit_pos, &mut rng);
    let player = Shootable { entity: 500, pos: v(10_000_000, 0, 0), logical_player: Some(501) };
    let shootables = vec![player];
    let idx = nearest_shootable(unit_pos, &shootables).unwrap();
    assert_eq!(idx, 0);
    // The sight ray from head height hits the player's physics body.
    let origin = los_origin(unit_pos);
    assert_eq!(origin, v(0, 1_650_000, 0));
    commit_target(&mut u, unit_pos, &shootables[idx], Some(501));
    assert_eq!(u.target_to_shoot, Some(v(10_000_000, 0, 0)));
    assert_eq!(u.target_to_apply_damage, Some(500));

    u.current_state = UnitsStates::Fire;
    u.fire_cooldown = 0;
    let facing = v(10_000_000, 0, 0);
    for difficulty in [Difficulty::Easy, Difficulty::Medium, Difficulty::Hard, Difficulty::Ultra] {
        let mut unit = u;
        let shot = shoot_stuff(&mut unit, unit_pos, facing, 100_000, &difficulty);
        let shot = shot.expect("a ready Fire tick with a target must fire");
        assert_eq!(shot.damage, Some(difficulty.bot_dmg()));
        assert_eq!(shot.projectile.speed, 100_000_000);
        assert_eq!(shot.projectile.max_dist, 1_000_000_000);
        assert_eq!(shot.projectile.dist_trav, 0);
        assert_eq!(unit.fire_cooldown, SCALE);
        // The cooldown was just reset: the immediate next tick cannot fire.
        let second = shoot_stuff(&mut unit, unit_pos, facing, 100_000, &difficulty);
        assert!(second.is_none());
    }
    assert_eq!(Difficulty::Easy.bot_dmg(), 6_000);
    assert_eq!(Difficulty::Medium.bot_dmg(), 12_000);
    assert_eq!(Difficulty::Hard.bot_dmg(), 24_000);
    assert_eq!(Difficulty::Ultra.bot_dmg(), 48_000);
}

#[test]
fn targeting_pass_commits_the_nearest_seen_candidate() {
    let mut rng = GameRng::new(11, 23);
    let unit_pos = v(0, 0, 0);
    let mut u = UnitData::fresh(unit_pos, &mut rng);
    let shootables = vec![
        Shootable { entity: 1, pos: v(30_000_000, 0, 0), logical_player: None },
        Shootable { entity: 2, pos: v(12_000_000, 0, 0), logical_player: Some(3) },
    ];
    // Sight ray toward the nearest (entity 2) strikes its physics body.
    target_shootables(&mut u, unit_pos, &shootables, Some(3));
    assert_eq!(u.target_to_shoot, Some(v(12_000_000, 0, 0)));
    assert_eq!(u.target_to_apply_damage, Some(2));
    // A strike on something else clears the target.
    target_shootables(&mut u, unit_pos, &shootables, Some(777));
    assert!(u.target_to_shoot.is_none() && u.target_to_apply_damage.is_none());
    // No candidates at all clears it too.
    u.target_to_shoot = Some(v(1, 1, 1));
    u.target_to_apply_damage = Some(9);
    target_shootables(&mut u, unit_pos, &Vec::new(), None);
    assert!(u.target_to_shoot.is_none() && u.target_to_apply_damage.is_none());
}

#[test]
fn blocked_sight_clears_the_target() {
    let mut rng = GameRng::new(10, 21);
    let unit_pos = v(0, 0, 0);
    let mut u = UnitData::fresh(unit_pos, &mut rng);
    u.target_to_shoot = Some(v(1, 1, 1));
    u.target_to_apply_damage = Some(9);
    let wall_hit = Some(777u64);
    let player = Shootable { entity: 500, pos: v(10_000_000, 0, 0), logical_player: Some(501) };
    commit_target(&mut u, unit_pos, &player, wall_hit);
    assert!(u.target_to_shoot.is_none());
    assert!(u.target_to_apply_damage.is_none());
    clear_target(&mut u);
    assert!(u.target_to_shoot.is_none() && u.target_to_apply_damage.is_none());
}

#[test]
fn out_of_range_candidate_is_not_acquired() {
    let mut rng = GameRng::new(10, 22);
    let unit_pos = v(0, 0, 0);
    let mut u = UnitData::fresh(unit_pos, &mut rng);
    // 44 units away with a 43-unit engagement range.
    let player = Shootable { entity: 500, pos: v(44_000_000, 0, 0), logical_player: Some(501) };
    commit_target(&mut u, unit_pos, &player, Some(500));
    assert!(u.target_to_shoot.is_none());
    assert!(u.target_to_apply_damage.is_none());
}

// Scenario: a projectile with speed 100 and cap 1000 despawns only after
// accumulating 1000 units of travel, never earlier.
#[test]
fn projectile_despawns_at_its_cap_and_not_before() {
    let p = ProjectileEntity {
        pos: v(0, 0, 0),
        dir: v(0, 0, 1_000_000),
        projectile: Projectile { speed: 100_000_000, max_dist: 1_000_000_000, dist_trav: 0 },
        damage: None,
    };
    let mut projs = vec![p];
    // One-second ticks: 100 units of travel each.
    for tick in 1..=10 {
        progress_projectiles(&mut projs, 1_000_000);
        assert_eq!(projs.len(), 1, "alive before reaching the cap (tick {tick})");
        assert_eq!(projs[0].projectile.dist_trav, tick * 100_000_000);
    }
    assert_eq!(projs[0].projectile.dist_trav, 1_000_000_000);
    // The cap is reached: the next pass removes it (one-tick slack, no more).
    progress_projectiles(&mut projs, 1_000_000);
    assert_eq!(projs.len(), 0);
}

#[test]
fn projectile_moves_along_its_facing() {
    let p = ProjectileEntity {
        pos: v(0, 0, 0),
        dir: v(0, 0, 2_000_000),
        projectile: Projectile { speed: 100_000_000, max_dist: 1_000_000_000, dist_trav: 0 },
        damage: None,
    };
    let mut projs = vec![p];
    progress_projectiles(&mut projs, 1_000_000);
    // 100 units of travel, straight along +z.
    assert_eq!(projs[0].pos, v(0, 0, 100_000_000));
}

// Scenario: a unit whose health has run out despawns and bursts into
// exactly sixteen decorative projectiles at its position.
#[test]
fn death_triggers_sixteen_debris_and_despawn() {
    let mut rng = GameRng::new(6, 12);
    let data = UnitData::fresh(v(1_000_000, 0, 2_000_000), &mut rng);
    let dead = UnitEntity {
        entity: 40,
        pos: v(1_000_000, 0, 2_000_000),
        facing: v(0, 0, -1_000_000),
        data,
        health: Health(0),
    };
    let alive = UnitEntity { entity: 41, health: Health(500_000), ..dead };
    let mut units = vec![alive, dead];
    let mut projs: Vec<ProjectileEntity> = Vec::new();
    blowup(&mut units, &mut projs, &mut rng);
    assert_eq!(units.len(), 1);
    assert_eq!(units[0].entity, 41);
    assert_eq!(projs.len(), 16);
    for d in &projs {
        assert_eq!(d.pos, v(1_000_000, 1_000_000, 2_000_000));
        assert!(d.damage.is_none());
        assert_eq!(d.projectile.speed, 35_000_000);
        assert_eq!(d.projectile.max_dist, 20_000_000);
        assert_eq!(d.projectile.dist_trav, 0);
        assert!((-1_000_000..1_000_000).contains(&d.dir.x));
        assert!((400_000..1_000_000).contains(&d.dir.y));
        assert!((-1_000_000..1_000_000).contains(&d.dir.z));
    }
    let debris = explosion_debris(v(0, 0, 0), &mut rng);
    assert_eq!(debris.len(), 16);
}

// A unit shot in range charges the player each tick and is not despawned
// by the hit.
#[test]
fn proximity_damage_repeats_while_in_range() {
    let shot = ProjectileEntity {
        pos: v(500_000, 0, 0),
        dir: v(1_000_000, 0, 0),
        projectile: Projectile { speed: 100_000_000, max_dist: 1_000_000_000, dist_trav: 0 },
        damage: Some(12_000),
    };
    let far = ProjectileEntity { pos: v(5_000_000, 0, 0), ..shot };
    let plain = ProjectileEntity { damage: None, ..shot };
    let projs = vec![shot, far, plain];
    let mut health = Health(1_000_000);
    damage_player(v(0, 0, 0), &mut health, &projs);
    assert_eq!(health.0, 1_000_000 - 12_000);
    // Still present, so a second pass charges again.
    damage_player(v(0, 0, 0), &mut health, &projs);
    assert_eq!(health.0, 1_000_000 - 24_000);
    assert_eq!(projs.len(), 3);
}

// A unit shot crosses the passes end to end: fired at the player, flown
// by the flight pass, and charged on proximity.
#[test]
fn unit_shot_reaches_and_damages_the_player() {
    let mut rng = GameRng::new(21, 34);
    let unit_pos = v(0, 0, 0);
    let player_pos = v(10_000_000, 1_650_000, 0);
    let mut u = UnitData::fresh(unit_pos, &mut rng);
    let player = Shootable { entity: 500, pos: player_pos, logical_player: Some(501) };
    commit_target(&mut u, unit_pos, &player, Some(500));
    u.current_state = UnitsStates::Fire;
    u.fire_cooldown = 0;
    let facing = v(10_000_000, 0, 0);
    let shot = shoot_stuff(&mut u, unit_pos, facing, 16_000, &Difficulty::Ultra).unwrap();
    let mut projs = vec![shot];
    let mut health = Health(1_000_000);
    let mut hits = 0;
    // 10ms ticks at 100 units/s: one unit of travel each; the shot covers
    // the ten units to the player and then charges its payload while it
    // stays within the one-unit radius.
    for _ in 0..40 {
        progress_projectiles(&mut projs, 10_000);
        let before = health.0;
        damage_player(player_pos, &mut health, &projs);
        if health.0 < before {
            assert_eq!(before - health.0, 48_000);
            hits += 1;
        }
    }
    assert!(hits >= 1, "the shot passes within one unit of the player");
    assert_eq!(health.0, 1_000_000 - hits * 48_000);
}

// Scenario: the hit-scan falloff is exact at the threshold and at 135.
#[test]
fn hitscan_exact_at_35_and_135() {
    let base = 300_000;
    assert_eq!(hitscan_damage(base, 35_000_000), base);
    assert_eq!(hitscan_damage(base, 135_000_000), base / 10);
    assert_eq!(hitscan_damage(base, 0), base);
}

#[test]
fn hitscan_monotone_in_distance() {
    let base = 300_000;
    let mut last = hitscan_damage(base, 35_000_000);
    for d in (35_000_000..=150_000_000).step_by(1_000_000) {
        let now = hitscan_damage(base, d);
        assert!(now <= last, "farther hits never deal more");
        last = now;
    }
    // Past the 100-unit clamp the damage stays flat.
    assert_eq!(hitscan_damage(base, 135_000_000), hitscan_damage(base, 500_000_000));
}

#[test]
fn hitscan_applies_to_health() {
    let mut h = Health(1_000_000);
    apply_hitscan(&mut h, 300_000, 35_000_000);
    assert_eq!(h.0, 700_000);
}

#[test]
fn player_fire_gate() {
    let mut gun = PlayerGun::fresh();
    assert_eq!(gun.attack_damage, 300_000);
    // Cooldown 1.0 at rate 10/s: ready within one 100ms tick.
    assert!(player_shoot(&mut gun, 100_000, true, false, true));
    assert_eq!(gun.fire_cooldown, SCALE);
    // Immediately after firing the cooldown gates the next tick.
    assert!(!player_shoot(&mut gun, 10_000, true, false, true));
    let mut gun = PlayerGun::fresh();
    assert!(!player_shoot(&mut gun, 100_000, false, false, true));
    let mut gun = PlayerGun::fresh();
    assert!(!player_shoot(&mut gun, 100_000, true, true, true));
    let mut gun = PlayerGun::fresh();
    assert!(!player_shoot(&mut gun, 100_000, true, false, false));
}

#[test]
fn player_projectile_frame() {
    let origin = v(0, 0, 0);
    let forward = v(0, 0, -1_000_000);
    let right = v(1_000_000, 0, 0);
    let up = v(0, 1_000_000, 0);
    let p = player_projectile(origin, forward, right, up);
    assert_eq!(p.pos, v(200_000, -100_000, 0));
    assert!(p.damage.is_none());
    assert_eq!(p.projectile.speed, 250_000_000);
    assert_eq!(p.projectile.max_dist, 1_000_000_000);
    // Facing: from the offset start toward 1000 units down the view axis.
    assert_eq!(p.dir, v(-200_000, 100_000, -1_000_000_000));
}

#[test]
fn respawn_conditions() {
    assert!(respawn_due(-500_000_001, &Health(1_000_000)));
    assert!(!respawn_due(-500_000_000, &Health(1_000_000)));
    assert!(respawn_due(0, &Health(0)));
    assert!(!respawn_due(0, &Health(1)));
}

#[test]
fn animation_selection_policy() {
    let ass = test_assets();
    let mut rng = GameRng::new(2, 2);
    let mut u = UnitData::fresh(v(0, 0, 0), &mut rng);

    // Stop plays no clip.
    assert!(matches!(play_animations(&mut u, &ass), AnimAction::StopRepeating));

    // Walking plays the walk clip looped at the unit's own speed.
    u.current_state = UnitsStates::Walk;
    u.arrived = false;
    match play_animations(&mut u, &ass) {
        AnimAction::Play { clip, repeat, speed } => {
            assert_eq!(clip, ass.walk);
            assert!(repeat);
            assert_eq!(speed, Some(u.speed));
        }
        other => panic!("expected a walk clip, got {other:?}"),
    }
    assert_eq!(u.current_clip, Some(ass.walk));

    // The same looping clip is not restarted.
    assert!(matches!(play_animations(&mut u, &ass), AnimAction::Continue));

    // A walking unit standing at its destination plays nothing.
    u.arrived = true;
    assert!(matches!(play_animations(&mut u, &ass), AnimAction::StopRepeating));
    u.arrived = false;

    // Bonk does not loop, and always restarts.
    u.current_state = UnitsStates::Bonk;
    match play_animations(&mut u, &ass) {
        AnimAction::Play { clip, repeat, speed } => {
            assert_eq!(clip, ass.bonk);
            assert!(!repeat);
            assert_eq!(speed, None);
        }
        other => panic!("expected the bonk clip, got {other:?}"),
    }
    match play_animations(&mut u, &ass) {
        AnimAction::Play { clip, .. } => assert_eq!(clip, ass.bonk),
        other => panic!("a non-looping clip must restart, got {other:?}"),
    }
}

#[test]
fn state_clip_tables() {
    let ass = test_assets();
    assert_eq!(UnitsStates::Walk.get_anim(&ass), Some(ass.walk));
    assert_eq!(UnitsStates::Idle.get_anim(&ass), Some(ass.idle));
    assert_eq!(UnitsStates::Bob.get_anim(&ass), Some(ass.bob));
    assert_eq!(UnitsStates::Bonk.get_anim(&ass), Some(ass.bonk));
    assert_eq!(UnitsStates::Fire.get_anim(&ass), Some(ass.fire));
    assert_eq!(UnitsStates::WalkLazy.get_anim(&ass), Some(ass.walk_lazy));
    assert_eq!(UnitsStates::Stop.get_anim(&ass), None);
    assert!(UnitsStates::Walk.does_loop());
    assert!(!UnitsStates::Bonk.does_loop());
    assert!(!UnitsStates::Stop.does_loop());
    assert!(UnitsStates::Walk.use_unit_speed());
    assert!(UnitsStates::Bob.use_unit_speed());
    assert!(UnitsStates::WalkLazy.use_unit_speed());
    assert!(!UnitsStates::Fire.use_unit_speed());
}
