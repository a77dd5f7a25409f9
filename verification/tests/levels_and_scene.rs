//! Checks of the level tables, the HUD decision logic and the scene-graph
//! scan for spawn markers and animation players.

use traverse::levels::GameLevel;
use traverse::character_controller::JUMP_SPEED;
use traverse::scene::{
    all_children, is_descendant, name_marks_spawn, setup_anim_player_refs, spawn_enemies,
    ChildAnimEntity, SceneNode,
};
use traverse::rng::GameRng;
use traverse::ui::{
    drones_dead_msg_due, strip_non_numeric, teleport, teleporter_ready, PlayerCode, SettingClock,
    TextFeed,
};
use traverse::units::{UnitEntity, UnitsStates};
use traverse::vec3::Vec3Fix;
use traverse::Health;

fn v(x: i64, y: i64, z: i64) -> Vec3Fix {
    Vec3Fix { x, y, z }
}

const ALL_LEVELS: [GameLevel; 12] = [
    GameLevel::Kitchen,
    GameLevel::Houses,
    GameLevel::Urban,
    GameLevel::Shower,
    GameLevel::Copier,
    GameLevel::Bathroom,
    GameLevel::BFStart,
    GameLevel::BF1,
    GameLevel::BFA1,
    GameLevel::BFA2,
    GameLevel::BFA3,
    GameLevel::ControlRoom,
];

#[test]
fn teleporter_ring_visits_every_level_once() {
    let mut level = GameLevel::Kitchen;
    let mut seen = vec![level];
    for _ in 0..11 {
        level = level.teleporter_dest();
        assert!(!seen.contains(&level));
        seen.push(level);
    }
    assert_eq!(level.teleporter_dest(), GameLevel::Kitchen);
    assert_eq!(seen.len(), 12);
}

#[test]
fn teleporter_codes_round_trip() {
    let codes = [
        ("0625", GameLevel::Kitchen),
        ("1332", GameLevel::BFStart),
        ("0719", GameLevel::Shower),
        ("1512", GameLevel::BFA1),
        ("1514", GameLevel::Copier),
        ("0655", GameLevel::BFA2),
        ("1207", GameLevel::Bathroom),
        ("0201", GameLevel::BFA3),
        ("2142", GameLevel::Houses),
        ("0722", GameLevel::BF1),
        ("2306", GameLevel::Urban),
        ("0121", GameLevel::ControlRoom),
    ];
    for (code, level) in codes {
        assert_eq!(GameLevel::teleporter_code(code), Some(level));
    }
    assert_eq!(GameLevel::teleporter_code(""), None);
    assert_eq!(GameLevel::teleporter_code("625"), None);
    assert_eq!(GameLevel::teleporter_code("06250"), None);
    assert_eq!(GameLevel::teleporter_code("9999"), None);
}

#[test]
fn spawn_positions() {
    assert_eq!(GameLevel::Kitchen.spawn_pos(), v(0, 100_000, 0));
    assert_eq!(GameLevel::BFA1.spawn_pos(), v(-271_000_000, 200_000, 44_000_000));
    assert_eq!(GameLevel::BFA2.spawn_pos(), v(-1_350_000, 200_000, 23_000_000));
    assert_eq!(GameLevel::BFA3.spawn_pos(), v(372_000_000, 200_000, -9_500_000));
}

#[test]
fn capability_flags_match_per_level() {
    for level in ALL_LEVELS {
        // The gun shows exactly in the levels that allow jumping.
        assert_eq!(level.show_gun(), level.player_can_jump());
    }
    assert!(GameLevel::BFStart.show_gun());
    assert!(!GameLevel::Kitchen.show_gun());
    assert!(!GameLevel::BFStart.show_drones_dead_msg());
    assert!(GameLevel::BFA1.show_drones_dead_msg());
}

#[test]
fn teleporter_proximity() {
    // Standing on the BFStart teleporter.
    let at = v(-106_310_000, -35_400_000, -44_725_000);
    assert!(GameLevel::BFStart.teleporter_pos_close_enough(at));
    // Fifteen units is the bound: 14 units out is in, 16 is out.
    let near = v(-106_310_000 + 14_000_000, -35_400_000, -44_725_000);
    let far = v(-106_310_000 + 16_000_000, -35_400_000, -44_725_000);
    assert!(GameLevel::BFStart.teleporter_pos_close_enough(near));
    assert!(!GameLevel::BFStart.teleporter_pos_close_enough(far));
    // Levels without a teleporter accept nowhere.
    assert!(!GameLevel::Kitchen.teleporter_pos_close_enough(at));
}

#[test]
fn clock_proximity() {
    let at = v(-139_801, 0, 2_027_680);
    assert!(GameLevel::Kitchen.clock_position_close_enough(at));
    assert!(!GameLevel::BFStart.clock_position_close_enough(at));
    let far = v(-139_801 + 2_000_000, 0, 2_027_680);
    assert!(!GameLevel::Kitchen.clock_position_close_enough(far));
}

#[test]
fn strip_non_numeric_keeps_digits() {
    assert_eq!(strip_non_numeric("a1b2c3"), "123");
    assert_eq!(strip_non_numeric("0625"), "0625");
    assert_eq!(strip_non_numeric("no digits"), "");
    assert_eq!(strip_non_numeric(""), "");
    // Unicode digits count as numeric too.
    assert_eq!(strip_non_numeric("x٣y"), "٣");
}

#[test]
fn text_feed_appends_under_prompt() {
    let mut feed = TextFeed(String::new());
    feed.push("hello");
    assert_eq!(feed.0, "\n\n> hello");
    feed.push("again");
    assert_eq!(feed.0, "\n\n> hello\n\n> again");
}

#[test]
fn hud_defaults() {
    assert_eq!(PlayerCode::default().0, "");
    assert!(!SettingClock::default().0);
    assert_eq!(TextFeed::default().0, "");
}

#[test]
fn drones_dead_message_gate() {
    assert!(drones_dead_msg_due(true, 0, &GameLevel::BFA1));
    assert!(!drones_dead_msg_due(true, 1, &GameLevel::BFA1));
    assert!(!drones_dead_msg_due(false, 0, &GameLevel::BFA1));
    assert!(!drones_dead_msg_due(true, 0, &GameLevel::Kitchen));
}

#[test]
fn teleporter_fires_only_with_drones_down() {
    let at = v(-106_310_000, -35_400_000, -44_725_000);
    assert_eq!(teleporter_ready(0, &GameLevel::BFStart, at), Some(GameLevel::Shower));
    assert_eq!(teleporter_ready(1, &GameLevel::BFStart, at), None);
    assert_eq!(teleporter_ready(0, &GameLevel::BFStart, v(0, 0, 0)), None);
}

#[test]
fn teleport_resets_player_and_units() {
    let mut rng = GameRng::new(9, 9);
    let data = traverse::units::UnitData::fresh(v(0, 0, 0), &mut rng);
    let mut units = vec![UnitEntity {
        entity: 1,
        pos: v(0, 0, 0),
        facing: v(0, 0, -1_000_000),
        data,
        health: Health(1_000_000),
    }];
    let mut health = Health(50_000);
    let mut pos = v(7_000_000, 0, 0);
    let jump = teleport(&mut health, &GameLevel::BFA1, &mut pos, &mut units);
    assert_eq!(health.0, 1_000_000);
    assert_eq!(pos, GameLevel::BFA1.spawn_pos());
    assert!(units.is_empty());
    assert_eq!(jump, JUMP_SPEED);
    let jump2 = teleport(&mut health, &GameLevel::Kitchen, &mut pos, &mut units);
    assert_eq!(jump2, 0);
}

fn node(name: &str, translation: Vec3Fix, parent: Option<usize>, anim: bool) -> SceneNode {
    SceneNode { name: name.to_string(), translation, parent, has_animation_player: anim }
}

#[test]
fn spawn_marker_matching_is_case_insensitive() {
    assert!(name_marks_spawn("EnemySpawn.001"));
    assert!(name_marks_spawn("enemyspawn"));
    assert!(name_marks_spawn("ENEMYSPAWN_7"));
    assert!(name_marks_spawn("room EnemySpawn here"));
    assert!(!name_marks_spawn("enemy spawn"));
    assert!(!name_marks_spawn("chair"));
    assert!(!name_marks_spawn(""));
}

#[test]
fn descendants_follow_parent_links() {
    let nodes = vec![
        node("root", v(0, 0, 0), None, false),
        node("a", v(0, 0, 0), Some(0), false),
        node("b", v(0, 0, 0), Some(1), false),
        node("other", v(0, 0, 0), None, false),
        node("c", v(0, 0, 0), Some(3), false),
    ];
    assert!(is_descendant(&nodes, 1, 0));
    assert!(is_descendant(&nodes, 2, 0));
    assert!(!is_descendant(&nodes, 4, 0));
    assert!(!is_descendant(&nodes, 0, 0));
    assert_eq!(all_children(&nodes, 0), vec![1, 2]);
    assert_eq!(all_children(&nodes, 3), vec![4]);
}

#[test]
fn enemy_spawns_spring_from_marked_nodes() {
    let nodes = vec![
        node("root", v(0, 0, 0), None, false),
        node("EnemySpawn.001", v(4_000_000, 0, 0), Some(0), false),
        node("chair", v(9_000_000, 0, 0), Some(0), false),
        node("enemyspawn2", v(0, 0, 6_000_000), Some(2), false),
        node("EnemySpawnElsewhere", v(1, 1, 1), None, false),
    ];
    let mut rng = GameRng::new(15, 16);
    let units = spawn_enemies(&nodes, 0, 100, &mut rng);
    assert_eq!(units.len(), 2);
    // Spawn points are lifted a twentieth of a unit.
    assert_eq!(units[0].pos, v(4_000_000, 50_000, 0));
    assert_eq!(units[1].pos, v(0, 50_000, 6_000_000));
    assert_eq!(units[0].entity, 100);
    assert_eq!(units[1].entity, 101);
    for u in &units {
        assert!(matches!(u.data.current_state, UnitsStates::Stop));
        assert_eq!(u.health.0, 1_000_000);
        assert_eq!(u.data.max_radius, 2_000_000);
        assert_eq!(u.data.range, 43_000_000);
        assert_eq!(u.data.spawn, u.pos);
    }
}

#[test]
fn anim_player_search_finds_the_first_descendant() {
    let nodes = vec![
        node("unit", v(0, 0, 0), None, false),
        node("mesh", v(0, 0, 0), Some(0), false),
        node("armature", v(0, 0, 0), Some(1), true),
        node("stray", v(0, 0, 0), None, true),
    ];
    assert_eq!(setup_anim_player_refs(&nodes, 0), Some(ChildAnimEntity(2)));
    let bare = vec![node("unit", v(0, 0, 0), None, false)];
    assert_eq!(setup_anim_player_refs(&bare, 0), None);
}
