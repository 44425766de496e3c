use suri_sprint::events::{
    key_repeat_action, key_up_action, random_test_object, test_dialog, test_object, zoomed_scale, KeyAction,
    TestObject,
};
use suri_sprint::game_state::RunningState;
use suri_sprint::keys::VKeyCode;
use suri_sprint::level::{LevelType, PlayerCharacter};
use suri_sprint::level_builder::{get_level_type, LevelBuildState, PlayerBuild, PlayerStart};
use suri_sprint::sprite::SpriteLayer;
use suri_sprint::ui::UIBuilder;

#[test]
fn ui_sprite_paths() {
    assert_eq!(UIBuilder::get_sprite_paths(), vec!["/icon.png".to_string()]);
}

#[test]
fn sprite_layers_in_depth_order() {
    let layers = [
        SpriteLayer::BG,
        SpriteLayer::BGNear,
        SpriteLayer::World,
        SpriteLayer::Entities,
        SpriteLayer::PlayerBehind,
        SpriteLayer::Player,
        SpriteLayer::PlayerFront,
        SpriteLayer::UI,
    ];
    let depths: Vec<i32> = layers.iter().map(|l| l.to_z()).collect();
    assert_eq!(depths, vec![0, 50, 100, 300, 490, 500, 510, 1000]);
}

#[test]
fn level_type_defaults_to_platformer() {
    assert_eq!(get_level_type(None), LevelType::Platformer);
    assert_eq!(get_level_type(Some(LevelType::Overhead)), LevelType::Overhead);
}

#[test]
fn first_player_takes_control() {
    let mut b = LevelBuildState::new();
    let entry = String::new();
    let p1 = b.plan_player(&PlayerStart::Player { player: None }, &entry);
    assert_eq!(p1, Some(PlayerBuild { character: PlayerCharacter::Suri, npc: false, controlled: true }));
    let p2 = b.plan_player(&PlayerStart::Player { player: Some(PlayerCharacter::Milo) }, &entry);
    assert_eq!(p2, Some(PlayerBuild { character: PlayerCharacter::Milo, npc: false, controlled: false }));
    let npc = b.plan_player(&PlayerStart::PlayerNpc { player: None }, &entry);
    assert_eq!(npc, Some(PlayerBuild { character: PlayerCharacter::Suri, npc: true, controlled: false }));
    let named = b.plan_player(&PlayerStart::PlayerNamed { player: None, name: "gate".to_string() }, &entry);
    assert_eq!(named, None);
    assert_eq!(b.next_index(), 0);
    assert_eq!(b.next_index(), 1);
    b.start_build();
    assert!(!b.built_player);
    assert_eq!(b.build_index, 0);
}

#[test]
fn named_entry_builds_only_its_start() {
    let mut b = LevelBuildState::new();
    let entry = "gate".to_string();
    assert_eq!(b.plan_player(&PlayerStart::Player { player: None }, &entry), None);
    assert_eq!(b.plan_player(&PlayerStart::PlayerNpc { player: None }, &entry), None);
    let named = b.plan_player(&PlayerStart::PlayerNamed { player: None, name: "gate".to_string() }, &entry);
    assert_eq!(named, Some(PlayerBuild { character: PlayerCharacter::Suri, npc: false, controlled: true }));
    assert!(b.built_player);
}

#[test]
fn debug_keys() {
    assert_eq!(key_up_action(VKeyCode::M), Some(KeyAction::OpenMenu));
    assert_eq!(key_up_action(VKeyCode::E), Some(KeyAction::NextPlayer));
    assert_eq!(key_up_action(VKeyCode::Q), None);
    assert_eq!(key_repeat_action(VKeyCode::Equals), Some(KeyAction::ZoomIn));
    assert_eq!(key_repeat_action(VKeyCode::M), None);
}

#[test]
fn zoom_steps() {
    assert_eq!(zoomed_scale(10000, KeyAction::ZoomIn, false), 10500);
    assert_eq!(zoomed_scale(47500, KeyAction::ZoomIn, true), 47500);
    assert_eq!(zoomed_scale(2500, KeyAction::ZoomOut, true), 2500);
    assert_eq!(zoomed_scale(2500, KeyAction::ZoomOut, false), 2000);
    assert_eq!(zoomed_scale(125, KeyAction::ZoomOut, false), 125);
    assert_eq!(zoomed_scale(130, KeyAction::ZoomOut, false), -370);
    assert_eq!(zoomed_scale(130, KeyAction::OpenMenu, false), 130);
}

#[test]
fn test_objects_by_number() {
    assert_eq!(test_object(10), TestObject::Platform);
    assert_eq!(test_object(8), TestObject::Box);
    assert_eq!(test_object(7), TestObject::GhostCollider);
    assert_eq!(test_object(0), TestObject::Platform);
    let (n, t) = random_test_object();
    assert_eq!(t, test_object(n));
}

#[test]
fn the_test_dialog() {
    match test_dialog() {
        RunningState::Dialog { msg, choices, custom_bg, .. } => {
            assert_eq!(msg, "K dialog");
            assert_eq!(custom_bg, Some("/images/dirty-box-1.png".to_string()));
            let choices = choices.unwrap();
            assert_eq!(choices.len(), 3);
            assert_eq!(choices[2].message, "Choice C");
        }
        _ => panic!("expected a dialog"),
    }
}
