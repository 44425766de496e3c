use suri_sprint::logic::{ConnectionType, LogicComponent, LogicConnection, LogicOpType};
use suri_sprint::level::ItemLogic;
use suri_sprint::physics::{
    handle_contact, CollideType, CollisionBit, CollisionCategory, ContactFilterConfig, EntityType,
};

#[test]
fn logic_new_takes_defaults() {
    let c = LogicComponent::new("door".to_string(), true, None);
    assert_eq!(c.id, "door");
    assert!(c.value);
    assert!(c.initial_value);
    assert_eq!(c.logic_op, LogicOpType::And);
    assert_eq!(c.logic_type, ConnectionType::Switch);
    assert_eq!(c.input_value, None);
    assert_eq!(c.change_count, 0);
}

#[test]
fn logic_new_logic_reads_item_logic() {
    let item = ItemLogic {
        name: "lamp".to_string(),
        start_enabled: false,
        logic_op: Some(LogicOpType::Or),
        logic_type: Some(ConnectionType::NotSwitch),
    };
    let c = LogicComponent::new_logic("lamp".to_string(), false, Some(item));
    assert_eq!(c.logic_op, LogicOpType::Or);
    assert_eq!(c.logic_type, ConnectionType::NotSwitch);
    assert!(!c.value);
}

#[test]
fn logic_input_and_active_flip_the_value() {
    let mut c = LogicComponent::new("x".to_string(), false, Some(LogicOpType::Odd));
    assert!(c.set_input_value(true));
    c.set_active(true);
    assert!(!c.value);
    c.set_active(false);
    assert!(c.value);
    assert!(!c.set_input_value(false));
    c.clear_input();
    c.calc_value();
    assert!(!c.value);
}

#[test]
fn logic_toggle_roundtrip_scenario() {
    let mut c = LogicComponent::new("x".to_string(), true, None);
    let before = c.value;
    c.set_active(!c.is_active);
    assert_ne!(c.value, before);
    c.set_active(!c.is_active);
    assert_eq!(c.value, before);
}

#[test]
fn logic_update_counts_changes() {
    let mut c = LogicComponent::new("x".to_string(), false, None);
    c.update();
    assert_eq!(c.change_count, 0);
    c.set_input_value(true);
    c.update();
    assert_eq!(c.change_count, 1);
    assert!(c.last_value);
    c.update();
    assert_eq!(c.change_count, 0);
}

#[test]
fn logic_connection_new_keeps_fields() {
    let conn = LogicConnection::new("a".to_string(), "b".to_string(), ConnectionType::SwitchOnce);
    assert_eq!(conn.from, "a");
    assert_eq!(conn.to, "b");
    assert_eq!(conn.conn_type, ConnectionType::SwitchOnce);
}

#[test]
fn contact_types_follow_the_table() {
    assert_eq!(handle_contact(&CollisionCategory::Player, &CollisionCategory::Portal), Some(CollideType::Collider_Portal));
    assert_eq!(handle_contact(&CollisionCategory::Level, &CollisionCategory::Player), Some(CollideType::Player_Level));
    assert_eq!(handle_contact(&CollisionCategory::Sound, &CollisionCategory::Etherial), Some(CollideType::Ghost_Meow));
    assert_eq!(handle_contact(&CollisionCategory::Etherial, &CollisionCategory::Sound), Some(CollideType::Ghost_Meow));
    assert_eq!(handle_contact(&CollisionCategory::Level, &CollisionCategory::Level), None);
    assert_eq!(handle_contact(&CollisionCategory::Unused, &CollisionCategory::Portal), None);
}

#[test]
fn contact_type_is_symmetric_on_all_pairs() {
    let all = [
        CollisionCategory::Level,
        CollisionCategory::Player,
        CollisionCategory::Etherial,
        CollisionCategory::Sound,
        CollisionCategory::Portal,
        CollisionCategory::Unused,
        CollisionCategory::Unused1,
        CollisionCategory::Unused2,
    ];
    for a in all.iter() {
        for b in all.iter() {
            assert_eq!(handle_contact(a, b), handle_contact(b, a));
        }
    }
}

#[test]
fn category_bits_are_single_bits() {
    assert_eq!(CollisionCategory::Level.to_bits(), 1);
    assert_eq!(CollisionCategory::Portal.to_bits(), 16);
    assert_eq!(CollisionCategory::Unused2.to_bits(), 128);
    let mask = vec![CollisionCategory::Level, CollisionCategory::Etherial, CollisionCategory::Level];
    assert_eq!(mask.to_bits(), 5);
    let empty: Vec<CollisionCategory> = vec![];
    assert_eq!(empty.to_bits(), 0);
}

#[test]
fn contact_filter_rules() {
    let strict = ContactFilterConfig::new(false);
    let loose = ContactFilterConfig::new(true);
    assert!(!strict.should_collide(EntityType::GhostEntity, EntityType::Player, 1, 1, 1));
    assert!(loose.should_collide(EntityType::GhostEntity, EntityType::Player, 1, 1, 1));
    assert!(!loose.should_collide(EntityType::Button, EntityType::GhostEntity, 1, 1, 1));
    assert!(strict.should_collide(EntityType::Platform, EntityType::Button, 1, 2, 3));
    assert!(!strict.should_collide(EntityType::Platform, EntityType::Button, 1, 2, 4));
}

#[test]
fn logic_update_at_the_count_limit_resets_when_steady() {
    let mut c = LogicComponent::new("x".to_string(), false, None);
    c.change_count = i32::MAX;
    c.update();
    assert_eq!(c.change_count, 0);
    assert_eq!(c.last_value, c.value);
}
