use suri_sprint::anim_sprite::{AnimGridLayout, AnimSpriteComponent, AnimationDef};
use suri_sprint::audio::{limit_volume, AudioLevels};
use suri_sprint::button::{ButtonComponent, ButtonTriggerComponent};
use suri_sprint::collision::{Collision, XY};
use suri_sprint::contacts::{process_contacts, ContactInfo};
use suri_sprint::flags::{EventFlagType, EventsFlag, RenderFlag, RenderFlagType, RenderLayerType};
use suri_sprint::particle_sys::ParticleSysComponent;
use suri_sprint::physics::{CollideType, CollisionCategory, EntityType};
use suri_sprint::pickup::{PickupAction, PickupComponent};
use suri_sprint::portal::{plan_passage, Passage, PortalComponent, PortalEnd, WarpPlan};

fn sprite_with(anims: Vec<AnimationDef>, current: &str) -> AnimSpriteComponent {
    let mut s = AnimSpriteComponent::new(&"sheet.png".to_string());
    s.animations = Some(anims);
    s.curr_animation = current.to_string();
    s
}

fn anim(name: &str, frames: Vec<(i32, u32)>) -> AnimationDef {
    AnimationDef { name: name.to_string(), frames, looped: true, reverse: false, end_anim: None }
}

#[test]
fn anim_frame_counts_use_the_last_definition() {
    let s = sprite_with(vec![anim("walk", vec![(0, 100), (1, 100)]), anim("walk", vec![(5, 100)])], "walk");
    assert_eq!(s.get_num_frames(), 1);
    let t = sprite_with(vec![anim("walk", vec![(0, 100)])], "run");
    assert_eq!(t.get_num_frames(), 0);
}

#[test]
fn anim_set_frame_finds_the_cell() {
    let mut s = sprite_with(vec![anim("on", vec![(4, 120), (7, 80)]), anim("on", vec![(9, 50)])], "on");
    s.set_frame(1);
    assert_eq!(s.frame, 1);
    assert_eq!(s.frame_index, 7);
    assert_eq!(s.curr_frame_length_ms, 80);
    s.set_frame(0);
    assert_eq!(s.frame_index, 9);
    s.set_frame(5);
    assert_eq!(s.frame, 5);
    assert_eq!(s.frame_index, 9);
}

#[test]
fn anim_advances_and_wraps() {
    let mut s = sprite_with(vec![anim("on", vec![(0, 100), (1, 100), (2, 100)])], "on");
    s.set_frame(0);
    s.update_with_roll(100, 0);
    assert_eq!(s.frame, 1);
    assert_eq!(s.frame_timer_ms, 0);
    s.update_with_roll(50, 0);
    assert_eq!(s.frame, 1);
    assert_eq!(s.frame_timer_ms, 50);
    s.pos_dir = false;
    s.update_with_roll(60, 0);
    assert_eq!(s.frame, 0);
}

#[test]
fn anim_starts_its_start_animation() {
    let mut s = sprite_with(vec![anim("idle", vec![(0, 100), (1, 100), (2, 100)])], "");
    s.start_animation = Some(vec!["idle".to_string()]);
    s.update_with_roll(10, 7);
    assert_eq!(s.curr_animation, "idle");
    assert_eq!(s.frame, 1);
    assert_eq!(s.frame_index, 1);
}

#[test]
fn anim_frame_cells_of_a_sheet() {
    let mut s = AnimSpriteComponent::new(&"sheet.png".to_string());
    assert_eq!(s.get_frame_src(), None);
    assert_eq!(s.get_frame_time(), 0);
    s.grid_layout = Some(AnimGridLayout { cols: 4, rows: 3 });
    s.frame_index = 6;
    assert_eq!(s.get_frame_src(), Some((2, 1, 4, 3)));
    s.frame_index = 12;
    assert_eq!(s.get_frame_src(), Some((0, 0, 4, 3)));
    s.frame_index = -3;
    assert_eq!(s.get_frame_src(), Some((0, 0, 4, 3)));
    s.grid_layout = Some(AnimGridLayout { cols: 0, rows: -2 });
    s.frame_index = 0;
    assert_eq!(s.get_frame_src(), Some((0, 0, 1, 1)));
    assert_eq!(s.get_frame_time(), 300);
}

#[test]
fn pickup_explodes_then_is_deleted() {
    let mut p = PickupComponent::new();
    assert_eq!(p.update(&"idle".to_string(), false), PickupAction::NoAction);
    p.pickup();
    assert_eq!(p.update(&"idle".to_string(), false), PickupAction::StartExplode);
    assert!(p.in_pickup_anim);
    assert_eq!(p.update(&"explode".to_string(), false), PickupAction::NoAction);
    assert_eq!(p.update(&"explode".to_string(), true), PickupAction::Delete);
    let mut q = PickupComponent::new();
    q.pickup();
    assert_eq!(q.update(&"explode".to_string(), false), PickupAction::NoAction);
}

#[test]
fn button_triggers_after_its_timer() {
    let mut b = ButtonComponent::new("door".to_string());
    b.update(500, Some(500));
    assert!(b.is_pressed);
    assert!(!b.is_active());
    assert_eq!(b.timer_ms, 500);
    b.update(400, Some(700));
    assert!(b.is_active());
    assert_eq!(b.timer_ms, 200);
    b.update(16, Some(650));
    assert!(b.is_active());
    b.update(100, Some(900));
    assert!(!b.is_active());
    assert_eq!(b.timer_ms, 900);
    b.update(1000, None);
    assert_eq!(b.timer_ms, 0);
}

#[test]
fn one_shot_button_waits_its_cooldown() {
    let mut b = ButtonComponent::new("door".to_string());
    b.repeat_trigger = false;
    b.update(900, Some(0));
    assert!(b.is_active());
    assert_eq!(b.timer_ms, 1000);
    b.update(100, Some(0));
    assert!(!b.is_active());
    b.set_trigger(4);
    assert_eq!(b.button_trigger, 4);
    let mut t = ButtonTriggerComponent::new();
    assert_eq!(t.button, -1);
    t.set_button(3);
    assert_eq!(t.button, 3);
}

#[test]
fn volume_limits() {
    assert_eq!(limit_volume(7), 5);
    assert_eq!(limit_volume(8), 10);
    assert_eq!(limit_volume(-20), 0);
    assert_eq!(limit_volume(300), 200);
    let mut a = AudioLevels::new();
    assert_eq!(a.base_music_volume, 5);
    a.incr_music_volume();
    assert_eq!(a.base_music_volume, 10);
    a.decr_music_volume();
    a.decr_music_volume();
    a.decr_music_volume();
    assert_eq!(a.base_music_volume, 0);
    assert_eq!(a.set_music_volume(0), None);
    assert_eq!(a.set_music_volume(50), Some(5000));
    assert_eq!(a.set_dimmed(true), 2500);
    assert_eq!(a.curr_sfx_volume(), 250);
    assert_eq!(a.set_sfx_volume(50), None);
    assert_eq!(a.set_sfx_volume(40), Some(2000));
}

#[test]
fn dimming_then_undimming_keeps_the_music_level() {
    let mut a = AudioLevels::new();
    a.set_music_volume(63);
    assert_eq!(a.base_music_volume, 65);
    a.set_dimmed(true);
    assert_eq!(a.curr_music_volume(), 65 * 50);
    a.set_dimmed(false);
    assert_eq!(a.base_music_volume, 65);
    assert_eq!(a.curr_music_volume(), 6500);
}

#[test]
fn collision_state_steps() {
    let mut c = Collision::new();
    assert_eq!(c.entity_type, EntityType::NoEntity);
    assert!(!c.can_use_portal());
    c.has_body = true;
    c.in_portal = true;
    c.portal_id = 8;
    c.toggleable = true;
    c.set_obstructing(false);
    assert!(c.flag_obstruction);
    c.body_contacts.push((3, CollideType::Player_Level));
    let r = c.pre_physics_update(400);
    assert_eq!(r, Some((0, 0)));
    assert!(!c.flag_obstruction);
    assert!(c.body_contacts.is_empty());
    assert_eq!(c.last_portal_id, 8);
    assert_eq!(c.portal_id, -1);
    assert!(!c.in_portal);
    assert!(c.can_use_portal());
    c.set_obstructing(true);
    assert_eq!(c.pre_physics_update(0), Some((1, 5)));
    assert_eq!(c.obstruction_filter_bits(false), (0, 0));
}

#[test]
fn contacts_of_a_step() {
    let contacts = vec![
        ContactInfo { other_id: 2, other_category: CollisionCategory::Level, touching: true,
            floor_dot_permille: 900, other_portal_enabled: false, other_is_exit: false },
        ContactInfo { other_id: 5, other_category: CollisionCategory::Portal, touching: true,
            floor_dot_permille: 0, other_portal_enabled: true, other_is_exit: false },
        ContactInfo { other_id: 6, other_category: CollisionCategory::Level, touching: true,
            floor_dot_permille: 0, other_portal_enabled: false, other_is_exit: true },
        ContactInfo { other_id: 7, other_category: CollisionCategory::Portal, touching: false,
            floor_dot_permille: 1000, other_portal_enabled: true, other_is_exit: true },
    ];
    let out = process_contacts(1, CollisionCategory::Player, false, &contacts);
    assert!(out.standing);
    assert_eq!(out.portal, Some(5));
    assert_eq!(out.exit, Some(6));
    assert_eq!(out.body_contacts, vec![(2, CollideType::Player_Level), (5, CollideType::Collider_Portal), (6, CollideType::Player_Level)]);
    assert!(out.deletes.is_empty());
    assert!(out.entering.is_empty());
}

#[test]
fn ghost_meeting_a_meow_is_deleted() {
    let meow = ContactInfo { other_id: 9, other_category: CollisionCategory::Sound, touching: true,
        floor_dot_permille: 0, other_portal_enabled: false, other_is_exit: false };
    let out = process_contacts(4, CollisionCategory::Etherial, false, &vec![meow]);
    assert_eq!(out.deletes, vec![4]);
    let ghost = ContactInfo { other_id: 4, other_category: CollisionCategory::Etherial, touching: true,
        floor_dot_permille: 0, other_portal_enabled: false, other_is_exit: false };
    let out = process_contacts(9, CollisionCategory::Sound, false, &vec![ghost]);
    assert_eq!(out.deletes, vec![4]);
    let out = process_contacts(5, CollisionCategory::Portal, true, &vec![ghost]);
    assert_eq!(out.entering, vec![4]);
    assert!(!out.standing);
}

#[test]
fn flags_layers() {
    let f = RenderFlag::from_layer(RenderLayerType::UILayer);
    assert!(f.in_layer(RenderLayerType::UILayer));
    assert!(!f.in_layer(RenderLayerType::LevelLayer));
    let g = RenderFlag::from_layers(&vec![RenderLayerType::LevelLayer, RenderLayerType::DialogLayer]);
    assert!(g.in_layer(RenderLayerType::DialogLayer));
    assert!(!g.in_layer(RenderLayerType::PausedLayer));
    let e = EventsFlag::from_layers(&vec![EventFlagType::Character]);
    assert!(e.in_layer(EventFlagType::Character));
    assert!(!EventsFlag::from_layer(EventFlagType::Sprite).in_layer(EventFlagType::AnimSprite));
    assert!(!EventsFlag::default().in_layer(EventFlagType::Sprite));
    assert_eq!(RenderFlagType::default(), RenderFlagType::Unimplemented);
}

#[test]
fn particle_logic_values() {
    let mut p = ParticleSysComponent::new();
    assert!(p.get_logic_value());
    p.set_logic_value(false);
    assert!(p.get_logic_value());
    assert!(p.emitting);
    p.toggleable = true;
    p.set_logic_value(false);
    assert!(!p.emitting);
    assert!(!p.get_logic_value());
    p.toggle_emit = false;
    p.set_logic_value(false);
    assert!(!p.visible);
    p.set_logic_value(true);
    assert!(p.get_logic_value());
}

#[test]
fn portal_shows_its_state() {
    let mut s = sprite_with(vec![anim("on", vec![(3, 100)]), anim("off", vec![(8, 100)])], "");
    let mut p = PortalComponent::new("a".to_string(), "b".to_string());
    p.update_anim_sprite(&mut s);
    assert_eq!(s.curr_animation, "on");
    assert_eq!(s.frame_index, 3);
    p.is_enabled = false;
    p.update_anim_sprite(&mut s);
    assert_eq!(s.curr_animation, "off");
    assert_eq!(s.frame_index, 8);
    s.frame_index = 42;
    p.update_anim_sprite(&mut s);
    assert_eq!(s.frame_index, 42);
}

#[test]
fn collision_remembers_fifty_motions() {
    let mut c = Collision::new();
    for i in 0..60 {
        c.post_physics_update(XY { x: i, y: 2 * i }, XY { x: -i, y: 1 });
        c.pre_physics_update(16);
        assert_eq!(c.pos_last, XY { x: i, y: 2 * i });
        assert_eq!(c.vel_last, XY { x: -i, y: 1 });
    }
    assert_eq!(c.pos_history.len(), 50);
    assert_eq!(c.vel_history.len(), 50);
    assert_eq!(c.pos_history[0], XY { x: 10, y: 20 });
    assert_eq!(c.vel_history[49], XY { x: -59, y: 1 });
}

#[test]
fn recent_velocity_means() {
    let mut c = Collision::new();
    assert_eq!(c.get_avg_x(10), 0);
    for v in [10, 20, 31, -5].iter() {
        c.post_physics_update(XY { x: 0, y: 0 }, XY { x: *v, y: -*v });
        c.pre_physics_update(16);
    }
    // (10 + 20 + 31 - 5) / 4 = 14, rounded toward zero
    assert_eq!(c.get_avg_x(10), 14);
    assert_eq!(c.get_avg_y(10), -14);
    // the last two only: (31 - 5) / 2
    assert_eq!(c.get_avg_x(2), 13);
    assert_eq!(c.get_avg_x(0), 0);
}

#[test]
fn passage_through_a_screen_portal_mirrors_the_velocity() {
    let mut c = Collision::new();
    c.post_physics_update(XY { x: 0, y: 0 }, XY { x: 150, y: -40 });
    c.pre_physics_update(16);
    let dest = PortalEnd { id: 7, pos: XY { x: 10_000, y: 20_000 }, screen_facing: true, normal: XY { x: 0, y: 0 } };
    let plan = plan_passage(XY { x: 0, y: 0 }, Some(dest), &c, XY { x: 1200, y: 1200 }, true);
    assert!(plan.valid);
    assert!(!plan.facing_right);
    assert_eq!(plan.moved, Some(Passage { pos: XY { x: 10_000, y: 20_000 }, vel: XY { x: -150, y: 40 }, portal: 7 }));
    let none = plan_passage(XY { x: 0, y: 0 }, None, &c, XY { x: 1200, y: 1200 }, false);
    assert_eq!(none, WarpPlan { valid: true, facing_right: false, moved: None });
}

#[test]
fn side_wall_portal_needs_movement_into_it() {
    let mut c = Collision::new();
    c.post_physics_update(XY { x: 0, y: 0 }, XY { x: 1, y: 0 });
    c.pre_physics_update(16);
    let dest = PortalEnd { id: 3, pos: XY { x: 5_000, y: 5_000 }, screen_facing: false, normal: XY { x: 100, y: 0 } };
    // opening left, body hardly moving: refused
    let plan = plan_passage(XY { x: -100, y: 0 }, Some(dest), &c, XY { x: 1000, y: 1000 }, true);
    assert!(!plan.valid);
    assert_eq!(plan.moved, None);
    // moving right into it: out of the right-facing portal, pushed out by twice the half size
    let mut c = Collision::new();
    c.post_physics_update(XY { x: 0, y: 0 }, XY { x: 300, y: 0 });
    c.pre_physics_update(16);
    let plan = plan_passage(XY { x: -100, y: 0 }, Some(dest), &c, XY { x: 1000, y: 1000 }, false);
    assert!(plan.valid);
    assert!(plan.facing_right);
    assert_eq!(plan.moved, Some(Passage { pos: XY { x: 7_000, y: 5_000 }, vel: XY { x: 300, y: 0 }, portal: 3 }));
}
