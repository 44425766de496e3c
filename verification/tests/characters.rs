use suri_sprint::character::{
    AnimSnapshotInfo, CharacterDisplayComponent, CharacterMotion, IdleRolls, FRAME_HISTORY_LEN, IDLE_SET,
    JUMP_SET, SIT_SET, WALK_SET,
};
use suri_sprint::level::PlayerCharacter;
use suri_sprint::npc::{axis_offset, AxisOffset, NpcComponent};
use suri_sprint::character::push_snapshot;

fn rolls() -> IdleRolls {
    IdleRolls { sit_choice: 0, pause: 0, blink: 0, wrap: 0, rise: 0 }
}

#[test]
fn new_character_falls() {
    let c = CharacterDisplayComponent::new(&"cat.png".to_string(), PlayerCharacter::Milo);
    assert_eq!(c.spritesheet_cols, 8);
    assert_eq!(c.spritesheet_rows, 10);
    assert!(c.motion.in_fall);
    assert_eq!(c.motion.anim_set, JUMP_SET);
    assert_eq!(c.motion.anim_frame, 3);
    assert_eq!(c.motion.jump_lift_time_ms, 125);
    let s = CharacterDisplayComponent::new(&"cat.png".to_string(), PlayerCharacter::Suri);
    assert_eq!(s.spritesheet_cols, 10);
}

#[test]
fn landing_starts_a_walk_and_leaving_ground_a_fall() {
    let mut c = CharacterDisplayComponent::new(&"cat.png".to_string(), PlayerCharacter::Suri);
    c.set_standing(true);
    assert!(c.motion.in_walk && !c.motion.in_fall && !c.motion.in_jump);
    assert_eq!(c.motion.anim_set, WALK_SET);
    assert_eq!(c.motion.anim_frame, 0);
    c.set_standing(false);
    assert!(c.motion.in_fall);
    assert_eq!(c.motion.anim_frame, 6);
    assert_eq!(c.motion.fall_anim_dir, -1);
}

#[test]
fn walking_jump_lifts_longer_each_time() {
    let mut m = CharacterMotion::new();
    m.start_walk();
    m.jump_lift_time_ms = 200;
    m.going_up = true;
    m.process_walk();
    assert!(m.in_jump);
    assert_eq!(m.jump_lift_time_ms, 266);
    m.start_walk();
    m.jump_lift_time_ms = 290;
    m.going_up = true;
    m.process_walk();
    assert_eq!(m.jump_lift_time_ms, 300);
}

#[test]
fn walk_without_jump_drops_the_wish() {
    let mut m = CharacterMotion::new();
    m.start_walk();
    m.process_walk();
    assert!(!m.going_up);
    assert_eq!(m.jump_lift_time_ms, 0);
}

#[test]
fn jump_lifts_then_stops_rising() {
    let mut m = CharacterMotion::new();
    m.start_jump();
    assert_eq!(m.jump_lift_time_ms, 125);
    m.going_up = true;
    m.process_jump(100);
    assert_eq!(m.jump_duration_ms, 100);
    m.process_jump(100);
    assert_eq!(m.jump_duration_ms, 200);
    m.process_jump(100);
    assert!(!m.going_up);
}

#[test]
fn jump_animation_ends_in_a_fall() {
    let mut m = CharacterMotion::new();
    m.start_jump();
    let r = rolls();
    for _ in 0..7 {
        m.update_with_rolls(201, 0, 0, r);
    }
    assert!(m.in_fall);
    assert_eq!(m.anim_frame, 6);
    assert_eq!(m.fall_anim_dir, 1);
}

#[test]
fn walk_frames_wrap_both_ways() {
    let mut m = CharacterMotion::new();
    m.start_walk();
    m.going_right = true;
    // fast enough to move on one frame per update
    for _ in 0..6 {
        m.update_with_rolls(100, 500, 0, rolls());
    }
    assert_eq!(m.anim_set, WALK_SET);
    assert_eq!(m.anim_frame, 0);
    m.going_right = false;
    m.going_left = true;
    m.update_with_rolls(100, 500, 0, rolls());
    assert_eq!(m.anim_frame, 5);
    assert!(!m.facing_right);
}

#[test]
fn idle_after_a_second_still() {
    let mut m = CharacterMotion::new();
    m.start_walk();
    m.update_with_rolls(500, 0, 0, rolls());
    assert_eq!(m.anim_set, WALK_SET);
    m.update_with_rolls(600, 0, 0, rolls());
    assert_eq!(m.anim_set, IDLE_SET);
    assert!(m.in_idle);
    let mut n = CharacterMotion::new();
    n.start_walk();
    let sit = IdleRolls { sit_choice: 900, pause: 0, blink: 0, wrap: 0, rise: 0 };
    n.update_with_rolls(1100, 0, 0, sit);
    assert_eq!(n.anim_set, SIT_SET);
}

#[test]
fn history_keeps_fifty_snapshots() {
    let mut h: Vec<AnimSnapshotInfo> = vec![];
    for i in 0..60u32 {
        push_snapshot(&mut h, AnimSnapshotInfo { frame_num: i, anim_set: 0, facing_right: true });
    }
    assert_eq!(h.len(), FRAME_HISTORY_LEN);
    assert_eq!(h[0].frame_num, 10);
    assert_eq!(h[49].frame_num, 59);
}

#[test]
fn update_records_the_frame() {
    let mut c = CharacterDisplayComponent::new(&"cat.png".to_string(), PlayerCharacter::Suri);
    c.update(16, 0, 0);
    assert_eq!(c.frame_history.len(), 1);
    assert_eq!(c.frame_history[0].anim_set, c.motion.anim_set);
    c.update_overhead(16, 0, 0);
    assert_eq!(c.frame_history.len(), 2);
    assert!(c.motion.in_walk || c.motion.in_idle);
}

#[test]
fn speed_levels_scale_moves() {
    let mut c = CharacterDisplayComponent::new(&"cat.png".to_string(), PlayerCharacter::Suri);
    assert_eq!(c.get_base_x_move_amount(), 900);
    c.speed_level = 3;
    assert_eq!(c.get_base_x_move_amount(), 1200);
    assert_eq!(c.get_base_y_move_amount(), 1800);
    c.speed_level = 2;
    assert_eq!(c.scale_by_speed_level(-1000), -1100);
    c.player_char = PlayerCharacter::Milo;
    c.speed_level = 1;
    assert_eq!(c.get_base_x_move_amount(), 1600);
}

#[test]
fn npc_tracks_its_target() {
    assert_eq!(axis_offset(0, 500), AxisOffset::Under);
    assert_eq!(axis_offset(700, 500), AxisOffset::Over);
    assert_eq!(axis_offset(600, 500), AxisOffset::Within);
    let mut n = NpcComponent::new();
    n.dec_timer_us = 600_000;
    n.step_with_rolls(0, 0, 0, 0, 100, 0, false);
    assert!(n.going_right && !n.going_left);
    assert!(!n.going_up && !n.going_down);
    assert_eq!(n.dec_timer_us, 0);
    let mut n = NpcComponent::new();
    n.dec_timer_us = 600_000;
    n.step_with_rolls(0, 900, 900, 0, 100, 0, true);
    assert!(n.going_left && !n.going_right);
    assert!(n.going_up && !n.going_down);
}

#[test]
fn npc_waits_for_its_timer() {
    let mut n = NpcComponent::new();
    n.step_with_rolls(100, 0, 0, 500, 100, 0, false);
    assert_eq!(n.dec_timer_us, 100_000);
    assert!(!n.going_right);
    assert_eq!(n.since_stand_ms, 100);
    n.is_enabled = false;
    n.step_with_rolls(100, 0, 0, 999, 100, 0, false);
    assert_eq!(n.dec_timer_us, 100_000);
    assert_eq!(n.since_stand_ms, 200);
}

#[test]
fn npc_wanders_without_target() {
    let mut n = NpcComponent::new();
    n.tracking_target = false;
    n.in_fall = false;
    n.wander_step(350, 100, false);
    assert!(n.going_up && n.going_left);
    n.wander_step(800, 0, false);
    assert!(!n.going_up && !n.going_left && !n.going_right);
    n.wander_step(450, 400, true);
    assert!(n.going_down && n.going_right && !n.going_left);
}

#[test]
fn npc_standing_and_updates() {
    let mut n = NpcComponent::new();
    n.set_standing(true);
    assert!(!n.in_fall && !n.in_jump);
    n.set_standing(false);
    assert!(n.in_fall);
    n.start_jump();
    assert!(n.in_jump);
    n.update(16, 0, 0);
    n.update_overhead(16, 0, 0);
    assert!(n.since_stand_ms >= 50_000);
}

#[test]
fn npc_timer_runs_on_short_frames() {
    let mut n = NpcComponent::new();
    n.step_with_rolls(16, 0, 0, 10, 100, 0, false);
    assert_eq!(n.dec_timer_us, 320);
}

#[test]
fn update_runs_meow_and_warp_timers() {
    let mut c = CharacterDisplayComponent::new(&"suri.png".to_string(), PlayerCharacter::Suri);
    let warp = c.motion.since_warp_ms;
    let meow = c.motion.since_meow_ms;
    c.update(40, 0, 0);
    assert_eq!(c.motion.since_warp_ms, warp + 40);
    assert_eq!(c.motion.since_meow_ms, meow + 40);
}
