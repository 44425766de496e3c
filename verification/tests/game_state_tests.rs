use suri_sprint::game_state::{
    frame_action, game_key_up, get_update_mode, level_entry, next_player_num, next_time_scale, pause, play,
    exit_destination, split_exit_destination, FrameAction, GameMode, GameStateUpdateMode, RunningState, State, WarpState,
};
use suri_sprint::input::InputKey;
use suri_sprint::menu::{DialogChoice, DialogType};

#[test]
fn update_mode_priority() {
    assert_eq!(get_update_mode(true, true, State::Paused), GameStateUpdateMode::TerminalUpdate);
    assert_eq!(get_update_mode(false, true, State::Running), GameStateUpdateMode::MenuUpdate);
    assert_eq!(get_update_mode(false, false, State::Running), GameStateUpdateMode::PlayUpdate);
    assert_eq!(get_update_mode(false, false, State::Paused), GameStateUpdateMode::PausedUpdate);
}

#[test]
fn pause_and_play() {
    let mut s = State::Running;
    assert!(pause(&mut s));
    assert_eq!(s, State::Paused);
    assert!(!pause(&mut s));
    assert_eq!(s, State::Paused);
    assert!(play(&mut s));
    assert_eq!(s, State::Running);
    assert!(!play(&mut s));
}

#[test]
fn edit_mode_key_toggles_mode() {
    let mut m = GameMode::Play;
    game_key_up(&mut m, &InputKey::EditMode);
    assert_eq!(m, GameMode::Edit);
    game_key_up(&mut m, &InputKey::Pause);
    assert_eq!(m, GameMode::Edit);
    game_key_up(&mut m, &InputKey::EditMode);
    assert_eq!(m, GameMode::Play);
}

#[test]
fn player_numbers_cycle() {
    assert_eq!(next_player_num(1, 3), 2);
    assert_eq!(next_player_num(2, 3), 3);
    assert_eq!(next_player_num(3, 3), 1);
    assert_eq!(next_player_num(1, 1), 1);
    assert_eq!(next_player_num(-4, 3), 0);
}

#[test]
fn frame_actions_by_priority() {
    let keys = vec![InputKey::Fullscreen, InputKey::Exit, InputKey::Pause];
    assert_eq!(frame_action(&keys, 0, true), FrameAction::StartPause);
    assert_eq!(frame_action(&keys, 0, false), FrameAction::OpenMenu);
    assert_eq!(frame_action(&keys, 1, true), FrameAction::NoAction);
    assert_eq!(frame_action(&vec![InputKey::Fullscreen, InputKey::SlowMode], 0, true), FrameAction::SlowMode);
    assert_eq!(frame_action(&vec![InputKey::CheatGoAnywhere], 0, true), FrameAction::GoAnywhere);
    assert_eq!(frame_action(&vec![InputKey::Fullscreen], 0, true), FrameAction::ToggleFullscreen);
    assert_eq!(frame_action(&vec![], 0, true), FrameAction::NoAction);
}

#[test]
fn exit_destinations_split_at_colon() {
    assert_eq!(split_exit_destination(&"forest:gate".to_string()), ("forest".to_string(), "gate".to_string()));
    assert_eq!(split_exit_destination(&"forest".to_string()), ("forest".to_string(), String::new()));
    assert_eq!(split_exit_destination(&"a:b:c".to_string()), ("a".to_string(), "b:c".to_string()));
    assert_eq!(split_exit_destination(&":x".to_string()), (String::new(), "x".to_string()));
    assert_eq!(split_exit_destination(&String::new()), (String::new(), String::new()));
}

#[test]
fn dialogs_and_backgrounds() {
    let d = RunningState::level_dialog("hi".to_string());
    assert!(!d.is_playing());
    assert_eq!(d.get_bg_image(), "/images/purple-dialog-bg.png");
    let g = RunningState::game_dialog("q".to_string(), None);
    assert_eq!(g.get_bg_image(), "/images/cloud-dialog-bordered.png");
    let choices = vec![DialogChoice { message: "yes".to_string(), key: "y".to_string() }];
    let w = RunningState::world_dialog("w".to_string(), Some(choices), "/bg.png".to_string());
    assert_eq!(w.get_bg_image(), "/bg.png");
    match w {
        RunningState::Dialog { dialog_type, selected_choice, .. } => {
            assert_eq!(dialog_type, DialogType::WorldChoices);
            assert_eq!(selected_choice, -1);
        }
        _ => panic!("expected a dialog"),
    }
    assert!(RunningState::Playing.is_playing());
    assert_eq!(RunningState::Playing.get_bg_image(), "");
}

#[test]
fn slow_motion_cycles() {
    assert_eq!(next_time_scale(1000), 500);
    assert_eq!(next_time_scale(500), 250);
    assert_eq!(next_time_scale(250), 1000);
    assert_eq!(next_time_scale(next_time_scale(next_time_scale(1000))), 1000);
}

#[test]
fn warp_runs_its_course() {
    let mut w = WarpState::new();
    w.start_warp("forest".to_string(), String::new());
    assert!(w.level_warping);
    assert_eq!(w.level_warp_timer_us, 0);
    let (dt, load) = w.process_time_delta(1_000_000, true, 1000);
    assert_eq!(dt, 35_000);
    assert!(load.is_none());
    let (_, load) = w.process_time_delta(600_000, true, 1000);
    assert_eq!(load, Some(("forest".to_string(), String::new())));
    assert!(!w.level_warping);
    assert_eq!(w.level_warp_timer_us, 0);
}

#[test]
fn warp_to_entry_starts_half_way() {
    let mut w = WarpState::new();
    w.start_warp("forest".to_string(), "gate".to_string());
    assert_eq!(w.level_warp_timer_us, 750_000);
    let (_, load) = w.process_time_delta(800_000, true, 1000);
    assert_eq!(load, Some(("forest".to_string(), "gate".to_string())));
}

#[test]
fn frame_time_scales() {
    let mut w = WarpState::new();
    assert_eq!(w.process_time_delta(16_000, true, 500).0, 8_000);
    assert_eq!(w.process_time_delta(16_000, false, 500).0, 8_000);
    assert_eq!(w.process_time_delta(16_001, false, 1000).0, 8_000);
    assert_eq!(w.process_time_delta(16_000, true, 1000).0, 16_000);
}

#[test]
fn entering_levels() {
    let e = level_entry(&"loading".to_string(), &String::new(), &"Loading".to_string());
    assert!(e.running_state.is_playing());
    assert!(e.open_menu);
    let e = level_entry(&"forest".to_string(), &String::new(), &"The Forest".to_string());
    assert!(e.dim_music);
    match e.running_state {
        RunningState::Dialog { msg, dialog_type, .. } => {
            assert_eq!(msg, "Suri enters The Forest.\r\n\r\n\r\n\r\nPress Meow to Continue...");
            assert_eq!(dialog_type, DialogType::LevelEntry);
        }
        _ => panic!("expected the welcome dialog"),
    }
    let e = level_entry(&"forest".to_string(), &"gate".to_string(), &"The Forest".to_string());
    assert!(e.running_state.is_playing());
    assert_eq!(e.log_entry, Some("Entered The Forest".to_string()));
}

#[test]
fn fast_forward_scales_up() {
    let mut w = WarpState::new();
    assert_eq!(w.process_time_delta(16_000, true, 2000).0, 32_000);
    assert_eq!(w.process_time_delta(u64::MAX, true, 3000).0, u64::MAX);
}

#[test]
fn exits_taken_only_when_settled_and_controlled() {
    let d = "forest:gate".to_string();
    assert_eq!(exit_destination(600, true, true, false, &d), Some(("forest".to_string(), "gate".to_string())));
    assert_eq!(exit_destination(400, true, true, false, &d), None);
    assert_eq!(exit_destination(600, false, true, false, &d), None);
    assert_eq!(exit_destination(600, true, true, true, &d), None);
    assert_eq!(exit_destination(600, true, true, false, &String::new()), None);
}
