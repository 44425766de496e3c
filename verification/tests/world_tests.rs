use suri_sprint::game_state::{game_key_down, State};
use suri_sprint::input::InputKey;
use suri_sprint::portal::ExitComponent;
use suri_sprint::sprite::{BallDisplayComponent, ShaderConfig};
use suri_sprint::world::{get_level_source, get_player, LevelSource};

#[test]
fn controlled_player_is_found_first() {
    let chars = vec![(true, false), (false, true), (true, true), (true, true)];
    assert_eq!(get_player(&chars), Some(2));
}

#[test]
fn first_controllable_when_none_controlled() {
    let chars = vec![(false, false), (true, false), (true, false)];
    assert_eq!(get_player(&chars), Some(1));
}

#[test]
fn no_player_without_controllable_characters() {
    assert_eq!(get_player(&vec![(false, true), (false, false)]), None);
    assert_eq!(get_player(&vec![]), None);
}

#[test]
fn level_source_of_an_entity() {
    assert_eq!(get_level_source(Some(LevelSource { item_index: 7 })), 7);
    assert_eq!(get_level_source(None), -1);
}

#[test]
fn exit_key_quits_and_pause_key_toggles() {
    let mut state = State::Running;
    assert!(game_key_down(&mut state, true, &InputKey::Exit));
    assert_eq!(state, State::Running);

    assert!(!game_key_down(&mut state, true, &InputKey::Pause));
    assert_eq!(state, State::Paused);
    assert!(!game_key_down(&mut state, true, &InputKey::Pause));
    assert_eq!(state, State::Running);

    // A dialog on screen keeps the game from pausing.
    assert!(!game_key_down(&mut state, false, &InputKey::Pause));
    assert_eq!(state, State::Running);

    assert!(!game_key_down(&mut state, true, &InputKey::P1Up));
    assert_eq!(state, State::Running);
}

#[test]
fn exit_keeps_its_name_and_destination() {
    let exit = ExitComponent::new("door".to_string(), "forest:gate".to_string());
    assert_eq!(exit.name, "door");
    assert_eq!(exit.destination, "forest:gate");
}

#[test]
fn shader_and_ball_defaults() {
    let shader = ShaderConfig::default();
    assert!(shader.vert_path.is_empty());
    assert!(shader.frag_path.is_empty());
    assert!(shader.blend_modes.is_empty());

    let ball = BallDisplayComponent::new(&"ball.png".to_string(), true);
    assert_eq!(ball.path, "ball.png");
    assert!(ball.flash);
}
