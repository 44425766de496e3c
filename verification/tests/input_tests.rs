use suri_sprint::input::{ControlState, InputKey, InputMap, InputSetting, MouseInput, CMD_TEXT_LIMIT};
use suri_sprint::keys::{VButton, VKeyCode};

#[test]
fn default_key_bindings() {
    let map = InputMap::new();
    assert_eq!(map.map_keycode(&VKeyCode::W), Some(InputKey::P1Up));
    assert_eq!(map.map_keycode(&VKeyCode::A), Some(InputKey::P1Left));
    assert_eq!(map.map_keycode(&VKeyCode::D), Some(InputKey::P1Right));
    assert_eq!(map.map_keycode(&VKeyCode::S), Some(InputKey::P1Down));
    assert_eq!(map.map_keycode(&VKeyCode::Space), Some(InputKey::P1PrimaryAction));
    assert_eq!(map.map_keycode(&VKeyCode::Escape), Some(InputKey::Exit));
    assert_eq!(map.map_keycode(&VKeyCode::P), Some(InputKey::Pause));
    assert_eq!(map.map_keycode(&VKeyCode::Return), Some(InputKey::Pause));
    assert_eq!(map.map_keycode(&VKeyCode::G), Some(InputKey::CheatGoAnywhere));
    assert_eq!(map.map_keycode(&VKeyCode::Z), None);
    assert_eq!(map.input_settings.len(), 33);
}

#[test]
fn default_gamepad_bindings() {
    let map = InputMap::new();
    assert_eq!(map.map_gamepadcode(&VButton::South), Some(InputKey::P1Up));
    assert_eq!(map.map_gamepadcode(&VButton::Start), Some(InputKey::Pause));
    assert_eq!(map.map_gamepadcode(&VButton::West), Some(InputKey::P1PrimaryAction));
    assert_eq!(map.map_gamepadcode(&VButton::East), None);
}

#[test]
fn mouse_buttons_by_index() {
    let map = InputMap::new();
    assert_eq!(map.map_mouse_input(&0), Some(MouseInput::Left));
    assert_eq!(map.map_mouse_input(&1), Some(MouseInput::Middle));
    assert_eq!(map.map_mouse_input(&2), Some(MouseInput::Right));
    assert_eq!(map.map_mouse_input(&3), None);
}

#[test]
fn first_binding_wins() {
    let mut map = InputMap::new();
    map.input_settings.insert(0, InputSetting::code(VKeyCode::W, InputKey::Exit));
    assert_eq!(map.map_keycode(&VKeyCode::W), Some(InputKey::Exit));
}

#[test]
fn press_then_release_restores_flags() {
    let map = InputMap::new();
    let mut input = ControlState::new();
    assert_eq!(map.key_down(&mut input, VKeyCode::A), Some(InputKey::P1Left));
    assert!(input.flags.left);
    assert_eq!(input.keys_pressed, vec![InputKey::P1Left]);
    assert_eq!(map.key_up(&mut input, VKeyCode::A), Some(InputKey::P1Left));
    assert!(!input.flags.left);
    assert_eq!(input.keys_pressed, vec![InputKey::P1Left]);
}

#[test]
fn unbound_key_changes_nothing() {
    let map = InputMap::new();
    let mut input = ControlState::new();
    assert_eq!(map.key_down(&mut input, VKeyCode::Z), None);
    assert!(input.keys_pressed.is_empty());
    assert_eq!(input.flags, ControlState::new().flags);
}

#[test]
fn gamepad_press_and_release() {
    let map = InputMap::new();
    let mut input = ControlState::new();
    assert_eq!(map.gamepad_button_down(&mut input, VButton::DPadRight), Some(InputKey::P1Right));
    assert!(input.flags.right);
    assert_eq!(map.gamepad_button_up(&mut input, VButton::DPadRight), Some(InputKey::P1Right));
    assert!(!input.flags.right);
}

#[test]
fn mouse_press_and_release() {
    let map = InputMap::new();
    let mut input = ControlState::new();
    map.mouse_button_down(&mut input, 2);
    assert_eq!(input.mouse_down, (false, false, true));
    map.mouse_button_down(&mut input, 7);
    assert_eq!(input.mouse_down, (false, false, true));
    map.mouse_button_up(&mut input, 2);
    assert_eq!(input.mouse_down, (false, false, false));
}

#[test]
fn typed_text_stops_at_the_limit() {
    let map = InputMap::new();
    let mut input = ControlState::new();
    map.text_typed(&mut input, 'a');
    map.text_typed(&mut input, 'é');
    assert_eq!(input.cmd_text, "aé");
    input.cmd_text = "x".repeat(CMD_TEXT_LIMIT);
    map.text_typed(&mut input, 'b');
    assert_eq!(input.cmd_text.len(), CMD_TEXT_LIMIT);
}
