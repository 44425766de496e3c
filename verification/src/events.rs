use vstd::prelude::*;
use crate::random::random_i32;
use crate::keys::VKeyCode;
use crate::menu::DialogChoice;
use crate::game_state::RunningState;

verus! {

/// What a debug or display key asks for.
#[derive(Debug, Clone, Copy, PartialEq, Eq, Structural)]
pub enum KeyAction {
    /// Drop a random test object into the level.
    SpawnTestObject,
    ZoomOut,
    ZoomIn,
    MusicUp,
    MusicDown,
    /// Show the test dialog with three choices.
    ShowTestDialog,
    OpenMenu,
    /// Print the logic passes of the next three frames.
    DebugLogic,
    /// Pass control to the next player.
    NextPlayer,
}

/// The test object a random number picks: a platform for one in five, a
/// box for other multiples of four, a ghost otherwise.
#[derive(Debug, Clone, Copy, PartialEq, Eq, Structural)]
pub enum TestObject {
    Platform,
    Box,
    GhostCollider,
}

/// The display scale, in ten-thousandths, moves in steps of 500.
pub const ZOOM_STEP: i32 = 500;

/// The action of a key released.
pub open spec fn key_up_action_of(keycode: VKeyCode) -> Option<KeyAction> {
    match keycode {
        VKeyCode::J => Some(KeyAction::SpawnTestObject),
        VKeyCode::Subtract => Some(KeyAction::ZoomOut),
        VKeyCode::Equals => Some(KeyAction::ZoomIn),
        VKeyCode::RBracket => Some(KeyAction::MusicUp),
        VKeyCode::LBracket => Some(KeyAction::MusicDown),
        VKeyCode::K => Some(KeyAction::ShowTestDialog),
        VKeyCode::M => Some(KeyAction::OpenMenu),
        VKeyCode::L => Some(KeyAction::DebugLogic),
        VKeyCode::E => Some(KeyAction::NextPlayer),
        _ => None,
    }
}

/// The action of a key held down and repeating.
pub open spec fn key_repeat_action_of(keycode: VKeyCode) -> Option<KeyAction> {
    match keycode {
        VKeyCode::Subtract => Some(KeyAction::ZoomOut),
        VKeyCode::Equals => Some(KeyAction::ZoomIn),
        VKeyCode::RBracket => Some(KeyAction::MusicUp),
        VKeyCode::LBracket => Some(KeyAction::MusicDown),
        _ => None,
    }
}

/// The action of a key released.
pub fn key_up_action(keycode: VKeyCode) -> (r: Option<KeyAction>)
    ensures
        r == key_up_action_of(keycode),
{
    match keycode {
        VKeyCode::J => Some(KeyAction::SpawnTestObject),
        VKeyCode::Subtract => Some(KeyAction::ZoomOut),
        VKeyCode::Equals => Some(KeyAction::ZoomIn),
        VKeyCode::RBracket => Some(KeyAction::MusicUp),
        VKeyCode::LBracket => Some(KeyAction::MusicDown),
        VKeyCode::K => Some(KeyAction::ShowTestDialog),
        VKeyCode::M => Some(KeyAction::OpenMenu),
        VKeyCode::L => Some(KeyAction::DebugLogic),
        VKeyCode::E => Some(KeyAction::NextPlayer),
        _ => None,
    }
}

/// The action of a key held down and repeating.
pub fn key_repeat_action(keycode: VKeyCode) -> (r: Option<KeyAction>)
    ensures
        r == key_repeat_action_of(keycode),
{
    match keycode {
        VKeyCode::Subtract => Some(KeyAction::ZoomOut),
        VKeyCode::Equals => Some(KeyAction::ZoomIn),
        VKeyCode::RBracket => Some(KeyAction::MusicUp),
        VKeyCode::LBracket => Some(KeyAction::MusicDown),
        _ => None,
    }
}

/// The display scale after a zoom key, in ten-thousandths: zooming in stops
/// at 4.75; zooming out stops at 0.25 while the key repeats and at 0.0125
/// when it is released.
pub fn zoomed_scale(scale: i32, action: KeyAction, repeat: bool) -> (r: i32)
    requires
        i32::MIN + ZOOM_STEP <= scale <= i32::MAX - ZOOM_STEP,
    ensures
        action == KeyAction::ZoomOut ==> r == (if scale > (if repeat { 2500i32 } else { 125i32 }) { scale - ZOOM_STEP } else { scale as int }),
        action == KeyAction::ZoomIn ==> r == (if scale < 47500 { scale + ZOOM_STEP } else { scale as int }),
        action != KeyAction::ZoomOut && action != KeyAction::ZoomIn ==> r == scale,
{
    match action {
        KeyAction::ZoomOut => {
            let floor: i32 = if repeat { 2500 } else { 125 };
            if scale > floor { scale - ZOOM_STEP } else { scale }
        },
        KeyAction::ZoomIn => {
            if scale < 47500 { scale + ZOOM_STEP } else { scale }
        },
        _ => scale,
    }
}

/// The test object a random `test` picks.
pub open spec fn test_object_of(test: u16) -> TestObject {
    if test % 5 == 0 { TestObject::Platform } else if test % 4 == 0 { TestObject::Box } else { TestObject::GhostCollider }
}

/// The test object a random `test` picks.
pub fn test_object(test: u16) -> (r: TestObject)
    ensures
        r == test_object_of(test),
{
    if test % 5 == 0 {
        TestObject::Platform
    } else if test % 4 == 0 {
        TestObject::Box
    } else {
        TestObject::GhostCollider
    }
}


/// Picks a random test object: the random number (the low 16 bits of a
/// random `i32`, so uniform over `u16`) and what it picks.
pub fn random_test_object() -> (r: (u16, TestObject))
    ensures
        r.1 == test_object_of(r.0),
{
    let test = random_i32() as u16;
    (test, test_object(test))
}

fn choice(key: &str, message: &str) -> (r: DialogChoice)
    ensures
        r.key@ == key@,
        r.message@ == message@,
{
    DialogChoice { key: key.to_owned(), message: message.to_owned() }
}

/// The test dialog: three choices on a box background.
pub fn test_dialog() -> (r: RunningState)
    ensures
        r matches RunningState::Dialog { msg, choices, custom_bg, .. } && msg@ == "K dialog"@ && custom_bg is Some
            && custom_bg->0@ == "/images/dirty-box-1.png"@ && choices is Some && choices->0@.len() == 3
            && choices->0@[0].key@ == "a"@ && choices->0@[0].message@ == "Choice A"@
            && choices->0@[1].key@ == "b"@ && choices->0@[1].message@ == "Choice B"@
            && choices->0@[2].key@ == "c"@ && choices->0@[2].message@ == "Choice C"@,
{
    let mut choices: Vec<DialogChoice> = Vec::new();
    choices.push(choice("a", "Choice A"));
    choices.push(choice("b", "Choice B"));
    choices.push(choice("c", "Choice C"));
    RunningState::world_dialog("K dialog".to_owned(), Some(choices), "/images/dirty-box-1.png".to_owned())
}

} // verus!
