use vstd::prelude::*;

use crate::keys::{VButton, VKeyCode};
use vstd::utf8::encode_utf8;

verus! {

/// The mouse buttons the game reacts to.
#[derive(Debug, Clone, Copy, PartialEq, Eq, Structural)]
pub enum MouseInput {
    Left,
    Middle,
    Right,
}

/// The game actions a key or button can be bound to.
#[derive(Debug, Clone, Copy, PartialEq, Eq, Structural)]
pub enum InputKey {
    P1Left,
    P1Right,
    P1Up,
    P1Down,
    P1PrimaryAction,
    P1UseAction,
    Pause,
    SlowMode,
    CheatGoAnywhere,
    Exit,
    VolumeDown,
    VolumeUp,
    ZoomOut,
    ZoomIn,
    EditMode,
    Fullscreen,
    ConsoleKey,
    RestartLevel,
    Unbound,
}

impl Default for InputKey {
    fn default() -> (r: Self)
        ensures
            r == InputKey::Unbound,
    {
        InputKey::Unbound
    }
}

/// One binding: a key or a gamepad button, and the action it triggers,
/// with the binding it was created with.
#[derive(Clone, Debug)]
pub struct InputSetting {
    pub game_key: InputKey,
    pub code: Option<VKeyCode>,
    pub button: Option<VButton>,
    pub default_code: Option<VKeyCode>,
    pub default_button: Option<VButton>,
}

/// The binding of a keyboard key to an action.
pub open spec fn key_setting(code: VKeyCode, game_key: InputKey) -> InputSetting {
    InputSetting {
        game_key,
        code: Some(code),
        button: None,
        default_code: Some(code),
        default_button: None,
    }
}

/// The binding of a gamepad button to an action.
pub open spec fn button_setting(button: VButton, game_key: InputKey) -> InputSetting {
    InputSetting {
        game_key,
        code: None,
        button: Some(button),
        default_code: None,
        default_button: Some(button),
    }
}

impl InputSetting {
    pub fn code(keycode: VKeyCode, game_key: InputKey) -> (r: InputSetting)
        ensures
            r == key_setting(keycode, game_key),
    {
        InputSetting {
            game_key: game_key,
            code: Some(keycode),
            button: None,
            default_code: Some(keycode),
            default_button: None,
        }
    }

    pub fn button(button: VButton, game_key: InputKey) -> (r: InputSetting)
        ensures
            r == button_setting(button, game_key),
    {
        InputSetting {
            game_key: game_key,
            code: None,
            button: Some(button),
            default_code: None,
            default_button: Some(button),
        }
    }
}

/// The bindings the game starts with: keyboard first, then gamepad.
pub open spec fn default_input_settings() -> Seq<InputSetting> {
    seq![
            key_setting(VKeyCode::W, InputKey::P1Up),
            key_setting(VKeyCode::LControl, InputKey::P1Up),
            key_setting(VKeyCode::A, InputKey::P1Left),
            key_setting(VKeyCode::D, InputKey::P1Right),
            key_setting(VKeyCode::S, InputKey::P1Down),
            key_setting(VKeyCode::Up, InputKey::P1Up),
            key_setting(VKeyCode::Down, InputKey::P1Down),
            key_setting(VKeyCode::Right, InputKey::P1Right),
            key_setting(VKeyCode::Left, InputKey::P1Left),
            key_setting(VKeyCode::Space, InputKey::P1PrimaryAction),
            key_setting(VKeyCode::E, InputKey::P1UseAction),
            key_setting(VKeyCode::Escape, InputKey::Exit),
            key_setting(VKeyCode::P, InputKey::Pause),
            key_setting(VKeyCode::O, InputKey::SlowMode),
            key_setting(VKeyCode::Return, InputKey::Pause),
            key_setting(VKeyCode::F1, InputKey::EditMode),
            key_setting(VKeyCode::Subtract, InputKey::ZoomOut),
            key_setting(VKeyCode::Add, InputKey::ZoomIn),
            key_setting(VKeyCode::RBracket, InputKey::VolumeUp),
            key_setting(VKeyCode::LBracket, InputKey::VolumeDown),
            key_setting(VKeyCode::F11, InputKey::Fullscreen),
            key_setting(VKeyCode::G, InputKey::CheatGoAnywhere),
            key_setting(VKeyCode::Grave, InputKey::ConsoleKey),
            key_setting(VKeyCode::R, InputKey::RestartLevel),
            button_setting(VButton::DPadUp, InputKey::P1Up),
            button_setting(VButton::South, InputKey::P1Up),
            button_setting(VButton::DPadLeft, InputKey::P1Left),
            button_setting(VButton::DPadRight, InputKey::P1Right),
            button_setting(VButton::DPadDown, InputKey::P1Down),
            button_setting(VButton::Start, InputKey::Pause),
            button_setting(VButton::Select, InputKey::Exit),
            button_setting(VButton::West, InputKey::P1PrimaryAction),
            button_setting(VButton::North, InputKey::P1UseAction),
    ]
}

/// The action of the first binding of the key `code`, if any.
pub open spec fn key_binding(settings: Seq<InputSetting>, code: VKeyCode) -> Option<InputKey>
    decreases settings.len(),
{
    if settings.len() == 0 {
        None
    } else if settings[0].code == Some(code) {
        Some(settings[0].game_key)
    } else {
        key_binding(settings.drop_first(), code)
    }
}

/// The action of the first binding of the gamepad button `button`, if any.
pub open spec fn button_binding(settings: Seq<InputSetting>, button: VButton) -> Option<InputKey>
    decreases settings.len(),
{
    if settings.len() == 0 {
        None
    } else if settings[0].button == Some(button) {
        Some(settings[0].game_key)
    } else {
        button_binding(settings.drop_first(), button)
    }
}

/// The mouse button with index `i` (0 left, 1 middle, 2 right).
pub open spec fn mouse_button(i: usize) -> Option<MouseInput> {
    if i == 0 {
        Some(MouseInput::Left)
    } else if i == 1 {
        Some(MouseInput::Middle)
    } else if i == 2 {
        Some(MouseInput::Right)
    } else {
        None
    }
}

/// The held state of the player's movement and action controls.
#[derive(Clone, Copy, Debug, PartialEq, Eq, Structural)]
pub struct MoveFlags {
    pub left: bool,
    pub right: bool,
    pub up: bool,
    pub down: bool,
    pub fire: bool,
}

impl MoveFlags {
    /// The flags after the control of `key` is pressed or released; keys
    /// that are no movement or fire control change nothing.
    pub open spec fn with_key(self, key: InputKey, pressed: bool) -> MoveFlags {
        match key {
            InputKey::P1Left => MoveFlags { left: pressed, ..self },
            InputKey::P1Right => MoveFlags { right: pressed, ..self },
            InputKey::P1Up => MoveFlags { up: pressed, ..self },
            InputKey::P1Down => MoveFlags { down: pressed, ..self },
            InputKey::P1PrimaryAction => MoveFlags { fire: pressed, ..self },
            _ => self,
        }
    }

    fn set_key(&mut self, key: InputKey, pressed: bool)
        ensures
            *final(self) == old(self).with_key(key, pressed),
    {
        match key {
            InputKey::P1Left => {
                self.left = pressed;
            },
            InputKey::P1Right => {
                self.right = pressed;
            },
            InputKey::P1Up => {
                self.up = pressed;
            },
            InputKey::P1Down => {
                self.down = pressed;
            },
            InputKey::P1PrimaryAction => {
                self.fire = pressed;
            },
            _ => {},
        }
    }
}

/// The input the game reads each frame: held controls, the keys pressed
/// this frame, the held mouse buttons and the text typed in the console.
#[derive(Debug)]
pub struct ControlState {
    pub flags: MoveFlags,
    pub keys_pressed: Vec<InputKey>,
    pub mouse_down: (bool, bool, bool),
    pub cmd_text: String,
}

/// The most bytes of console text that typing still extends.
pub const CMD_TEXT_LIMIT: usize = 380;

/// `String::push`: appends one character.
#[verifier::external_body]
pub(crate) fn push_char(s: &mut String, c: char)
    ensures
        final(s)@ == old(s)@.push(c),
{
    s.push(c);
}

impl ControlState {
    pub fn new() -> (r: ControlState)
        ensures
            r.flags == (MoveFlags { left: false, right: false, up: false, down: false, fire: false }),
            r.keys_pressed@ == Seq::<InputKey>::empty(),
            r.mouse_down == (false, false, false),
            r.cmd_text@ == Seq::<char>::empty(),
    {
        ControlState {
            flags: MoveFlags { left: false, right: false, up: false, down: false, fire: false },
            keys_pressed: Vec::new(),
            mouse_down: (false, false, false),
            cmd_text: String::new(),
        }
    }

    /// Marks the mouse button `index` (0, 1 or 2) held or released.
    pub fn set_mouse_down(&mut self, down: bool, index: usize)
        ensures
            final(self).mouse_down == (if index == 0 {
                (down, old(self).mouse_down.1, old(self).mouse_down.2)
            } else if index == 1 {
                (old(self).mouse_down.0, down, old(self).mouse_down.2)
            } else if index == 2 {
                (old(self).mouse_down.0, old(self).mouse_down.1, down)
            } else {
                old(self).mouse_down
            }),
            final(self).flags == old(self).flags,
            final(self).keys_pressed@ == old(self).keys_pressed@,
            final(self).cmd_text@ == old(self).cmd_text@,
    {
        if index == 0 {
            self.mouse_down.0 = down;
        } else if index == 1 {
            self.mouse_down.1 = down;
        } else if index == 2 {
            self.mouse_down.2 = down;
        }
    }
}

/// The key and gamepad bindings of the game.
#[derive(Clone, Debug)]
pub struct InputMap {
    pub input_settings: Vec<InputSetting>,
}

impl InputMap {
    /// The default bindings.
    pub fn new() -> (r: Self)
        ensures
            r.input_settings@ == default_input_settings(),
    {
        let mut input_map = Self { input_settings: Vec::new() };

        // Keyboard codes
        input_map.input_settings.push(InputSetting::code(VKeyCode::W, InputKey::P1Up));
        input_map.input_settings.push(InputSetting::code(VKeyCode::LControl, InputKey::P1Up));
        input_map.input_settings.push(InputSetting::code(VKeyCode::A, InputKey::P1Left));
        input_map.input_settings.push(InputSetting::code(VKeyCode::D, InputKey::P1Right));
        input_map.input_settings.push(InputSetting::code(VKeyCode::S, InputKey::P1Down));
        input_map.input_settings.push(InputSetting::code(VKeyCode::Up, InputKey::P1Up));
        input_map.input_settings.push(InputSetting::code(VKeyCode::Down, InputKey::P1Down));
        input_map.input_settings.push(InputSetting::code(VKeyCode::Right, InputKey::P1Right));
        input_map.input_settings.push(InputSetting::code(VKeyCode::Left, InputKey::P1Left));
        input_map.input_settings.push(InputSetting::code(VKeyCode::Space, InputKey::P1PrimaryAction));
        input_map.input_settings.push(InputSetting::code(VKeyCode::E, InputKey::P1UseAction));
        input_map.input_settings.push(InputSetting::code(VKeyCode::Escape, InputKey::Exit));
        input_map.input_settings.push(InputSetting::code(VKeyCode::P, InputKey::Pause));
        input_map.input_settings.push(InputSetting::code(VKeyCode::O, InputKey::SlowMode));
        input_map.input_settings.push(InputSetting::code(VKeyCode::Return, InputKey::Pause));
        input_map.input_settings.push(InputSetting::code(VKeyCode::F1, InputKey::EditMode));
        input_map.input_settings.push(InputSetting::code(VKeyCode::Subtract, InputKey::ZoomOut));
        input_map.input_settings.push(InputSetting::code(VKeyCode::Add, InputKey::ZoomIn));
        input_map.input_settings.push(InputSetting::code(VKeyCode::RBracket, InputKey::VolumeUp));
        input_map.input_settings.push(InputSetting::code(VKeyCode::LBracket, InputKey::VolumeDown));
        input_map.input_settings.push(InputSetting::code(VKeyCode::F11, InputKey::Fullscreen));
        input_map.input_settings.push(InputSetting::code(VKeyCode::G, InputKey::CheatGoAnywhere));
        input_map.input_settings.push(InputSetting::code(VKeyCode::Grave, InputKey::ConsoleKey));
        input_map.input_settings.push(InputSetting::code(VKeyCode::R, InputKey::RestartLevel));

        // Gamepad buttons
        input_map.input_settings.push(InputSetting::button(VButton::DPadUp, InputKey::P1Up));
        input_map.input_settings.push(InputSetting::button(VButton::South, InputKey::P1Up));
        input_map.input_settings.push(InputSetting::button(VButton::DPadLeft, InputKey::P1Left));
        input_map.input_settings.push(InputSetting::button(VButton::DPadRight, InputKey::P1Right));
        input_map.input_settings.push(InputSetting::button(VButton::DPadDown, InputKey::P1Down));
        input_map.input_settings.push(InputSetting::button(VButton::Start, InputKey::Pause));
        input_map.input_settings.push(InputSetting::button(VButton::Select, InputKey::Exit));
        input_map.input_settings.push(InputSetting::button(VButton::West, InputKey::P1PrimaryAction));
        input_map.input_settings.push(InputSetting::button(VButton::North, InputKey::P1UseAction));

        assert(input_map.input_settings@ =~= default_input_settings());
        input_map
    }

    pub fn map_mouse_input(&self, button_index: &usize) -> (r: Option<MouseInput>)
        ensures
            r == mouse_button(*button_index),
    {
        match *button_index {
            0 => Some(MouseInput::Left),
            1 => Some(MouseInput::Middle),
            2 => Some(MouseInput::Right),
            _ => None,
        }
    }

    /// The action of the first binding of `keycode`.
    pub fn map_keycode(&self, keycode: &VKeyCode) -> (r: Option<InputKey>)
        ensures
            r == key_binding(self.input_settings@, *keycode),
    {
        let settings = &self.input_settings;
        let n = settings.len();
        let mut i: usize = 0;
        assert(settings@.subrange(0, n as int) =~= settings@);
        while i < n
            invariant
                i <= n,
                n == settings@.len(),
                settings@ == self.input_settings@,
                key_binding(settings@, *keycode) == key_binding(settings@.subrange(i as int, n as int), *keycode),
            decreases n - i,
        {
            let setting = &settings[i];
            assert(settings@.subrange(i as int, n as int).drop_first() =~= settings@.subrange(i + 1, n as int));
            assert(settings@.subrange(i as int, n as int)[0] == settings@[i as int]);
            if let Some(code) = setting.code {
                if code == *keycode {
                    assert(key_binding(settings@.subrange(i as int, n as int), *keycode) == Some(setting.game_key));
                    return Some(setting.game_key);
                }
            }
            i += 1;
        }
        assert(settings@.subrange(n as int, n as int) =~= Seq::<InputSetting>::empty());
        None
    }

    /// The action of the first binding of the gamepad button `button`.
    pub fn map_gamepadcode(&self, button: &VButton) -> (r: Option<InputKey>)
        ensures
            r == button_binding(self.input_settings@, *button),
    {
        let settings = &self.input_settings;
        let n = settings.len();
        let mut i: usize = 0;
        assert(settings@.subrange(0, n as int) =~= settings@);
        while i < n
            invariant
                i <= n,
                n == settings@.len(),
                settings@ == self.input_settings@,
                button_binding(settings@, *button) == button_binding(settings@.subrange(i as int, n as int), *button),
            decreases n - i,
        {
            let setting = &settings[i];
            assert(settings@.subrange(i as int, n as int).drop_first() =~= settings@.subrange(i + 1, n as int));
            assert(settings@.subrange(i as int, n as int)[0] == settings@[i as int]);
            if let Some(btn) = setting.button {
                if btn == *button {
                    assert(button_binding(settings@.subrange(i as int, n as int), *button) == Some(setting.game_key));
                    return Some(setting.game_key);
                }
            }
            i += 1;
        }
        assert(settings@.subrange(n as int, n as int) =~= Seq::<InputSetting>::empty());
        None
    }

    /// A key went down: logs the bound action as pressed this frame and
    /// holds its control.
    pub fn key_down(&self, input: &mut ControlState, keycode: VKeyCode) -> (r: Option<InputKey>)
        ensures
            r == key_binding(self.input_settings@, keycode),
            final(input).keys_pressed@ == (match r {
                Some(key) => old(input).keys_pressed@.push(key),
                None => old(input).keys_pressed@,
            }),
            final(input).flags == (match r {
                Some(key) => old(input).flags.with_key(key, true),
                None => old(input).flags,
            }),
            final(input).mouse_down == old(input).mouse_down,
            final(input).cmd_text@ == old(input).cmd_text@,
    {
        match self.map_keycode(&keycode) {
            Some(key) => {
                input.keys_pressed.push(key);
                input.flags.set_key(key, true);
                Some(key)
            },
            None => None,
        }
    }

    /// A key went up: releases the control of the bound action.
    pub fn key_up(&self, input: &mut ControlState, keycode: VKeyCode) -> (r: Option<InputKey>)
        ensures
            r == key_binding(self.input_settings@, keycode),
            final(input).flags == (match r {
                Some(key) => old(input).flags.with_key(key, false),
                None => old(input).flags,
            }),
            final(input).keys_pressed@ == old(input).keys_pressed@,
            final(input).mouse_down == old(input).mouse_down,
            final(input).cmd_text@ == old(input).cmd_text@,
    {
        match self.map_keycode(&keycode) {
            Some(key) => {
                input.flags.set_key(key, false);
                Some(key)
            },
            None => None,
        }
    }

    /// A gamepad button went down: holds the control of the bound action.
    pub fn gamepad_button_down(&self, input: &mut ControlState, btn: VButton) -> (r: Option<InputKey>)
        ensures
            r == button_binding(self.input_settings@, btn),
            final(input).flags == (match r {
                Some(key) => old(input).flags.with_key(key, true),
                None => old(input).flags,
            }),
            final(input).keys_pressed@ == old(input).keys_pressed@,
            final(input).mouse_down == old(input).mouse_down,
            final(input).cmd_text@ == old(input).cmd_text@,
    {
        match self.map_gamepadcode(&btn) {
            Some(key) => {
                input.flags.set_key(key, true);
                Some(key)
            },
            None => None,
        }
    }

    /// A gamepad button went up: releases the control of the bound action.
    pub fn gamepad_button_up(&self, input: &mut ControlState, btn: VButton) -> (r: Option<InputKey>)
        ensures
            r == button_binding(self.input_settings@, btn),
            final(input).flags == (match r {
                Some(key) => old(input).flags.with_key(key, false),
                None => old(input).flags,
            }),
            final(input).keys_pressed@ == old(input).keys_pressed@,
            final(input).mouse_down == old(input).mouse_down,
            final(input).cmd_text@ == old(input).cmd_text@,
    {
        match self.map_gamepadcode(&btn) {
            Some(key) => {
                input.flags.set_key(key, false);
                Some(key)
            },
            None => None,
        }
    }

    /// Typing adds the character to the console text while it is shorter
    /// than `CMD_TEXT_LIMIT` bytes.
    pub fn text_typed(&self, input: &mut ControlState, c: char)
        ensures
            final(input).cmd_text@ == (if (encode_utf8(old(input).cmd_text@).len() as usize) < CMD_TEXT_LIMIT {
                old(input).cmd_text@.push(c)
            } else {
                old(input).cmd_text@
            }),
            final(input).flags == old(input).flags,
            final(input).keys_pressed@ == old(input).keys_pressed@,
            final(input).mouse_down == old(input).mouse_down,
    {
        let text_len = input.cmd_text.as_str().len();
        assert(text_len == encode_utf8(input.cmd_text@).len() as usize);
        if text_len < CMD_TEXT_LIMIT {
            push_char(&mut input.cmd_text, c);
        }
    }

    /// A mouse button went down: holds it.
    pub fn mouse_button_down(&self, input: &mut ControlState, button_index: usize)
        ensures
            final(input).mouse_down == (match mouse_button(button_index) {
                Some(MouseInput::Left) => (true, old(input).mouse_down.1, old(input).mouse_down.2),
                Some(MouseInput::Middle) => (old(input).mouse_down.0, true, old(input).mouse_down.2),
                Some(MouseInput::Right) => (old(input).mouse_down.0, old(input).mouse_down.1, true),
                None => old(input).mouse_down,
            }),
            final(input).flags == old(input).flags,
            final(input).keys_pressed@ == old(input).keys_pressed@,
            final(input).cmd_text@ == old(input).cmd_text@,
    {
        match self.map_mouse_input(&button_index) {
            Some(inp) => match inp {
                MouseInput::Left => input.set_mouse_down(true, 0),
                MouseInput::Middle => input.set_mouse_down(true, 1),
                MouseInput::Right => input.set_mouse_down(true, 2),
            },
            None => {},
        }
    }

    /// A mouse button went up: releases it.
    pub fn mouse_button_up(&self, input: &mut ControlState, button_index: usize)
        ensures
            final(input).mouse_down == (match mouse_button(button_index) {
                Some(MouseInput::Left) => (false, old(input).mouse_down.1, old(input).mouse_down.2),
                Some(MouseInput::Middle) => (old(input).mouse_down.0, false, old(input).mouse_down.2),
                Some(MouseInput::Right) => (old(input).mouse_down.0, old(input).mouse_down.1, false),
                None => old(input).mouse_down,
            }),
            final(input).flags == old(input).flags,
            final(input).keys_pressed@ == old(input).keys_pressed@,
            final(input).cmd_text@ == old(input).cmd_text@,
    {
        match self.map_mouse_input(&button_index) {
            Some(inp) => match inp {
                MouseInput::Left => input.set_mouse_down(false, 0),
                MouseInput::Middle => input.set_mouse_down(false, 1),
                MouseInput::Right => input.set_mouse_down(false, 2),
            },
            None => {},
        }
    }
}

/// Releasing a control after pressing it leaves it released, whatever it
/// was before; every other control keeps its state.
pub proof fn law_press_then_release(flags: MoveFlags, key: InputKey)
    ensures
        flags.with_key(key, true).with_key(key, false) == flags.with_key(key, false),
        !flags.left && !flags.right && !flags.up && !flags.down && !flags.fire ==> flags.with_key(
            key,
            true,
        ).with_key(key, false) == flags,
{
}

/// A key bound in the settings maps to the action of its first binding, and
/// a key that no setting binds maps to nothing.
pub proof fn law_first_binding_wins(settings: Seq<InputSetting>, code: VKeyCode, i: int)
    requires
        0 <= i < settings.len(),
        settings[i].code == Some(code),
        forall|j: int| 0 <= j < i ==> #[trigger] settings[j].code != Some(code),
    ensures
        key_binding(settings, code) == Some(settings[i].game_key),
    decreases i,
{
    if i > 0 {
        assert forall|j: int| 0 <= j < i - 1 implies #[trigger] settings.drop_first()[j].code != Some(code) by {
            assert(settings.drop_first()[j] == settings[j + 1]);
        }
        law_first_binding_wins(settings.drop_first(), code, i - 1);
    }
}

/// A key with no binding maps to nothing.
pub proof fn law_unbound_key(settings: Seq<InputSetting>, code: VKeyCode)
    requires
        forall|j: int| 0 <= j < settings.len() ==> #[trigger] settings[j].code != Some(code),
    ensures
        key_binding(settings, code) == None::<InputKey>,
    decreases settings.len(),
{
    if settings.len() > 0 {
        assert forall|j: int| 0 <= j < settings.drop_first().len() implies #[trigger] settings.drop_first()[j].code
            != Some(code) by {
            assert(settings.drop_first()[j] == settings[j + 1]);
        }
        law_unbound_key(settings.drop_first(), code);
    }
}


/// Pressing or releasing a movement control sets exactly its own flag: the
/// left key the left flag, and so on, the primary action the fire flag;
/// every other flag keeps its state, and any other key changes none.
pub proof fn law_key_sets_its_own_flag(f: MoveFlags, key: InputKey, p: bool)
    ensures
        f.with_key(key, p).left == (if key == InputKey::P1Left { p } else { f.left }),
        f.with_key(key, p).right == (if key == InputKey::P1Right { p } else { f.right }),
        f.with_key(key, p).up == (if key == InputKey::P1Up { p } else { f.up }),
        f.with_key(key, p).down == (if key == InputKey::P1Down { p } else { f.down }),
        f.with_key(key, p).fire == (if key == InputKey::P1PrimaryAction { p } else { f.fire }),
{
}

} // verus!
