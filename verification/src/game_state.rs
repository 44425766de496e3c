use vstd::prelude::*;
use vstd::string::StringExecFns;

use crate::input::{InputKey, push_char};
use crate::menu::{DialogChoice, DialogType};

verus! {

/// What the game is showing: play, or a dialog over the paused world.
/// A text colour is stored in hundredths per channel, `(90, 90, 90, 100)`
/// for a light grey at full opacity.
#[derive(Clone, Debug)]
pub enum RunningState {
    Playing,
    Dialog {
        msg: String,
        dialog_type: DialogType,
        choices: Option<Vec<DialogChoice>>,
        selected_choice: i32,
        custom_bg: Option<String>,
        text_color: Option<(u8, u8, u8, u8)>,
    },
}

/// Which part of the game a frame updates.
#[derive(Debug, Clone, Copy, PartialEq, Eq, Structural)]
pub enum GameStateUpdateMode {
    PlayUpdate,
    PausedUpdate,
    MenuUpdate,
    TerminalUpdate,
    NoUpdate,
}

/// Whether the world runs or is paused.
#[derive(Copy, Clone, Debug, PartialEq, Eq, Structural)]
pub enum State {
    Running,
    Paused,
}

/// Playing the level, or editing it.
#[derive(Copy, Clone, Debug, PartialEq, Eq, Structural)]
pub enum GameMode {
    Play,
    Edit,
}

fn string_of(s: &str) -> (r: String)
    ensures
        r@ == s@,
{
    s.to_owned()
}

/// The kind of dialog shown for a choice list: with choices or without.
pub open spec fn dialog_kind(has_choices: bool, world: bool) -> DialogType {
    if world {
        if has_choices { DialogType::WorldChoices } else { DialogType::WorldDialog }
    } else {
        if has_choices { DialogType::DialogChoices } else { DialogType::DialogInfo }
    }
}

/// The background image a dialog kind is drawn on.
pub open spec fn bg_image_for(dialog_type: DialogType, custom_bg: Option<Seq<char>>) -> Seq<char> {
    match dialog_type {
        DialogType::LevelEntry => "/images/purple-dialog-bg.png"@,
        DialogType::DialogInfo | DialogType::DialogChoices => "/images/cloud-dialog-bordered.png"@,
        DialogType::WorldDialog | DialogType::WorldChoices => match custom_bg {
            Some(bg) => bg,
            None => "/images/purple-dialog-wide-bg.png"@,
        },
    }
}

impl RunningState {
    /// The dialog shown when a level is entered: light grey text.
    pub fn level_dialog(msg: String) -> (r: RunningState)
        ensures
            r matches RunningState::Dialog { msg: m, dialog_type, choices, selected_choice, custom_bg, text_color }
                && m == msg && dialog_type == DialogType::LevelEntry && choices is None && selected_choice == -1
                && custom_bg is None && text_color == Some((90u8, 90u8, 90u8, 100u8)),
    {
        RunningState::Dialog {
            msg,
            dialog_type: DialogType::LevelEntry,
            choices: None,
            selected_choice: -1,
            custom_bg: None,
            text_color: Some((90, 90, 90, 100)),
        }
    }

    /// A message of the game, with answers to choose from or without.
    pub fn game_dialog(msg: String, choices: Option<Vec<DialogChoice>>) -> (r: RunningState)
        ensures
            r matches RunningState::Dialog { msg: m, dialog_type, choices: c, selected_choice, custom_bg, text_color }
                && m == msg && dialog_type == dialog_kind(choices is Some, false) && c == choices
                && selected_choice == -1 && custom_bg is None && text_color is None,
    {
        let dialog_type = match &choices {
            Some(_) => DialogType::DialogChoices,
            None => DialogType::DialogInfo,
        };
        RunningState::Dialog {
            msg,
            dialog_type: dialog_type,
            choices: choices,
            selected_choice: -1,
            custom_bg: None,
            text_color: None,
        }
    }

    /// A message of an object of the world, drawn on its own background.
    pub fn world_dialog(msg: String, choices: Option<Vec<DialogChoice>>, custom_bg: String) -> (r: RunningState)
        ensures
            r matches RunningState::Dialog { msg: m, dialog_type, choices: c, selected_choice, custom_bg: bg, text_color }
                && m == msg && dialog_type == dialog_kind(choices is Some, true) && c == choices
                && selected_choice == -1 && bg == Some(custom_bg) && text_color is None,
    {
        let dialog_type = match &choices {
            Some(_) => DialogType::WorldChoices,
            None => DialogType::WorldDialog,
        };
        RunningState::Dialog {
            msg,
            dialog_type: dialog_type,
            choices: choices,
            selected_choice: -1,
            custom_bg: Some(custom_bg),
            text_color: None,
        }
    }

    pub fn is_playing(&self) -> (r: bool)
        ensures
            r == (*self is Playing),
    {
        match self {
            RunningState::Playing => true,
            _ => false,
        }
    }

    /// The image drawn behind the dialog; empty while playing.
    pub fn get_bg_image(&self) -> (r: String)
        ensures
            r@ == (match *self {
                RunningState::Playing => Seq::<char>::empty(),
                RunningState::Dialog { dialog_type, custom_bg, .. } => bg_image_for(
                    dialog_type,
                    match custom_bg {
                        Some(bg) => Some(bg@),
                        None => None,
                    },
                ),
            }),
    {
        match self {
            RunningState::Playing => String::new(),
            RunningState::Dialog { dialog_type, custom_bg, .. } => match dialog_type {
                DialogType::LevelEntry => string_of("/images/purple-dialog-bg.png"),
                DialogType::DialogInfo | DialogType::DialogChoices => string_of("/images/cloud-dialog-bordered.png"),
                DialogType::WorldDialog | DialogType::WorldChoices => match custom_bg {
                    Some(bg) => bg.clone(),
                    None => string_of("/images/purple-dialog-wide-bg.png"),
                },
            },
        }
    }
}

/// The update a frame runs, by priority: an open terminal, then open menus,
/// then play or pause.
pub open spec fn update_mode_for(terminal_open: bool, menus_open: bool, state: State) -> GameStateUpdateMode {
    if terminal_open {
        GameStateUpdateMode::TerminalUpdate
    } else if menus_open {
        GameStateUpdateMode::MenuUpdate
    } else if state == State::Running {
        GameStateUpdateMode::PlayUpdate
    } else {
        GameStateUpdateMode::PausedUpdate
    }
}

/// Chooses the update of a frame. `menus_open` holds while a menu is open or
/// the menu zoom animation has not finished.
pub fn get_update_mode(terminal_open: bool, menus_open: bool, current_state: State) -> (r: GameStateUpdateMode)
    ensures
        r == update_mode_for(terminal_open, menus_open, current_state),
{
    let is_game_running = match current_state {
        State::Running => true,
        State::Paused => false,
    };
    match (terminal_open, menus_open, is_game_running) {
        (true, _, _) => GameStateUpdateMode::TerminalUpdate,
        (_, true, _) => GameStateUpdateMode::MenuUpdate,
        (_, _, true) => GameStateUpdateMode::PlayUpdate,
        (_, _, false) => GameStateUpdateMode::PausedUpdate,
    }
}

/// Releasing the edit-mode key switches between playing and editing.
pub fn game_key_up(mode: &mut GameMode, key: &InputKey)
    ensures
        *final(mode) == (if *key == InputKey::EditMode {
            if *old(mode) == GameMode::Play { GameMode::Edit } else { GameMode::Play }
        } else {
            *old(mode)
        }),
{
    match key {
        InputKey::EditMode => {
            if *mode == GameMode::Play {
                *mode = GameMode::Edit;
            } else {
                *mode = GameMode::Play;
            }
        },
        _ => {},
    }
}

/// Pauses a running game; returns whether it was running.
pub fn pause(current_state: &mut State) -> (r: bool)
    ensures
        r == (*old(current_state) == State::Running),
        *final(current_state) == State::Paused,
{
    match *current_state {
        State::Running => {
            *current_state = State::Paused;
            true
        },
        _ => false,
    }
}

/// Resumes a paused game; returns whether it was paused.
pub fn play(current_state: &mut State) -> (r: bool)
    ensures
        r == (*old(current_state) == State::Paused),
        *final(current_state) == State::Running,
{
    match *current_state {
        State::Paused => {
            *current_state = State::Running;
            true
        },
        _ => false,
    }
}

/// Handles a game key pressed: the exit key asks to quit; the pause key
/// resumes a paused game and pauses a running one unless a dialog is shown.
/// Returns whether to quit.
pub fn game_key_down(current_state: &mut State, is_playing: bool, key: &InputKey) -> (quit: bool)
    ensures
        quit == (*key == InputKey::Exit),
        *key == InputKey::Pause && *old(current_state) == State::Paused ==> *final(current_state) == State::Running,
        *key == InputKey::Pause && *old(current_state) == State::Running ==> *final(current_state) == (
            if is_playing { State::Paused } else { State::Running }),
        *key != InputKey::Pause ==> *final(current_state) == *old(current_state),
{
    match key {
        InputKey::Exit => true,
        InputKey::Pause => {
            match *current_state {
                State::Paused => {
                    play(current_state);
                },
                State::Running => {
                    if is_playing {
                        pause(current_state);
                    }
                },
            }
            false
        },
        _ => false,
    }
}

/// The player that takes control after player `num` when `count` players
/// are in the level: the next one, wrapping to the first.
pub fn next_player_num(num: i32, count: i32) -> (r: i32)
    requires
        count > 0,
    ensures
        r as int == (if num >= 0 { (num as int) % (count as int) } else { -((-(num as int)) % (count as int)) }) + 1,
{
    (num % count) + 1
}

/// Control passes through the players in turn: from player `num` (one of
/// `1..=count`) to the next, and from the last back to the first.
pub proof fn law_player_cycle(num: i32, count: i32)
    requires
        count > 0,
        1 <= num <= count,
    ensures
        (num % count) + 1 == (if num < count { num + 1 } else { 1 }),
        1 <= (num % count) + 1 <= count,
{
    if num < count {
        vstd::arithmetic::div_mod::lemma_small_mod(num as nat, count as nat);
    } else {
        vstd::arithmetic::div_mod::lemma_mod_self_0(count as int);
    }
}

/// What the keys pressed in a play frame ask for.
#[derive(Debug, Clone, Copy, PartialEq, Eq, Structural)]
pub enum FrameAction {
    StartPause,
    OpenMenu,
    SlowMode,
    GoAnywhere,
    ToggleFullscreen,
    NoAction,
}

/// The action of a play frame: keys count only while no menu is open; pause
/// only while playing; the first action in the order pause, menu, slow mode,
/// go-anywhere, fullscreen wins.
pub open spec fn frame_action_for(keys: Seq<InputKey>, menu_lvls: usize, playing: bool) -> FrameAction {
    if menu_lvls != 0 {
        FrameAction::NoAction
    } else if playing && keys.contains(InputKey::Pause) {
        FrameAction::StartPause
    } else if keys.contains(InputKey::Exit) {
        FrameAction::OpenMenu
    } else if keys.contains(InputKey::SlowMode) {
        FrameAction::SlowMode
    } else if keys.contains(InputKey::CheatGoAnywhere) {
        FrameAction::GoAnywhere
    } else if keys.contains(InputKey::Fullscreen) {
        FrameAction::ToggleFullscreen
    } else {
        FrameAction::NoAction
    }
}

/// Reads the keys pressed this frame for the game-level actions.
pub fn frame_action(keys_pressed: &Vec<InputKey>, menu_lvls: usize, playing: bool) -> (r: FrameAction)
    ensures
        r == frame_action_for(keys_pressed@, menu_lvls, playing),
{
    let mut start_pause = false;
    let mut open_menu = false;
    let mut slow_mode = false;
    let mut go_anywhere_mode = false;
    let mut toggle_fullscreen = false;
    let n = keys_pressed.len();
    let mut i: usize = 0;
    while i < n
        invariant
            i <= n,
            n == keys_pressed@.len(),
            start_pause == (menu_lvls == 0 && playing && keys_pressed@.take(i as int).contains(InputKey::Pause)),
            open_menu == (menu_lvls == 0 && keys_pressed@.take(i as int).contains(InputKey::Exit)),
            slow_mode == (menu_lvls == 0 && keys_pressed@.take(i as int).contains(InputKey::SlowMode)),
            go_anywhere_mode == (menu_lvls == 0 && keys_pressed@.take(i as int).contains(InputKey::CheatGoAnywhere)),
            toggle_fullscreen == (menu_lvls == 0 && keys_pressed@.take(i as int).contains(InputKey::Fullscreen)),
        decreases n - i,
    {
        let key = keys_pressed[i];
        assert(keys_pressed@.take(i + 1) =~= keys_pressed@.take(i as int).push(key));
        proof {
            broadcast use vstd::seq_lib::lemma_seq_contains_after_push;
        }
        if menu_lvls == 0 {
            if key == InputKey::Pause {
                if playing {
                    start_pause = true;
                }
            } else if key == InputKey::Exit {
                open_menu = true;
            } else if key == InputKey::SlowMode {
                slow_mode = true;
            } else if key == InputKey::CheatGoAnywhere {
                go_anywhere_mode = true;
            } else if key == InputKey::Fullscreen {
                toggle_fullscreen = true;
            }
        }
        i += 1;
    }
    assert(keys_pressed@.take(n as int) =~= keys_pressed@);
    if start_pause {
        FrameAction::StartPause
    } else if open_menu {
        FrameAction::OpenMenu
    } else if slow_mode {
        FrameAction::SlowMode
    } else if go_anywhere_mode {
        FrameAction::GoAnywhere
    } else if toggle_fullscreen {
        FrameAction::ToggleFullscreen
    } else {
        FrameAction::NoAction
    }
}

/// The part of `s` before its first `:` and the part after it; `s` and
/// nothing when there is no `:`.
pub open spec fn split_at_colon(s: Seq<char>) -> (Seq<char>, Seq<char>)
    decreases s.len(),
{
    if s.len() == 0 {
        (Seq::empty(), Seq::empty())
    } else if s[0] == ':' {
        (Seq::empty(), s.drop_first())
    } else {
        let (a, b) = split_at_colon(s.drop_first());
        (seq![s[0]].add(a), b)
    }
}


/// The level an exit leads to and the entry point in it: an exit
/// destination is written `level` or `level:entry`.
pub fn split_exit_destination(destination: &String) -> (r: (String, String))
    ensures
        (r.0@, r.1@) == split_at_colon(destination@),
{
    let mut exit_name = String::new();
    let mut entry_name = String::new();
    let mut found = false;
    let ghost s = destination@;
    let ghost mut rest: Seq<char> = s;
    broadcast use vstd::string::axiom_spec_iter;
    for c in it: destination.as_str().chars()
        invariant
            it.seq() == s,
            rest == it.seq().skip(it.index() as int),
            found ==> split_at_colon(s) == (exit_name@, entry_name@ + rest),
            !found ==> entry_name@ == Seq::<char>::empty(),
            !found ==> split_at_colon(s) == (
                exit_name@ + split_at_colon(rest).0,
                split_at_colon(rest).1,
            ),
    {
        assert(rest[0] == c);
        assert(rest.drop_first() =~= it.seq().skip(it.index() + 1));
        if found {
            assert(entry_name@ + rest =~= entry_name@.push(c) + rest.drop_first());
            push_char(&mut entry_name, c);
        } else if c == ':' {
            assert(split_at_colon(rest) == (Seq::<char>::empty(), rest.drop_first()));
            assert(exit_name@ + Seq::<char>::empty() =~= exit_name@);
            assert(entry_name@ + rest.drop_first() =~= rest.drop_first());
            found = true;
        } else {
            assert(exit_name@ + (seq![c] + split_at_colon(rest.drop_first()).0) =~= exit_name@.push(c)
                + split_at_colon(rest.drop_first()).0);
            push_char(&mut exit_name, c);
        }
        proof {
            rest = rest.drop_first();
        }
    }
    proof {
        assert(rest =~= Seq::<char>::empty());
        assert(exit_name@ + Seq::<char>::empty() =~= exit_name@);
        assert(entry_name@ + Seq::<char>::empty() =~= entry_name@);
    }
    (exit_name, entry_name)
}

/// How long, in milliseconds, a character must be out of a warp before it
/// can take an exit.
pub const EXIT_COOLDOWN_MS: i64 = 500;

/// Whether a character standing in an exit leaves the level through it:
/// only the controlled character, settled after a warp, when no warp is
/// under way and the exit leads somewhere.
pub open spec fn takes_exit(since_warp_ms: i64, is_controlled: bool, in_exit: bool, level_warping: bool, destination: Seq<char>) -> bool {
    since_warp_ms >= EXIT_COOLDOWN_MS && is_controlled && in_exit && !level_warping && destination.len() > 0
}

/// The level and entry a character leaves for through the exit it stands
/// in, or `None` when it does not take the exit.
pub fn exit_destination(
    since_warp_ms: i64,
    is_controlled: bool,
    in_exit: bool,
    level_warping: bool,
    destination: &String,
) -> (r: Option<(String, String)>)
    ensures
        takes_exit(since_warp_ms, is_controlled, in_exit, level_warping, destination@) <==> r is Some,
        r matches Some((level, entry)) ==> (level@, entry@) == split_at_colon(destination@),
{
    if since_warp_ms >= EXIT_COOLDOWN_MS && is_controlled && in_exit && !level_warping
        && destination.as_str().unicode_len() > 0 {
        Some(split_exit_destination(destination))
    } else {
        None
    }
}

/// A destination without `:` is a level name alone; with one, the level
/// name, a `:` and the entry name make up the destination again.
pub proof fn law_split_rejoins(s: Seq<char>)
    ensures
        !s.contains(':') ==> split_at_colon(s) == (s, Seq::<char>::empty()),
        s.contains(':') ==> split_at_colon(s).0 + seq![':'] + split_at_colon(s).1 == s,
        !split_at_colon(s).0.contains(':'),
    decreases s.len(),
{
    if s.len() > 0 {
        law_split_rejoins(s.drop_first());
        if s[0] == ':' {
            assert(s.contains(':')) by {
                assert(s[0] == ':');
            }
            assert(Seq::<char>::empty() + seq![':'] + s.drop_first() =~= s);
        } else {
            let (a, b) = split_at_colon(s.drop_first());
            if s.drop_first().contains(':') {
                let k = choose|k: int| 0 <= k < s.drop_first().len() && s.drop_first()[k] == ':';
                assert(s[k + 1] == ':');
                assert(seq![s[0]].add(a) + seq![':'] + b =~= seq![s[0]] + (a + seq![':'] + b));
                assert(seq![s[0]] + s.drop_first() =~= s);
            } else {
                assert(!s.contains(':')) by {
                    if s.contains(':') {
                        let k = choose|k: int| 0 <= k < s.len() && s[k] == ':';
                        assert(k > 0);
                        assert(s.drop_first()[k - 1] == ':');
                    }
                }
                assert(seq![s[0]].add(s.drop_first()) =~= s);
            }
            assert(!seq![s[0]].add(a).contains(':')) by {
                if seq![s[0]].add(a).contains(':') {
                    let k = choose|k: int| 0 <= k < seq![s[0]].add(a).len() && seq![s[0]].add(a)[k] == ':';
                    if k > 0 {
                        assert(a[k - 1] == ':');
                    }
                }
            }
        }
    }
}


/// How long, in microseconds, the screen takes to warp to another level.
pub const WARP_TIME_LIMIT_US: u64 = 1_500_000;

/// How fast, in thousandths of normal speed, the world runs while warping.
pub const WARP_TIME_SCALE_PERMILLE: u64 = 35;

/// A warp to another level under way: where it leads and how long it has
/// run, in microseconds.
#[derive(Debug, Clone)]
pub struct WarpState {
    pub warp_level_name: String,
    pub warp_level_entry_name: String,
    pub level_warping: bool,
    pub level_warp_timer_us: u64,
}

/// The world speed after the slow-motion key: normal speed goes to half,
/// half to a quarter, anything slower back to normal (in thousandths).
pub open spec fn next_scale(curr: u64) -> u64 {
    if curr >= 1000 { 500 } else if curr >= 500 { 250 } else { 1000 }
}

/// The next world speed of the slow-motion key.
pub fn next_time_scale(curr_permille: u64) -> (r: u64)
    ensures
        r == next_scale(curr_permille),
{
    if curr_permille >= 1000 {
        500
    } else if curr_permille >= 500 {
        250
    } else {
        1000
    }
}

/// Pressing the slow-motion key three times from normal speed returns to
/// normal speed, through half and a quarter speed.
pub proof fn law_time_scale_cycle()
    ensures
        next_scale(1000) == 500,
        next_scale(500) == 250,
        next_scale(250) == 1000,
        next_scale(next_scale(next_scale(1000))) == 1000,
{
}

/// `dt * scale / 1000`, the frame time at a world speed of `scale`
/// thousandths, held to the largest `u64`.
pub open spec fn scaled_time(dt: u64, scale: u64) -> int {
    let t = (dt * scale) / 1000;
    if t > u64::MAX { u64::MAX as int } else { t }
}

/// The frame time at a world speed of `scale` thousandths.
fn scale_time(dt: u64, scale: u64) -> (r: u64)
    ensures
        r == scaled_time(dt, scale),
{
    assert(0 <= (dt as int) * (scale as int) <= (u64::MAX as int) * (u64::MAX as int)) by (nonlinear_arith)
        requires
            0 <= dt <= u64::MAX,
            0 <= scale <= u64::MAX,
    ;
    let t: u128 = (dt as u128) * (scale as u128) / 1000;
    if t > u64::MAX as u128 {
        u64::MAX
    } else {
        t as u64
    }
}

impl WarpState {
    /// No warp.
    pub fn new() -> (r: Self)
        ensures
            r.warp_level_name@ == Seq::<char>::empty(),
            r.warp_level_entry_name@ == Seq::<char>::empty(),
            !r.level_warping,
            r.level_warp_timer_us == 0,
    {
        WarpState {
            warp_level_name: String::new(),
            warp_level_entry_name: String::new(),
            level_warping: false,
            level_warp_timer_us: 0,
        }
    }

    /// Starts a warp to `level_name` at `entry_name`; a warp to a named
    /// entry starts half way through.
    pub fn start_warp(&mut self, level_name: String, entry_name: String)
        ensures
            final(self).warp_level_name@ == level_name@,
            final(self).warp_level_entry_name@ == entry_name@,
            final(self).level_warping,
            final(self).level_warp_timer_us == (if entry_name@.len() == 0 { 0 } else { WARP_TIME_LIMIT_US / 2 }),
    {
        let empty_entry = entry_name.as_str().unicode_len() == 0;
        self.warp_level_name = level_name;
        self.warp_level_entry_name = entry_name;
        self.level_warping = true;
        self.level_warp_timer_us = 0;
        if !empty_entry {
            self.level_warp_timer_us = WARP_TIME_LIMIT_US / 2;
        }
    }

    /// The frame time the world runs by, for a frame of `dt` microseconds:
    /// while playing, a warp slows the world and runs its timer, and a warp
    /// that has run its course hands back the level and entry to load and
    /// ends; otherwise play runs at `play_time_scale` thousandths. Outside
    /// play the world runs at half speed.
    pub fn process_time_delta(&mut self, dt: u64, advance_world: bool, play_time_scale: u64) -> (r: (u64, Option<(String, String)>))
        ensures
            !advance_world ==> r.0 == dt / 2 && r.1 is None && final(self).level_warp_timer_us == old(self).level_warp_timer_us
                && final(self).level_warping == old(self).level_warping,
            advance_world && !old(self).level_warping ==> r.0 == scaled_time(dt, play_time_scale) && r.1 is None
                && final(self).level_warp_timer_us == old(self).level_warp_timer_us && !final(self).level_warping,
            advance_world && old(self).level_warping ==> r.0 == scaled_time(dt, WARP_TIME_SCALE_PERMILLE) && ({
                let t = if old(self).level_warp_timer_us + dt > u64::MAX { u64::MAX as int } else { old(self).level_warp_timer_us + dt };
                if t > WARP_TIME_LIMIT_US {
                    r.1 == Some((old(self).warp_level_name, old(self).warp_level_entry_name))
                        && final(self).level_warp_timer_us == 0 && !final(self).level_warping
                } else {
                    r.1 is None && final(self).level_warp_timer_us == t && final(self).level_warping
                }
            }),
            final(self).warp_level_name@ == old(self).warp_level_name@,
            final(self).warp_level_entry_name@ == old(self).warp_level_entry_name@,
    {
        if advance_world {
            if self.level_warping {
                self.level_warp_timer_us = if self.level_warp_timer_us > u64::MAX - dt { u64::MAX } else { self.level_warp_timer_us + dt };
                let scaled = scale_time(dt, WARP_TIME_SCALE_PERMILLE);
                if self.level_warp_timer_us > WARP_TIME_LIMIT_US {
                    let level = self.warp_level_name.clone();
                    let entry = self.warp_level_entry_name.clone();
                    self.level_warp_timer_us = 0;
                    self.level_warping = false;
                    (scaled, Some((level, entry)))
                } else {
                    (scaled, None)
                }
            } else {
                (scale_time(dt, play_time_scale), None)
            }
        } else {
            (dt / 2, None)
        }
    }
}

/// What entering a level leads to: the state shown, whether the main menu
/// opens, whether the music is dimmed, and a log line.
#[derive(Clone, Debug)]
pub struct LevelEntry {
    pub running_state: RunningState,
    pub open_menu: bool,
    pub dim_music: bool,
    pub log_entry: Option<String>,
}

/// The welcome text of a level entered from its start.
pub open spec fn enter_message(level_title: Seq<char>) -> Seq<char> {
    "Suri enters "@ + level_title + ".\r\n\r\n\r\n\r\nPress Meow to Continue..."@
}

/// What entering level `level_name` (titled `level_title`) at `entry_name`
/// leads to: the loading level plays under the main menu; a level entered
/// from its start shows its welcome dialog with the music dimmed; a level
/// entered at a named entry plays at once and logs the entry.
pub fn level_entry(level_name: &String, entry_name: &String, level_title: &String) -> (r: LevelEntry)
    ensures
        level_name@ == "loading"@ ==> r.running_state is Playing && r.open_menu && !r.dim_music && r.log_entry is None,
        level_name@ != "loading"@ && entry_name@.len() == 0 ==> !r.open_menu && r.dim_music && r.log_entry is None
            && (r.running_state matches RunningState::Dialog { msg, dialog_type, .. }
            && msg@ == enter_message(level_title@) && dialog_type == DialogType::LevelEntry),
        level_name@ != "loading"@ && entry_name@.len() != 0 ==> r.running_state is Playing && !r.open_menu
            && !r.dim_music && r.log_entry is Some && r.log_entry->0@ == "Entered "@ + level_title@,
{
    let loading = string_of("loading");
    if *level_name == loading {
        LevelEntry { running_state: RunningState::Playing, open_menu: true, dim_music: false, log_entry: None }
    } else if entry_name.as_str().unicode_len() == 0 {
        let mut msg = string_of("Suri enters ");
        msg.append(level_title.as_str());
        msg.append(".\r\n\r\n\r\n\r\nPress Meow to Continue...");
        LevelEntry { running_state: RunningState::level_dialog(msg), open_menu: false, dim_music: true, log_entry: None }
    } else {
        let mut log = string_of("Entered ");
        log.append(level_title.as_str());
        LevelEntry { running_state: RunningState::Playing, open_menu: false, dim_music: false, log_entry: Some(log) }
    }
}

} // verus!
