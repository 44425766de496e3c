use vstd::prelude::*;
use crate::random::random_below;
use crate::level::PlayerCharacter;

verus! {

pub const WALK_SET: u32 = 0;
pub const WALK_FRAMES: u32 = 6;
pub const JUMP_SET: u32 = 1;
pub const JUMP_FRAMES: u32 = 7;
pub const FALL_ONLY_SET: u32 = 2;
pub const FALL_ONLY_FRAMES: u32 = 4;
pub const IDLE_SET: u32 = 3;
pub const IDLE_FRAMES: u32 = 4;
pub const SIT_SET: u32 = 4;
pub const SIT_FRAMES: u32 = 5;

/// How many animation snapshots a character keeps.
pub const FRAME_HISTORY_LEN: usize = 50;

/// A frame of a character's animation as it was shown.
#[derive(Debug, Clone, Copy, PartialEq, Eq, Structural)]
pub struct AnimSnapshotInfo {
    pub frame_num: u32,
    pub anim_set: u32,
    pub facing_right: bool,
}

/// How a cat moves and is animated: its movement wishes, its jump, fall,
/// walk and idle states, and the sprite-sheet frame that shows them.
///
/// Times are in milliseconds. `anim_clock` runs at a hundred units per
/// tenth of a second (one per millisecond while idle or jumping, faster
/// while walking quickly); a frame advances when it passes its threshold.
#[derive(Debug, Clone, Copy, PartialEq, Eq, Structural)]
pub struct CharacterMotion {
    pub going_left: bool,
    pub going_right: bool,
    pub going_up: bool,
    pub going_down: bool,
    pub meowing: bool,
    pub facing_right: bool,
    pub anim_frame: u32,
    pub anim_set: u32,
    pub anim_clock: i64,
    pub in_jump: bool,
    pub jump_duration_ms: i64,
    pub jump_lift_time_ms: i64,
    pub jump_lift_time_min_ms: i64,
    pub jump_lift_time_max_ms: i64,
    pub since_stand_ms: i64,
    pub since_move_ms: i64,
    pub in_fall: bool,
    pub fall_anim_dir: i32,
    pub in_walk: bool,
    pub in_idle: bool,
    pub since_meow_ms: i64,
    pub since_warp_ms: i64,
}

/// A playable or computer-driven cat: who it is, whether it is under
/// control, its sprite sheet, where it stands in exits and portals, and how
/// it moves. Velocities are in hundredths of a physics unit per second.
#[derive(Debug, Clone)]
pub struct CharacterDisplayComponent {
    pub player_number: i32,
    pub player_char: PlayerCharacter,
    pub is_controlled: bool,
    pub is_controllable: bool,
    pub spritesheet_path: String,
    pub spritesheet_cols: u32,
    pub spritesheet_rows: u32,
    pub motion: CharacterMotion,
    pub in_exit: bool,
    pub in_portal: bool,
    pub exit_id: i32,
    pub portal_id: i32,
    pub speed_level: i32,
    pub input_enabled: bool,
    pub frame_history: Vec<AnimSnapshotInfo>,
}

/// The random numbers, each in `0..1000`, that an idle animation step may
/// use: the choice between standing and sitting, the length of the next
/// frame, whether to skip the blink frame, whether to sit down after a
/// standing cycle (or how long to stay seated), and whether to stand up.
#[derive(Debug, Clone, Copy)]
pub struct IdleRolls {
    pub sit_choice: u32,
    pub pause: u32,
    pub blink: u32,
    pub wrap: u32,
    pub rise: u32,
}

impl IdleRolls {
    pub open spec fn valid(self) -> bool {
        self.sit_choice < 1000 && self.pause < 1000 && self.blink < 1000 && self.wrap < 1000 && self.rise < 1000
    }
}

/// Whether the walk animation shows: the character moves on its own, or
/// its body moves faster than half a unit per second (horizontally, or on
/// either axis in an overhead level).
pub open spec fn shows_movement(moving: bool, vx: i32, vy: i32, overhead: bool) -> bool {
    moving || abs_of(vx) > 50 || (overhead && abs_of(vy) > 50)
}

/// The walk frame after `f`: one back or one on, wrapping around the walk
/// frames.
pub open spec fn walk_frame_step(f: u32, backwards: bool) -> u32 {
    if backwards {
        if f == 0 { (WALK_FRAMES - 1) as u32 } else { (f - 1) as u32 }
    } else {
        if f + 1 > WALK_FRAMES - 1 { 0 } else { (f + 1) as u32 }
    }
}

/// `a + b` for a timer, held at `i64::MAX`.
pub open spec fn timer_add(a: i64, b: u32) -> i64 {
    if a + b > i64::MAX { i64::MAX } else { (a + b) as i64 }
}

pub open spec fn abs_of(v: i32) -> int {
    if v < 0 { -(v as int) } else { v as int }
}

/// How fast the walk animation runs for a body moving at `(vx, vy)`: the
/// speed (horizontal, or both axes in an overhead level) held to
/// `200..=3000`.
pub open spec fn walk_rate(vx: i32, vy: i32, overhead: bool) -> int {
    let s = if overhead { abs_of(vx) + abs_of(vy) } else { abs_of(vx) };
    if s < 200 { 200 } else if s > 3000 { 3000 } else { s }
}

impl CharacterMotion {
    /// No jump, fall, walk or idle state.
    pub open spec fn cleared(self) -> Self {
        CharacterMotion { in_jump: false, in_fall: false, in_walk: false, in_idle: false, ..self }
    }

    /// The state after a jump starts.
    pub open spec fn jumped(self) -> Self {
        CharacterMotion {
            anim_set: JUMP_SET,
            anim_frame: 0,
            anim_clock: 0,
            in_jump: true,
            jump_duration_ms: 0,
            since_stand_ms: 50_000,
            jump_lift_time_ms: if self.jump_lift_time_ms < self.jump_lift_time_min_ms {
                self.jump_lift_time_min_ms
            } else {
                self.jump_lift_time_ms
            },
            ..self.cleared()
        }
    }

    /// The state after a fall starts: a fall out of a jump plays the jump
    /// frames on; one from standing plays them back from the sixth.
    pub open spec fn fell(self) -> Self {
        CharacterMotion {
            anim_frame: if self.in_jump { self.anim_frame } else { 6 },
            fall_anim_dir: if self.in_jump { 1i32 } else { -1i32 },
            anim_set: JUMP_SET,
            anim_clock: 0,
            in_fall: true,
            jump_duration_ms: 0,
            ..self.cleared()
        }
    }

    /// The state after landing.
    pub open spec fn walked(self) -> Self {
        CharacterMotion {
            anim_set: WALK_SET,
            anim_frame: 0,
            anim_clock: 0,
            in_walk: true,
            jump_duration_ms: 0,
            since_stand_ms: 0,
            ..self.cleared()
        }
    }

    /// The state after going idle.
    pub open spec fn idled(self) -> Self {
        CharacterMotion {
            anim_set: IDLE_SET,
            anim_frame: 0,
            anim_clock: 0,
            in_idle: true,
            jump_duration_ms: 0,
            since_stand_ms: 0,
            fall_anim_dir: 1,
            jump_lift_time_ms: self.jump_lift_time_min_ms,
            ..self.cleared()
        }
    }

    /// On the ground, or left it less than 150 ms ago.
    pub open spec fn stood_recently(self) -> bool {
        (!self.in_jump && !self.in_fall) || self.since_stand_ms < 150
    }

    /// A jump step: the jump lifts for its lift time, then stops rising.
    pub open spec fn jump_stepped(self, dt: u32) -> Self {
        if self.jump_duration_ms < self.jump_lift_time_ms {
            CharacterMotion { jump_duration_ms: timer_add(self.jump_duration_ms, dt), ..self }
        } else {
            CharacterMotion { going_up: false, ..self }
        }
    }

    /// A fall step: the fall timers run, and a jump wish just after leaving
    /// the ground starts a jump.
    pub open spec fn fall_stepped(self, dt: u32) -> Self {
        let s = CharacterMotion {
            jump_duration_ms: timer_add(self.jump_duration_ms, dt),
            since_stand_ms: timer_add(self.since_stand_ms, dt),
            ..self
        };
        if s.going_up && s.stood_recently() { s.jumped() } else { s }
    }

    /// The lift time of a jump taken from a walk: a third longer than the
    /// last one (1.33 times, rounded toward zero), at most the maximum.
    pub open spec fn longer_lift(self) -> i64 {
        let p = self.jump_lift_time_ms * 133;
        let l = if p >= 0 { p / 100 } else { -((-p) / 100) };
        if l > self.jump_lift_time_max_ms { self.jump_lift_time_max_ms } else { l as i64 }
    }

    /// A walk step: a jump wish jumps, each jump from a walk lifting longer;
    /// otherwise the wish is dropped and the lift time reset.
    pub open spec fn walk_stepped(self) -> Self {
        if self.going_up && self.jump_duration_ms >= 0 && self.stood_recently() {
            CharacterMotion { jump_lift_time_ms: self.longer_lift(), ..self }.jumped()
        } else {
            CharacterMotion {
                going_up: false,
                jump_lift_time_ms: if self.jump_duration_ms >= 0 { 0 } else { self.jump_lift_time_ms },
                ..self
            }
        }
    }

    /// An idle step: a jump wish jumps when it can and is dropped otherwise.
    pub open spec fn idle_stepped(self) -> Self {
        if self.going_up {
            if self.jump_duration_ms >= 0 && self.stood_recently() {
                CharacterMotion { jump_lift_time_ms: 0, ..self }.jumped()
            } else {
                CharacterMotion { going_up: false, ..self }
            }
        } else {
            self
        }
    }

    /// The jump animation: a frame every 200 units; past the last jump
    /// frame the fall starts, holding the last frame.
    pub open spec fn jump_animated(self, dt: u32) -> Self {
        let s = CharacterMotion { anim_clock: timer_add(self.anim_clock, dt), ..self };
        if s.anim_clock > 200 {
            let f = (s.anim_frame + 1) as u32;
            let s2 = CharacterMotion { anim_frame: f, ..s };
            let s3 = if f > JUMP_FRAMES - 1 {
                CharacterMotion { anim_frame: (JUMP_FRAMES - 1) as u32, ..s2.fell() }
            } else {
                s2
            };
            CharacterMotion { anim_clock: 0, ..s3 }
        } else {
            s
        }
    }

    /// The fall animation: backwards down to the third frame every 130
    /// units and then forwards, or forwards up to the last jump frame every
    /// 200 units.
    pub open spec fn fall_animated(self, dt: u32) -> Self {
        let s = CharacterMotion { anim_clock: timer_add(self.anim_clock, dt), ..self };
        if s.fall_anim_dir < 0 {
            if s.anim_clock > 130 {
                let f = (s.anim_frame - 1) as u32;
                if f <= 3 {
                    CharacterMotion { anim_frame: 3, fall_anim_dir: 1, anim_clock: 0, ..s }
                } else {
                    CharacterMotion { anim_frame: f, anim_clock: 0, ..s }
                }
            } else {
                s
            }
        } else if s.anim_clock > 200 {
            let f = (s.anim_frame + 1) as u32;
            CharacterMotion {
                anim_frame: if f >= JUMP_FRAMES - 1 { (JUMP_FRAMES - 1) as u32 } else { f },
                anim_clock: 0,
                ..s
            }
        } else {
            s
        }
    }

    /// The walk animation: the clock runs with the walking speed; every 150
    /// units the frame moves on, backwards when the body moves against the
    /// way the character faces.
    pub open spec fn walk_animated(self, dt: u32, vx: i32, vy: i32, facing_right: bool, overhead: bool) -> Self {
        let clock = self.anim_clock + (dt as int) * walk_rate(vx, vy, overhead) / 200;
        let f = (self.anim_frame % WALK_FRAMES) as u32;
        let c = if clock > i64::MAX { i64::MAX } else { clock as i64 };
        let fire = c > 150;
        CharacterMotion {
            anim_set: WALK_SET,
            anim_frame: if fire { walk_frame_step(f, (vx < 0 && facing_right) || (vx > 0 && !facing_right)) } else { f },
            anim_clock: if fire { 0 } else { c },
            ..self
        }
    }

    /// The idle animation after a second without moving: standing or
    /// sitting (chosen when idling starts), blinking now and then, sitting
    /// down now and then after a standing cycle and getting up now and
    /// then after a seated pause; each frame lasts a random time.
    pub open spec fn idle_animated(self, dt: u32, r: IdleRolls) -> Self {
        let s = CharacterMotion { since_move_ms: timer_add(self.since_move_ms, dt), ..self };
        if s.since_move_ms < 1000 {
            s
        } else {
            s.idle_ticked(dt, r)
        }
    }

    /// One tick of the idle animation once idling has begun: the frame moves
    /// on when its time is up.
    #[verifier::opaque]
    pub open spec fn idle_ticked(self, dt: u32, r: IdleRolls) -> Self {
        let s1 = self.idle_started(r);
        let s2 = CharacterMotion { anim_clock: timer_add(s1.anim_clock, dt), ..s1 };
        if s2.anim_clock <= 200 {
            s2
        } else {
            s2.idle_frame_moved(r).idle_blinked(r).idle_wrapped(r)
        }
    }

    /// Idling starts, standing or sitting, unless it already has.
    #[verifier::opaque]
    pub open spec fn idle_started(self, r: IdleRolls) -> Self {
        if self.anim_set != IDLE_SET && self.anim_set != SIT_SET {
            CharacterMotion { anim_set: if r.sit_choice < 660 { IDLE_SET } else { SIT_SET }, ..self.idled() }
        } else {
            self
        }
    }

    /// The next idle frame: a cat getting up counts its frames down and
    /// stands once up; otherwise the frame counts up. The frame lasts a
    /// random time.
    #[verifier::opaque]
    pub open spec fn idle_frame_moved(self, r: IdleRolls) -> Self {
        let rising = self.anim_set == SIT_SET && self.fall_anim_dir == -1;
        let up = rising && self.anim_frame == 0;
        CharacterMotion {
            anim_frame: if !rising { (self.anim_frame + 1) as u32 } else if up { self.anim_frame } else { (self.anim_frame - 1) as u32 },
            anim_set: if up { IDLE_SET } else { self.anim_set },
            fall_anim_dir: if up { 1 } else { self.fall_anim_dir },
            anim_clock: if rising { -((r.pause / 10) as int) as i64 } else { -((r.pause * 35 / 100) as int) as i64 },
            ..self
        }
    }

    /// A standing cat skips its blink frame now and then.
    #[verifier::opaque]
    pub open spec fn idle_blinked(self, r: IdleRolls) -> Self {
        CharacterMotion {
            anim_frame: if self.anim_set == IDLE_SET && self.anim_frame == 2 && r.blink > 400 { 3 } else { self.anim_frame },
            ..self
        }
    }

    /// After a standing cycle the cat starts over, sitting down now and
    /// then; a seated cat holds its last frame for a random time and now
    /// and then gets up.
    #[verifier::opaque]
    pub open spec fn idle_wrapped(self, r: IdleRolls) -> Self {
        if self.anim_set == IDLE_SET && self.anim_frame > IDLE_FRAMES - 1 {
            CharacterMotion { anim_frame: 0, anim_set: if r.wrap > 950 { SIT_SET } else { IDLE_SET }, ..self }
        } else if self.anim_set == SIT_SET && self.anim_frame > SIT_FRAMES - 1 {
            CharacterMotion {
                anim_frame: (SIT_FRAMES - 1) as u32,
                anim_clock: -((r.wrap * 75 / 100) as int) as i64,
                fall_anim_dir: if r.rise > 950 { -1i32 } else { self.fall_anim_dir },
                ..self
            }
        } else {
            self
        }
    }

    /// Faces the way the character moves; moving resets the time since it
    /// last moved. Gives the facing and whether it moves.
    pub open spec fn faced(self) -> (Self, bool) {
        if self.going_left {
            (CharacterMotion { facing_right: false, since_move_ms: 0, ..self }, true)
        } else if self.going_right {
            (CharacterMotion { facing_right: true, since_move_ms: 0, ..self }, true)
        } else {
            (self, false)
        }
    }

    /// The animation step for a body moving at `(vx, vy)`.
    pub open spec fn animated(self, dt: u32, vx: i32, vy: i32, overhead: bool, r: IdleRolls) -> Self {
        let (s, moving) = self.faced();
        if s.in_jump {
            s.jump_animated(dt)
        } else if s.in_fall {
            s.fall_animated(dt)
        } else if shows_movement(moving, vx, vy, overhead) {
            s.walk_animated(dt, vx, vy, s.facing_right, overhead)
        } else {
            s.idle_animated(dt, r)
        }
    }

    /// The step of the movement state the character is in.
    pub open spec fn state_stepped(self, dt: u32) -> Self {
        if self.in_jump {
            self.jump_stepped(dt)
        } else if self.in_fall {
            self.fall_stepped(dt)
        } else if self.in_walk {
            self.walk_stepped()
        } else if self.in_idle {
            self.idle_stepped()
        } else {
            self
        }
    }

    /// The meow and warp timers run; a meow is dropped while less than
    /// 150 ms have passed since it began.
    pub open spec fn timers_run(self, dt: u32) -> Self {
        let m = timer_add(self.since_meow_ms, dt);
        CharacterMotion {
            since_meow_ms: m,
            meowing: self.meowing && !(m < 150),
            since_warp_ms: timer_add(self.since_warp_ms, dt),
            ..self
        }
    }

    /// One update in a platform level.
    pub open spec fn updated(self, dt: u32, vx: i32, vy: i32, r: IdleRolls) -> Self {
        self.timers_run(dt).state_stepped(dt).animated(dt, vx, vy, false, r)
    }

    /// One update in an overhead level.
    pub open spec fn updated_overhead(self, dt: u32, vx: i32, vy: i32, r: IdleRolls) -> Self {
        let s = self.timers_run(dt);
        let w = if !s.in_walk && !s.in_idle { s.walked() } else { s };
        w.animated(dt, vx, vy, true, r)
    }

    /// An update can run without overflow: frames can still count up, and a
    /// fall animation that counts down has a frame to count down from.
    pub open spec fn anim_ready(self) -> bool {
        &&& self.anim_frame < u32::MAX
        &&& (!self.in_jump && self.in_fall && self.fall_anim_dir < 0 ==> self.anim_frame > 0)
    }

    /// The state after reporting whether the character stands on
    /// something.
    pub open spec fn standing_set(self, is_standing: bool) -> Self {
        if is_standing {
            if self.in_jump || self.in_fall { self.walked() } else { self }
        } else {
            if !self.in_jump && !self.in_fall { self.fell() } else { self }
        }
    }

}


/// The walk animation rate for a body moving at `(vx, vy)`.
fn walk_rate_of(vx: i32, vy: i32, overhead: bool) -> (r: i64)
    ensures
        r == walk_rate(vx, vy, overhead),
        200 <= r <= 3000,
{
    let ax: i64 = if vx < 0 { -(vx as i64) } else { vx as i64 };
    let ay: i64 = if vy < 0 { -(vy as i64) } else { vy as i64 };
    let speed: i64 = if overhead { ax + ay } else { ax };
    if speed < 200 { 200 } else if speed > 3000 { 3000 } else { speed }
}

/// The walk frame after `f`.
fn next_walk_frame(f: u32, backwards: bool) -> (r: u32)
    requires
        f < WALK_FRAMES,
    ensures
        r == walk_frame_step(f, backwards),
{
    if backwards {
        if f == 0 { WALK_FRAMES - 1 } else { f - 1 }
    } else {
        if f + 1 > WALK_FRAMES - 1 { 0 } else { f + 1 }
    }
}

/// The motion of a new character.
pub open spec fn initial_motion() -> CharacterMotion {
    CharacterMotion {
        going_left: false,
        going_right: false,
        going_up: false,
        going_down: false,
        meowing: false,
        facing_right: true,
        anim_frame: 3,
        anim_set: JUMP_SET,
        anim_clock: 0,
        in_jump: false,
        jump_duration_ms: 0,
        jump_lift_time_ms: 125,
        jump_lift_time_min_ms: 125,
        jump_lift_time_max_ms: 300,
        since_stand_ms: 500,
        since_move_ms: 0,
        in_fall: true,
        fall_anim_dir: 1,
        in_walk: false,
        in_idle: false,
        since_meow_ms: 1000,
        since_warp_ms: 0,
    }
}

/// Adds `dt` to a timer, holding it at `i64::MAX`.
fn add_time(a: i64, dt: u32) -> (r: i64)
    ensures
        r == timer_add(a, dt),
{
    if a > i64::MAX - dt as i64 {
        i64::MAX
    } else {
        a + dt as i64
    }
}



impl CharacterMotion {
    /// The motion of a new character: facing right, falling with the fourth
    /// jump frame shown.
    pub fn new() -> (r: CharacterMotion)
        ensures
            r == initial_motion(),
            !r.going_left && !r.going_right && !r.going_up && !r.going_down,
            !r.meowing,
            r.facing_right,
            r.anim_frame == 3,
            r.anim_set == JUMP_SET,
            r.anim_clock == 0,
            !r.in_jump,
            r.jump_duration_ms == 0,
            r.jump_lift_time_ms == 125,
            r.jump_lift_time_min_ms == 125,
            r.jump_lift_time_max_ms == 300,
            r.since_stand_ms == 500,
            r.since_move_ms == 0,
            r.in_fall,
            r.fall_anim_dir == 1,
            !r.in_walk,
            !r.in_idle,
            r.since_meow_ms == 1000,
            r.since_warp_ms == 0,
    {
        CharacterMotion {
            going_left: false,
            going_right: false,
            going_up: false,
            going_down: false,
            meowing: false,
            facing_right: true,
            anim_frame: 3,
            anim_set: JUMP_SET,
            anim_clock: 0,
            in_jump: false,
            jump_duration_ms: 0,
            jump_lift_time_ms: 125,
            jump_lift_time_min_ms: 125,
            jump_lift_time_max_ms: 300,
            since_stand_ms: 500,
            since_move_ms: 0,
            in_fall: true,
            fall_anim_dir: 1,
            in_walk: false,
            in_idle: false,
            since_meow_ms: 1000,
            since_warp_ms: 0,
        }
    }

    /// Leaves every movement state.
    pub fn clear_anim_state(&mut self)
        ensures
            *final(self) == old(self).cleared(),
    {
        self.in_jump = false;
        self.in_fall = false;
        self.in_walk = false;
        self.in_idle = false;
    }

    /// Starts a jump.
    pub fn start_jump(&mut self)
        ensures
            *final(self) == old(self).jumped(),
    {
        self.anim_set = JUMP_SET;
        self.anim_frame = 0;
        self.anim_clock = 0;
        self.clear_anim_state();
        self.in_jump = true;
        self.jump_duration_ms = 0;
        self.since_stand_ms = 50_000;
        if self.jump_lift_time_ms < self.jump_lift_time_min_ms {
            self.jump_lift_time_ms = self.jump_lift_time_min_ms;
        }
    }

    /// One step of a jump.
    pub fn process_jump(&mut self, dt: u32)
        ensures
            *final(self) == old(self).jump_stepped(dt),
    {
        if self.jump_duration_ms < self.jump_lift_time_ms {
            self.jump_duration_ms = add_time(self.jump_duration_ms, dt);
        } else {
            self.going_up = false;
        }
    }

    /// Starts a fall.
    pub fn start_fall(&mut self)
        ensures
            *final(self) == old(self).fell(),
    {
        if self.in_jump {
            self.fall_anim_dir = 1;
        } else {
            self.anim_frame = 6;
            self.fall_anim_dir = -1;
        }
        self.anim_set = JUMP_SET;
        self.anim_clock = 0;
        self.clear_anim_state();
        self.in_fall = true;
        self.jump_duration_ms = 0;
    }

    /// One step of a fall.
    pub fn process_fall(&mut self, dt: u32)
        ensures
            *final(self) == old(self).fall_stepped(dt),
    {
        self.jump_duration_ms = add_time(self.jump_duration_ms, dt);
        self.since_stand_ms = add_time(self.since_stand_ms, dt);
        if self.going_up && self.recent_stand() {
            self.start_jump();
        }
    }

    /// Lands and starts walking.
    pub fn start_walk(&mut self)
        ensures
            *final(self) == old(self).walked(),
    {
        self.anim_set = WALK_SET;
        self.anim_frame = 0;
        self.anim_clock = 0;
        self.clear_anim_state();
        self.in_walk = true;
        self.jump_duration_ms = 0;
        self.since_stand_ms = 0;
    }

    /// One step of a walk.
    pub fn process_walk(&mut self)
        ensures
            *final(self) == old(self).walk_stepped(),
    {
        if self.going_up {
            if self.jump_duration_ms >= 0 && self.recent_stand() {
                let l: i128 = (self.jump_lift_time_ms as i128) * 133 / 100;
                self.jump_lift_time_ms = if l > self.jump_lift_time_max_ms as i128 {
                    self.jump_lift_time_max_ms
                } else {
                    l as i64
                };
                self.start_jump();
                return;
            }
        }
        self.going_up = false;
        if self.jump_duration_ms >= 0 {
            self.jump_lift_time_ms = 0;
        }
    }

    /// One step of an overhead walk: the character always walks.
    pub fn process_walk_overhead(&mut self)
        ensures
            *final(self) == (if !old(self).in_walk && !old(self).in_idle { old(self).walked() } else { *old(self) }),
    {
        if !self.in_walk && !self.in_idle {
            self.start_walk();
        }
    }

    /// Goes idle.
    pub fn start_idle(&mut self)
        ensures
            *final(self) == old(self).idled(),
    {
        self.anim_set = IDLE_SET;
        self.anim_frame = 0;
        self.anim_clock = 0;
        self.clear_anim_state();
        self.in_idle = true;
        self.jump_duration_ms = 0;
        self.since_stand_ms = 0;
        self.fall_anim_dir = 1;
        self.jump_lift_time_ms = self.jump_lift_time_min_ms;
    }

    /// One idle step.
    pub fn process_idle(&mut self)
        ensures
            *final(self) == old(self).idle_stepped(),
    {
        if self.going_up {
            if self.jump_duration_ms >= 0 && self.recent_stand() {
                self.jump_lift_time_ms = 0;
                self.start_jump();
            } else {
                self.going_up = false;
            }
        }
    }

    /// Whether the character stands, or left the ground less than 150 ms
    /// ago.
    pub fn recent_stand(&self) -> (r: bool)
        ensures
            r == self.stood_recently(),
    {
        (!self.in_jump && !self.in_fall) || self.since_stand_ms < 150
    }
}


impl CharacterMotion {
    /// The jump animation step.
    fn process_jump_animation(&mut self, dt: u32)
        requires
            old(self).anim_frame < u32::MAX,
        ensures
            *final(self) == old(self).jump_animated(dt),
    {
        self.anim_clock = add_time(self.anim_clock, dt);
        if self.anim_clock > 200 {
            self.anim_frame = self.anim_frame + 1;
            if self.anim_frame > JUMP_FRAMES - 1 {
                self.start_fall();
                self.anim_frame = JUMP_FRAMES - 1;
            }
            self.anim_clock = 0;
        }
    }

    /// The fall animation step.
    fn process_fall_animation(&mut self, dt: u32)
        requires
            old(self).anim_frame < u32::MAX,
            old(self).fall_anim_dir < 0 ==> old(self).anim_frame > 0,
        ensures
            *final(self) == old(self).fall_animated(dt),
    {
        self.anim_clock = add_time(self.anim_clock, dt);
        if self.fall_anim_dir < 0 {
            if self.anim_clock > 130 {
                self.anim_frame = self.anim_frame - 1;
                if self.anim_frame <= 3 {
                    self.anim_frame = 3;
                    self.fall_anim_dir = 1;
                }
                self.anim_clock = 0;
            }
        } else {
            if self.anim_clock > 200 {
                self.anim_frame = self.anim_frame + 1;
                if self.anim_frame >= JUMP_FRAMES - 1 {
                    self.anim_frame = JUMP_FRAMES - 1;
                }
                self.anim_clock = 0;
            }
        }
    }

    /// The walk animation step for a body moving at `(vx, vy)`.
    fn process_walk_animation(&mut self, dt: u32, vx: i32, vy: i32, facing_right: bool, overhead: bool)
        ensures
            *final(self) == old(self).walk_animated(dt, vx, vy, facing_right, overhead),
    {
        self.anim_set = WALK_SET;
        self.anim_frame = self.anim_frame % WALK_FRAMES;
        let rate = walk_rate_of(vx, vy, overhead);
        assert(0 <= (dt as int) * (rate as int) <= 0xffff_ffff * 3000) by (nonlinear_arith)
            requires
                dt <= 0xffff_ffff,
                200 <= rate <= 3000,
        ;
        let clock: i128 = self.anim_clock as i128 + (dt as i128) * (rate as i128) / 200;
        self.anim_clock = if clock > i64::MAX as i128 { i64::MAX } else { clock as i64 };
        if self.anim_clock > 150 {
            self.anim_clock = 0;
            self.anim_frame = next_walk_frame(self.anim_frame, (vx < 0 && facing_right) || (vx > 0 && !facing_right));
        }
    }

    /// The idle animation step, with its random numbers given.
    fn process_idle_animation(&mut self, dt: u32, r: IdleRolls)
        requires
            old(self).anim_frame < u32::MAX,
            r.valid(),
        ensures
            *final(self) == old(self).idle_animated(dt, r),
    {
        self.since_move_ms = add_time(self.since_move_ms, dt);
        if self.since_move_ms >= 1000 {
            self.idle_tick(dt, r);
        }
    }

    fn idle_tick(&mut self, dt: u32, r: IdleRolls)
        requires
            old(self).anim_frame < u32::MAX,
            r.valid(),
        ensures
            *final(self) == old(self).idle_ticked(dt, r),
    {
        proof {
            reveal(CharacterMotion::idle_ticked);
        }
        let ghost s0 = *self;
        self.idle_start(r);
        let ghost s1 = *self;
        self.anim_clock = add_time(self.anim_clock, dt);
        let ghost s2 = *self;
        assert(s2 == CharacterMotion { anim_clock: timer_add(s1.anim_clock, dt), ..s1 });
        if self.anim_clock > 200 {
            self.idle_next_frame(r);
            self.idle_blink(r);
            self.idle_wrap(r);
        }
    }

    fn idle_start(&mut self, r: IdleRolls)
        ensures
            *final(self) == old(self).idle_started(r),
            final(self).anim_frame <= old(self).anim_frame,
    {
        proof {
            reveal(CharacterMotion::idle_started);
        }
        if self.anim_set != IDLE_SET && self.anim_set != SIT_SET {
            self.start_idle();
            if r.sit_choice < 660 {
                self.anim_set = IDLE_SET;
            } else {
                self.anim_set = SIT_SET;
            }
        }
    }

    fn idle_blink(&mut self, r: IdleRolls)
        ensures
            *final(self) == old(self).idle_blinked(r),
    {
        proof {
            reveal(CharacterMotion::idle_blinked);
        }
        if self.anim_set == IDLE_SET && self.anim_frame == 2 {
            if r.blink > 400 {
                self.anim_frame = 3;
            }
        }
    }

    fn idle_next_frame(&mut self, r: IdleRolls)
        requires
            old(self).anim_frame < u32::MAX,
            r.valid(),
        ensures
            *final(self) == old(self).idle_frame_moved(r),
    {
        proof {
            reveal(CharacterMotion::idle_frame_moved);
        }
        if self.anim_set == SIT_SET && self.fall_anim_dir == -1 {
            if self.anim_frame > 0 {
                self.anim_frame = self.anim_frame - 1;
            } else {
                self.anim_set = IDLE_SET;
                self.fall_anim_dir = 1;
            }
            self.anim_clock = -((r.pause / 10) as i64);
        } else {
            self.anim_frame = self.anim_frame + 1;
            self.anim_clock = -((r.pause * 35 / 100) as i64);
        }
    }

    fn idle_wrap(&mut self, r: IdleRolls)
        requires
            r.valid(),
        ensures
            *final(self) == old(self).idle_wrapped(r),
    {
        proof {
            reveal(CharacterMotion::idle_wrapped);
        }
        if self.anim_set == IDLE_SET && self.anim_frame > IDLE_FRAMES - 1 {
            self.anim_frame = 0;
            if r.wrap > 950 {
                self.anim_set = SIT_SET;
            }
        } else if self.anim_set == SIT_SET && self.anim_frame > SIT_FRAMES - 1 {
            self.anim_frame = SIT_FRAMES - 1;
            self.anim_clock = -((r.wrap * 75 / 100) as i64);
            if r.rise > 950 {
                self.fall_anim_dir = -1;
            }
        }
    }
}


impl CharacterMotion {
    /// Faces the way the character moves; returns whether it moves.
    fn process_facing_moving(&mut self) -> (r: bool)
        ensures
            (*final(self), r) == old(self).faced(),
    {
        let mut is_moving = false;
        if self.going_left {
            self.facing_right = false;
            is_moving = true;
        } else if self.going_right {
            self.facing_right = true;
            is_moving = true;
        }
        if is_moving {
            self.since_move_ms = 0;
        }
        is_moving
    }

    /// The animation step for a body moving at `(vx, vy)`.
    fn update_animation(&mut self, dt: u32, vx: i32, vy: i32, overhead: bool, r: IdleRolls)
        requires
            old(self).anim_ready(),
            r.valid(),
        ensures
            *final(self) == old(self).animated(dt, vx, vy, overhead, r),
    {
        let is_moving = self.process_facing_moving();
        if self.in_jump {
            self.process_jump_animation(dt);
        } else if self.in_fall {
            self.process_fall_animation(dt);
        } else if is_moving || abs_i32(vx) > 50 || (overhead && abs_i32(vy) > 50) {
            let facing_right = self.facing_right;
            self.process_walk_animation(dt, vx, vy, facing_right, overhead);
        } else {
            self.process_idle_animation(dt, r);
        }
    }

    /// The meow and warp timers run.
    fn run_timers(&mut self, dt: u32)
        ensures
            *final(self) == old(self).timers_run(dt),
    {
        self.since_meow_ms = add_time(self.since_meow_ms, dt);
        if self.meowing {
            if self.since_meow_ms < 150 {
                self.meowing = false;
            }
        }
        self.since_warp_ms = add_time(self.since_warp_ms, dt);
    }

    /// The step of the movement state the character is in.
    fn process_state(&mut self, dt: u32)
        ensures
            *final(self) == old(self).state_stepped(dt),
    {
        if self.in_jump {
            self.process_jump(dt);
        } else if self.in_fall {
            self.process_fall(dt);
        } else if self.in_walk {
            self.process_walk();
        } else if self.in_idle {
            self.process_idle();
        }
    }

    /// One update in a platform level, with the random numbers of the idle
    /// animation given.
    pub fn update_with_rolls(&mut self, dt: u32, vx: i32, vy: i32, r: IdleRolls)
        requires
            old(self).anim_ready(),
            r.valid(),
        ensures
            *final(self) == old(self).updated(dt, vx, vy, r),
    {
        self.run_timers(dt);
        self.process_state(dt);
        self.update_animation(dt, vx, vy, false, r);
    }

    /// One update in an overhead level, with the random numbers of the idle
    /// animation given.
    pub fn update_overhead_with_rolls(&mut self, dt: u32, vx: i32, vy: i32, r: IdleRolls)
        requires
            old(self).anim_ready(),
            r.valid(),
        ensures
            *final(self) == old(self).updated_overhead(dt, vx, vy, r),
    {
        self.run_timers(dt);
        self.process_walk_overhead();
        self.update_animation(dt, vx, vy, true, r);
    }

    /// Reports whether the character stands on something: standing ends a
    /// jump or fall, losing the ground starts a fall.
    pub fn set_standing(&mut self, is_standing: bool)
        ensures
            *final(self) == old(self).standing_set(is_standing),
            is_standing ==> !final(self).in_jump && !final(self).in_fall,
            !is_standing ==> final(self).in_jump || final(self).in_fall,
    {
        if is_standing {
            if self.in_jump || self.in_fall {
                self.start_walk();
            }
        } else {
            if !self.in_jump && !self.in_fall {
                self.start_fall();
            }
        }
    }
}

fn abs_i32(v: i32) -> (r: i64)
    ensures
        r == abs_of(v),
{
    if v < 0 { -(v as i64) } else { v as i64 }
}


/// The history after a snapshot is recorded: the oldest snapshots go so
/// that, with the new one, at most 50 remain.
pub open spec fn history_pushed(h: Seq<AnimSnapshotInfo>, s: AnimSnapshotInfo) -> Seq<AnimSnapshotInfo> {
    (if h.len() >= FRAME_HISTORY_LEN { h.skip(h.len() - (FRAME_HISTORY_LEN - 1)) } else { h }).push(s)
}

/// The snapshot of the frame a character shows.
pub open spec fn snapshot_of(m: CharacterMotion) -> AnimSnapshotInfo {
    AnimSnapshotInfo { frame_num: m.anim_frame, anim_set: m.anim_set, facing_right: m.facing_right }
}

/// Records a snapshot, dropping the oldest ones beyond the history's length.
pub fn push_snapshot(history: &mut Vec<AnimSnapshotInfo>, snap: AnimSnapshotInfo)
    ensures
        final(history)@ == history_pushed(old(history)@, snap),
{
    let ghost h0 = history@;
    while history.len() >= FRAME_HISTORY_LEN
        invariant
            history@.len() <= h0.len(),
            history@.len() == h0.len() || history@.len() >= FRAME_HISTORY_LEN - 1,
            history@ == h0.skip(h0.len() - history@.len()),
        decreases history@.len(),
    {
        history.remove(0);
        assert(history@ =~= h0.skip(h0.len() - history@.len()));
    }
    proof {
        if h0.len() >= FRAME_HISTORY_LEN {
            assert(history@.len() == FRAME_HISTORY_LEN - 1);
        } else {
            assert(history@ =~= h0.skip(0));
            assert(h0.skip(0) =~= h0);
        }
    }
    history.push(snap);
}

/// The random numbers of one idle animation step.
fn draw_idle_rolls() -> (r: IdleRolls)
    ensures
        r.valid(),
{
    IdleRolls {
        sit_choice: random_below(1000),
        pause: random_below(1000),
        blink: random_below(1000),
        wrap: random_below(1000),
        rise: random_below(1000),
    }
}

/// A move amount scaled by speed level: 120 % at level 3, 110 % at 2, 100 %
/// at 1 and 90 % otherwise.
pub open spec fn speed_scaled(level: i32, base: int) -> int {
    if level == 3 { trunc_div(base * 120, 100) } else if level == 2 { trunc_div(base * 110, 100) } else if level == 1 { base } else { trunc_div(base * 90, 100) }
}

/// Division rounding toward zero, as Rust's `/` on integers.
pub open spec fn trunc_div(a: int, b: int) -> int {
    if a >= 0 { a / b } else { -((-a) / b) }
}

impl CharacterDisplayComponent {
    /// A new character drawn from the sheet at `char_img`: controlled,
    /// outside exits and portals, at speed level 0.
    pub fn new(char_img: &String, player_char: PlayerCharacter) -> (r: CharacterDisplayComponent)
        ensures
            r.player_number == 0,
            r.player_char == player_char,
            r.is_controlled,
            r.is_controllable,
            r.spritesheet_path@ == char_img@,
            r.spritesheet_cols == (match player_char { PlayerCharacter::Suri => 10u32, PlayerCharacter::Milo => 8u32 }),
            r.spritesheet_rows == 10,
            r.motion == initial_motion(),
            !r.in_exit,
            !r.in_portal,
            r.exit_id == -1,
            r.portal_id == -1,
            r.speed_level == 0,
            r.input_enabled,
            r.frame_history@ == Seq::<AnimSnapshotInfo>::empty(),
    {
        CharacterDisplayComponent {
            player_number: 0,
            player_char,
            is_controlled: true,
            is_controllable: true,
            spritesheet_path: char_img.clone(),
            spritesheet_cols: match player_char {
                PlayerCharacter::Suri => 10,
                PlayerCharacter::Milo => 8,
            },
            spritesheet_rows: 10,
            motion: CharacterMotion::new(),
            in_exit: false,
            in_portal: false,
            exit_id: -1,
            portal_id: -1,
            speed_level: 0,
            input_enabled: true,
            frame_history: Vec::new(),
        }
    }

    /// Whether the character stands, or left the ground less than 150 ms
    /// ago.
    pub fn recent_stand(&self) -> (r: bool)
        ensures
            r == self.motion.stood_recently(),
    {
        self.motion.recent_stand()
    }

    /// One update in a platform level after `dt` milliseconds, with the body
    /// moving at `(vx, vy)`; the frame shown is recorded in the history.
    pub fn update(&mut self, dt: u32, vx: i32, vy: i32)
        requires
            old(self).motion.anim_ready(),
        ensures
            exists|r: IdleRolls| r.valid() && final(self).motion == #[trigger] old(self).motion.updated(dt, vx, vy, r),
            final(self).frame_history@ == history_pushed(old(self).frame_history@, snapshot_of(final(self).motion)),
            *final(self) == (CharacterDisplayComponent {
                motion: final(self).motion,
                frame_history: final(self).frame_history,
                ..*old(self)
            }),
    {
        let r = draw_idle_rolls();
        self.motion.update_with_rolls(dt, vx, vy, r);
        let snap = AnimSnapshotInfo {
            frame_num: self.motion.anim_frame,
            anim_set: self.motion.anim_set,
            facing_right: self.motion.facing_right,
        };
        push_snapshot(&mut self.frame_history, snap);
    }

    /// One update in an overhead level after `dt` milliseconds, with the
    /// body moving at `(vx, vy)`; the frame shown is recorded in the history.
    pub fn update_overhead(&mut self, dt: u32, vx: i32, vy: i32)
        requires
            old(self).motion.anim_ready(),
        ensures
            exists|r: IdleRolls| r.valid() && final(self).motion == #[trigger] old(self).motion.updated_overhead(dt, vx, vy, r),
            final(self).frame_history@ == history_pushed(old(self).frame_history@, snapshot_of(final(self).motion)),
            *final(self) == (CharacterDisplayComponent {
                motion: final(self).motion,
                frame_history: final(self).frame_history,
                ..*old(self)
            }),
    {
        let r = draw_idle_rolls();
        self.motion.update_overhead_with_rolls(dt, vx, vy, r);
        let snap = AnimSnapshotInfo {
            frame_num: self.motion.anim_frame,
            anim_set: self.motion.anim_set,
            facing_right: self.motion.facing_right,
        };
        push_snapshot(&mut self.frame_history, snap);
    }

    /// Reports whether the character stands on something.
    pub fn set_standing(&mut self, is_standing: bool)
        ensures
            final(self).motion == old(self).motion.standing_set(is_standing),
            *final(self) == (CharacterDisplayComponent { motion: final(self).motion, ..*old(self) }),
    {
        self.motion.set_standing(is_standing);
    }

    /// `base` hundredths scaled by the character's speed level.
    pub fn scale_by_speed_level(&self, base: i32) -> (r: i64)
        ensures
            r == speed_scaled(self.speed_level, base as int),
    {
        let b = base as i64;
        if self.speed_level == 3 {
            b * 120 / 100
        } else if self.speed_level == 2 {
            b * 110 / 100
        } else if self.speed_level == 1 {
            b
        } else {
            b * 90 / 100
        }
    }

    /// The horizontal push of the character, in hundredths: 10 for Suri and
    /// 16 for Milo, scaled by speed level.
    pub fn get_base_x_move_amount(&self) -> (r: i64)
        ensures
            r == speed_scaled(self.speed_level, match self.player_char { PlayerCharacter::Suri => 1000int, PlayerCharacter::Milo => 1600int }),
    {
        let base: i32 = match self.player_char {
            PlayerCharacter::Suri => 1000,
            PlayerCharacter::Milo => 1600,
        };
        self.scale_by_speed_level(base)
    }

    /// The vertical push of the character, in hundredths: 15 for Suri and
    /// 24 for Milo, scaled by speed level.
    pub fn get_base_y_move_amount(&self) -> (r: i64)
        ensures
            r == speed_scaled(self.speed_level, match self.player_char { PlayerCharacter::Suri => 1500int, PlayerCharacter::Milo => 2400int }),
    {
        let base: i32 = match self.player_char {
            PlayerCharacter::Suri => 1500,
            PlayerCharacter::Milo => 2400,
        };
        self.scale_by_speed_level(base)
    }
}


/// The frame history never holds more than 50 snapshots, and its newest is
/// the one just recorded.
pub proof fn law_history_bounded(h: Seq<AnimSnapshotInfo>, s: AnimSnapshotInfo)
    ensures
        history_pushed(h, s).len() <= FRAME_HISTORY_LEN,
        history_pushed(h, s).len() == (if h.len() < FRAME_HISTORY_LEN { h.len() as int } else { FRAME_HISTORY_LEN - 1 }) + 1,
        history_pushed(h, s).last() == s,
        history_pushed(h, s).drop_last() == h.skip(h.len() - (history_pushed(h, s).len() - 1)),
        h.len() < FRAME_HISTORY_LEN ==> history_pushed(h, s) == h.push(s),
{
    let k = if h.len() >= FRAME_HISTORY_LEN { h.skip(h.len() - (FRAME_HISTORY_LEN - 1)) } else { h };
    assert(history_pushed(h, s).drop_last() =~= k);
    if h.len() < FRAME_HISTORY_LEN {
        assert(h.skip(0) =~= h);
    }
}

/// Every update runs the times since the last meow and the last warp by the
/// frame's length (held at the top of `i64`), in platform and overhead
/// levels alike.
pub proof fn law_update_runs_timers(m: CharacterMotion, dt: u32, vx: i32, vy: i32, r: IdleRolls)
    ensures
        m.updated(dt, vx, vy, r).since_meow_ms == timer_add(m.since_meow_ms, dt),
        m.updated(dt, vx, vy, r).since_warp_ms == timer_add(m.since_warp_ms, dt),
        m.updated_overhead(dt, vx, vy, r).since_meow_ms == timer_add(m.since_meow_ms, dt),
        m.updated_overhead(dt, vx, vy, r).since_warp_ms == timer_add(m.since_warp_ms, dt),
{
    let t = m.timers_run(dt);
    lemma_animated_keeps_timers(t.state_stepped(dt), dt, vx, vy, false, r);
    let w = if !t.in_walk && !t.in_idle { t.walked() } else { t };
    lemma_animated_keeps_timers(w, dt, vx, vy, true, r);
}

proof fn lemma_animated_keeps_timers(m: CharacterMotion, dt: u32, vx: i32, vy: i32, overhead: bool, r: IdleRolls)
    ensures
        m.animated(dt, vx, vy, overhead, r).since_meow_ms == m.since_meow_ms,
        m.animated(dt, vx, vy, overhead, r).since_warp_ms == m.since_warp_ms,
{
    reveal(CharacterMotion::idle_ticked);
    reveal(CharacterMotion::idle_started);
    reveal(CharacterMotion::idle_frame_moved);
    reveal(CharacterMotion::idle_blinked);
    reveal(CharacterMotion::idle_wrapped);
}

/// A walking character always shows one of the walk frames.
pub proof fn law_walk_frame_in_range(m: CharacterMotion, dt: u32, vx: i32, vy: i32, facing_right: bool, overhead: bool)
    ensures
        m.walk_animated(dt, vx, vy, facing_right, overhead).anim_frame < WALK_FRAMES,
        m.walk_animated(dt, vx, vy, facing_right, overhead).anim_set == WALK_SET,
{
}

/// Landing from a jump or fall starts a walk from its first frame, and
/// leaving the ground while on it starts a fall.
pub proof fn law_landing_walks(m: CharacterMotion)
    ensures
        (m.in_jump || m.in_fall) ==> m.standing_set(true).in_walk && m.standing_set(true).anim_frame == 0
            && m.standing_set(true).anim_set == WALK_SET,
        (!m.in_jump && !m.in_fall) ==> m.standing_set(false).in_fall && !m.standing_set(false).in_walk
            && !m.standing_set(false).in_idle,
{
}


/// A character standing on the ground (neither jumping nor falling) that
/// wishes to jump starts a jump from its idle or walk state, as long as no
/// jump is blocked (`jump_duration_ms >= 0`): it is then jumping, shows the
/// jump frames from the first, and lifts for at least its minimum lift
/// time. From idle the lift time is exactly the minimum.
pub proof fn law_standing_jump_wish_jumps(m: CharacterMotion, dt: u32)
    requires
        !m.in_jump,
        !m.in_fall,
        m.going_up,
        m.jump_duration_ms >= 0,
        m.in_idle || m.in_walk,
    ensures
        m.state_stepped(dt).in_jump,
        !m.state_stepped(dt).in_fall,
        m.state_stepped(dt).anim_set == JUMP_SET,
        m.state_stepped(dt).anim_frame == 0,
        m.state_stepped(dt).jump_lift_time_ms >= m.jump_lift_time_min_ms,
        m.in_idle ==> m.idle_stepped().in_jump && m.idle_stepped().anim_set == JUMP_SET,
        m.in_idle && !m.in_walk && m.jump_lift_time_min_ms >= 0 ==> m.state_stepped(dt).jump_lift_time_ms
            == m.jump_lift_time_min_ms,
        m.in_walk ==> m.walk_stepped().in_jump && m.walk_stepped().anim_set == JUMP_SET,
{
}

} // verus!
