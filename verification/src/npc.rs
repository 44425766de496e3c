use vstd::prelude::*;
use crate::random::random_below;

verus! {

/// Probabilities are drawn as a number of thousandths: a roll is uniform over
/// `0..ROLL_SCALE`.
pub const ROLL_SCALE: u32 = 1000;

/// How far a decision timer runs, in microseconds, before the NPC picks a
/// new movement.
pub const DECISION_PERIOD_US: u64 = 500_000;

/// How close, in pixels on one axis, counts as being at the target.
pub const TARGET_REACH: i64 = 100;

/// Where a coordinate lies with respect to the target's coordinate on the
/// same axis.
#[derive(Debug, Clone, Copy, PartialEq, Eq, Structural)]
pub enum AxisOffset {
    /// More than the reach below the target's coordinate.
    Under,
    /// More than the reach above the target's coordinate.
    Over,
    /// Within the reach of the target's coordinate.
    Within,
}

pub open spec fn axis_offset_of(v: int, target: int) -> AxisOffset {
    if v < target - TARGET_REACH {
        AxisOffset::Under
    } else if v > target + TARGET_REACH {
        AxisOffset::Over
    } else {
        AxisOffset::Within
    }
}

/// Classifies coordinate `v` against the target coordinate `target`.
pub fn axis_offset(v: i32, target: i32) -> (r: AxisOffset)
    ensures
        r == axis_offset_of(v as int, target as int),
{
    let v = v as i64;
    let t = target as i64;
    if v < t - TARGET_REACH {
        AxisOffset::Under
    } else if v > t + TARGET_REACH {
        AxisOffset::Over
    } else {
        AxisOffset::Within
    }
}

/// A computer-driven character: which way it is trying to move, its jump and
/// fall state, and the timer of its next movement decision (times in
/// milliseconds, the decision timer in microseconds, positions in pixels).
#[derive(Debug, Clone, Copy)]
pub struct NpcComponent {
    pub is_enabled: bool,
    pub going_left: bool,
    pub going_right: bool,
    pub going_up: bool,
    pub going_down: bool,
    pub facing_right: bool,
    pub in_jump: bool,
    pub jump_duration_ms: u64,
    pub since_stand_ms: u64,
    pub since_move_ms: u64,
    pub in_fall: bool,
    pub dec_timer_us: u64,
    pub tracking_target: bool,
    pub target_position: (i32, i32),
}

/// The new `(going_left, going_right)` of a target-tracking NPC that lies at
/// `side` of the target on the horizontal axis, for the roll `dec`.
pub open spec fn track_horizontal(left: bool, right: bool, side: AxisOffset, dec: u32) -> (bool, bool) {
    match side {
        AxisOffset::Under => if dec < 850 {
            (false, true)
        } else if dec < 890 {
            (true, false)
        } else {
            (false, false)
        },
        AxisOffset::Over => if dec < 850 {
            (true, false)
        } else if dec < 890 {
            (false, true)
        } else {
            (false, false)
        },
        AxisOffset::Within => if dec < 850 {
            (false, false)
        } else if dec < 870 {
            (true, false)
        } else if dec < 890 {
            (false, true)
        } else {
            (left, right)
        },
    }
}

/// The new `(going_up, going_down)` of a target-tracking NPC that moves
/// freely in both axes and lies at `side` of the target vertically.
pub open spec fn track_vertical(up: bool, down: bool, side: AxisOffset, dec: u32) -> (bool, bool) {
    match side {
        AxisOffset::Under => if dec < 850 {
            (false, true)
        } else if dec < 870 {
            (true, false)
        } else if dec < 890 {
            (false, false)
        } else {
            (up, down)
        },
        AxisOffset::Over => if dec < 850 {
            (true, false)
        } else if dec < 870 {
            (false, true)
        } else if dec < 890 {
            (false, false)
        } else {
            (up, down)
        },
        AxisOffset::Within => if dec < 850 {
            (false, false)
        } else if dec < 870 {
            (false, true)
        } else if dec < 890 {
            (true, false)
        } else {
            (up, down)
        },
    }
}

/// The new `(left, right)` after a side roll `dec2` that may add a sideways
/// push; `exclusive` clears the other side when one is chosen.
pub open spec fn side_push(left: bool, right: bool, dec2: u32, exclusive: bool) -> (bool, bool) {
    if dec2 < 300 {
        (true, if exclusive { false } else { right })
    } else if dec2 < 600 {
        (if exclusive { false } else { left }, true)
    } else {
        (left, right)
    }
}

impl NpcComponent {
    /// The movement flags, in the order left, right, up, down.
    pub open spec fn moves(self) -> (bool, bool, bool, bool) {
        (self.going_left, self.going_right, self.going_up, self.going_down)
    }

    /// The same NPC with other movement flags.
    pub open spec fn with_moves(self, m: (bool, bool, bool, bool)) -> NpcComponent {
        NpcComponent { going_left: m.0, going_right: m.1, going_up: m.2, going_down: m.3, ..self }
    }

    /// The movement a target-tracking NPC at position `(x, y)` picks for the
    /// roll `dec`; one that walks (not `overhead`) stops moving vertically.
    pub open spec fn tracking_moves(self, x: int, y: int, dec: u32, overhead: bool) -> (bool, bool, bool, bool) {
        let h = track_horizontal(self.going_left, self.going_right,
            axis_offset_of(x, self.target_position.0 as int), dec);
        let v = if overhead {
            track_vertical(self.going_up, self.going_down,
                axis_offset_of(y, self.target_position.1 as int), dec)
        } else {
            (false, false)
        };
        (h.0, h.1, v.0, v.1)
    }

    /// The movement a wandering NPC picks for the rolls `dec` and `dec2`.
    /// One that walks jumps only from the ground and never moves down; one
    /// that moves freely (`overhead`) may also start moving down.
    pub open spec fn wander_moves(self, dec: u32, dec2: u32, overhead: bool) -> (bool, bool, bool, bool) {
        let (l, r, u, d) = self.moves();
        if dec < 150 {
            (true, r, u, d)
        } else if dec < 300 {
            (l, true, u, d)
        } else if dec < 400 && (overhead || (!self.in_jump && !self.in_fall)) {
            let s = side_push(l, r, dec2, false);
            (s.0, s.1, true, if overhead { false } else { d })
        } else if overhead && dec < 500 {
            let s = side_push(l, r, dec2, true);
            (s.0, s.1, false, true)
        } else if dec > 700 {
            (false, false, false, if overhead { false } else { d })
        } else {
            (l, r, u, d)
        }
    }

    /// One update of the NPC at `(x, y)` after `dt` milliseconds, with
    /// `timer_roll` scaling how fast the decision timer runs and `dec`,
    /// `dec2` the rolls of the decision.
    pub open spec fn step(self, dt: u32, x: int, y: int, timer_roll: u32, dec: u32, dec2: u32, overhead: bool) -> NpcComponent {
        let stood = NpcComponent { since_stand_ms: sat_add_u64(self.since_stand_ms as int, dt as int), ..self };
        if !self.is_enabled {
            stood
        } else {
            let timer = sat_add_u64(self.dec_timer_us as int, (dt as int) * (timer_roll as int) * 2);
            if timer > DECISION_PERIOD_US {
                let m = if self.tracking_target {
                    self.tracking_moves(x, y, dec, overhead)
                } else {
                    self.wander_moves(dec, dec2, overhead)
                };
                NpcComponent { dec_timer_us: 0, ..stood.with_moves(m) }
            } else {
                NpcComponent { dec_timer_us: timer as u64, ..stood }
            }
        }
    }
}

/// `a + b`, or `u64::MAX` when that is larger.
pub open spec fn sat_add_u64(a: int, b: int) -> u64 {
    if a + b > u64::MAX {
        u64::MAX
    } else {
        (a + b) as u64
    }
}


impl NpcComponent {
    /// A new NPC: enabled, facing right, falling, tracking its target at
    /// `(500, 500)`, not moving.
    pub fn new() -> (r: NpcComponent)
        ensures
            r.is_enabled,
            r.moves() == (false, false, false, false),
            r.facing_right,
            !r.in_jump,
            r.in_fall,
            r.jump_duration_ms == 0,
            r.since_stand_ms == 0,
            r.since_move_ms == 0,
            r.dec_timer_us == 0,
            r.tracking_target,
            r.target_position == (500i32, 500i32),
    {
        NpcComponent {
            is_enabled: true,
            going_left: false,
            going_right: false,
            going_up: false,
            going_down: false,
            facing_right: true,
            in_jump: false,
            jump_duration_ms: 0,
            since_stand_ms: 0,
            since_move_ms: 0,
            in_fall: true,
            dec_timer_us: 0,
            tracking_target: true,
            target_position: (500, 500),
        }
    }

    /// The horizontal decision of a tracking NPC.
    pub fn track_horizontal_step(&mut self, side: AxisOffset, dec: u32)
        ensures
            (final(self).going_left, final(self).going_right) == track_horizontal(
                old(self).going_left, old(self).going_right, side, dec),
            *final(self) == old(self).with_moves(
                (final(self).going_left, final(self).going_right, old(self).going_up, old(self).going_down),
            ),
    {
        match side {
            AxisOffset::Under => {
                if dec < 850 {
                    self.going_right = true;
                    self.going_left = false;
                } else if dec < 890 {
                    self.going_left = true;
                    self.going_right = false;
                } else {
                    self.going_left = false;
                    self.going_right = false;
                }
            },
            AxisOffset::Over => {
                if dec < 850 {
                    self.going_left = true;
                    self.going_right = false;
                } else if dec < 890 {
                    self.going_right = true;
                    self.going_left = false;
                } else {
                    self.going_left = false;
                    self.going_right = false;
                }
            },
            AxisOffset::Within => {
                if dec < 850 {
                    self.going_left = false;
                    self.going_right = false;
                } else if dec < 870 {
                    self.going_left = true;
                    self.going_right = false;
                } else if dec < 890 {
                    self.going_left = false;
                    self.going_right = true;
                }
            },
        }
    }

    /// The vertical decision of a tracking NPC that moves in both axes.
    pub fn track_vertical_step(&mut self, side: AxisOffset, dec: u32)
        ensures
            (final(self).going_up, final(self).going_down) == track_vertical(
                old(self).going_up, old(self).going_down, side, dec),
            *final(self) == old(self).with_moves(
                (old(self).going_left, old(self).going_right, final(self).going_up, final(self).going_down),
            ),
    {
        match side {
            AxisOffset::Under => {
                if dec < 850 {
                    self.going_up = false;
                    self.going_down = true;
                } else if dec < 870 {
                    self.going_down = false;
                    self.going_up = true;
                } else if dec < 890 {
                    self.going_down = false;
                    self.going_up = false;
                }
            },
            AxisOffset::Over => {
                if dec < 850 {
                    self.going_up = true;
                    self.going_down = false;
                } else if dec < 870 {
                    self.going_down = true;
                    self.going_up = false;
                } else if dec < 890 {
                    self.going_down = false;
                    self.going_up = false;
                }
            },
            AxisOffset::Within => {
                if dec < 850 {
                    self.going_up = false;
                    self.going_down = false;
                } else if dec < 870 {
                    self.going_down = true;
                    self.going_up = false;
                } else if dec < 890 {
                    self.going_down = false;
                    self.going_up = true;
                }
            },
        }
    }

    /// The decision of a wandering NPC for the rolls `dec` and `dec2`.
    pub fn wander_step(&mut self, dec: u32, dec2: u32, overhead: bool)
        ensures
            *final(self) == old(self).with_moves(old(self).wander_moves(dec, dec2, overhead)),
    {
        if dec < 150 {
            self.going_left = true;
        } else if dec < 300 {
            self.going_right = true;
        } else if dec < 400 && (overhead || (!self.in_jump && !self.in_fall)) {
            self.going_up = true;
            if overhead {
                self.going_down = false;
            }
            if dec2 < 300 {
                self.going_left = true;
            } else if dec2 < 600 {
                self.going_right = true;
            }
        } else if overhead && dec < 500 {
            self.going_down = true;
            self.going_up = false;
            if dec2 < 300 {
                self.going_left = true;
                self.going_right = false;
            } else if dec2 < 600 {
                self.going_right = true;
                self.going_left = false;
            }
        } else if dec > 700 {
            self.going_left = false;
            self.going_right = false;
            self.going_up = false;
            if overhead {
                self.going_down = false;
            }
        }
    }

    /// One update with the rolls given: the time since standing grows by
    /// `dt`; an enabled NPC runs its decision timer by `dt * timer_roll * 2`
    /// microseconds (`dt` milliseconds times twice the roll's share of one)
    /// and, once the timer passes the decision period, picks a new
    /// movement and restarts the timer.
    pub fn step_with_rolls(&mut self, dt: u32, x: i32, y: i32, timer_roll: u32, dec: u32, dec2: u32, overhead: bool)
        requires
            timer_roll < ROLL_SCALE,
        ensures
            *final(self) == old(self).step(dt, x as int, y as int, timer_roll, dec, dec2, overhead),
    {
        self.since_stand_ms = self.since_stand_ms.saturating_add(dt as u64);
        if self.is_enabled {
            assert((dt as int) * (timer_roll as int) <= 0xffff_ffff * 1000) by (nonlinear_arith)
                requires
                    dt <= 0xffff_ffff,
                    timer_roll < 1000,
            ;
            let inc: u64 = (dt as u64) * (timer_roll as u64) * 2;
            self.dec_timer_us = self.dec_timer_us.saturating_add(inc);
            if self.dec_timer_us > DECISION_PERIOD_US {
                if self.tracking_target {
                    let hx = axis_offset(x, self.target_position.0);
                    self.track_horizontal_step(hx, dec);
                    if overhead {
                        let vy = axis_offset(y, self.target_position.1);
                        self.track_vertical_step(vy, dec);
                    } else {
                        self.going_up = false;
                        self.going_down = false;
                    }
                } else {
                    self.wander_step(dec, dec2, overhead);
                }
                self.dec_timer_us = 0;
            }
        }
    }

    /// One update of a walking NPC at `(x, y)` after `dt` milliseconds, with
    /// its rolls drawn at random.
    pub fn update(&mut self, dt: u32, x: i32, y: i32)
        ensures
            exists|timer_roll: u32, dec: u32, dec2: u32|
                timer_roll < ROLL_SCALE && dec < ROLL_SCALE && dec2 < ROLL_SCALE
                && *final(self) == #[trigger] old(self).step(dt, x as int, y as int, timer_roll, dec, dec2, false),
    {
        let timer_roll = random_below(ROLL_SCALE);
        let dec = random_below(ROLL_SCALE);
        let dec2 = random_below(ROLL_SCALE);
        self.step_with_rolls(dt, x, y, timer_roll, dec, dec2, false);
    }

    /// One update of an NPC that moves freely in both axes, with its rolls
    /// drawn at random.
    pub fn update_overhead(&mut self, dt: u32, x: i32, y: i32)
        ensures
            exists|timer_roll: u32, dec: u32, dec2: u32|
                timer_roll < ROLL_SCALE && dec < ROLL_SCALE && dec2 < ROLL_SCALE
                && *final(self) == #[trigger] old(self).step(dt, x as int, y as int, timer_roll, dec, dec2, true),
    {
        let timer_roll = random_below(ROLL_SCALE);
        let dec = random_below(ROLL_SCALE);
        let dec2 = random_below(ROLL_SCALE);
        self.step_with_rolls(dt, x, y, timer_roll, dec, dec2, true);
    }

    /// Starts a jump.
    pub fn start_jump(&mut self)
        ensures
            *final(self) == (NpcComponent { in_jump: true, jump_duration_ms: 0, since_stand_ms: 50_000, ..*old(self) }),
    {
        self.in_jump = true;
        self.jump_duration_ms = 0;
        self.since_stand_ms = 50_000;
    }

    /// Starts a fall.
    pub fn start_fall(&mut self)
        ensures
            *final(self) == (NpcComponent { in_fall: true, jump_duration_ms: 0, ..*old(self) }),
    {
        self.in_fall = true;
        self.jump_duration_ms = 0;
    }

    /// Lands: no longer jumping or falling.
    pub fn start_walk(&mut self)
        ensures
            *final(self) == (NpcComponent { in_fall: false, in_jump: false, jump_duration_ms: 0, since_stand_ms: 0, ..*old(self) }),
    {
        self.in_fall = false;
        self.in_jump = false;
        self.jump_duration_ms = 0;
        self.since_stand_ms = 0;
    }

    /// Reports whether the NPC stands on something: standing ends a jump or
    /// fall, and losing the ground starts a fall unless one is under way.
    pub fn set_standing(&mut self, is_standing: bool)
        ensures
            is_standing ==> !final(self).in_jump && !final(self).in_fall,
            !is_standing ==> final(self).in_jump || final(self).in_fall,
            is_standing && (old(self).in_jump || old(self).in_fall) ==> *final(self) == (NpcComponent {
                in_fall: false, in_jump: false, jump_duration_ms: 0, since_stand_ms: 0, ..*old(self) }),
            !is_standing && !old(self).in_jump && !old(self).in_fall ==> *final(self) == (NpcComponent {
                in_fall: true, jump_duration_ms: 0, ..*old(self) }),
            (is_standing ==> !old(self).in_jump && !old(self).in_fall)
                && (!is_standing ==> old(self).in_jump || old(self).in_fall) ==> *final(self) == *old(self),
    {
        if is_standing {
            if self.in_jump || self.in_fall {
                self.start_walk();
            }
        } else {
            if !self.in_jump && !self.in_fall {
                self.start_fall();
            }
        }
    }
}


/// A tracking NPC that decides while more than the reach away from its
/// target on the horizontal axis heads toward the target on the usual roll
/// (`dec < 850`), and never toward both sides at once.
pub proof fn law_tracking_heads_to_target(n: NpcComponent, dt: u32, x: int, y: int, timer_roll: u32, dec: u32, dec2: u32, overhead: bool)
    requires
        n.is_enabled,
        n.tracking_target,
        sat_add_u64(n.dec_timer_us as int, (dt as int) * (timer_roll as int) * 2) > DECISION_PERIOD_US,
        dec < 850,
    ensures
        x < n.target_position.0 - TARGET_REACH ==> n.step(dt, x, y, timer_roll, dec, dec2, overhead).going_right
            && !n.step(dt, x, y, timer_roll, dec, dec2, overhead).going_left,
        x > n.target_position.0 + TARGET_REACH ==> n.step(dt, x, y, timer_roll, dec, dec2, overhead).going_left
            && !n.step(dt, x, y, timer_roll, dec, dec2, overhead).going_right,
        n.step(dt, x, y, timer_roll, dec, dec2, overhead).dec_timer_us == 0,
{
}

/// A disabled NPC keeps its movement and decision timer; only the time
/// since it stood grows.
pub proof fn law_disabled_keeps_course(n: NpcComponent, dt: u32, x: int, y: int, timer_roll: u32, dec: u32, dec2: u32, overhead: bool)
    requires
        !n.is_enabled,
    ensures
        n.step(dt, x, y, timer_roll, dec, dec2, overhead).moves() == n.moves(),
        n.step(dt, x, y, timer_roll, dec, dec2, overhead).dec_timer_us == n.dec_timer_us,
        n.step(dt, x, y, timer_roll, dec, dec2, overhead).since_stand_ms == sat_add_u64(n.since_stand_ms as int, dt as int),
{
}

/// An update changes only the NPC's movement and its decision timer, besides
/// the time since it stood, which grows by the frame (held at the top of
/// `u64`): its jump, fall, facing, timers, whether it is enabled and what it
/// tracks stay as they were. A disabled NPC changes nothing else at all.
pub proof fn law_update_keeps_body_state(n: NpcComponent, dt: u32, x: int, y: int, timer_roll: u32, dec: u32, dec2: u32, overhead: bool)
    ensures
        ({
            let r = n.step(dt, x, y, timer_roll, dec, dec2, overhead);
            &&& r.since_stand_ms == sat_add_u64(n.since_stand_ms as int, dt as int)
            &&& r.in_jump == n.in_jump
            &&& r.in_fall == n.in_fall
            &&& r.facing_right == n.facing_right
            &&& r.jump_duration_ms == n.jump_duration_ms
            &&& r.since_move_ms == n.since_move_ms
            &&& r.is_enabled == n.is_enabled
            &&& r.tracking_target == n.tracking_target
            &&& r.target_position == n.target_position
            &&& !n.is_enabled ==> r == NpcComponent { since_stand_ms: r.since_stand_ms, ..n }
        }),
{
}


/// A tracking NPC in an overhead level that decides while more than the
/// reach away from its target vertically heads toward the target on the
/// usual roll (`dec < 850`): down when above it, up when below it, never
/// both.
pub proof fn law_tracking_heads_to_target_vertically(n: NpcComponent, dt: u32, x: int, y: int, timer_roll: u32, dec: u32, dec2: u32)
    requires
        n.is_enabled,
        n.tracking_target,
        sat_add_u64(n.dec_timer_us as int, (dt as int) * (timer_roll as int) * 2) > DECISION_PERIOD_US,
        dec < 850,
    ensures
        y < n.target_position.1 - TARGET_REACH ==> n.step(dt, x, y, timer_roll, dec, dec2, true).going_down
            && !n.step(dt, x, y, timer_roll, dec, dec2, true).going_up,
        y > n.target_position.1 + TARGET_REACH ==> n.step(dt, x, y, timer_roll, dec, dec2, true).going_up
            && !n.step(dt, x, y, timer_roll, dec, dec2, true).going_down,
{
}

} // verus!
