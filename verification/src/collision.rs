use vstd::prelude::*;
use crate::physics::{EntityType, CollisionCategory, CollideType, CollisionBit, categories_bits};
use crate::character::trunc_div;

verus! {

/// The game-side state of a physics body: what it is, which layers it is on
/// and collides with, whether it sits in an exit or portal, its contacts of
/// the last step and whether it blocks other bodies. Times are in
/// milliseconds. Positions are in hundredths of a pixel and velocities in
/// hundredths of a physics unit per second; the last ones seen before each
/// step are kept, up to `MOTION_HISTORY_LEN` of each.
#[derive(Debug, Clone)]
pub struct Collision {
    pub has_body: bool,
    pub is_sensor: bool,
    pub entity_type: EntityType,
    pub collision_category: CollisionCategory,
    pub collision_mask: Vec<CollisionCategory>,
    pub enable_warp: bool,
    pub in_exit: bool,
    pub in_portal: bool,
    pub trigger_portal_warp: bool,
    pub exit_id: i32,
    pub portal_id: i32,
    pub last_portal_id: i32,
    pub since_warp_ms: i64,
    pub body_contacts: Vec<(i32, CollideType)>,
    pub toggleable: bool,
    pub is_obstructing: bool,
    pub flag_obstruction: bool,
    pub delete_flag: bool,
    pub pos: XY,
    pub vel: XY,
    pub pos_last: XY,
    pub vel_last: XY,
    pub pos_history: Vec<XY>,
    pub vel_history: Vec<XY>,
}

/// A position or velocity: its two components.
#[derive(Debug, Clone, Copy, PartialEq, Eq, Structural)]
pub struct XY {
    pub x: i32,
    pub y: i32,
}

/// How many positions and velocities a body remembers.
pub const MOTION_HISTORY_LEN: usize = 50;

/// A motion history after recording `m`: the oldest entries give way so
/// that at most `MOTION_HISTORY_LEN` remain, `m` last.
pub open spec fn motion_pushed(h: Seq<XY>, m: XY) -> Seq<XY> {
    (if h.len() >= MOTION_HISTORY_LEN { h.skip(h.len() - (MOTION_HISTORY_LEN - 1)) } else { h }).push(m)
}

/// Records `m`, dropping the oldest entries beyond the history's length.
fn push_motion(history: &mut Vec<XY>, m: XY)
    ensures
        final(history)@ == motion_pushed(old(history)@, m),
{
    let ghost h0 = history@;
    while history.len() >= MOTION_HISTORY_LEN
        invariant
            history@.len() <= h0.len(),
            history@.len() == h0.len() || history@.len() >= MOTION_HISTORY_LEN - 1,
            history@ == h0.skip(h0.len() - history@.len()),
        decreases history@.len(),
    {
        history.remove(0);
        assert(history@ =~= h0.skip(h0.len() - history@.len()));
    }
    proof {
        if h0.len() >= MOTION_HISTORY_LEN {
            assert(history@.len() == MOTION_HISTORY_LEN - 1);
        } else {
            assert(history@ =~= h0.skip(0));
            assert(h0.skip(0) =~= h0);
        }
    }
    history.push(m);
}

/// How long, in milliseconds, a body must wait after a warp before it can
/// use a portal again.
pub const PORTAL_COOLDOWN_MS: i64 = 500;

/// The physics filter words `(category, mask)` of a body: its own layer and
/// the layers it collides with while it obstructs, none otherwise.
pub open spec fn obstruction_filter(category: CollisionCategory, mask: Seq<CollisionCategory>, is_obstruction: bool) -> (u16, u16) {
    if is_obstruction { (category.bits(), categories_bits(mask)) } else { (0u16, 0u16) }
}

/// The sum of the `x` components of `s`, or of the `y` components.
pub open spec fn sum_axis(s: Seq<XY>, y_axis: bool) -> int
    decreases s.len(),
{
    if s.len() == 0 {
        0
    } else {
        (if y_axis { s[0].y as int } else { s[0].x as int }) + sum_axis(s.drop_first(), y_axis)
    }
}

/// The mean of one component over the last `n` entries of `h` (all of them
/// when there are fewer), rounded toward zero; 0 when there are none.
pub open spec fn recent_mean(h: Seq<XY>, n: int, y_axis: bool) -> int {
    let c = if n < h.len() { n } else { h.len() as int };
    if c <= 0 {
        0
    } else {
        trunc_div(sum_axis(h.subrange(h.len() - c, h.len() as int), y_axis), c)
    }
}

proof fn lemma_mean_fits(sum: int, c: int)
    requires
        c > 0,
        c * (i32::MIN as int) <= sum <= c * (i32::MAX as int),
    ensures
        i32::MIN <= trunc_div(sum, c) <= i32::MAX,
{
    if sum >= 0 {
        assert(sum / c <= i32::MAX) by (nonlinear_arith)
            requires
                c > 0,
                0 <= sum <= c * (i32::MAX as int),
        ;
        assert(sum / c >= 0) by (nonlinear_arith)
            requires
                c > 0,
                sum >= 0,
        ;
    } else {
        assert((-sum) / c <= -(i32::MIN as int)) by (nonlinear_arith)
            requires
                c > 0,
                0 < -sum <= c * -(i32::MIN as int),
        ;
        assert((-sum) / c >= 0) by (nonlinear_arith)
            requires
                c > 0,
                -sum > 0,
        ;
    }
}

/// The mean of one velocity component over the last `frame_count` entries
/// of a history, rounded toward zero.
fn recent_average(h: &Vec<XY>, frame_count: usize, y_axis: bool) -> (r: i32)
    ensures
        r == recent_mean(h@, frame_count as int, y_axis),
{
    let len = h.len();
    let c: usize = if frame_count < len { frame_count } else { len };
    if c == 0 {
        return 0;
    }
    let start = len - c;
    let mut i: usize = len;
    let mut sum: i128 = 0;
    while i > start
        invariant
            start <= i <= len,
            len == h@.len(),
            sum == sum_axis(h@.subrange(i as int, len as int), y_axis),
            (len - i) * (i32::MIN as int) <= sum <= (len - i) * (i32::MAX as int),
            len <= usize::MAX,
        decreases i,
    {
        let ghost old_i = i;
        i = i - 1;
        let v: i32 = if y_axis { h[i].y } else { h[i].x };
        assert(h@.subrange(i as int, len as int).drop_first() =~= h@.subrange(old_i as int, len as int));
        assert(sum + v <= (len - i) * (i32::MAX as int));
        assert(sum + v >= (len - i) * (i32::MIN as int));
        assert((len - i) * (i32::MAX as int) <= 0x1_0000_0000_0000_0000 * 0x8000_0000) by (nonlinear_arith)
            requires
                0 <= len - i <= 0x1_0000_0000_0000_0000,
        ;
        assert((len - i) * (i32::MIN as int) >= 0x1_0000_0000_0000_0000 * -0x8000_0000) by (nonlinear_arith)
            requires
                0 <= len - i <= 0x1_0000_0000_0000_0000,
        ;
        sum = sum + v as i128;
    }
    proof {
        lemma_mean_fits(sum as int, c as int);
    }
    let cc: i128 = c as i128;
    let q: i128 = if sum >= 0 { sum / cc } else { -((-sum) / cc) };
    q as i32
}

impl Collision {
    /// A body-less collision on the level layer that collides with the level
    /// and ethereal layers, obstructing, outside exits and portals.
    pub fn new() -> (r: Collision)
        ensures
            !r.has_body,
            !r.is_sensor,
            r.entity_type == EntityType::NoEntity,
            r.collision_category == CollisionCategory::Level,
            r.collision_mask@ == seq![CollisionCategory::Level, CollisionCategory::Etherial],
            !r.enable_warp,
            !r.in_exit,
            !r.in_portal,
            !r.trigger_portal_warp,
            r.exit_id == -1,
            r.portal_id == -1,
            r.last_portal_id == -1,
            r.since_warp_ms == 200,
            r.body_contacts@ == Seq::<(i32, CollideType)>::empty(),
            !r.toggleable,
            r.is_obstructing,
            !r.flag_obstruction,
            !r.delete_flag,
            r.pos == (XY { x: 0, y: 0 }),
            r.vel == (XY { x: 0, y: 0 }),
            r.pos_last == (XY { x: 0, y: 0 }),
            r.vel_last == (XY { x: 0, y: 0 }),
            r.pos_history@ == Seq::<XY>::empty(),
            r.vel_history@ == Seq::<XY>::empty(),
    {
        Collision {
            has_body: false,
            is_sensor: false,
            entity_type: EntityType::NoEntity,
            collision_category: CollisionCategory::Level,
            collision_mask: vec![CollisionCategory::Level, CollisionCategory::Etherial],
            enable_warp: false,
            in_exit: false,
            in_portal: false,
            trigger_portal_warp: false,
            exit_id: -1,
            portal_id: -1,
            last_portal_id: -1,
            since_warp_ms: 200,
            body_contacts: Vec::new(),
            toggleable: false,
            is_obstructing: true,
            flag_obstruction: false,
            delete_flag: false,
            pos: XY { x: 0, y: 0 },
            vel: XY { x: 0, y: 0 },
            pos_last: XY { x: 0, y: 0 },
            vel_last: XY { x: 0, y: 0 },
            pos_history: Vec::new(),
            vel_history: Vec::new(),
        }
    }

    /// Forgets the exit and portal of the last step, remembering which
    /// portal it was.
    pub fn clear_pre_physics_state(&mut self)
        ensures
            final(self).last_portal_id == old(self).portal_id,
            !final(self).trigger_portal_warp,
            !final(self).in_portal,
            !final(self).in_exit,
            final(self).exit_id == -1,
            final(self).portal_id == -1,
            *final(self) == (Collision {
                last_portal_id: old(self).portal_id,
                trigger_portal_warp: false,
                in_portal: false,
                in_exit: false,
                exit_id: -1i32,
                portal_id: -1i32,
                ..*old(self)
            }),
    {
        self.last_portal_id = self.portal_id;
        self.trigger_portal_warp = false;
        self.in_portal = false;
        self.in_exit = false;
        self.exit_id = -1;
        self.portal_id = -1;
    }

    /// Makes the body block others or not; a change is flagged so that the
    /// next physics step updates the body's filter.
    pub fn set_obstructing(&mut self, obstructing: bool)
        ensures
            final(self).is_obstructing == obstructing,
            old(self).is_obstructing != obstructing ==> *final(self) == (Collision {
                is_obstructing: obstructing,
                flag_obstruction: true,
                ..*old(self)
            }),
            old(self).is_obstructing == obstructing ==> *final(self) == *old(self),
    {
        if self.is_obstructing != obstructing {
            self.is_obstructing = obstructing;
            self.flag_obstruction = true;
        }
    }

    /// The mean horizontal velocity over the last `frame_count` entries of
    /// the history, in hundredths, rounded toward zero; 0 without entries.
    pub fn get_avg_x(&self, frame_count: usize) -> (r: i32)
        ensures
            r == recent_mean(self.vel_history@, frame_count as int, false),
    {
        recent_average(&self.vel_history, frame_count, false)
    }

    /// The mean vertical velocity over the last `frame_count` entries of the
    /// history, in hundredths, rounded toward zero; 0 without entries.
    pub fn get_avg_y(&self, frame_count: usize) -> (r: i32)
        ensures
            r == recent_mean(self.vel_history@, frame_count as int, true),
    {
        recent_average(&self.vel_history, frame_count, true)
    }

    /// Whether enough time has passed since the last warp to use a portal.
    pub fn can_use_portal(&self) -> (r: bool)
        ensures
            r == (self.since_warp_ms >= PORTAL_COOLDOWN_MS),
    {
        !(self.since_warp_ms < PORTAL_COOLDOWN_MS)
    }

    /// The filter words `(category, mask)` the body's fixture gets when its
    /// obstruction is set to `is_obstruction`.
    pub fn obstruction_filter_bits(&self, is_obstruction: bool) -> (r: (u16, u16))
        ensures
            r == obstruction_filter(self.collision_category, self.collision_mask@, is_obstruction),
    {
        let category_bits: u16 = if is_obstruction { self.collision_category.to_bits() } else { 0 };
        let mask_bits: u16 = if is_obstruction { self.collision_mask.to_bits() } else { 0 };
        (category_bits, mask_bits)
    }

    /// The game-side part of the step before physics runs: a flagged
    /// toggleable body hands back the filter words its fixture is to get and
    /// drops the flag; the contacts of the last step are forgotten; the warp
    /// timer runs by `dt`; a body forgets its exit and portal; the position
    /// and velocity become the last ones and join their histories.
    pub fn pre_physics_update(&mut self, dt: u32) -> (r: Option<(u16, u16)>)
        ensures
            (old(self).toggleable && old(self).flag_obstruction) ==> r == Some(
                obstruction_filter(old(self).collision_category, old(self).collision_mask@, old(self).is_obstructing)),
            !(old(self).toggleable && old(self).flag_obstruction) ==> r is None,
            final(self).flag_obstruction == (old(self).flag_obstruction && !old(self).toggleable),
            final(self).body_contacts@ == Seq::<(i32, CollideType)>::empty(),
            final(self).since_warp_ms == (if old(self).since_warp_ms + dt > i64::MAX { i64::MAX as int } else { old(self).since_warp_ms + dt }),
            old(self).has_body ==> final(self).last_portal_id == old(self).portal_id && !final(self).trigger_portal_warp
                && !final(self).in_portal && !final(self).in_exit && final(self).exit_id == -1 && final(self).portal_id == -1,
            !old(self).has_body ==> final(self).last_portal_id == old(self).last_portal_id
                && final(self).trigger_portal_warp == old(self).trigger_portal_warp
                && final(self).in_portal == old(self).in_portal && final(self).in_exit == old(self).in_exit
                && final(self).exit_id == old(self).exit_id && final(self).portal_id == old(self).portal_id,
            final(self).has_body == old(self).has_body,
            final(self).is_obstructing == old(self).is_obstructing,
            final(self).collision_category == old(self).collision_category,
            final(self).collision_mask@ == old(self).collision_mask@,
            final(self).entity_type == old(self).entity_type,
            final(self).toggleable == old(self).toggleable,
            final(self).delete_flag == old(self).delete_flag,
            final(self).enable_warp == old(self).enable_warp,
            final(self).is_sensor == old(self).is_sensor,
            final(self).pos == old(self).pos,
            final(self).vel == old(self).vel,
            final(self).pos_last == old(self).pos,
            final(self).vel_last == old(self).vel,
            final(self).pos_history@ == motion_pushed(old(self).pos_history@, old(self).pos),
            final(self).vel_history@ == motion_pushed(old(self).vel_history@, old(self).vel),
    {
        let mut r: Option<(u16, u16)> = None;
        if self.toggleable && self.flag_obstruction {
            r = Some(self.obstruction_filter_bits(self.is_obstructing));
            self.flag_obstruction = false;
        }
        self.body_contacts.clear();
        self.since_warp_ms = if self.since_warp_ms > i64::MAX - dt as i64 { i64::MAX } else { self.since_warp_ms + dt as i64 };
        if self.has_body {
            self.clear_pre_physics_state();
        }
        self.vel_last = self.vel;
        push_motion(&mut self.vel_history, self.vel);
        self.pos_last = self.pos;
        push_motion(&mut self.pos_history, self.pos);
        r
    }

    /// The game-side part of the step after physics ran: the body's new
    /// position and velocity are kept.
    pub fn post_physics_update(&mut self, pos: XY, vel: XY)
        ensures
            *final(self) == (Collision { pos, vel, ..*old(self) }),
    {
        self.pos = pos;
        self.vel = vel;
    }
}

/// A body that stops obstructing gets empty filter words, so it collides
/// with nothing; one that obstructs again gets its own layer bit back.
pub proof fn law_obstruction_toggle(category: CollisionCategory, mask: Seq<CollisionCategory>)
    ensures
        obstruction_filter(category, mask, false) == (0u16, 0u16),
        obstruction_filter(category, mask, true).0 == category.bits(),
        obstruction_filter(category, mask, true).0 != 0,
{
    assert(category.bits() != 0) by {
        assert(1u16 << 0u16 != 0u16) by (bit_vector);
        assert(1u16 << 1u16 != 0u16) by (bit_vector);
        assert(1u16 << 2u16 != 0u16) by (bit_vector);
        assert(1u16 << 3u16 != 0u16) by (bit_vector);
        assert(1u16 << 4u16 != 0u16) by (bit_vector);
        assert(1u16 << 5u16 != 0u16) by (bit_vector);
        assert(1u16 << 6u16 != 0u16) by (bit_vector);
        assert(1u16 << 7u16 != 0u16) by (bit_vector);
    }
}

/// A motion history never holds more than `MOTION_HISTORY_LEN` entries:
/// recording keeps the newest older entries, in order, and puts the new one
/// last.
pub proof fn law_motion_history_bounded(h: Seq<XY>, m: XY)
    ensures
        motion_pushed(h, m).len() <= MOTION_HISTORY_LEN,
        motion_pushed(h, m).len() == (if h.len() < MOTION_HISTORY_LEN { h.len() as int } else { MOTION_HISTORY_LEN - 1 }) + 1,
        motion_pushed(h, m).last() == m,
        motion_pushed(h, m).drop_last() == h.skip(h.len() - (motion_pushed(h, m).len() - 1)),
{
    let k = if h.len() >= MOTION_HISTORY_LEN { h.skip(h.len() - (MOTION_HISTORY_LEN - 1)) } else { h };
    assert(motion_pushed(h, m).drop_last() =~= k);
    if h.len() < MOTION_HISTORY_LEN {
        assert(h.skip(0) =~= h);
    }
}

} // verus!
