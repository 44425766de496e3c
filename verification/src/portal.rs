use vstd::prelude::*;
use crate::anim_sprite::AnimSpriteComponent;
use crate::collision::{Collision, XY, recent_mean};
use crate::character::trunc_div;

verus! {

/// A portal or exit's name and where it leads, whether it faces the screen
/// (a round portal) rather than a wall, and whether it is switched on.
#[derive(Debug, Clone)]
pub struct PortalComponent {
    pub screen_facing: bool,
    pub name: String,
    pub destination: String,
    pub is_enabled: bool,
}

/// The name of the animation of a switched-on or switched-off portal.
pub open spec fn portal_animation(enabled: bool) -> Seq<char> {
    if enabled { seq!['o', 'n'] } else { seq!['o', 'f', 'f'] }
}

impl PortalComponent {
    /// A switched-on, screen-facing portal `portal_name` that leads to
    /// `destination_name`.
    pub fn new(portal_name: String, destination_name: String) -> (r: PortalComponent)
        ensures
            r.screen_facing,
            r.name@ == portal_name@,
            r.destination@ == destination_name@,
            r.is_enabled,
    {
        PortalComponent { screen_facing: true, name: portal_name, destination: destination_name, is_enabled: true }
    }

    /// Shows the portal's state on its animated sprite: the `on` or `off`
    /// animation, restarted from its first frame when it changes.
    pub fn update_anim_sprite(&self, sprite: &mut AnimSpriteComponent)
        ensures
            old(sprite).curr_animation@ == portal_animation(self.is_enabled) ==> *final(sprite) == *old(sprite),
            old(sprite).curr_animation@ != portal_animation(self.is_enabled) ==> *final(sprite) == (AnimSpriteComponent {
                curr_animation: final(sprite).curr_animation,
                ..*old(sprite)
            }).with_frame(0),
            final(sprite).curr_animation@ == portal_animation(self.is_enabled),
    {
        let wanted = if self.is_enabled { "on".to_owned() } else { "off".to_owned() };
        proof {
            reveal_strlit("on");
            reveal_strlit("off");
            assert(wanted@ =~= portal_animation(self.is_enabled));
        }
        if sprite.curr_animation != wanted {
            sprite.curr_animation = wanted;
            sprite.set_frame(0);
        }
    }
}


/// An exit: its name and the level (and entry) it leads to, written
/// `level` or `level:entry`.
#[derive(Debug, Clone)]
pub struct ExitComponent {
    pub name: String,
    pub destination: String,
}

impl ExitComponent {
    /// The exit `portal_name` that leads to `destination_name`.
    pub fn new(portal_name: String, destination_name: String) -> (r: ExitComponent)
        ensures
            r.name@ == portal_name@,
            r.destination@ == destination_name@,
    {
        ExitComponent { name: portal_name, destination: destination_name }
    }
}


/// A portal a body can come out of: its entity, its position (hundredths of
/// a pixel), whether it faces the screen, and the direction a wall portal
/// opens to (hundredths of a unit vector).
#[derive(Debug, Clone, Copy, PartialEq, Eq, Structural)]
pub struct PortalEnd {
    pub id: u32,
    pub pos: XY,
    pub screen_facing: bool,
    pub normal: XY,
}

/// Where a body carried through a portal comes out, at what velocity, and
/// in which portal.
#[derive(Debug, Clone, Copy, PartialEq, Eq, Structural)]
pub struct Passage {
    pub pos: XY,
    pub vel: XY,
    pub portal: u32,
}

/// What a portal does with a body that touches it: whether the passage is
/// accepted, which way the body then faces, and where it is carried.
#[derive(Debug, Clone, Copy, PartialEq, Eq, Structural)]
pub struct WarpPlan {
    pub valid: bool,
    pub facing_right: bool,
    pub moved: Option<Passage>,
}

/// How far, in hundredths, a body must move into a sideways wall portal for
/// it to take the body.
pub const PASSAGE_MARGIN: i32 = 3;

/// `v` held to the range of `i32`.
pub open spec fn clamp_i32(v: int) -> i32 {
    if v < i32::MIN { i32::MIN } else if v > i32::MAX { i32::MAX } else { v as i32 }
}

/// Whether the velocity is mirrored on each axis: always through a screen
/// portal; through wall portals only on an axis where both open the same way.
pub open spec fn passage_flips(src: XY, n: XY, screen: bool) -> (bool, bool) {
    if screen {
        (true, true)
    } else {
        ((src.x < 0 && n.x < 0) || (src.x > 0 && n.x > 0), (src.y < 0 && n.y < 0) || (src.y > 0 && n.y > 0))
    }
}

/// The recent movement of the body `(avg_x, avg_y)`, `avg_y` counted
/// upwards: the recent means, stretched to the last velocity where that
/// goes further the same way.
pub open spec fn passage_averages(vel_last: XY, mean_x: int, mean_y: int) -> (int, int) {
    let ax = if mean_x < 0 && vel_last.x < mean_x {
        vel_last.x as int
    } else if mean_x > 0 && vel_last.x > mean_x {
        vel_last.x as int
    } else {
        mean_x
    };
    let ay0 = -mean_y;
    let up = -(vel_last.y as int);
    let ay = if ay0 < 0 && up < ay0 { up } else if ay0 > 0 && up > ay0 { up } else { ay0 };
    (ax, ay)
}

/// Whether a wall portal takes the body: one opening sideways only takes a
/// body moving into it by more than the margin.
pub open spec fn passage_accepted(src: XY, screen: bool, ax: int) -> bool {
    screen || !((src.y == 0 && src.x < 0 && ax < PASSAGE_MARGIN) || (src.y == 0 && src.x > 0 && ax > -PASSAGE_MARGIN))
}

/// The velocity out of a wall portal: a passage between a floor or ceiling
/// portal and a side portal turns the recent movement from one axis to the
/// other.
pub open spec fn turned_velocity(src: XY, n: XY, ax: int, ay: int, vx: int, vy: int) -> (int, int) {
    let (vx1, vy1) = if src.y > 0 {
        if n.y == 0 {
            let down = if -ay > 0 { -ay } else { 0 };
            if n.x < 0 { (-down, -ax) } else if n.x > 0 { (down, ax) } else { (vx, vy) }
        } else if n.y < 0 {
            (vx, if vy > -ay { vy } else { -ay })
        } else {
            (vx, if vy < -ay { vy } else { -ay })
        }
    } else if src.y < 0 {
        if n.y == 0 {
            let up = if ay < 0 { ay } else { 0 };
            if n.x < 0 { (-up, -ax) } else if n.x > 0 { (-up, ax) } else { (vx, vy) }
        } else {
            (vx, vy)
        }
    } else {
        (vx, vy)
    };
    if src.x < 0 {
        if n.x == 0 {
            let right = if ax > 0 { ax } else { 0 };
            if n.y > 0 { (ay, vy1 - right) } else if n.y < 0 { (-ay, vy1 + right) } else { (vx1, vy1) }
        } else {
            (vx1, vy1)
        }
    } else if src.x > 0 {
        if n.x == 0 {
            let left = -(if ax < 0 { ax } else { 0 });
            if n.y > 0 { (ay, -left) } else if n.y < 0 { (-ay, left) } else { (vx1, vy1) }
        } else {
            (vx1, vy1)
        }
    } else {
        (vx1, vy1)
    }
}

/// The passage of a body through the portal with normal `src` to `dest`:
/// with `vel_last` its last velocity, `mean_x` and `mean_y` its recent mean
/// velocities, `dims` its half size (hundredths of a pixel) and
/// `facing_start` the way it faces.
pub open spec fn passage_plan(
    src: XY,
    dest: Option<PortalEnd>,
    vel_last: XY,
    mean_x: int,
    mean_y: int,
    dims: XY,
    facing_start: bool,
) -> WarpPlan {
    match dest {
        None => WarpPlan { valid: true, facing_right: facing_start, moved: None },
        Some(d) => {
            let n = d.normal;
            let (fx, fy) = passage_flips(src, n, d.screen_facing);
            let (ax, ay) = passage_averages(vel_last, mean_x, mean_y);
            let vx = if fx { -(vel_last.x as int) } else { vel_last.x as int };
            let vy = if fy { -(vel_last.y as int) } else { vel_last.y as int };
            let valid = passage_accepted(src, d.screen_facing, ax);
            let facing = if d.screen_facing {
                if vx > 0 { true } else if vx < 0 { false } else { facing_start }
            } else if valid {
                if n.x < 0 { false } else if n.x > 0 { true } else { facing_start }
            } else {
                facing_start
            };
            if !valid {
                WarpPlan { valid: false, facing_right: facing, moved: None }
            } else if d.screen_facing {
                WarpPlan {
                    valid: true,
                    facing_right: facing,
                    moved: Some(Passage {
                        pos: d.pos,
                        vel: XY { x: clamp_i32(vx), y: clamp_i32(vy) },
                        portal: d.id,
                    }),
                }
            } else {
                let px = d.pos.x + trunc_div(2 * dims.x * n.x, 100);
                let py = d.pos.y + trunc_div(2 * dims.y * n.y, 100);
                let (tx, ty) = turned_velocity(src, n, ax, ay, vx, vy);
                WarpPlan {
                    valid: true,
                    facing_right: facing,
                    moved: Some(Passage {
                        pos: XY { x: clamp_i32(px), y: clamp_i32(py) },
                        vel: XY { x: clamp_i32(tx), y: clamp_i32(ty) },
                        portal: d.id,
                    }),
                }
            }
        },
    }
}

fn clamp_to_i32(v: i128) -> (r: i32)
    ensures
        r == clamp_i32(v as int),
{
    if v < i32::MIN as i128 {
        i32::MIN
    } else if v > i32::MAX as i128 {
        i32::MAX
    } else {
        v as i32
    }
}

fn div_toward_zero(a: i128, b: i128) -> (r: i128)
    requires
        b > 0,
        a > i128::MIN,
    ensures
        r == trunc_div(a as int, b as int),
{
    if a >= 0 {
        a / b
    } else {
        -((-a) / b)
    }
}

fn turned_velocity_of(src: XY, n: XY, ax: i64, ay: i64, vx: i64, vy: i64) -> (r: (i64, i64))
    requires
        -0x1_0000_0000 <= ax <= 0x1_0000_0000,
        -0x1_0000_0000 <= ay <= 0x1_0000_0000,
        -0x1_0000_0000 <= vx <= 0x1_0000_0000,
        -0x1_0000_0000 <= vy <= 0x1_0000_0000,
    ensures
        (r.0 as int, r.1 as int) == turned_velocity(src, n, ax as int, ay as int, vx as int, vy as int),
{
    let (vx1, vy1): (i64, i64) = if src.y > 0 {
        if n.y == 0 {
            let down: i64 = if -ay > 0 { -ay } else { 0 };
            if n.x < 0 { (-down, -ax) } else if n.x > 0 { (down, ax) } else { (vx, vy) }
        } else if n.y < 0 {
            (vx, if vy > -ay { vy } else { -ay })
        } else {
            (vx, if vy < -ay { vy } else { -ay })
        }
    } else if src.y < 0 {
        if n.y == 0 {
            let up: i64 = if ay < 0 { ay } else { 0 };
            if n.x < 0 { (-up, -ax) } else if n.x > 0 { (-up, ax) } else { (vx, vy) }
        } else {
            (vx, vy)
        }
    } else {
        (vx, vy)
    };
    if src.x < 0 {
        if n.x == 0 {
            let right: i64 = if ax > 0 { ax } else { 0 };
            if n.y > 0 { (ay, vy1 - right) } else if n.y < 0 { (-ay, vy1 + right) } else { (vx1, vy1) }
        } else {
            (vx1, vy1)
        }
    } else if src.x > 0 {
        if n.x == 0 {
            let left: i64 = -(if ax < 0 { ax } else { 0 });
            if n.y > 0 { (ay, -left) } else if n.y < 0 { (-ay, left) } else { (vx1, vy1) }
        } else {
            (vx1, vy1)
        }
    } else {
        (vx1, vy1)
    }
}

/// Plans the passage of the body with collision state `coll` through the
/// portal with normal `source_normal` to `dest`, from its last velocity and
/// its mean velocity over the last ten steps; `dims` is its half size in
/// hundredths of a pixel and `facing_start` the way it faces.
pub fn plan_passage(source_normal: XY, dest: Option<PortalEnd>, coll: &Collision, dims: XY, facing_start: bool) -> (r: WarpPlan)
    ensures
        r == passage_plan(
            source_normal,
            dest,
            coll.vel_last,
            recent_mean(coll.vel_history@, 10, false),
            recent_mean(coll.vel_history@, 10, true),
            dims,
            facing_start,
        ),
{
    let mean_x = coll.get_avg_x(10);
    let mean_y = coll.get_avg_y(10);
    match dest {
        None => WarpPlan { valid: true, facing_right: facing_start, moved: None },
        Some(d) => {
            let n = d.normal;
            let screen = d.screen_facing;
            let fx = screen || (source_normal.x < 0 && n.x < 0) || (source_normal.x > 0 && n.x > 0);
            let fy = screen || (source_normal.y < 0 && n.y < 0) || (source_normal.y > 0 && n.y > 0);
            let vlx = coll.vel_last.x as i64;
            let vly = coll.vel_last.y as i64;
            let ax: i64 = if mean_x < 0 && vlx < mean_x as i64 {
                vlx
            } else if mean_x > 0 && vlx > mean_x as i64 {
                vlx
            } else {
                mean_x as i64
            };
            let ay0: i64 = -(mean_y as i64);
            let up: i64 = -vly;
            let ay: i64 = if ay0 < 0 && up < ay0 { up } else if ay0 > 0 && up > ay0 { up } else { ay0 };
            let vx: i64 = if fx { -vlx } else { vlx };
            let vy: i64 = if fy { -vly } else { vly };
            let margin = PASSAGE_MARGIN as i64;
            let valid = screen || !((source_normal.y == 0 && source_normal.x < 0 && ax < margin) || (
            source_normal.y == 0 && source_normal.x > 0 && ax > -margin));
            let facing = if screen {
                if vx > 0 { true } else if vx < 0 { false } else { facing_start }
            } else if valid {
                if n.x < 0 { false } else if n.x > 0 { true } else { facing_start }
            } else {
                facing_start
            };
            if !valid {
                WarpPlan { valid: false, facing_right: facing, moved: None }
            } else if screen {
                WarpPlan {
                    valid: true,
                    facing_right: facing,
                    moved: Some(Passage {
                        pos: d.pos,
                        vel: XY { x: clamp_to_i32(vx as i128), y: clamp_to_i32(vy as i128) },
                        portal: d.id,
                    }),
                }
            } else {
                let (dx, dy, nx, ny) = (dims.x as i128, dims.y as i128, n.x as i128, n.y as i128);
                assert(-0x4000_0000_0000_0000 <= dx * nx <= 0x4000_0000_0000_0000) by (nonlinear_arith)
                    requires
                        -0x8000_0000 <= dx <= 0x8000_0000,
                        -0x8000_0000 <= nx <= 0x8000_0000,
                ;
                assert(-0x4000_0000_0000_0000 <= dy * ny <= 0x4000_0000_0000_0000) by (nonlinear_arith)
                    requires
                        -0x8000_0000 <= dy <= 0x8000_0000,
                        -0x8000_0000 <= ny <= 0x8000_0000,
                ;
                let ox = div_toward_zero(2 * (dx * nx), 100);
                let oy = div_toward_zero(2 * (dy * ny), 100);
                assert(2 * (dx * nx) == 2 * dims.x * n.x) by (nonlinear_arith)
                    requires
                        dx == dims.x,
                        nx == n.x,
                ;
                assert(2 * (dy * ny) == 2 * dims.y * n.y) by (nonlinear_arith)
                    requires
                        dy == dims.y,
                        ny == n.y,
                ;
                let px = d.pos.x as i128 + ox;
                let py = d.pos.y as i128 + oy;
                let (tx, ty) = turned_velocity_of(source_normal, n, ax, ay, vx, vy);
                WarpPlan {
                    valid: true,
                    facing_right: facing,
                    moved: Some(Passage {
                        pos: XY { x: clamp_to_i32(px), y: clamp_to_i32(py) },
                        vel: XY { x: clamp_to_i32(tx as i128), y: clamp_to_i32(ty as i128) },
                        portal: d.id,
                    }),
                }
            }
        },
    }
}


/// A body that comes down or up into a floor or ceiling portal and out of
/// a wall portal that opens sideways leaves it moving the way it opens:
/// from a portal that opens upwards (`src.y > 0`) out to the right when
/// the wall portal opens right and to the left when it opens left; from
/// one that opens downwards out to the right of a right-opening portal. It
/// comes out on the open side of the portal and faces the way the portal
/// opens.
pub proof fn law_side_portal_exit_direction(src: XY, d: PortalEnd, vel_last: XY, mean_x: int, mean_y: int, dims: XY, facing_start: bool)
    requires
        !d.screen_facing,
        d.normal.y == 0,
        d.normal.x != 0,
        src.y != 0,
        dims.x >= 0,
    ensures
        passage_plan(src, Some(d), vel_last, mean_x, mean_y, dims, facing_start).moved matches Some(p) ==> {
            &&& (src.y > 0 && d.normal.x > 0 ==> p.vel.x >= 0)
            &&& (src.y > 0 && d.normal.x < 0 ==> p.vel.x <= 0)
            &&& (src.y < 0 && d.normal.x > 0 ==> p.vel.x >= 0)
            &&& (d.normal.x > 0 ==> p.pos.x >= d.pos.x)
            &&& (d.normal.x < 0 ==> p.pos.x <= d.pos.x)
            &&& p.portal == d.id
        },
        passage_plan(src, Some(d), vel_last, mean_x, mean_y, dims, facing_start).moved is Some ==> passage_plan(
            src,
            Some(d),
            vel_last,
            mean_x,
            mean_y,
            dims,
            facing_start,
        ).facing_right == (d.normal.x > 0),
{
    let n = d.normal;
    if n.x > 0 {
        assert(2 * dims.x * n.x >= 0) by (nonlinear_arith)
            requires
                dims.x >= 0,
                n.x > 0,
        ;
    } else {
        assert(2 * dims.x * n.x <= 0) by (nonlinear_arith)
            requires
                dims.x >= 0,
                n.x < 0,
        ;
    }
}

} // verus!
