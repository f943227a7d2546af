//! Player-side state and mission outcome: lives, ammo, invulnerability
//! frames, movement inside the playing field, and the encounter's
//! outcome signal.

use crate::bullet::RADIUS_LIMIT;
use crate::fixed::SPEED_LIMIT;
use crate::geom::{pos_ok, rect_contains, Circle, Rect, Vec2I};
use vstd::prelude::*;

verus! {

/// Remaining player lives.
#[derive(Clone, Copy, Debug, PartialEq, Eq, Structural)]
pub struct Life(pub usize);

impl Default for Life {
    /// One life, unless a loadout grants more.
    fn default() -> (r: Life)
        ensures
            r.0 == 1,
    {
        Life(1)
    }
}

/// Remaining ammunition.
#[derive(Clone, Copy, Debug, PartialEq, Eq, Structural, Default)]
pub struct Ammo(pub u32);

/// The outcome signal the encounter raises for its host.
#[derive(Clone, Copy, Debug, PartialEq, Eq, Structural)]
pub enum MissionState {
    Ongoing,
    Success,
    Fail,
}

/// The state a fresh encounter starts in.
pub fn set_mission_status() -> (r: MissionState)
    ensures
        r == MissionState::Ongoing,
{
    MissionState::Ongoing
}

/// The player: position, collider, lives, ammo, movement speed, the
/// invulnerability window left after a hit, and whether alternate fire
/// is held.
#[derive(Clone, Copy, Debug, PartialEq, Eq, Structural)]
pub struct Player {
    pub pos: Vec2I,
    /// Collider radius.
    pub radius: i64,
    pub life: Life,
    pub ammo: Ammo,
    /// Movement speed, in fixed-point units per tick.
    pub speed: i64,
    /// Milliseconds of invulnerability left, if any.
    pub invuln: Option<u64>,
    /// Whether the alternate-fire modifier is held this tick.
    pub alt_fire: bool,
}

/// A well-formed player.
pub open spec fn player_ok(p: Player) -> bool {
    pos_ok(p.pos) && 0 <= p.radius <= RADIUS_LIMIT && 0 <= p.speed <= SPEED_LIMIT
}

impl Player {
    /// The player's collider circle.
    pub fn circle(&self) -> (r: Circle)
        ensures
            r == (Circle { pos: self.pos, radius: self.radius }),
    {
        Circle { pos: self.pos, radius: self.radius }
    }
}

/// The player entity at mission start, as a value: three lives, a
/// thousand rounds, a small collider, starting at the left third of
/// the field.
pub open spec fn spawn_player_spec() -> Player {
    Player {
        pos: Vec2I { x: -640_000 as i64, y: 0 as i64 },
        radius: 7_500 as i64,
        life: Life(3 as usize),
        ammo: Ammo(1000 as u32),
        speed: 6_500 as i64,
        invuln: None,
        alt_fire: false,
    }
}

/// Spawns the player entity at mission start.
pub fn spawn_player() -> (r: Player)
    ensures
        r == spawn_player_spec(),
        player_ok(r),
{
    Player {
        pos: Vec2I { x: -640_000, y: 0 },
        radius: 7_500,
        life: Life(3),
        ammo: Ammo(1000),
        speed: 6_500,
        invuln: None,
        alt_fire: false,
    }
}

/// Whether the player has run out of lives: the failure condition.
pub fn player_dead(life: Option<&Life>) -> (r: bool)
    ensures
        r == match life {
            Some(l) => l.0 == 0,
            None => false,
        },
{
    match life {
        Some(l) => l.0 == 0,
        None => false,
    }
}

/// Being hit grants this long an invulnerability window, in
/// milliseconds.
pub fn on_damage() -> (r: u64)
    ensures
        r == 3000,
{
    3000
}

/// The invulnerability window after `dt` more milliseconds: it runs
/// down and disappears when it reaches zero.
pub open spec fn invuln_tick_spec(invuln: Option<u64>, dt: u64) -> Option<u64> {
    match invuln {
        Some(t) => if dt >= t {
            None
        } else {
            Some((t - dt) as u64)
        },
        None => None,
    }
}

/// Runs the invulnerability window down by `dt` milliseconds.
pub fn update_invulnerability(invuln: &mut Option<u64>, dt: u64)
    ensures
        *final(invuln) == invuln_tick_spec(*old(invuln), dt),
{
    match invuln {
        Some(t) => {
            if dt >= *t {
                *invuln = None;
            } else {
                *invuln = Some(*t - dt);
            }
        },
        None => {},
    }
}

/// `x` clamped to `lo ..= hi`.
pub open spec fn clamp_to(x: int, lo: int, hi: int) -> int {
    if x < lo {
        lo
    } else if x > hi {
        hi
    } else {
        x
    }
}

/// Where one movement tick puts the player: a step of the player's
/// speed (halved while alternate fire is held) in the direction of the
/// held axes, clamped so the collider stays inside the field.
pub open spec fn movement_spec(p: Player, dx: i8, dy: i8, area: Rect) -> Vec2I {
    let speed = if p.alt_fire {
        p.speed / 2
    } else {
        p.speed as int
    };
    let dir = crate::angle::dir_spec(dx as int, dy as int);
    let step_x = if dx == 0 && dy == 0 {
        0int
    } else {
        crate::geom::polar_dx(speed, dir)
    };
    let step_y = if dx == 0 && dy == 0 {
        0int
    } else {
        crate::geom::polar_dy(speed, dir)
    };
    Vec2I {
        x: clamp_to(p.pos.x + step_x, area.min.x + p.radius, area.max.x - p.radius) as i64,
        y: clamp_to(p.pos.y + step_y, area.min.y + p.radius, area.max.y - p.radius) as i64,
    }
}

/// Moves the player one tick along the held axes (`dx`, `dy` each -1,
/// 0 or 1), at half speed while alternate fire is held, keeping the
/// collider inside the playing field.
pub fn do_movement(p: &mut Player, dx: i8, dy: i8, area: Rect)
    requires
        player_ok(*old(p)),
        -1 <= dx <= 1,
        -1 <= dy <= 1,
        pos_ok(area.min),
        pos_ok(area.max),
        area.min.x + old(p).radius <= area.max.x - old(p).radius,
        area.min.y + old(p).radius <= area.max.y - old(p).radius,
    ensures
        final(p).pos == movement_spec(*old(p), dx, dy, area),
        *final(p) == (Player { pos: final(p).pos, ..*old(p) }),
        player_ok(*final(p)),
        rect_contains(area, final(p).pos),
{
    let speed: i64 = if p.alt_fire {
        p.speed / 2
    } else {
        p.speed
    };
    let step = if dx == 0 && dy == 0 {
        Vec2I { x: 0, y: 0 }
    } else {
        let dir = crate::angle::dir_angle(dx as i64, dy as i64);
        crate::geom::polar_step(speed, dir)
    };
    let nx = clamp_exec(p.pos.x + step.x, area.min.x + p.radius, area.max.x - p.radius);
    let ny = clamp_exec(p.pos.y + step.y, area.min.y + p.radius, area.max.y - p.radius);
    p.pos = Vec2I { x: nx, y: ny };
}

/// Clamps a coordinate into `lo ..= hi`.
fn clamp_exec(x: i64, lo: i64, hi: i64) -> (r: i64)
    requires
        lo <= hi,
    ensures
        r == clamp_to(x as int, lo as int, hi as int),
{
    if x < lo {
        lo
    } else if x > hi {
        hi
    } else {
        x
    }
}

} // verus!
