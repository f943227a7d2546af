//! Bullets and their kinematics laws.
//!
//! A bullet carries any subset of six motion laws; each law reads and
//! writes only its own fields, and one tick applies them in the fixed
//! order Normal, Rotating, Homing, Wave, Stutter, Delayed. Velocities are
//! kept in polar form (speed and direction), so the laws that only steer
//! (Homing) or only throttle (Wave, Stutter) provably leave the other
//! coordinate untouched.

use crate::angle::{add_angle, add_angle_spec, angle_ok, dir_angle, dir_spec, rotate_towards,
    rotate_towards_spec, TURN};
use crate::fixed::{mul_scale, tdiv, POS_LIMIT, SCALE, SPEED_LIMIT};
use crate::geom::{clamp_translate_spec, polar_dx, polar_dy, pos_ok, rot_dx, rot_dy, rotate_vec,
    Circle, Vec2I};
use crate::timer::watch_tick;
use vstd::prelude::*;

verus! {

/// Largest bullet collider radius, in fixed-point units.
pub const RADIUS_LIMIT: i64 = 1_000_000_000;

/// A velocity in polar form: non-negative length and a direction angle.
#[derive(Clone, Copy, Debug, PartialEq, Eq, Structural)]
pub struct Velocity {
    /// Length, in fixed-point units per tick.
    pub speed: i64,
    /// Direction, a normalized angle.
    pub angle: i64,
}

/// A well-formed velocity.
pub open spec fn vel_ok(v: Velocity) -> bool {
    0 <= v.speed <= SPEED_LIMIT && angle_ok(v.angle as int)
}

/// The x component of the per-tick displacement of `v`.
pub open spec fn vel_dx(v: Velocity) -> int {
    polar_dx(v.speed as int, v.angle as int)
}

/// The y component of the per-tick displacement of `v`.
pub open spec fn vel_dy(v: Velocity) -> int {
    polar_dy(v.speed as int, v.angle as int)
}

/// Straight-line motion: the bullet's position advances by `velocity`
/// every tick.
#[derive(Clone, Copy, Debug, PartialEq, Eq, Structural)]
pub struct NormalBullet {
    pub velocity: Velocity,
}

/// Orbiting motion about a fixed origin.
///
/// When the bullet also carries a `NormalBullet`, each tick rotates both
/// the bullet's offset from `origin` and the straight-line velocity by
/// `rotation_speed`. When it does not, the stored polar offset (`radius`,
/// `angle`) is authoritative: the tick advances `angle` alone and places
/// the bullet at `origin` plus that polar offset, so the radius never
/// drifts.
#[derive(Clone, Copy, Debug, PartialEq, Eq, Structural)]
pub struct RotatingBullet {
    pub origin: Vec2I,
    /// Angle traversed per tick, normalized (a backward turn of `x` is a
    /// forward turn of `TURN - x`).
    pub rotation_speed: i64,
    /// Polar offset length from `origin`; used when no `NormalBullet` is
    /// present.
    pub radius: i64,
    /// Polar offset direction from `origin`; used when no `NormalBullet`
    /// is present.
    pub angle: i64,
}

/// Who a homing bullet steers toward.
#[derive(Clone, Copy, Debug, PartialEq, Eq, Structural)]
pub enum Target {
    Enemy,
    Player,
}

/// Guided motion: while the bullet is younger than `seeking_time`, its
/// velocity direction turns toward the target at `rotation_speed` per
/// tick; the speed never changes.
#[derive(Clone, Copy, Debug, PartialEq, Eq, Structural)]
pub struct HomingBullet {
    /// Steering rate, in angle units per tick.
    pub rotation_speed: i64,
    /// Guidance cutoff: steering stops for good once `age` exceeds this,
    /// in milliseconds.
    pub seeking_time: u64,
    pub target: Target,
}

/// Delayed launch: the bullet holds still until `wait_time`, then starts
/// off with `initial_velocity`, exactly once.
#[derive(Clone, Copy, Debug, PartialEq, Eq, Structural)]
pub struct StutterBullet {
    /// Hold time, in milliseconds.
    pub wait_time: u64,
    pub initial_velocity: Velocity,
    /// Set on launch so the law never fires twice.
    pub has_started: bool,
}

/// Pulsing motion: each tick the velocity is `true_velocity` scaled by
/// `(sin(age * sine_mod) + 1)`, a factor between 0 and 2; the direction
/// never reverses.
#[derive(Clone, Copy, Debug, PartialEq, Eq, Structural)]
pub struct WaveBullet {
    pub true_velocity: Velocity,
    /// Phase advance per millisecond of age, in thousandths of an angle
    /// unit.
    pub sine_mod: i64,
}

/// Tag and damage of a player-owned bullet; a bullet without one is
/// enemy-owned.
#[derive(Clone, Copy, Debug, PartialEq, Eq, Structural)]
pub struct PlayerBullet {
    pub damage: u32,
}

/// A fuse: once `age` reaches `delay`, the wrapped spawner's kinematics
/// are attached to this same bullet, exactly once. The bullet's identity
/// never changes.
#[derive(Debug)]
pub struct DelayedBullet {
    pub bullet: Box<BulletSpawner>,
    /// Fuse, in milliseconds.
    pub delay: u64,
    /// Set on deployment so the law never fires twice.
    pub deployed: bool,
}

/// A reusable bullet prototype: collider, spawn offset, and the
/// kinematics the spawned bullet starts with.
#[derive(Debug)]
pub struct BulletSpawner {
    /// Collider radius of spawned bullets.
    pub radius: i64,
    /// Offset of the spawn point from the spawning entity.
    pub offset: Vec2I,
    pub normal: Option<NormalBullet>,
    pub rotation: Option<RotatingBullet>,
    pub stutter: Option<StutterBullet>,
    pub homing: Option<HomingBullet>,
    pub wave: Option<WaveBullet>,
    pub delayed: Option<DelayedBullet>,
}

/// A live bullet: identity, collider, age, ownership and tags, and the
/// kinematics laws it carries.
#[derive(Debug)]
pub struct Bullet {
    /// Entity identity; never reused within an encounter.
    pub id: u64,
    pub pos: Vec2I,
    /// Collider radius.
    pub radius: i64,
    /// Time since spawn, in milliseconds.
    pub age: u64,
    /// `Some` for a player-owned bullet, `None` for an enemy-owned one.
    pub player: Option<PlayerBullet>,
    /// Player-bullet tag: also destroys the enemy bullet it hits.
    pub salted: bool,
    /// Player-bullet tag: passes through enemy bullets, reduced damage.
    pub phasing: bool,
    pub normal: Option<NormalBullet>,
    pub rotating: Option<RotatingBullet>,
    pub homing: Option<HomingBullet>,
    pub stutter: Option<StutterBullet>,
    pub wave: Option<WaveBullet>,
    pub delayed: Option<DelayedBullet>,
}

impl BulletSpawner {
    /// A bare prototype: a collider and spawn offset, no laws yet.
    pub fn new(radius: i64, offset: Vec2I) -> (r: BulletSpawner)
        ensures
            r.radius == radius,
            r.offset == offset,
            r.normal is None,
            r.rotation is None,
            r.stutter is None,
            r.homing is None,
            r.wave is None,
            r.delayed is None,
    {
        BulletSpawner {
            radius,
            offset,
            normal: None,
            rotation: None,
            stutter: None,
            homing: None,
            wave: None,
            delayed: None,
        }
    }

    /// The prototype with a straight-line velocity.
    pub fn normal(self, velocity: Velocity) -> (r: BulletSpawner)
        ensures
            r == (BulletSpawner { normal: Some(NormalBullet { velocity }), ..self }),
    {
        BulletSpawner { normal: Some(NormalBullet { velocity }), ..self }
    }

    /// The prototype orbiting `origin` at `rotation_speed` per tick,
    /// with the given polar offset for bullets that carry no
    /// straight-line law.
    pub fn rotation(self, origin: Vec2I, rotation_speed: i64, radius: i64, angle: i64) -> (r:
        BulletSpawner)
        ensures
            r == (BulletSpawner {
                rotation: Some(RotatingBullet { origin, rotation_speed, radius, angle }),
                ..self
            }),
    {
        BulletSpawner {
            rotation: Some(RotatingBullet { origin, rotation_speed, radius, angle }),
            ..self
        }
    }

    /// The prototype with homing guidance.
    pub fn homing(self, seeking_time: u64, rotation_speed: i64, target: Target) -> (r:
        BulletSpawner)
        ensures
            r == (BulletSpawner {
                homing: Some(HomingBullet { rotation_speed, seeking_time, target }),
                ..self
            }),
    {
        BulletSpawner { homing: Some(HomingBullet { rotation_speed, seeking_time, target }), ..self }
    }

    /// The prototype with a delayed launch.
    pub fn stutter(self, wait_time: u64, initial_velocity: Velocity, has_started: bool) -> (r:
        BulletSpawner)
        ensures
            r == (BulletSpawner {
                stutter: Some(StutterBullet { wait_time, initial_velocity, has_started }),
                ..self
            }),
    {
        BulletSpawner {
            stutter: Some(StutterBullet { wait_time, initial_velocity, has_started }),
            ..self
        }
    }

    /// The prototype with a pulsing velocity.
    pub fn wave(self, sine_mod: i64, true_velocity: Velocity) -> (r: BulletSpawner)
        ensures
            r == (BulletSpawner {
                wave: Some(WaveBullet { true_velocity, sine_mod }),
                ..self
            }),
    {
        BulletSpawner { wave: Some(WaveBullet { true_velocity, sine_mod }), ..self }
    }

    /// The prototype with a fuse that arms into the wrapped spawner.
    pub fn delayed(self, delayed: DelayedBullet) -> (r: BulletSpawner)
        ensures
            r == (BulletSpawner { delayed: Some(delayed), ..self }),
    {
        BulletSpawner { delayed: Some(delayed), ..self }
    }

    /// An exact copy of the prototype, nested fuses included.
    pub fn duplicate(&self) -> (r: BulletSpawner)
        ensures
            r == *self,
        decreases *self,
    {
        BulletSpawner {
            radius: self.radius,
            offset: self.offset,
            normal: self.normal,
            rotation: self.rotation,
            stutter: self.stutter,
            homing: self.homing,
            wave: self.wave,
            delayed: match &self.delayed {
                Some(d) => Some(
                    DelayedBullet {
                        bullet: Box::new(d.bullet.duplicate()),
                        delay: d.delay,
                        deployed: d.deployed,
                    },
                ),
                None => None,
            },
        }
    }
}

/// Well-formedness of each law's parameters.
pub open spec fn rotating_ok(r: RotatingBullet) -> bool {
    pos_ok(r.origin) && angle_ok(r.rotation_speed as int) && angle_ok(r.angle as int) && 0
        <= r.radius <= POS_LIMIT
}

pub open spec fn homing_ok(h: HomingBullet) -> bool {
    0 <= h.rotation_speed <= crate::angle::HALF_TURN
}

pub open spec fn stutter_ok(s: StutterBullet) -> bool {
    vel_ok(s.initial_velocity)
}

pub open spec fn wave_ok(w: WaveBullet) -> bool {
    vel_ok(w.true_velocity) && 2 * w.true_velocity.speed <= SPEED_LIMIT && 0 <= w.sine_mod
        <= 1_000_000
}

/// Well-formedness of a spawner, down through nested fuses.
pub open spec fn spawner_ok(s: BulletSpawner) -> bool
    decreases s,
{
    &&& 0 <= s.radius <= RADIUS_LIMIT
    &&& pos_ok(s.offset)
    &&& match s.normal {
        Some(n) => vel_ok(n.velocity),
        None => true,
    }
    &&& match s.rotation {
        Some(r) => rotating_ok(r),
        None => true,
    }
    &&& match s.stutter {
        Some(st) => stutter_ok(st),
        None => true,
    }
    &&& match s.homing {
        Some(h) => homing_ok(h),
        None => true,
    }
    &&& match s.wave {
        Some(w) => wave_ok(w),
        None => true,
    }
    &&& match s.delayed {
        Some(d) => spawner_ok(*d.bullet),
        None => true,
    }
}

/// Well-formedness of a live bullet: every law it carries has parameters
/// in range, and its position and collider are in the working range.
pub open spec fn bullet_ok(b: Bullet) -> bool {
    &&& pos_ok(b.pos)
    &&& 0 <= b.radius <= RADIUS_LIMIT
    &&& match b.player {
        Some(p) => p.damage <= 0x7FFF_FFFF,
        None => true,
    }
    &&& match b.normal {
        Some(n) => vel_ok(n.velocity),
        None => true,
    }
    &&& match b.rotating {
        Some(r) => rotating_ok(r),
        None => true,
    }
    &&& match b.homing {
        Some(h) => homing_ok(h),
        None => true,
    }
    &&& match b.stutter {
        Some(s) => stutter_ok(s),
        None => true,
    }
    &&& match b.wave {
        Some(w) => wave_ok(w),
        None => true,
    }
    &&& match b.delayed {
        Some(d) => spawner_ok(*d.bullet),
        None => true,
    }
}

impl Bullet {
    /// The bullet's collider circle.
    pub fn circle(&self) -> (r: Circle)
        ensures
            r == (Circle { pos: self.pos, radius: self.radius }),
    {
        Circle { pos: self.pos, radius: self.radius }
    }

    /// Whether the bullet is player-owned.
    pub fn is_player(&self) -> (r: bool)
        ensures
            r == self.player.is_some(),
    {
        self.player.is_some()
    }
}

/// One tick of the Normal law: position advances by the velocity,
/// clamped to the working range.
pub open spec fn normal_step_spec(b: Bullet) -> Bullet {
    match b.normal {
        Some(n) => Bullet {
            pos: clamp_translate_spec(
                b.pos,
                Vec2I { x: vel_dx(n.velocity) as i64, y: vel_dy(n.velocity) as i64 },
            ),
            ..b
        },
        None => b,
    }
}

/// Applies the Normal law to one bullet.
pub fn move_normal_bullet(b: Bullet) -> (r: Bullet)
    requires
        bullet_ok(b),
    ensures
        r == normal_step_spec(b),
        bullet_ok(r),
{
    let d = match &b.normal {
        Some(n) => crate::geom::polar_step(n.velocity.speed, n.velocity.angle),
        None => {
            return b;
        },
    };
    let pos = b.pos.clamp_translate(d);
    Bullet { pos, ..b }
}

/// One tick of the Rotating law.
///
/// With a Normal law present, the offset from `origin` and the
/// straight-line velocity's direction both turn by `rotation_speed`.
/// Without one, the stored polar offset turns and dictates the position;
/// its radius is untouched.
pub open spec fn rotating_step_spec(b: Bullet) -> Bullet {
    match b.rotating {
        Some(r) => match b.normal {
            Some(n) => {
                let off = Vec2I { x: (b.pos.x - r.origin.x) as i64, y: (b.pos.y - r.origin.y) as i64 };
                let turned = Vec2I {
                    x: rot_dx(off, r.rotation_speed as int) as i64,
                    y: rot_dy(off, r.rotation_speed as int) as i64,
                };
                Bullet {
                    pos: clamp_translate_spec(r.origin, turned),
                    normal: Some(
                        NormalBullet {
                            velocity: Velocity {
                                speed: n.velocity.speed,
                                angle: add_angle_spec(
                                    n.velocity.angle as int,
                                    r.rotation_speed as int,
                                ) as i64,
                            },
                        },
                    ),
                    ..b
                }
            },
            None => {
                let new_angle = add_angle_spec(r.angle as int, r.rotation_speed as int) as i64;
                let off = Vec2I {
                    x: polar_dx(r.radius as int, new_angle as int) as i64,
                    y: polar_dy(r.radius as int, new_angle as int) as i64,
                };
                Bullet {
                    pos: clamp_translate_spec(r.origin, off),
                    rotating: Some(RotatingBullet { angle: new_angle, ..r }),
                    ..b
                }
            },
        },
        None => b,
    }
}

/// Applies the Rotating law to one bullet.
pub fn move_rotating_bullet(b: Bullet) -> (res: Bullet)
    requires
        bullet_ok(b),
    ensures
        res == rotating_step_spec(b),
        bullet_ok(res),
{
    let r = match &b.rotating {
        Some(r) => *r,
        None => {
            return b;
        },
    };
    match &b.normal {
        Some(n) => {
            let n = *n;
            let off = Vec2I { x: b.pos.x - r.origin.x, y: b.pos.y - r.origin.y };
            let turned = rotate_vec(off, r.rotation_speed);
            let new_angle = add_angle(n.velocity.angle, r.rotation_speed);
            Bullet {
                pos: r.origin.clamp_translate(turned),
                normal: Some(
                    NormalBullet {
                        velocity: Velocity { speed: n.velocity.speed, angle: new_angle },
                    },
                ),
                ..b
            }
        },
        None => {
            let new_angle = add_angle(r.angle, r.rotation_speed);
            let off = crate::geom::polar_step(r.radius, new_angle);
            Bullet {
                pos: r.origin.clamp_translate(off),
                rotating: Some(RotatingBullet { angle: new_angle, ..r }),
                ..b
            }
        },
    }
}

/// Below this speed (a hundredth of a pixel per tick) homing guidance
/// does not engage.
pub const MIN_HOMING_SPEED: i64 = 10;

/// One tick of the Homing law: while the age is within `seeking_time`
/// and the bullet is moving, the velocity direction turns toward the
/// resolved target by at most `rotation_speed`; the speed is untouched.
/// A missing target means no steering this tick.
pub open spec fn homing_step_spec(b: Bullet, player: Option<Vec2I>, enemy: Option<Vec2I>) -> Bullet {
    match (b.homing, b.normal) {
        (Some(h), Some(n)) => {
            let target = match h.target {
                Target::Player => player,
                Target::Enemy => enemy,
            };
            match target {
                Some(t) => if b.age <= h.seeking_time && n.velocity.speed >= MIN_HOMING_SPEED {
                    let ta = dir_spec(t.x - b.pos.x, t.y - b.pos.y);
                    let na = rotate_towards_spec(
                        n.velocity.angle as int,
                        ta,
                        h.rotation_speed as int,
                    );
                    Bullet {
                        normal: Some(
                            NormalBullet {
                                velocity: Velocity { speed: n.velocity.speed, angle: na as i64 },
                            },
                        ),
                        ..b
                    }
                } else {
                    b
                },
                None => b,
            }
        },
        _ => b,
    }
}

/// Applies the Homing law to one bullet, given the target positions this
/// tick resolved (either may be missing).
pub fn move_homing_bullet(b: Bullet, player: Option<Vec2I>, enemy: Option<Vec2I>) -> (r: Bullet)
    requires
        bullet_ok(b),
        match player {
            Some(p) => pos_ok(p),
            None => true,
        },
        match enemy {
            Some(p) => pos_ok(p),
            None => true,
        },
    ensures
        r == homing_step_spec(b, player, enemy),
        bullet_ok(r),
{
    let (h, n) = match (&b.homing, &b.normal) {
        (Some(h), Some(n)) => (*h, *n),
        _ => {
            return b;
        },
    };
    let target = match h.target {
        Target::Player => player,
        Target::Enemy => enemy,
    };
    let t = match target {
        Some(t) => t,
        None => {
            return b;
        },
    };
    if b.age <= h.seeking_time && n.velocity.speed >= MIN_HOMING_SPEED {
        let ta = dir_angle(t.x - b.pos.x, t.y - b.pos.y);
        let na = rotate_towards(n.velocity.angle, ta, h.rotation_speed);
        Bullet {
            normal: Some(
                NormalBullet { velocity: Velocity { speed: n.velocity.speed, angle: na } },
            ),
            ..b
        }
    } else {
        b
    }
}

/// The age of a wave bullet reduced to one period of the engine's sine:
/// ages one full period (`TURN` seconds) apart give the same phase
/// exactly, so the reduction loses nothing.
pub open spec fn wave_phase_spec(age: u64, sine_mod: i64) -> int {
    (((age % 6_144_000) * sine_mod) / 1000) % (TURN as int)
}

/// The Wave law's scalar factor, `sin(age * sine_mod) + 1` in fixed
/// point: always within `0 ..= 2 * SCALE`.
pub open spec fn wave_factor_spec(age: u64, sine_mod: i64) -> int {
    crate::angle::sin_spec(wave_phase_spec(age, sine_mod)) + SCALE
}

/// One tick of the Wave law: the velocity is the fixed `true_velocity`
/// throttled by the factor; the direction is `true_velocity`'s and the
/// speed is never negative, so the motion never reverses.
pub open spec fn wave_step_spec(b: Bullet) -> Bullet {
    match (b.wave, b.normal) {
        (Some(w), Some(n)) => Bullet {
            normal: Some(
                NormalBullet {
                    velocity: Velocity {
                        speed: tdiv(
                            w.true_velocity.speed * wave_factor_spec(b.age, w.sine_mod),
                            SCALE as int,
                        ) as i64,
                        angle: w.true_velocity.angle,
                    },
                },
            ),
            ..b
        },
        _ => b,
    }
}

/// A non-negative factor of at most `2 * SCALE` keeps the throttled
/// speed within twice the true speed.
proof fn lemma_wave_speed_bound(s: int, f: int)
    requires
        0 <= s,
        0 <= f <= 2 * SCALE,
    ensures
        0 <= tdiv(s * f, SCALE as int) <= 2 * s,
{
    assert(0 <= s * f <= s * (2 * SCALE)) by (nonlinear_arith)
        requires
            0 <= s,
            0 <= f <= 2 * SCALE,
    ;
    assert(s * (2 * SCALE) == (2 * s) * SCALE) by (nonlinear_arith);
    crate::fixed::lemma_tdiv_ordered(s * f, (2 * s) * SCALE, SCALE as int);
    crate::fixed::lemma_tdiv_exact(2 * s, SCALE as int);
}

/// Applies the Wave law to one bullet.
pub fn move_wave_bullet(b: Bullet) -> (r: Bullet)
    requires
        bullet_ok(b),
    ensures
        r == wave_step_spec(b),
        bullet_ok(r),
{
    let (w, n) = match (&b.wave, &b.normal) {
        (Some(w), Some(n)) => (*w, *n),
        _ => {
            return b;
        },
    };
    let reduced = b.age % 6_144_000u64;
    proof {
        assert(reduced * w.sine_mod <= 6_144_000 * 1_000_000) by (nonlinear_arith)
            requires
                0 <= reduced < 6_144_000,
                0 <= w.sine_mod <= 1_000_000,
        ;
    }
    let ph = ((reduced * (w.sine_mod as u64)) / 1000) % (TURN as u64);
    let s = crate::angle::sin_fp(ph as i64);
    let factor = s + SCALE;
    proof {
        lemma_wave_speed_bound(w.true_velocity.speed as int, factor as int);
    }
    let new_speed = mul_scale(w.true_velocity.speed, factor);
    Bullet {
        normal: Some(
            NormalBullet {
                velocity: Velocity { speed: new_speed, angle: w.true_velocity.angle },
            },
        ),
        ..b
    }
}

/// One tick of the Stutter law: the velocity is held at zero until
/// `wait_time`, then set to `initial_velocity` exactly once, guarded by
/// `has_started`.
pub open spec fn stutter_step_spec(b: Bullet) -> Bullet {
    match (b.stutter, b.normal) {
        (Some(s), Some(n)) => if b.age < s.wait_time {
            Bullet {
                normal: Some(
                    NormalBullet {
                        velocity: Velocity { speed: 0, angle: n.velocity.angle },
                    },
                ),
                ..b
            }
        } else if !s.has_started {
            Bullet {
                normal: Some(NormalBullet { velocity: s.initial_velocity }),
                stutter: Some(StutterBullet { has_started: true, ..s }),
                ..b
            }
        } else {
            b
        },
        _ => b,
    }
}

/// Applies the Stutter law to one bullet.
pub fn move_stutter_bullet(b: Bullet) -> (r: Bullet)
    requires
        bullet_ok(b),
    ensures
        r == stutter_step_spec(b),
        bullet_ok(r),
{
    let (s, n) = match (&b.stutter, &b.normal) {
        (Some(s), Some(n)) => (*s, *n),
        _ => {
            return b;
        },
    };
    if b.age < s.wait_time {
        Bullet {
            normal: Some(
                NormalBullet { velocity: Velocity { speed: 0, angle: n.velocity.angle } },
            ),
            ..b
        }
    } else if !s.has_started {
        Bullet {
            normal: Some(NormalBullet { velocity: s.initial_velocity }),
            stutter: Some(StutterBullet { has_started: true, ..s }),
            ..b
        }
    } else {
        b
    }
}

/// One tick of the Delayed law: once the age reaches the fuse, the
/// wrapped spawner's laws are attached onto this same bullet (each one
/// present overwrites, each one absent leaves the old law in place), one
/// time only. A nested fuse replaces this one; otherwise the fuse stays,
/// marked deployed.
pub open spec fn delayed_step_spec(b: Bullet) -> Bullet {
    match (b.delayed, b.normal) {
        (Some(d), Some(_)) => if b.age >= d.delay && !d.deployed {
            let s = *d.bullet;
            Bullet {
                normal: if s.normal is Some {
                    s.normal
                } else {
                    b.normal
                },
                rotating: if s.rotation is Some {
                    s.rotation
                } else {
                    b.rotating
                },
                stutter: if s.stutter is Some {
                    s.stutter
                } else {
                    b.stutter
                },
                homing: if s.homing is Some {
                    s.homing
                } else {
                    b.homing
                },
                wave: if s.wave is Some {
                    s.wave
                } else {
                    b.wave
                },
                delayed: if s.delayed is Some {
                    s.delayed
                } else {
                    Some(DelayedBullet { bullet: d.bullet, delay: d.delay, deployed: true })
                },
                ..b
            }
        } else {
            b
        },
        _ => b,
    }
}

/// Applies the Delayed law to one bullet.
pub fn resolve_delayed_bullet(b: Bullet) -> (r: Bullet)
    requires
        bullet_ok(b),
    ensures
        r == delayed_step_spec(b),
        bullet_ok(r),
{
    let armed = match (&b.delayed, &b.normal) {
        (Some(d), Some(_)) => b.age >= d.delay && !d.deployed,
        _ => false,
    };
    if !armed {
        return b;
    }
    let Bullet { id, pos, radius, age, player, salted, phasing, normal, rotating, homing, stutter,
        wave, delayed } = b;
    let d = match delayed {
        Some(d) => d,
        None => {
            proof {
                assert(false);
            }
            unreached()
        },
    };
    let s: BulletSpawner = *d.bullet;
    let new_delayed = match s.delayed {
        Some(inner) => Some(inner),
        None => Some(
            DelayedBullet {
                bullet: Box::new(
                    BulletSpawner {
                        radius: s.radius,
                        offset: s.offset,
                        normal: s.normal,
                        rotation: s.rotation,
                        stutter: s.stutter,
                        homing: s.homing,
                        wave: s.wave,
                        delayed: None,
                    },
                ),
                delay: d.delay,
                deployed: true,
            },
        ),
    };
    Bullet {
        id,
        pos,
        radius,
        age,
        player,
        salted,
        phasing,
        normal: if s.normal.is_some() {
            s.normal
        } else {
            normal
        },
        rotating: if s.rotation.is_some() {
            s.rotation
        } else {
            rotating
        },
        stutter: if s.stutter.is_some() {
            s.stutter
        } else {
            stutter
        },
        homing: if s.homing.is_some() {
            s.homing
        } else {
            homing
        },
        wave: if s.wave.is_some() {
            s.wave
        } else {
            wave
        },
        delayed: new_delayed,
    }
}

/// Every bullet of a sequence is well formed.
pub open spec fn all_ok(s: Seq<Bullet>) -> bool {
    forall|i: int| 0 <= i < s.len() ==> bullet_ok(#[trigger] s[i])
}

/// One tick of the age clock: saturating.
pub open spec fn age_step_spec(b: Bullet, dt: u64) -> Bullet {
    Bullet { age: crate::timer::watch_tick_spec(b.age, dt), ..b }
}

/// Advances one bullet's age clock by `dt` milliseconds.
pub fn tick_bullet(b: Bullet, dt: u64) -> (r: Bullet)
    requires
        bullet_ok(b),
    ensures
        r == age_step_spec(b, dt),
        bullet_ok(r),
{
    let age = watch_tick(b.age, dt);
    Bullet { age, ..b }
}

/// Applies the Normal law to every bullet, in order.
pub fn move_normal_bullets(bullets: &mut Vec<Bullet>)
    requires
        all_ok(old(bullets)@),
    ensures
        final(bullets)@.len() == old(bullets)@.len(),
        forall|i: int|
            0 <= i < old(bullets)@.len() ==> final(bullets)@[i] == normal_step_spec(
                old(bullets)@[i],
            ),
        all_ok(final(bullets)@),
{
    let ghost orig = bullets@;
    let n = bullets.len();
    let mut i: usize = 0;
    while i < n
        invariant
            n == orig.len(),
            bullets@.len() == n,
            i <= n,
            all_ok(orig),
            forall|j: int| 0 <= j < i ==> bullets@[j] == normal_step_spec(orig[j]),
            forall|j: int| i <= j < n ==> bullets@[j] == orig[j],
            all_ok(bullets@),
        decreases n - i,
    {
        let ghost prev = bullets@;
        let b = bullets.remove(i);
        let nb = move_normal_bullet(b);
        bullets.insert(i, nb);
        proof {
            assert(bullets@ =~= prev.update(i as int, nb));
        }
        i += 1;
    }
}

/// Applies the Rotating law to every bullet, in order.
pub fn move_rotating_bullets(bullets: &mut Vec<Bullet>)
    requires
        all_ok(old(bullets)@),
    ensures
        final(bullets)@.len() == old(bullets)@.len(),
        forall|i: int|
            0 <= i < old(bullets)@.len() ==> final(bullets)@[i] == rotating_step_spec(
                old(bullets)@[i],
            ),
        all_ok(final(bullets)@),
{
    let ghost orig = bullets@;
    let n = bullets.len();
    let mut i: usize = 0;
    while i < n
        invariant
            n == orig.len(),
            bullets@.len() == n,
            i <= n,
            all_ok(orig),
            forall|j: int| 0 <= j < i ==> bullets@[j] == rotating_step_spec(orig[j]),
            forall|j: int| i <= j < n ==> bullets@[j] == orig[j],
            all_ok(bullets@),
        decreases n - i,
    {
        let ghost prev = bullets@;
        let b = bullets.remove(i);
        let nb = move_rotating_bullet(b);
        bullets.insert(i, nb);
        proof {
            assert(bullets@ =~= prev.update(i as int, nb));
        }
        i += 1;
    }
}

/// Applies the Homing law to every bullet, in order, against the target
/// positions resolved once for this tick.
pub fn move_homing_bullets(bullets: &mut Vec<Bullet>, player: Option<Vec2I>, enemy: Option<Vec2I>)
    requires
        all_ok(old(bullets)@),
        match player {
            Some(p) => pos_ok(p),
            None => true,
        },
        match enemy {
            Some(p) => pos_ok(p),
            None => true,
        },
    ensures
        final(bullets)@.len() == old(bullets)@.len(),
        forall|i: int|
            0 <= i < old(bullets)@.len() ==> final(bullets)@[i] == homing_step_spec(
                old(bullets)@[i],
                player,
                enemy,
            ),
        all_ok(final(bullets)@),
{
    let ghost orig = bullets@;
    let n = bullets.len();
    let mut i: usize = 0;
    while i < n
        invariant
            n == orig.len(),
            bullets@.len() == n,
            i <= n,
            all_ok(orig),
            match player {
                Some(p) => pos_ok(p),
                None => true,
            },
            match enemy {
                Some(p) => pos_ok(p),
                None => true,
            },
            forall|j: int| 0 <= j < i ==> bullets@[j] == homing_step_spec(orig[j], player, enemy),
            forall|j: int| i <= j < n ==> bullets@[j] == orig[j],
            all_ok(bullets@),
        decreases n - i,
    {
        let ghost prev = bullets@;
        let b = bullets.remove(i);
        let nb = move_homing_bullet(b, player, enemy);
        bullets.insert(i, nb);
        proof {
            assert(bullets@ =~= prev.update(i as int, nb));
        }
        i += 1;
    }
}

/// Applies the Wave law to every bullet, in order.
pub fn move_wave_bullets(bullets: &mut Vec<Bullet>)
    requires
        all_ok(old(bullets)@),
    ensures
        final(bullets)@.len() == old(bullets)@.len(),
        forall|i: int|
            0 <= i < old(bullets)@.len() ==> final(bullets)@[i] == wave_step_spec(
                old(bullets)@[i],
            ),
        all_ok(final(bullets)@),
{
    let ghost orig = bullets@;
    let n = bullets.len();
    let mut i: usize = 0;
    while i < n
        invariant
            n == orig.len(),
            bullets@.len() == n,
            i <= n,
            all_ok(orig),
            forall|j: int| 0 <= j < i ==> bullets@[j] == wave_step_spec(orig[j]),
            forall|j: int| i <= j < n ==> bullets@[j] == orig[j],
            all_ok(bullets@),
        decreases n - i,
    {
        let ghost prev = bullets@;
        let b = bullets.remove(i);
        let nb = move_wave_bullet(b);
        bullets.insert(i, nb);
        proof {
            assert(bullets@ =~= prev.update(i as int, nb));
        }
        i += 1;
    }
}

/// Applies the Stutter law to every bullet, in order.
pub fn move_stutter_bullets(bullets: &mut Vec<Bullet>)
    requires
        all_ok(old(bullets)@),
    ensures
        final(bullets)@.len() == old(bullets)@.len(),
        forall|i: int|
            0 <= i < old(bullets)@.len() ==> final(bullets)@[i] == stutter_step_spec(
                old(bullets)@[i],
            ),
        all_ok(final(bullets)@),
{
    let ghost orig = bullets@;
    let n = bullets.len();
    let mut i: usize = 0;
    while i < n
        invariant
            n == orig.len(),
            bullets@.len() == n,
            i <= n,
            all_ok(orig),
            forall|j: int| 0 <= j < i ==> bullets@[j] == stutter_step_spec(orig[j]),
            forall|j: int| i <= j < n ==> bullets@[j] == orig[j],
            all_ok(bullets@),
        decreases n - i,
    {
        let ghost prev = bullets@;
        let b = bullets.remove(i);
        let nb = move_stutter_bullet(b);
        bullets.insert(i, nb);
        proof {
            assert(bullets@ =~= prev.update(i as int, nb));
        }
        i += 1;
    }
}

/// Applies the Delayed law to every bullet, in order.
pub fn resolve_delayed_bullets(bullets: &mut Vec<Bullet>)
    requires
        all_ok(old(bullets)@),
    ensures
        final(bullets)@.len() == old(bullets)@.len(),
        forall|i: int|
            0 <= i < old(bullets)@.len() ==> final(bullets)@[i] == delayed_step_spec(
                old(bullets)@[i],
            ),
        all_ok(final(bullets)@),
{
    let ghost orig = bullets@;
    let n = bullets.len();
    let mut i: usize = 0;
    while i < n
        invariant
            n == orig.len(),
            bullets@.len() == n,
            i <= n,
            all_ok(orig),
            forall|j: int| 0 <= j < i ==> bullets@[j] == delayed_step_spec(orig[j]),
            forall|j: int| i <= j < n ==> bullets@[j] == orig[j],
            all_ok(bullets@),
        decreases n - i,
    {
        let ghost prev = bullets@;
        let b = bullets.remove(i);
        let nb = resolve_delayed_bullet(b);
        bullets.insert(i, nb);
        proof {
            assert(bullets@ =~= prev.update(i as int, nb));
        }
        i += 1;
    }
}

/// Advances every bullet's age clock by `dt`, in order.
pub fn tick_bullets(bullets: &mut Vec<Bullet>, dt: u64)
    requires
        all_ok(old(bullets)@),
    ensures
        final(bullets)@.len() == old(bullets)@.len(),
        forall|i: int|
            0 <= i < old(bullets)@.len() ==> final(bullets)@[i] == age_step_spec(
                old(bullets)@[i],
                dt,
            ),
        all_ok(final(bullets)@),
{
    let ghost orig = bullets@;
    let n = bullets.len();
    let mut i: usize = 0;
    while i < n
        invariant
            n == orig.len(),
            bullets@.len() == n,
            i <= n,
            all_ok(orig),
            forall|j: int| 0 <= j < i ==> bullets@[j] == age_step_spec(orig[j], dt),
            forall|j: int| i <= j < n ==> bullets@[j] == orig[j],
            all_ok(bullets@),
        decreases n - i,
    {
        let ghost prev = bullets@;
        let b = bullets.remove(i);
        let nb = tick_bullet(b, dt);
        bullets.insert(i, nb);
        proof {
            assert(bullets@ =~= prev.update(i as int, nb));
        }
        i += 1;
    }
}

/// Whether the bounds cull keeps a bullet: player bullets always stay;
/// an enemy bullet stays only inside the generous cull rectangle.
pub open spec fn bullet_kept(b: Bullet) -> bool {
    b.player is Some || crate::geom::rect_contains(crate::geom::despawn_bounds(), b.pos)
}

/// The sequence of bullets surviving the bounds cull, in order.
pub open spec fn cull_spec(s: Seq<Bullet>) -> Seq<Bullet>
    decreases s.len(),
{
    if s.len() == 0 {
        Seq::empty()
    } else {
        let rest = cull_spec(s.drop_first());
        if bullet_kept(s[0]) {
            seq![s[0]] + rest
        } else {
            rest
        }
    }
}

/// Every bullet surviving the cull was well formed before it.
pub proof fn lemma_cull_ok(s: Seq<Bullet>)
    requires
        all_ok(s),
    ensures
        all_ok(cull_spec(s)),
        cull_spec(s).len() <= s.len(),
    decreases s.len(),
{
    if s.len() > 0 {
        assert(all_ok(s.drop_first()));
        lemma_cull_ok(s.drop_first());
        if bullet_kept(s[0]) {
            assert(forall|i: int|
                0 <= i < cull_spec(s).len() ==> bullet_ok(#[trigger] cull_spec(s)[i]));
        }
    }
}

/// Despawns every enemy-owned bullet outside the generous cull
/// rectangle; player-owned bullets and in-bounds bullets survive, in
/// their original order.
pub fn despawn_bullets(bullets: &mut Vec<Bullet>)
    requires
        all_ok(old(bullets)@),
    ensures
        final(bullets)@ == cull_spec(old(bullets)@),
        all_ok(final(bullets)@),
{
    let ghost orig = bullets@;
    let bounds = crate::geom::despawn_rect();
    let mut out: Vec<Bullet> = Vec::new();
    while bullets.len() > 0
        invariant
            bounds == crate::geom::despawn_bounds(),
            all_ok(orig),
            all_ok(bullets@),
            all_ok(out@),
            cull_spec(orig) == out@ + cull_spec(bullets@),
        decreases bullets@.len(),
    {
        let ghost prev = bullets@;
        let b = bullets.remove(0);
        proof {
            assert(bullets@ =~= prev.drop_first());
        }
        if b.player.is_some() || bounds.contains(b.pos) {
            out.push(b);
            proof {
                assert(out@ + cull_spec(bullets@) =~= cull_spec(orig));
            }
        } else {
            proof {
                assert(out@ + cull_spec(bullets@) =~= cull_spec(orig));
            }
        }
    }
    proof {
        assert(cull_spec(bullets@) =~= Seq::<Bullet>::empty());
        assert(out@ + cull_spec(bullets@) =~= out@);
        lemma_cull_ok(orig);
    }
    *bullets = out;
}

/// One tick of the whole kinematics stage, in the engine's fixed law
/// order: Normal, Rotating, Homing, Wave, Stutter, Delayed.
pub open spec fn integrate_spec(b: Bullet, player: Option<Vec2I>, enemy: Option<Vec2I>) -> Bullet {
    delayed_step_spec(
        stutter_step_spec(
            wave_step_spec(
                homing_step_spec(rotating_step_spec(normal_step_spec(b)), player, enemy),
            ),
        ),
    )
}

/// A bullet after `n` whole ticks (kinematics stage then age clock),
/// against fixed target positions and tick length.
pub open spec fn bullet_ticks(
    b: Bullet,
    player: Option<Vec2I>,
    enemy: Option<Vec2I>,
    dt: u64,
    n: nat,
) -> Bullet
    decreases n,
{
    if n == 0 {
        b
    } else {
        bullet_ticks(
            age_step_spec(integrate_spec(b, player, enemy), dt),
            player,
            enemy,
            dt,
            (n - 1) as nat,
        )
    }
}

/// A bullet carrying the Normal law and no other.
pub open spec fn normal_only(b: Bullet) -> bool {
    &&& b.normal is Some
    &&& b.rotating is None
    &&& b.homing is None
    &&& b.stutter is None
    &&& b.wave is None
    &&& b.delayed is None
}

/// The position reached by `n` straight steps of velocity `v` from
/// `p`, each step clamped to the position range: the exact trajectory
/// of the Normal law, for every input.
pub open spec fn clamped_path(p: Vec2I, v: Velocity, n: nat) -> Vec2I
    decreases n,
{
    if n == 0 {
        p
    } else {
        clamp_translate_spec(
            clamped_path(p, v, (n - 1) as nat),
            Vec2I { x: vel_dx(v) as i64, y: vel_dy(v) as i64 },
        )
    }
}

/// Walking the path is the same seen from its first step.
proof fn lemma_clamped_path_shift(p: Vec2I, v: Velocity, n: nat)
    requires
        n >= 1,
    ensures
        clamped_path(p, v, n) == clamped_path(
            clamp_translate_spec(p, Vec2I { x: vel_dx(v) as i64, y: vel_dy(v) as i64 }),
            v,
            (n - 1) as nat,
        ),
    decreases n,
{
    let d = Vec2I { x: vel_dx(v) as i64, y: vel_dy(v) as i64 };
    if n == 1 {
        assert(clamped_path(p, v, 0nat) == p);
        assert(clamped_path(clamp_translate_spec(p, d), v, 0nat) == clamp_translate_spec(p, d));
    } else {
        lemma_clamped_path_shift(p, v, (n - 1) as nat);
        assert(clamped_path(clamp_translate_spec(p, d), v, (n - 1) as nat)
            == clamp_translate_spec(
            clamped_path(clamp_translate_spec(p, d), v, (n - 2) as nat),
            d,
        ));
    }
}

/// Law of straight motion, in full: a bullet with only the Normal law
/// follows exactly the clamped velocity path, for every input and any
/// number of ticks, and its velocity never changes.
pub proof fn lemma_normal_path(
    b: Bullet,
    player: Option<Vec2I>,
    enemy: Option<Vec2I>,
    dt: u64,
    n: nat,
)
    requires
        bullet_ok(b),
        normal_only(b),
    ensures
        bullet_ticks(b, player, enemy, dt, n).pos == clamped_path(
            b.pos,
            b.normal->0.velocity,
            n,
        ),
        bullet_ticks(b, player, enemy, dt, n).normal == b.normal,
        normal_only(bullet_ticks(b, player, enemy, dt, n)),
        bullet_ok(bullet_ticks(b, player, enemy, dt, n)),
    decreases n,
{
    let v = b.normal->0.velocity;
    crate::angle::lemma_cos_range(v.angle as int);
    crate::angle::lemma_sin_range(v.angle as int);
    crate::geom::lemma_polar_bound(v.speed as int, crate::angle::cos_spec(v.angle as int));
    crate::geom::lemma_polar_bound(v.speed as int, crate::angle::sin_spec(v.angle as int));
    if n > 0 {
        let b1 = age_step_spec(integrate_spec(b, player, enemy), dt);
        assert(b1.pos == clamp_translate_spec(
            b.pos,
            Vec2I { x: vel_dx(v) as i64, y: vel_dy(v) as i64 },
        ));
        assert(b1.normal == b.normal);
        assert(normal_only(b1));
        lemma_normal_path(b1, player, enemy, dt, (n - 1) as nat);
        lemma_clamped_path_shift(b.pos, v, n);
    }
}

/// Law of straight motion, inside the working range: a bullet with
/// only the Normal law is, after `n` ticks, exactly `n` velocity steps
/// from where it started, and its velocity has not changed — as long
/// as the whole flight stays inside the position range the engine
/// maintains (the clamped path then never clamps).
pub proof fn lemma_normal_trajectory(
    b: Bullet,
    player: Option<Vec2I>,
    enemy: Option<Vec2I>,
    dt: u64,
    n: nat,
)
    requires
        bullet_ok(b),
        normal_only(b),
        -POS_LIMIT <= b.pos.x + n * vel_dx(b.normal->0.velocity) <= POS_LIMIT,
        -POS_LIMIT <= b.pos.y + n * vel_dy(b.normal->0.velocity) <= POS_LIMIT,
    ensures
        bullet_ticks(b, player, enemy, dt, n).pos.x == b.pos.x + n * vel_dx(
            b.normal->0.velocity,
        ),
        bullet_ticks(b, player, enemy, dt, n).pos.y == b.pos.y + n * vel_dy(
            b.normal->0.velocity,
        ),
        bullet_ticks(b, player, enemy, dt, n).normal == b.normal,
        normal_only(bullet_ticks(b, player, enemy, dt, n)),
        bullet_ok(bullet_ticks(b, player, enemy, dt, n)),
    decreases n,
{
    let v = b.normal->0.velocity;
    let dx = vel_dx(v);
    let dy = vel_dy(v);
    crate::angle::lemma_cos_range(v.angle as int);
    crate::angle::lemma_sin_range(v.angle as int);
    crate::geom::lemma_polar_bound(v.speed as int, crate::angle::cos_spec(v.angle as int));
    crate::geom::lemma_polar_bound(v.speed as int, crate::angle::sin_spec(v.angle as int));
    if n > 0 {
        let b1 = age_step_spec(integrate_spec(b, player, enemy), dt);
        assert(dx >= 0 ==> dx <= n * dx) by (nonlinear_arith)
            requires
                n >= 1,
        ;
        assert(dx < 0 ==> n * dx <= dx) by (nonlinear_arith)
            requires
                n >= 1,
        ;
        assert(dy >= 0 ==> dy <= n * dy) by (nonlinear_arith)
            requires
                n >= 1,
        ;
        assert(dy < 0 ==> n * dy <= dy) by (nonlinear_arith)
            requires
                n >= 1,
        ;
        assert(b1.pos.x == b.pos.x + dx);
        assert(b1.pos.y == b.pos.y + dy);
        assert(b1.normal == b.normal);
        assert(normal_only(b1));
        assert((n - 1) * dx == n * dx - dx) by (nonlinear_arith);
        assert((n - 1) * dy == n * dy - dy) by (nonlinear_arith);
        lemma_normal_trajectory(b1, player, enemy, dt, (n - 1) as nat);
        let bn = bullet_ticks(b1, player, enemy, dt, (n - 1) as nat);
        assert(bullet_ticks(b, player, enemy, dt, n) == bn);
        assert(bn.pos.x == b1.pos.x + ((n - 1) as nat) * vel_dx(b1.normal->0.velocity));
        assert(((n - 1) as nat) * vel_dx(b1.normal->0.velocity) == (n - 1) * dx);
        assert(bn.pos.x == b.pos.x + n * dx);
        assert(bn.pos.y == b.pos.y + n * dy);
    } else {
        assert(bullet_ticks(b, player, enemy, dt, n) == b);
        assert(n * dx == 0) by (nonlinear_arith)
            requires
                n == 0,
        ;
        assert(n * dy == 0) by (nonlinear_arith)
            requires
                n == 0,
        ;
    }
}

/// A bullet carrying the Rotating law and no other.
pub open spec fn rotating_only(b: Bullet) -> bool {
    &&& b.rotating is Some
    &&& b.normal is None
    &&& b.homing is None
    &&& b.stutter is None
    &&& b.wave is None
    &&& b.delayed is None
}

/// Law of pure rotation: a bullet with only the Rotating law keeps its
/// distance from the origin — the polar radius that dictates its
/// position — unchanged across any number of ticks; only the polar
/// angle advances.
pub proof fn lemma_rotating_radius_invariant(
    b: Bullet,
    player: Option<Vec2I>,
    enemy: Option<Vec2I>,
    dt: u64,
    n: nat,
)
    requires
        bullet_ok(b),
        rotating_only(b),
    ensures
        bullet_ticks(b, player, enemy, dt, n).rotating is Some,
        bullet_ticks(b, player, enemy, dt, n).rotating->0.radius == b.rotating->0.radius,
        bullet_ticks(b, player, enemy, dt, n).rotating->0.origin == b.rotating->0.origin,
        bullet_ticks(b, player, enemy, dt, n).rotating->0.rotation_speed
            == b.rotating->0.rotation_speed,
        rotating_only(bullet_ticks(b, player, enemy, dt, n)),
        bullet_ok(bullet_ticks(b, player, enemy, dt, n)),
        n > 0 ==> bullet_ticks(b, player, enemy, dt, n).pos == clamp_translate_spec(
            b.rotating->0.origin,
            Vec2I {
                x: polar_dx(
                    b.rotating->0.radius as int,
                    bullet_ticks(b, player, enemy, dt, n).rotating->0.angle as int,
                ) as i64,
                y: polar_dy(
                    b.rotating->0.radius as int,
                    bullet_ticks(b, player, enemy, dt, n).rotating->0.angle as int,
                ) as i64,
            },
        ),
    decreases n,
{
    if n > 0 {
        let b1 = age_step_spec(integrate_spec(b, player, enemy), dt);
        assert(rotating_only(b1));
        lemma_rotating_radius_invariant(b1, player, enemy, dt, (n - 1) as nat);
    }
}

/// A moving bullet whose speed no law may change: Homing only steers,
/// Rotating only turns, and the throttling laws (Wave, Stutter) and the
/// fuse (Delayed) are absent.
pub open spec fn speed_stable(b: Bullet) -> bool {
    &&& b.normal is Some
    &&& b.stutter is None
    &&& b.wave is None
    &&& b.delayed is None
}

/// Law of guided speed: while homing guidance steers a bullet, the
/// speed of its velocity never changes, over any number of ticks.
pub proof fn lemma_homing_speed_invariant(
    b: Bullet,
    player: Option<Vec2I>,
    enemy: Option<Vec2I>,
    dt: u64,
    n: nat,
)
    requires
        bullet_ok(b),
        speed_stable(b),
    ensures
        bullet_ticks(b, player, enemy, dt, n).normal is Some,
        bullet_ticks(b, player, enemy, dt, n).normal->0.velocity.speed
            == b.normal->0.velocity.speed,
        speed_stable(bullet_ticks(b, player, enemy, dt, n)),
        bullet_ok(bullet_ticks(b, player, enemy, dt, n)),
    decreases n,
{
    if n > 0 {
        let b1 = age_step_spec(integrate_spec(b, player, enemy), dt);
        assert(speed_stable(b1));
        assert(b1.normal->0.velocity.speed == b.normal->0.velocity.speed);
        lemma_homing_speed_invariant(b1, player, enemy, dt, (n - 1) as nat);
    }
}

/// Law of the wave factor: the scalar `sin(age * sine_mod) + 1` always
/// lies within `0 ..= 2 * SCALE` (that is, within `[0, 2]` in whole
/// units).
pub proof fn lemma_wave_factor_range(age: u64, sine_mod: i64)
    requires
        0 <= sine_mod,
    ensures
        0 <= wave_factor_spec(age, sine_mod) <= 2 * SCALE,
{
    let reduced = (age % 6_144_000) as int;
    assert(reduced * sine_mod >= 0) by (nonlinear_arith)
        requires
            reduced >= 0,
            sine_mod >= 0,
    ;
    vstd::arithmetic::div_mod::lemma_div_pos_is_pos(reduced * sine_mod, 1000);
    vstd::arithmetic::div_mod::lemma_mod_bound((reduced * sine_mod) / 1000, TURN as int);
    crate::angle::lemma_sin_range(wave_phase_spec(age, sine_mod));
}

/// Law of the wave direction: the Wave law never reverses a bullet: the
/// velocity it writes points along `true_velocity` (same angle) with a
/// non-negative speed of at most twice the true speed.
pub proof fn lemma_wave_never_reverses(b: Bullet)
    requires
        bullet_ok(b),
        b.wave is Some,
        b.normal is Some,
    ensures
        wave_step_spec(b).normal is Some,
        wave_step_spec(b).normal->0.velocity.angle == b.wave->0.true_velocity.angle,
        0 <= wave_step_spec(b).normal->0.velocity.speed <= 2 * b.wave->0.true_velocity.speed,
{
    let w = b.wave->0;
    lemma_wave_factor_range(b.age, w.sine_mod);
    lemma_wave_speed_bound(w.true_velocity.speed as int, wave_factor_spec(b.age, w.sine_mod));
}

} // verus!
