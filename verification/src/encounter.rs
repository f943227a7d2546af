//! The encounter: the whole world of one boss fight, and the fixed
//! simulation tick that drives it.
//!
//! One tick runs the engine's passes in their declared order: input
//! and invulnerability, kinematics integration for all six laws,
//! collision detection (pure), the out-of-bounds cull, age clocks, the
//! encounter clock with spellcard gating and emitter and weapon fire,
//! and finally the deferred hit resolution — bullet against bullet,
//! then player hits, then enemy hits.

use crate::bullet::{all_ok, Bullet};
use crate::enemy::{all_emitters_ok, all_enemies_ok, emitter_ok, Emitter, EmitterBundle, Enemy,
    Health, Pattern, Spellcard, EMITTER_ID_ROOM};
use crate::geom::{pos_ok, Vec2I};
use crate::hits::{BulletHit, EnemyHit, PlayerHit};
use crate::mission::{player_ok, MissionState, Player};
use crate::weapon::{all_weapons_ok, Weapon};
use vstd::prelude::*;

verus! {

/// The selectable bosses, each with its own spellcard set.
#[derive(Clone, Copy, Debug, PartialEq, Eq, Structural)]
pub enum Enemies {
    RedGirl,
    Tentacle,
    Lizard,
    MoonGirl,
}

/// The per-tick input the host polls for the engine.
#[derive(Clone, Copy, Debug, PartialEq, Eq, Structural)]
pub struct TickInput {
    /// Horizontal movement axis: -1, 0 or 1.
    pub dx: i8,
    /// Vertical movement axis: -1, 0 or 1.
    pub dy: i8,
    /// Whether the fire button is held.
    pub fire: bool,
    /// Whether the alternate-fire modifier is held.
    pub alt_fire: bool,
}

/// The whole state of one encounter.
#[derive(Debug)]
pub struct Encounter {
    /// The next entity identity to hand out.
    pub next_id: u64,
    /// The shared encounter clock, in milliseconds.
    pub clock: u64,
    pub player: Player,
    pub weapons: Vec<Weapon>,
    pub bullets: Vec<Bullet>,
    pub enemies: Vec<Enemy>,
    pub emitters: Vec<EmitterBundle>,
    pub spellcards: Vec<Spellcard>,
    pub mission: MissionState,
}

/// A well-formed encounter: every entity in its working range, and few
/// enough weapons and emitters that one tick's spawns fit the room the
/// tick asks for.
pub open spec fn encounter_ok(e: Encounter) -> bool {
    &&& all_ok(e.bullets@)
    &&& all_enemies_ok(e.enemies@)
    &&& all_weapons_ok(e.weapons@)
    &&& all_emitters_ok(e.emitters@)
    &&& player_ok(e.player)
    &&& e.player.radius <= 500_000
    &&& e.weapons@.len() <= 1000
    &&& e.emitters@.len() <= 64
}

impl Encounter {
    /// A fresh, empty encounter: the player spawned, nothing else.
    pub fn new() -> (r: Encounter)
        ensures
            encounter_ok(r),
            r.next_id == 1,
            r.clock == 0,
            r.bullets@.len() == 0,
            r.enemies@.len() == 0,
            r.emitters@.len() == 0,
            r.spellcards@.len() == 0,
            r.weapons@.len() == 0,
            r.mission == MissionState::Ongoing,
            r.player == crate::mission::spawn_player_spec(),
    {
        Encounter {
            next_id: 1,
            clock: 0,
            player: crate::mission::spawn_player(),
            weapons: Vec::new(),
            bullets: Vec::new(),
            enemies: Vec::new(),
            emitters: Vec::new(),
            spellcards: Vec::new(),
            mission: MissionState::Ongoing,
        }
    }
}

/// The world position of the enemy with the given identity, if it is
/// still alive.
pub fn enemy_pos(enemies: &Vec<Enemy>, id: u64) -> (r: Option<Vec2I>)
    requires
        all_enemies_ok(enemies@),
    ensures
        match r {
            Some(p) => pos_ok(p) && exists|i: int|
                0 <= i < enemies@.len() && (#[trigger] enemies@[i]).id == id && enemies@[i].pos
                    == p,
            None => !crate::hits::enemy_present(enemies@, id),
        },
{
    let m = enemies.len();
    let mut i: usize = 0;
    while i < m
        invariant
            m == enemies@.len(),
            i <= m,
            all_enemies_ok(enemies@),
            forall|j: int| 0 <= j < i ==> (#[trigger] enemies@[j]).id != id,
        decreases m - i,
    {
        if enemies[i].id == id {
            return Some(enemies[i].pos);
        }
        i += 1;
    }
    None
}

/// The identities of every salted player bullet now alive: what the
/// player-hit dedup rule consults.
pub fn salted_bullet_ids(bullets: &Vec<Bullet>) -> (r: Vec<u64>)
    ensures
        forall|id: u64|
            r@.contains(id) ==> exists|i: int|
                0 <= i < bullets@.len() && (#[trigger] bullets@[i]).id == id && bullets@[i].salted
                    && bullets@[i].player is Some,
        forall|i: int|
            0 <= i < bullets@.len() && (#[trigger] bullets@[i]).salted && bullets@[i].player
                is Some ==> r@.contains(bullets@[i].id),
{
    let n = bullets.len();
    let mut out: Vec<u64> = Vec::new();
    let mut i: usize = 0;
    while i < n
        invariant
            n == bullets@.len(),
            i <= n,
            forall|id: u64|
                out@.contains(id) ==> exists|j: int|
                    0 <= j < bullets@.len() && (#[trigger] bullets@[j]).id == id
                        && bullets@[j].salted && bullets@[j].player is Some,
            forall|j: int|
                0 <= j < i && (#[trigger] bullets@[j]).salted && bullets@[j].player is Some
                    ==> out@.contains(bullets@[j].id),
        decreases n - i,
    {
        let keep = bullets[i].salted && bullets[i].player.is_some();
        if keep {
            let ghost prev = out@;
            out.push(bullets[i].id);
            proof {
                assert(out@ == prev.push(bullets@[i as int].id));
                assert(out@.contains(bullets@[i as int].id)) by {
                    assert(out@[out@.len() - 1] == bullets@[i as int].id);
                }
                assert forall|id: u64| out@.contains(id) implies exists|j: int|
                    0 <= j < bullets@.len() && (#[trigger] bullets@[j]).id == id
                        && bullets@[j].salted && bullets@[j].player is Some by {
                    if prev.contains(id) {
                    } else {
                        assert(id == bullets@[i as int].id) by {
                            let w = choose|k: int| 0 <= k < out@.len() && out@[k] == id;
                            if w < prev.len() {
                                assert(prev[w] == id);
                                assert(prev.contains(id));
                            }
                        }
                    }
                }
                assert forall|j: int|
                    0 <= j < i + 1 && (#[trigger] bullets@[j]).salted && bullets@[j].player
                        is Some implies out@.contains(bullets@[j].id) by {
                    if j < i {
                        assert(prev.contains(bullets@[j].id));
                        let w = choose|k: int| 0 <= k < prev.len() && prev[k] == bullets@[j].id;
                        assert(out@[w] == bullets@[j].id);
                    }
                }
            }
        } else {
            proof {
                assert forall|j: int|
                    0 <= j < i + 1 && (#[trigger] bullets@[j]).salted && bullets@[j].player
                        is Some implies out@.contains(bullets@[j].id) by {}
            }
        }
        i += 1;
    }
    out
}

/// Builds one inactive emitter unit hanging off `owner`.
fn em_unit(owner: u64, period: u64, spawner: crate::bullet::BulletSpawner, pattern: Pattern) -> (r:
    EmitterBundle)
    requires
        0 < period <= 0x8000_0000_0000_0000,
        crate::bullet::spawner_ok(spawner),
        crate::enemy::pattern_ok(pattern),
    ensures
        r.owner == owner,
        r.emitter.timer.duration == period,
        r.emitter.timer.elapsed == 0,
        !r.emitter.timer.just_finished,
        !r.active,
        r.pattern == pattern,
        r.spawner == spawner,
        emitter_ok(r),
{
    EmitterBundle {
        owner,
        emitter: Emitter::new_millis(period),
        spawner,
        active: false,
        pattern,
    }
}

/// A boss bullet prototype as a value: a 5-pixel collider and a
/// straight-line velocity, with more laws added per emitter.
pub open spec fn boss_spawner_spec(speed: i64, angle: i64) -> crate::bullet::BulletSpawner {
    crate::bullet::BulletSpawner {
        radius: 5_000 as i64,
        offset: Vec2I { x: 0, y: 0 },
        normal: Some(
            crate::bullet::NormalBullet {
                velocity: crate::bullet::Velocity { speed, angle },
            },
        ),
        rotation: None,
        stutter: None,
        homing: None,
        wave: None,
        delayed: None,
    }
}

/// Builds a boss bullet prototype.
fn boss_spawner(speed: i64, angle: i64) -> (r: crate::bullet::BulletSpawner)
    requires
        0 <= speed <= crate::fixed::SPEED_LIMIT / 2,
        crate::angle::angle_ok(angle as int),
    ensures
        r == boss_spawner_spec(speed, angle),
        crate::bullet::spawner_ok(r),
{
    crate::bullet::BulletSpawner {
        radius: 5_000,
        offset: Vec2I { x: 0, y: 0 },
        normal: Some(
            crate::bullet::NormalBullet { velocity: crate::bullet::Velocity { speed, angle } },
        ),
        rotation: None,
        stutter: None,
        homing: None,
        wave: None,
        delayed: None,
    }
}

/// Spawns the chosen boss: one enemy at the right third of the field,
/// its emitters (all inactive until a spellcard window opens), and its
/// spellcard set over the shared encounter clock.
pub fn spawn_enemy(enc: &mut Encounter, boss: Enemies)
    requires
        encounter_ok(*old(enc)),
        old(enc).next_id < u64::MAX,
        old(enc).emitters@.len() + 7 <= 64,
    ensures
        encounter_ok(*final(enc)),
        final(enc).enemies@.len() == old(enc).enemies@.len() + 1,
        final(enc).enemies@.last().pos == (Vec2I { x: 200_000, y: 0 }),
        final(enc).enemies@.last().radius == 150_000,
        final(enc).enemies@.last().id == old(enc).next_id,
        final(enc).enemies@.last().health.0 == match boss {
            Enemies::RedGirl => 2000u32,
            Enemies::Tentacle => 1500u32,
            Enemies::Lizard => 2000u32,
            Enemies::MoonGirl => 5000u32,
        },
        final(enc).emitters@.len() == old(enc).emitters@.len() + match boss {
            Enemies::RedGirl => 5int,
            Enemies::Tentacle => 3int,
            Enemies::Lizard => 3int,
            Enemies::MoonGirl => 7int,
        },
        final(enc).spellcards@.len() == old(enc).spellcards@.len() + match boss {
            Enemies::RedGirl => 3int,
            Enemies::Tentacle => 3int,
            Enemies::Lizard => 3int,
            Enemies::MoonGirl => 6int,
        },
        forall|j: int|
            0 <= j < old(enc).emitters@.len() ==> final(enc).emitters@[j] == old(enc).emitters@[j],
        forall|j: int|
            old(enc).emitters@.len() <= j < final(enc).emitters@.len() ==> {
                &&& (#[trigger] final(enc).emitters@[j]).owner == old(enc).next_id
                &&& !final(enc).emitters@[j].active
                &&& final(enc).emitters@[j].emitter.timer.elapsed == 0
                &&& !final(enc).emitters@[j].emitter.timer.just_finished
            },
        forall|j: int|
            0 <= j < old(enc).spellcards@.len() ==> final(enc).spellcards@[j] == old(
                enc,
            ).spellcards@[j],
        boss == Enemies::RedGirl ==> ({
            let e0 = old(enc).emitters@.len() as int;
            let c0 = old(enc).spellcards@.len() as int;
            let f = *final(enc);
            &&& f.emitters@[e0].emitter.timer.duration == 50
            &&& f.emitters@[e0].spawner == boss_spawner_spec(4_000, 0)
            &&& f.emitters@[e0].pattern == Pattern::CircularAimed(
                crate::enemy::CircularAimedEmitter { offset: 0 as i64, count: 8 as usize },
            )
            &&& f.emitters@[e0 + 1].emitter.timer.duration == 250
            &&& f.emitters@[e0 + 1].spawner == (crate::bullet::BulletSpawner {
                homing: Some(
                    crate::bullet::HomingBullet {
                        rotation_speed: 12 as i64,
                        seeking_time: 4_000 as u64,
                        target: crate::bullet::Target::Player,
                    },
                ),
                ..boss_spawner_spec(2_000, 0)
            })
            &&& f.emitters@[e0 + 1].pattern == Pattern::CircularHoming(
                crate::enemy::CircularHomingEmitter {
                    offset: 150_000 as i64,
                    count: 4 as usize,
                    idx: 0 as usize,
                },
            )
            &&& f.emitters@[e0 + 2].emitter.timer.duration == 1_500
            &&& f.emitters@[e0 + 2].spawner == (crate::bullet::BulletSpawner {
                rotation: Some(
                    crate::bullet::RotatingBullet {
                        origin: Vec2I { x: 0, y: 0 },
                        rotation_speed: 2 as i64,
                        radius: 0 as i64,
                        angle: 0 as i64,
                    },
                ),
                ..boss_spawner_spec(2_000, 0)
            })
            &&& f.emitters@[e0 + 2].pattern == Pattern::CircularAimed(
                crate::enemy::CircularAimedEmitter { offset: 20_000 as i64, count: 48 as usize },
            )
            &&& f.emitters@[e0 + 3].emitter.timer.duration == 1_500
            &&& f.emitters@[e0 + 3].spawner == (crate::bullet::BulletSpawner {
                rotation: Some(
                    crate::bullet::RotatingBullet {
                        origin: Vec2I { x: 0, y: 0 },
                        rotation_speed: 6_142 as i64,
                        radius: 0 as i64,
                        angle: 0 as i64,
                    },
                ),
                ..boss_spawner_spec(2_000, 0)
            })
            &&& f.emitters@[e0 + 3].pattern == Pattern::CircularAimed(
                crate::enemy::CircularAimedEmitter { offset: 20_000 as i64, count: 48 as usize },
            )
            &&& f.emitters@[e0 + 4].emitter.timer.duration == 100
            &&& f.emitters@[e0 + 4].spawner == (crate::bullet::BulletSpawner {
                wave: Some(
                    crate::bullet::WaveBullet {
                        true_velocity: crate::bullet::Velocity {
                            speed: 2_000 as i64,
                            angle: 0 as i64,
                        },
                        sine_mod: 978 as i64,
                    },
                ),
                ..boss_spawner_spec(2_000, 0)
            })
            &&& f.emitters@[e0 + 4].pattern == Pattern::CircularWave(
                crate::enemy::CircularWaveEmitter {
                    offset: 150_000 as i64,
                    count: 6 as usize,
                    rotation: 0 as i64,
                    rotation_speed: 98 as i64,
                },
            )
            &&& f.spellcards@[c0].start_time == 0
            &&& f.spellcards@[c0].end_time == 25_000
            &&& f.spellcards@[c0].emitters@.len() == 2
            &&& f.spellcards@[c0].emitters@[0] == e0
            &&& f.spellcards@[c0].emitters@[1] == e0 + 1
            &&& f.spellcards@[c0 + 1].start_time == 25_000
            &&& f.spellcards@[c0 + 1].end_time == 45_000
            &&& f.spellcards@[c0 + 1].emitters@.len() == 2
            &&& f.spellcards@[c0 + 1].emitters@[0] == e0 + 2
            &&& f.spellcards@[c0 + 1].emitters@[1] == e0 + 3
            &&& f.spellcards@[c0 + 2].start_time == 45_000
            &&& f.spellcards@[c0 + 2].end_time == 70_000
            &&& f.spellcards@[c0 + 2].emitters@.len() == 1
            &&& f.spellcards@[c0 + 2].emitters@[0] == e0 + 4
        }),
        boss == Enemies::Tentacle ==> ({
            let e0 = old(enc).emitters@.len() as int;
            let c0 = old(enc).spellcards@.len() as int;
            let f = *final(enc);
            &&& f.emitters@[e0].emitter.timer.duration == 5_000
            &&& f.emitters@[e0].spawner == boss_spawner_spec(4_000, 0)
            &&& f.emitters@[e0].pattern == Pattern::Spray(
                crate::enemy::SprayEmitter {
                    spray_width: 6_144 as i64,
                    firing_time: 5_000 as u64,
                    firing_speed: 50 as u64,
                    count: 0 as i64,
                },
            )
            &&& f.emitters@[e0 + 1].emitter.timer.duration == 50
            &&& f.emitters@[e0 + 1].spawner == boss_spawner_spec(4_000, 0)
            &&& f.emitters@[e0 + 1].pattern == Pattern::Tentacle(
                crate::enemy::TentacleEmitter { offset: 100_000 as i64, count: 4 as usize },
            )
            &&& f.emitters@[e0 + 2].emitter.timer.duration == 1_400
            &&& f.emitters@[e0 + 2].spawner == boss_spawner_spec(4_000, 0)
            &&& f.emitters@[e0 + 2].pattern == Pattern::Spray(
                crate::enemy::SprayEmitter {
                    spray_width: 391 as i64,
                    firing_time: 1_000 as u64,
                    firing_speed: 10 as u64,
                    count: 0 as i64,
                },
            )
            &&& f.spellcards@[c0].start_time == 0
            &&& f.spellcards@[c0].end_time == 25_000
            &&& f.spellcards@[c0].emitters@.len() == 1
            &&& f.spellcards@[c0].emitters@[0] == e0
            &&& f.spellcards@[c0 + 1].start_time == 25_000
            &&& f.spellcards@[c0 + 1].end_time == 45_000
            &&& f.spellcards@[c0 + 1].emitters@.len() == 1
            &&& f.spellcards@[c0 + 1].emitters@[0] == e0 + 1
            &&& f.spellcards@[c0 + 2].start_time == 45_000
            &&& f.spellcards@[c0 + 2].end_time == 70_000
            &&& f.spellcards@[c0 + 2].emitters@.len() == 1
            &&& f.spellcards@[c0 + 2].emitters@[0] == e0 + 2
        }),
        boss == Enemies::Lizard ==> ({
            let e0 = old(enc).emitters@.len() as int;
            let c0 = old(enc).spellcards@.len() as int;
            let f = *final(enc);
            &&& f.emitters@[e0].emitter.timer.duration == 1_000
            &&& f.emitters@[e0].spawner == boss_spawner_spec(4_000, 0)
            &&& f.emitters@[e0].pattern == Pattern::Spray(
                crate::enemy::SprayEmitter {
                    spray_width: 1_536 as i64,
                    firing_time: 500 as u64,
                    firing_speed: 20 as u64,
                    count: 0 as i64,
                },
            )
            &&& f.emitters@[e0 + 1].emitter.timer.duration == 1_000
            &&& f.emitters@[e0 + 1].spawner == boss_spawner_spec(4_000, 0)
            &&& f.emitters@[e0 + 1].pattern == Pattern::RotatingSpray(
                crate::enemy::RotatingSprayEmitter {
                    spray_width: 1_536 as i64,
                    firing_time: 1_000 as u64,
                    firing_speed: 10 as u64,
                    count: 0 as i64,
                    rotation_speed: 12 as i64,
                    rotation: 0 as i64,
                    spray_count: 2 as usize,
                },
            )
            &&& f.emitters@[e0 + 2].emitter.timer.duration == 5_000
            &&& f.emitters@[e0 + 2].spawner == (crate::bullet::BulletSpawner {
                rotation: Some(
                    crate::bullet::RotatingBullet {
                        origin: Vec2I { x: 200_000, y: 0 },
                        rotation_speed: 6 as i64,
                        radius: 0 as i64,
                        angle: 0 as i64,
                    },
                ),
                ..boss_spawner_spec(4_000, 0)
            })
            &&& f.emitters@[e0 + 2].pattern == Pattern::Spray(
                crate::enemy::SprayEmitter {
                    spray_width: 6_144 as i64,
                    firing_time: 5_000 as u64,
                    firing_speed: 10 as u64,
                    count: 0 as i64,
                },
            )
            &&& f.spellcards@[c0].start_time == 0
            &&& f.spellcards@[c0].end_time == 25_000
            &&& f.spellcards@[c0].emitters@.len() == 1
            &&& f.spellcards@[c0].emitters@[0] == e0
            &&& f.spellcards@[c0 + 1].start_time == 25_000
            &&& f.spellcards@[c0 + 1].end_time == 45_000
            &&& f.spellcards@[c0 + 1].emitters@.len() == 1
            &&& f.spellcards@[c0 + 1].emitters@[0] == e0 + 1
            &&& f.spellcards@[c0 + 2].start_time == 45_000
            &&& f.spellcards@[c0 + 2].end_time == 70_000
            &&& f.spellcards@[c0 + 2].emitters@.len() == 1
            &&& f.spellcards@[c0 + 2].emitters@[0] == e0 + 2
        }),
        boss == Enemies::MoonGirl ==> ({
            let e0 = old(enc).emitters@.len() as int;
            let c0 = old(enc).spellcards@.len() as int;
            let f = *final(enc);
            &&& f.emitters@[e0].emitter.timer.duration == 50
            &&& f.emitters@[e0].spawner == boss_spawner_spec(5_000, 0)
            &&& f.emitters@[e0].pattern == Pattern::Divisive(
                crate::enemy::DivisiveEmitter { columns: 19 as u64, rows: 11 as u64 },
            )
            &&& f.emitters@[e0 + 1].emitter.timer.duration == 10
            &&& f.emitters@[e0 + 1].spawner == boss_spawner_spec(
                5_000,
                crate::angle::HALF_TURN,
            )
            &&& f.emitters@[e0 + 1].pattern == Pattern::Flood(
                crate::enemy::FloodEmitter { spray: 384 as i64 },
            )
            &&& f.emitters@[e0 + 2].emitter.timer.duration == 1_500
            &&& f.emitters@[e0 + 2].spawner == (crate::bullet::BulletSpawner {
                rotation: Some(
                    crate::bullet::RotatingBullet {
                        origin: Vec2I { x: 0, y: 0 },
                        rotation_speed: 2 as i64,
                        radius: 0 as i64,
                        angle: 0 as i64,
                    },
                ),
                ..boss_spawner_spec(2_000, crate::angle::HALF_TURN)
            })
            &&& f.emitters@[e0 + 2].pattern == Pattern::CircularAimed(
                crate::enemy::CircularAimedEmitter {
                    offset: 1_120_000 as i64,
                    count: 64 as usize,
                },
            )
            &&& f.emitters@[e0 + 3].emitter.timer.duration == 1_000
            &&& f.emitters@[e0 + 3].spawner == boss_spawner_spec(4_000, 0)
            &&& f.emitters@[e0 + 3].pattern == Pattern::RotatingSpray(
                crate::enemy::RotatingSprayEmitter {
                    spray_width: 1_536 as i64,
                    firing_time: 1_000 as u64,
                    firing_speed: 10 as u64,
                    count: 0 as i64,
                    rotation_speed: 12 as i64,
                    rotation: 0 as i64,
                    spray_count: 2 as usize,
                },
            )
            &&& f.emitters@[e0 + 4].emitter.timer.duration == 50
            &&& f.emitters@[e0 + 4].spawner == (crate::bullet::BulletSpawner {
                rotation: Some(
                    crate::bullet::RotatingBullet {
                        origin: Vec2I { x: 0, y: 0 },
                        rotation_speed: 6 as i64,
                        radius: 0 as i64,
                        angle: 0 as i64,
                    },
                ),
                ..boss_spawner_spec(4_000, 0)
            })
            &&& f.emitters@[e0 + 4].pattern == Pattern::CircularAimed(
                crate::enemy::CircularAimedEmitter { offset: 50_000 as i64, count: 24 as usize },
            )
            &&& f.emitters@[e0 + 5].emitter.timer.duration == 50
            &&& f.emitters@[e0 + 5].spawner == (crate::bullet::BulletSpawner {
                rotation: Some(
                    crate::bullet::RotatingBullet {
                        origin: Vec2I { x: 0, y: 0 },
                        rotation_speed: 6_138 as i64,
                        radius: 0 as i64,
                        angle: 0 as i64,
                    },
                ),
                ..boss_spawner_spec(4_000, 0)
            })
            &&& f.emitters@[e0 + 5].pattern == Pattern::CircularAimed(
                crate::enemy::CircularAimedEmitter { offset: 50_000 as i64, count: 24 as usize },
            )
            &&& f.emitters@[e0 + 6].emitter.timer.duration == 4_000
            &&& f.emitters@[e0 + 6].spawner == (crate::bullet::BulletSpawner {
                stutter: Some(
                    crate::bullet::StutterBullet {
                        wait_time: 1_000 as u64,
                        initial_velocity: crate::bullet::Velocity {
                            speed: 4_000 as i64,
                            angle: 0 as i64,
                        },
                        has_started: false,
                    },
                ),
                homing: Some(
                    crate::bullet::HomingBullet {
                        rotation_speed: 32 as i64,
                        seeking_time: 3_000 as u64,
                        target: crate::bullet::Target::Player,
                    },
                ),
                ..boss_spawner_spec(4_000, 0)
            })
            &&& f.emitters@[e0 + 6].pattern == Pattern::CircularAimed(
                crate::enemy::CircularAimedEmitter {
                    offset: 150_000 as i64,
                    count: 32 as usize,
                },
            )
            &&& f.spellcards@[c0].start_time == 0
            &&& f.spellcards@[c0].end_time == 25_000
            &&& f.spellcards@[c0].emitters@.len() == 1
            &&& f.spellcards@[c0].emitters@[0] == e0
            &&& f.spellcards@[c0 + 1].start_time == 25_000
            &&& f.spellcards@[c0 + 1].end_time == 45_000
            &&& f.spellcards@[c0 + 1].emitters@.len() == 1
            &&& f.spellcards@[c0 + 1].emitters@[0] == e0 + 1
            &&& f.spellcards@[c0 + 2].start_time == 0
            &&& f.spellcards@[c0 + 2].end_time == 45_000
            &&& f.spellcards@[c0 + 2].emitters@.len() == 1
            &&& f.spellcards@[c0 + 2].emitters@[0] == e0 + 2
            &&& f.spellcards@[c0 + 3].start_time == 45_000
            &&& f.spellcards@[c0 + 3].end_time == 70_000
            &&& f.spellcards@[c0 + 3].emitters@.len() == 1
            &&& f.spellcards@[c0 + 3].emitters@[0] == e0 + 3
            &&& f.spellcards@[c0 + 4].start_time == 70_000
            &&& f.spellcards@[c0 + 4].end_time == 100_000
            &&& f.spellcards@[c0 + 4].emitters@.len() == 2
            &&& f.spellcards@[c0 + 4].emitters@[0] == e0 + 4
            &&& f.spellcards@[c0 + 4].emitters@[1] == e0 + 5
            &&& f.spellcards@[c0 + 5].start_time == 45_000
            &&& f.spellcards@[c0 + 5].end_time == 100_000
            &&& f.spellcards@[c0 + 5].emitters@.len() == 1
            &&& f.spellcards@[c0 + 5].emitters@[0] == e0 + 6
        }),
        final(enc).bullets == old(enc).bullets,
        final(enc).weapons == old(enc).weapons,
        final(enc).player == old(enc).player,
        final(enc).clock == old(enc).clock,
        final(enc).mission == old(enc).mission,
        final(enc).next_id == old(enc).next_id + 1,
{
    let eid = enc.next_id;
    enc.next_id = enc.next_id + 1;
    let e0 = enc.emitters.len();
    let health = match boss {
        Enemies::RedGirl => 2000,
        Enemies::Tentacle => 1500,
        Enemies::Lizard => 2000,
        Enemies::MoonGirl => 5000,
    };
    enc.enemies.push(
        Enemy { id: eid, pos: Vec2I { x: 200_000, y: 0 }, radius: 150_000, health: Health(health) },
    );
    match boss {
        Enemies::RedGirl => {
            enc.emitters.push(
                em_unit(
                    eid,
                    50,
                    boss_spawner(4_000, 0),
                    Pattern::CircularAimed(
                        crate::enemy::CircularAimedEmitter { offset: 0, count: 8 },
                    ),
                ),
            );
            let mut s = boss_spawner(2_000, 0);
            s.homing = Some(
                crate::bullet::HomingBullet {
                    rotation_speed: 12,
                    seeking_time: 4_000,
                    target: crate::bullet::Target::Player,
                },
            );
            enc.emitters.push(
                em_unit(
                    eid,
                    250,
                    s,
                    Pattern::CircularHoming(
                        crate::enemy::CircularHomingEmitter { offset: 150_000, count: 4, idx: 0 },
                    ),
                ),
            );
            let mut s2 = boss_spawner(2_000, 0);
            s2.rotation = Some(
                crate::bullet::RotatingBullet {
                    origin: Vec2I { x: 0, y: 0 },
                    rotation_speed: 2,
                    radius: 0,
                    angle: 0,
                },
            );
            enc.emitters.push(
                em_unit(
                    eid,
                    1_500,
                    s2,
                    Pattern::CircularAimed(
                        crate::enemy::CircularAimedEmitter { offset: 20_000, count: 48 },
                    ),
                ),
            );
            let mut s3 = boss_spawner(2_000, 0);
            s3.rotation = Some(
                crate::bullet::RotatingBullet {
                    origin: Vec2I { x: 0, y: 0 },
                    rotation_speed: 6_142,
                    radius: 0,
                    angle: 0,
                },
            );
            enc.emitters.push(
                em_unit(
                    eid,
                    1_500,
                    s3,
                    Pattern::CircularAimed(
                        crate::enemy::CircularAimedEmitter { offset: 20_000, count: 48 },
                    ),
                ),
            );
            let mut s4 = boss_spawner(2_000, 0);
            s4.wave = Some(
                crate::bullet::WaveBullet {
                    true_velocity: crate::bullet::Velocity { speed: 2_000, angle: 0 },
                    sine_mod: 978,
                },
            );
            enc.emitters.push(
                em_unit(
                    eid,
                    100,
                    s4,
                    Pattern::CircularWave(
                        crate::enemy::CircularWaveEmitter {
                            offset: 150_000,
                            count: 6,
                            rotation: 0,
                            rotation_speed: 98,
                        },
                    ),
                ),
            );
            let mut c0: Vec<usize> = Vec::new();
            c0.push(e0);
            c0.push(e0 + 1);
            enc.spellcards.push(Spellcard { start_time: 0, end_time: 25_000, emitters: c0 });
            let mut c1: Vec<usize> = Vec::new();
            c1.push(e0 + 2);
            c1.push(e0 + 3);
            enc.spellcards.push(Spellcard { start_time: 25_000, end_time: 45_000, emitters: c1 });
            let mut c2: Vec<usize> = Vec::new();
            c2.push(e0 + 4);
            enc.spellcards.push(Spellcard { start_time: 45_000, end_time: 70_000, emitters: c2 });
        },
        Enemies::Tentacle => {
            enc.emitters.push(
                em_unit(
                    eid,
                    5_000,
                    boss_spawner(4_000, 0),
                    Pattern::Spray(
                        crate::enemy::SprayEmitter {
                            spray_width: 6_144,
                            firing_time: 5_000,
                            firing_speed: 50,
                            count: 0,
                        },
                    ),
                ),
            );
            enc.emitters.push(
                em_unit(
                    eid,
                    50,
                    boss_spawner(4_000, 0),
                    Pattern::Tentacle(
                        crate::enemy::TentacleEmitter { offset: 100_000, count: 4 },
                    ),
                ),
            );
            enc.emitters.push(
                em_unit(
                    eid,
                    1_400,
                    boss_spawner(4_000, 0),
                    Pattern::Spray(
                        crate::enemy::SprayEmitter {
                            spray_width: 391,
                            firing_time: 1_000,
                            firing_speed: 10,
                            count: 0,
                        },
                    ),
                ),
            );
            let mut c0: Vec<usize> = Vec::new();
            c0.push(e0);
            enc.spellcards.push(Spellcard { start_time: 0, end_time: 25_000, emitters: c0 });
            let mut c1: Vec<usize> = Vec::new();
            c1.push(e0 + 1);
            enc.spellcards.push(Spellcard { start_time: 25_000, end_time: 45_000, emitters: c1 });
            let mut c2: Vec<usize> = Vec::new();
            c2.push(e0 + 2);
            enc.spellcards.push(Spellcard { start_time: 45_000, end_time: 70_000, emitters: c2 });
        },
        Enemies::Lizard => {
            enc.emitters.push(
                em_unit(
                    eid,
                    1_000,
                    boss_spawner(4_000, 0),
                    Pattern::Spray(
                        crate::enemy::SprayEmitter {
                            spray_width: 1_536,
                            firing_time: 500,
                            firing_speed: 20,
                            count: 0,
                        },
                    ),
                ),
            );
            enc.emitters.push(
                em_unit(
                    eid,
                    1_000,
                    boss_spawner(4_000, 0),
                    Pattern::RotatingSpray(
                        crate::enemy::RotatingSprayEmitter {
                            spray_width: 1_536,
                            firing_time: 1_000,
                            firing_speed: 10,
                            count: 0,
                            rotation_speed: 12,
                            rotation: 0,
                            spray_count: 2,
                        },
                    ),
                ),
            );
            let mut s = boss_spawner(4_000, 0);
            s.rotation = Some(
                crate::bullet::RotatingBullet {
                    origin: Vec2I { x: 200_000, y: 0 },
                    rotation_speed: 6,
                    radius: 0,
                    angle: 0,
                },
            );
            enc.emitters.push(
                em_unit(
                    eid,
                    5_000,
                    s,
                    Pattern::Spray(
                        crate::enemy::SprayEmitter {
                            spray_width: 6_144,
                            firing_time: 5_000,
                            firing_speed: 10,
                            count: 0,
                        },
                    ),
                ),
            );
            let mut c0: Vec<usize> = Vec::new();
            c0.push(e0);
            enc.spellcards.push(Spellcard { start_time: 0, end_time: 25_000, emitters: c0 });
            let mut c1: Vec<usize> = Vec::new();
            c1.push(e0 + 1);
            enc.spellcards.push(Spellcard { start_time: 25_000, end_time: 45_000, emitters: c1 });
            let mut c2: Vec<usize> = Vec::new();
            c2.push(e0 + 2);
            enc.spellcards.push(Spellcard { start_time: 45_000, end_time: 70_000, emitters: c2 });
        },
        Enemies::MoonGirl => {
            enc.emitters.push(
                em_unit(
                    eid,
                    50,
                    boss_spawner(5_000, 0),
                    Pattern::Divisive(crate::enemy::DivisiveEmitter { columns: 19, rows: 11 }),
                ),
            );
            enc.emitters.push(
                em_unit(
                    eid,
                    10,
                    boss_spawner(5_000, crate::angle::HALF_TURN),
                    Pattern::Flood(crate::enemy::FloodEmitter { spray: 384 }),
                ),
            );
            let mut s = boss_spawner(2_000, crate::angle::HALF_TURN);
            s.rotation = Some(
                crate::bullet::RotatingBullet {
                    origin: Vec2I { x: 0, y: 0 },
                    rotation_speed: 2,
                    radius: 0,
                    angle: 0,
                },
            );
            enc.emitters.push(
                em_unit(
                    eid,
                    1_500,
                    s,
                    Pattern::CircularAimed(
                        crate::enemy::CircularAimedEmitter { offset: 1_120_000, count: 64 },
                    ),
                ),
            );
            enc.emitters.push(
                em_unit(
                    eid,
                    1_000,
                    boss_spawner(4_000, 0),
                    Pattern::RotatingSpray(
                        crate::enemy::RotatingSprayEmitter {
                            spray_width: 1_536,
                            firing_time: 1_000,
                            firing_speed: 10,
                            count: 0,
                            rotation_speed: 12,
                            rotation: 0,
                            spray_count: 2,
                        },
                    ),
                ),
            );
            let mut s4 = boss_spawner(4_000, 0);
            s4.rotation = Some(
                crate::bullet::RotatingBullet {
                    origin: Vec2I { x: 0, y: 0 },
                    rotation_speed: 6,
                    radius: 0,
                    angle: 0,
                },
            );
            enc.emitters.push(
                em_unit(
                    eid,
                    50,
                    s4,
                    Pattern::CircularAimed(
                        crate::enemy::CircularAimedEmitter { offset: 50_000, count: 24 },
                    ),
                ),
            );
            let mut s5 = boss_spawner(4_000, 0);
            s5.rotation = Some(
                crate::bullet::RotatingBullet {
                    origin: Vec2I { x: 0, y: 0 },
                    rotation_speed: 6_138,
                    radius: 0,
                    angle: 0,
                },
            );
            enc.emitters.push(
                em_unit(
                    eid,
                    50,
                    s5,
                    Pattern::CircularAimed(
                        crate::enemy::CircularAimedEmitter { offset: 50_000, count: 24 },
                    ),
                ),
            );
            let mut s6 = boss_spawner(4_000, 0);
            s6.stutter = Some(
                crate::bullet::StutterBullet {
                    wait_time: 1_000,
                    initial_velocity: crate::bullet::Velocity { speed: 4_000, angle: 0 },
                    has_started: false,
                },
            );
            s6.homing = Some(
                crate::bullet::HomingBullet {
                    rotation_speed: 32,
                    seeking_time: 3_000,
                    target: crate::bullet::Target::Player,
                },
            );
            enc.emitters.push(
                em_unit(
                    eid,
                    4_000,
                    s6,
                    Pattern::CircularAimed(
                        crate::enemy::CircularAimedEmitter { offset: 150_000, count: 32 },
                    ),
                ),
            );
            let mut c0: Vec<usize> = Vec::new();
            c0.push(e0);
            enc.spellcards.push(Spellcard { start_time: 0, end_time: 25_000, emitters: c0 });
            let mut c1: Vec<usize> = Vec::new();
            c1.push(e0 + 1);
            enc.spellcards.push(Spellcard { start_time: 25_000, end_time: 45_000, emitters: c1 });
            let mut c2: Vec<usize> = Vec::new();
            c2.push(e0 + 2);
            enc.spellcards.push(Spellcard { start_time: 0, end_time: 45_000, emitters: c2 });
            let mut c3: Vec<usize> = Vec::new();
            c3.push(e0 + 3);
            enc.spellcards.push(Spellcard { start_time: 45_000, end_time: 70_000, emitters: c3 });
            let mut c4: Vec<usize> = Vec::new();
            c4.push(e0 + 4);
            c4.push(e0 + 5);
            enc.spellcards.push(Spellcard { start_time: 70_000, end_time: 100_000, emitters: c4 });
            let mut c5: Vec<usize> = Vec::new();
            c5.push(e0 + 6);
            enc.spellcards.push(
                Spellcard { start_time: 45_000, end_time: 100_000, emitters: c5 },
            );
        },
    }
}

/// The player after the input stage of one tick: the alternate-fire
/// flag taken, the invulnerability window run down, and one movement
/// step inside the playing field.
pub open spec fn input_player_spec(p: Player, input: TickInput, dt: u64) -> Player {
    let p1 = Player {
        alt_fire: input.alt_fire,
        invuln: crate::mission::invuln_tick_spec(p.invuln, dt),
        ..p
    };
    Player {
        pos: crate::mission::movement_spec(p1, input.dx, input.dy, crate::geom::gameplay_bounds()),
        ..p1
    }
}

/// The weapons after the input stage: a change of fire group starts
/// every weapon's cycle over.
pub open spec fn weapons_after_switch(ws: Seq<Weapon>, switched: bool) -> Seq<Weapon> {
    if switched {
        ws.map_values(
            |w: Weapon| Weapon {
                timer: crate::timer::Timer {
                    duration: w.timer.duration,
                    elapsed: 0u64,
                    just_finished: false,
                },
                ..w
            },
        )
    } else {
        ws
    }
}

/// One kinematics stage over a whole bullet list: every bullet taken
/// through the six laws against the same target positions.
pub open spec fn integrate_map(bs: Seq<Bullet>, pp: Vec2I, target: Option<Vec2I>) -> Seq<Bullet> {
    bs.map_values(|b: Bullet| crate::bullet::integrate_spec(b, Some(pp), target))
}

/// One age-clock stage over a whole bullet list.
pub open spec fn age_map(bs: Seq<Bullet>, dt: u64) -> Seq<Bullet> {
    bs.map_values(|b: Bullet| crate::bullet::age_step_spec(b, dt))
}

/// The emitters with their activation flags set for the clock value:
/// the spellcard gating stage as a value.
pub open spec fn gate_map(
    ems: Seq<EmitterBundle>,
    cards: Seq<Spellcard>,
    now: u64,
) -> Seq<EmitterBundle> {
    Seq::new(
        ems.len(),
        |j: int| EmitterBundle {
            active: crate::enemy::spell_active_spec(cards, j, now),
            ..ems[j]
        },
    )
}

/// How many bullets a whole emitter list owes on one tick: each
/// active emitter whose owner is still alive owes its pattern's due
/// count; the others owe nothing.
pub open spec fn emitters_due(ems: Seq<EmitterBundle>, enemies: Seq<Enemy>, dt: u64) -> int
    decreases ems.len(),
{
    if ems.len() == 0 {
        0
    } else {
        (if ems[0].active && crate::hits::enemy_present(enemies, ems[0].owner) {
            crate::enemy::due_count(ems[0], dt)
        } else {
            0
        }) + emitters_due(ems.drop_first(), enemies, dt)
    }
}

/// What one whole tick does, phrased over the pass specifications the
/// library defines. `f` is `e` one tick later, where `em_spawned` are
/// the bullets the emitters fired this tick — their geometry is partly
/// random, so they are existentially quantified, pinned down to their
/// consecutive identities and well-formedness here and to their exact
/// shapes by `emitter_tick`'s own contract — and `salted` is a listing
/// of exactly the salted player bullets alive when resolution begins.
///
/// Reading it top to bottom gives the tick's pass order: input, the
/// six kinematics laws, the three pure detection passes, the cull and
/// the age clocks, the encounter clock and spellcard gating, emitter
/// and weapon fire, then the three resolution stages, the
/// invulnerability grant, the death sweep and the outcome signal.
pub open spec fn tick_rel(
    e: Encounter,
    f: Encounter,
    input: TickInput,
    dt: u64,
    em_spawned: Seq<Bullet>,
    salted: Seq<u64>,
) -> bool {
    let p1 = input_player_spec(e.player, input, dt);
    let target: Option<Vec2I> = if e.enemies@.len() > 0 {
        Some(e.enemies@[0].pos)
    } else {
        None
    };
    let b1 = integrate_map(e.bullets@, p1.pos, target);
    let pc = crate::geom::Circle { pos: p1.pos, radius: e.player.radius };
    let ph = crate::hits::player_hits_spec(b1, pc);
    let bh = crate::hits::bullet_hits_spec(b1, b1);
    let eh = crate::hits::enemy_hits_spec(b1, e.enemies@);
    let b3 = age_map(crate::bullet::cull_spec(b1), dt);
    let clock1 = crate::enemy::advance_time_spec(e.clock, e.spellcards@, dt);
    let switched = input.alt_fire != e.player.alt_fire;
    let w1 = weapons_after_switch(e.weapons@, switched);
    let ft = crate::weapon::fire_fold(
        w1,
        input.alt_fire,
        dt,
        e.player.ammo.0 as int,
        0,
        crate::weapon::group_count(w1, input.alt_fire),
        p1.pos,
        (e.next_id + em_spawned.len()) as u64,
    );
    let shots = if input.fire {
        ft.2
    } else {
        Seq::<Bullet>::empty()
    };
    let b4 = b3 + em_spawned + shots;
    let b5 = crate::hits::bb_resolve_spec(b4, bh);
    let res = crate::hits::php_spec(
        b5,
        ph,
        bh,
        salted,
        e.player.life.0 as int,
        false,
        p1.invuln is Some,
    );
    let b6 = res.0;
    let life1 = res.1;
    let es1 = crate::hits::peh_enemies_spec(b6, e.enemies@, eh);
    let b7 = crate::hits::peh_keep_rec(e.enemies@, b6, eh);
    let es2 = crate::enemy::alive_spec(es1);
    let gated = gate_map(e.emitters@, e.spellcards@, clock1);
    tick_rel_parts(
        e,
        f,
        input,
        dt,
        em_spawned,
        salted,
        p1,
        b4,
        ft,
        shots,
        clock1,
        w1,
        life1,
        b7,
        es2,
        gated,
    )
}

/// The conjuncts of `tick_rel`, over the pipeline's already-computed
/// intermediate values.
pub open spec fn tick_rel_parts(
    e: Encounter,
    f: Encounter,
    input: TickInput,
    dt: u64,
    em_spawned: Seq<Bullet>,
    salted: Seq<u64>,
    p1: Player,
    b4: Seq<Bullet>,
    ft: (Seq<Weapon>, int, Seq<Bullet>),
    shots: Seq<Bullet>,
    clock1: u64,
    w1: Seq<Weapon>,
    life1: int,
    b7: Seq<Bullet>,
    es2: Seq<Enemy>,
    gated: Seq<EmitterBundle>,
) -> bool {
    let lost = life1 < e.player.life.0;
    &&& all_ok(em_spawned)
    &&& em_spawned.len() == emitters_due(gated, e.enemies@, dt)
    &&& forall|j: int|
        0 <= j < f.emitters@.len() ==> (#[trigger] f.emitters@[j]).emitter.timer == (
        if gated[j].active && crate::hits::enemy_present(e.enemies@, gated[j].owner) {
            crate::enemy::emitter_timer_after(gated[j], dt)
        } else {
            e.emitters@[j].emitter.timer
        })
    &&& forall|i: int|
        0 <= i < em_spawned.len() ==> (#[trigger] em_spawned[i]).id == e.next_id + i
    &&& forall|id: u64|
        salted.contains(id) ==> exists|i: int|
            0 <= i < b4.len() && (#[trigger] b4[i]).id == id && b4[i].salted && b4[i].player
                is Some
    &&& forall|i: int|
        0 <= i < b4.len() && (#[trigger] b4[i]).salted && b4[i].player is Some
            ==> salted.contains(b4[i].id)
    &&& f.bullets@ == b7
    &&& f.enemies@ == es2
    &&& f.player == (Player {
        life: crate::mission::Life(life1 as usize),
        ammo: crate::mission::Ammo(
            (if input.fire {
                ft.1
            } else {
                e.player.ammo.0 as int
            }) as u32,
        ),
        invuln: if lost {
            Some(3000u64)
        } else {
            p1.invuln
        },
        ..p1
    })
    &&& f.weapons@ == (if input.fire {
        ft.0
    } else {
        w1
    })
    &&& f.clock == clock1
    &&& f.spellcards@ == e.spellcards@
    &&& f.next_id == e.next_id + em_spawned.len() + shots.len()
    &&& f.emitters@.len() == e.emitters@.len()
    &&& forall|j: int|
        0 <= j < f.emitters@.len() ==> {
            &&& (#[trigger] f.emitters@[j]).active == crate::enemy::spell_active_spec(
                e.spellcards@,
                j,
                clock1,
            )
            &&& f.emitters@[j].owner == e.emitters@[j].owner
            &&& f.emitters@[j].spawner == e.emitters@[j].spawner
        }
    &&& f.mission == (if life1 == 0 {
        MissionState::Fail
    } else if es2.len() == 0 {
        MissionState::Success
    } else {
        MissionState::Ongoing
    })
}

impl Encounter {
    /// One fixed simulation tick.
    ///
    /// While the mission is ongoing, the passes run in the engine's
    /// declared order: input and invulnerability, the six kinematics
    /// laws, the three pure detection passes, the out-of-bounds cull,
    /// the age clocks, the encounter clock with spellcard gating and
    /// emitter and weapon fire, and the deferred resolution stage —
    /// bullet against bullet, then player hits, then enemy hits —
    /// followed by the death sweeps and the outcome signal. Whatever
    /// happens, at most one life is lost per tick, and none while the
    /// player is invulnerable. Once the mission is decided, a tick
    /// changes nothing. The whole pipeline, phrased over the pass
    /// specifications, is `tick_rel`.
    #[verifier::rlimit(100)]
    pub fn tick(&mut self, input: TickInput, dt: u64)
        requires
            encounter_ok(*old(self)),
            -1 <= input.dx <= 1,
            -1 <= input.dy <= 1,
            0 < dt <= 1_000_000,
            old(self).next_id + 64 * EMITTER_ID_ROOM + 1001 <= u64::MAX,
        ensures
            encounter_ok(*final(self)),
            old(self).mission != MissionState::Ongoing ==> *final(self) == *old(self),
            old(self).mission == MissionState::Ongoing ==> {
                &&& final(self).spellcards@ == old(self).spellcards@
                &&& final(self).clock == crate::enemy::advance_time_spec(
                    old(self).clock,
                    old(self).spellcards@,
                    dt,
                )
                &&& final(self).emitters@.len() == old(self).emitters@.len()
                &&& forall|j: int|
                    0 <= j < final(self).emitters@.len() ==> (#[trigger] final(self).emitters@[j]).active == crate::enemy::spell_active_spec(
                        old(self).spellcards@,
                        j,
                        final(self).clock,
                    )
                &&& old(self).player.life.0 - 1 <= final(self).player.life.0 <= old(self).player.life.0
                &&& (crate::mission::invuln_tick_spec(old(self).player.invuln, dt) is Some
                    ==> final(self).player.life.0 == old(self).player.life.0)
                &&& final(self).mission == (if final(self).player.life.0 == 0 {
                    MissionState::Fail
                } else if final(self).enemies@.len() == 0 {
                    MissionState::Success
                } else {
                    MissionState::Ongoing
                })
            },
            old(self).mission == MissionState::Ongoing ==> exists|
                em_spawned: Seq<Bullet>,
                salted: Seq<u64>,
            |
                #[trigger] tick_rel(*old(self), *final(self), input, dt, em_spawned, salted),
    {
        if !matches!(self.mission, MissionState::Ongoing) {
            return ;
        }
        // Input and invulnerability. Switching fire groups starts
        // every weapon's cycle over.
        let ghost switched = input.alt_fire != old(self).player.alt_fire;
        if input.alt_fire != self.player.alt_fire {
            crate::weapon::set_alt_fire(&mut self.weapons);
        }
        proof {
            if switched {
                assert forall|j: int|
                    0 <= j < self.weapons@.len() implies self.weapons@[j]
                    == weapons_after_switch(old(self).weapons@, true)[j] by {}
            }
            assert(self.weapons@ =~= weapons_after_switch(old(self).weapons@, switched));
        }
        self.player.alt_fire = input.alt_fire;
        crate::mission::update_invulnerability(&mut self.player.invuln, dt);
        let area = crate::geom::create_gameplay_rect();
        crate::mission::do_movement(&mut self.player, input.dx, input.dy, area);
        proof {
            assert(self.player == input_player_spec(old(self).player, input, dt));
        }
        // Kinematics integration, all six laws in order.
        let player_pos = self.player.pos;
        let enemy_target: Option<Vec2I> = if self.enemies.len() > 0 {
            Some(self.enemies[0].pos)
        } else {
            None
        };
        let ghost k0 = self.bullets@;
        crate::bullet::move_normal_bullets(&mut self.bullets);
        let ghost k1 = self.bullets@;
        crate::bullet::move_rotating_bullets(&mut self.bullets);
        let ghost k2 = self.bullets@;
        crate::bullet::move_homing_bullets(&mut self.bullets, Some(player_pos), enemy_target);
        let ghost k3 = self.bullets@;
        crate::bullet::move_wave_bullets(&mut self.bullets);
        let ghost k4 = self.bullets@;
        crate::bullet::move_stutter_bullets(&mut self.bullets);
        let ghost k5 = self.bullets@;
        crate::bullet::resolve_delayed_bullets(&mut self.bullets);
        proof {
            assert forall|i: int|
                0 <= i < k0.len() implies self.bullets@[i] == crate::bullet::integrate_spec(
                k0[i],
                Some(player_pos),
                enemy_target,
            ) by {
                assert(k1[i] == crate::bullet::normal_step_spec(k0[i]));
                assert(k2[i] == crate::bullet::rotating_step_spec(k1[i]));
                assert(k3[i] == crate::bullet::homing_step_spec(
                    k2[i],
                    Some(player_pos),
                    enemy_target,
                ));
                assert(k4[i] == crate::bullet::wave_step_spec(k3[i]));
                assert(k5[i] == crate::bullet::stutter_step_spec(k4[i]));
                assert(self.bullets@[i] == crate::bullet::delayed_step_spec(k5[i]));
            }
            assert(self.bullets@.len() == k0.len());
        }
        let ghost k6 = self.bullets@;
        // Detection: pure, before any despawn.
        let player_circle = self.player.circle();
        let player_hits: Vec<PlayerHit> = crate::hits::check_enemy_bullets(
            &self.bullets,
            player_circle,
        );
        let bullet_hits: Vec<BulletHit> = crate::hits::check_bullet_bullet(&self.bullets);
        let enemy_hits: Vec<EnemyHit> = crate::hits::check_player_bullets(
            &self.bullets,
            &self.enemies,
        );
        // Cull out-of-bounds enemy bullets; advance the age clocks.
        crate::bullet::despawn_bullets(&mut self.bullets);
        let ghost culled = self.bullets@;
        crate::bullet::tick_bullets(&mut self.bullets, dt);
        proof {
            assert forall|i: int|
                0 <= i < culled.len() implies self.bullets@[i] == crate::bullet::age_step_spec(
                culled[i],
                dt,
            ) by {}
            assert(self.bullets@.len() == culled.len());
        }
        // The encounter clock, spellcard gating, and emitter fire.
        crate::enemy::advance_encounter_time(&mut self.clock, &self.spellcards, dt);
        let ghost pre_gate = self.emitters@;
        crate::enemy::process_spellcards(&self.spellcards, &mut self.emitters, self.clock);
        proof {
            assert forall|j: int|
                0 <= j < self.emitters@.len() implies self.emitters@[j] == gate_map(
                pre_gate,
                self.spellcards@,
                self.clock,
            )[j] by {}
            assert(self.emitters@ =~= gate_map(pre_gate, self.spellcards@, self.clock));
        }
        let ghost clock_now = self.clock;
        let ghost cards_now = self.spellcards@;
        let ghost id0 = self.next_id;
        let ghost player_snap = self.player;
        let ghost weapons_snap = self.weapons@;
        let ghost enemies_snap = self.enemies@;
        let ghost mission_snap = self.mission;
        let ghost b3snap = self.bullets@;
        let ghost b3_len = self.bullets@.len();
        let ghost eorig = self.emitters@;
        let en = self.emitters.len();
        let mut ei: usize = 0;
        proof {
            assert(self.bullets@.take(b3_len as int) =~= b3snap);
            assert(eorig.skip(0) =~= eorig);
        }
        while ei < en
            invariant
                en == self.emitters@.len(),
                en <= 64,
                ei <= en,
                all_emitters_ok(self.emitters@),
                all_ok(self.bullets@),
                all_enemies_ok(self.enemies@),
                pos_ok(player_pos),
                dt <= 1_000_000,
                self.next_id <= id0 + ei * EMITTER_ID_ROOM,
                id0 + 64 * EMITTER_ID_ROOM + 1001 <= u64::MAX,
                self.clock == clock_now,
                self.spellcards@ == cards_now,
                self.player == player_snap,
                self.weapons@ == weapons_snap,
                self.enemies@ == enemies_snap,
                self.mission == mission_snap,
                self.bullets@.len() >= b3_len,
                self.bullets@.take(b3_len as int) == b3snap,
                self.next_id == id0 + (self.bullets@.len() - b3_len),
                forall|i: int|
                    b3_len <= i < self.bullets@.len() ==> (#[trigger] self.bullets@[i]).id == id0
                        + (i - b3_len),
                eorig.len() == en,
                forall|j: int| ei <= j < en ==> self.emitters@[j] == eorig[j],
                forall|j: int|
                    0 <= j < ei ==> (#[trigger] self.emitters@[j]).emitter.timer == (
                    if eorig[j].active && crate::hits::enemy_present(
                        enemies_snap,
                        eorig[j].owner,
                    ) {
                        crate::enemy::emitter_timer_after(eorig[j], dt)
                    } else {
                        eorig[j].emitter.timer
                    }),
                self.bullets@.len() - b3_len == emitters_due(eorig, enemies_snap, dt)
                    - emitters_due(eorig.skip(ei as int), enemies_snap, dt),
                forall|j: int|
                    0 <= j < en ==> {
                        &&& (#[trigger] self.emitters@[j]).active
                            == crate::enemy::spell_active_spec(cards_now, j, clock_now)
                        &&& self.emitters@[j].owner == eorig[j].owner
                        &&& self.emitters@[j].spawner == eorig[j].spawner
                    },
            decreases en - ei,
        {
            proof {
                assert(eorig.skip(ei as int).drop_first() =~= eorig.skip(ei as int + 1));
                assert(eorig.skip(ei as int)[0] == eorig[ei as int]);
            }
            let owner = self.emitters[ei].owner;
            let opos = enemy_pos(&self.enemies, owner);
            match opos {
                Some(base) => {
                    proof {
                        assert(crate::hits::enemy_present(enemies_snap, owner));
                    }
                    proof {
                        assert(ei * EMITTER_ID_ROOM + EMITTER_ID_ROOM <= 64 * EMITTER_ID_ROOM)
                            by (nonlinear_arith)
                            requires
                                ei + 1 <= 64,
                        ;
                        assert((ei + 1) * EMITTER_ID_ROOM == ei * EMITTER_ID_ROOM
                            + EMITTER_ID_ROOM) by (nonlinear_arith);
                    }
                    let ghost bpre = self.bullets@;
                    let ghost nid_pre = self.next_id;
                    let mut spawned = crate::enemy::emitter_tick(
                        &mut self.emitters[ei],
                        dt,
                        base,
                        player_pos,
                        &mut self.next_id,
                    );
                    let ghost sp = spawned@;
                    self.bullets.append(&mut spawned);
                    proof {
                        assert(self.bullets@ == bpre + sp);
                        assert(forall|i: int|
                            0 <= i < self.bullets@.len() ==> crate::bullet::bullet_ok(
                                #[trigger] self.bullets@[i],
                            ));
                        assert(self.bullets@.take(b3_len as int) =~= bpre.take(b3_len as int));
                        assert forall|i: int|
                            b3_len <= i < self.bullets@.len() implies (#[trigger] self.bullets@[i]).id
                            == id0 + (i - b3_len) by {
                            if i < bpre.len() {
                                assert(self.bullets@[i] == bpre[i]);
                            } else {
                                assert(self.bullets@[i] == sp[i - bpre.len()]);
                                assert(sp[i - bpre.len()].id == nid_pre + (i - bpre.len()));
                            }
                        }
                    }
                },
                None => {
                    // The owning enemy is gone: this emitter skips its
                    // effect for the tick.
                },
            }
            ei += 1;
        }
        let ghost em_spawned = self.bullets@.skip(b3_len as int);
        proof {
            assert(self.bullets@ =~= b3snap + em_spawned);
            assert forall|i: int|
                0 <= i < em_spawned.len() implies (#[trigger] em_spawned[i]).id == id0 + i by {
                assert(em_spawned[i] == self.bullets@[b3_len + i]);
            }
            assert(all_ok(em_spawned)) by {
                assert(forall|i: int|
                    0 <= i < em_spawned.len() ==> crate::bullet::bullet_ok(
                        #[trigger] em_spawned[i],
                    ));
            }
        }
        // Weapon fire, driven by input and ammunition.
        let ghost w1v = self.weapons@;
        let ghost ammo0 = self.player.ammo;
        let ghost nid1 = self.next_id;
        if input.fire {
            let mut shots = crate::weapon::fire_weapons(
                &mut self.weapons,
                &mut self.player.ammo,
                player_pos,
                input.alt_fire,
                dt,
                &mut self.next_id,
            );
            let ghost shv = shots@;
            self.bullets.append(&mut shots);
            proof {
                assert(self.bullets@ =~= b3snap + em_spawned + shv);
                assert(forall|i: int|
                    0 <= i < self.bullets@.len() ==> crate::bullet::bullet_ok(
                        #[trigger] self.bullets@[i],
                    ));
            }
        }
        // Deferred resolution: bullet against bullet, player hits,
        // enemy hits, in that order.
        let ghost b4v = self.bullets@;
        let salted_ids = salted_bullet_ids(&self.bullets);
        crate::hits::bullet_bullet_hit(&mut self.bullets, &bullet_hits);
        let life_before = self.player.life.0;
        let invulnerable = self.player.invuln.is_some();
        crate::hits::process_player_hits(
            &mut self.bullets,
            &player_hits,
            &bullet_hits,
            &salted_ids,
            &mut self.player.life,
            invulnerable,
        );
        crate::hits::process_enemy_hits(&mut self.bullets, &mut self.enemies, &enemy_hits);
        // A fresh hit grants the invulnerability window.
        if self.player.life.0 < life_before {
            self.player.invuln = Some(crate::mission::on_damage());
        }
        // Death sweeps and the outcome signal.
        crate::enemy::enemy_dead(&mut self.enemies);
        let dead = self.player.life.0 == 0;
        let cleared = crate::enemy::last_enemy_dead(&self.enemies);
        self.mission = if dead {
            MissionState::Fail
        } else if cleared {
            MissionState::Success
        } else {
            MissionState::Ongoing
        };
        proof {
            let e = *old(self);
            let p1 = input_player_spec(e.player, input, dt);
            let target2: Option<Vec2I> = if e.enemies@.len() > 0 {
                Some(e.enemies@[0].pos)
            } else {
                None
            };
            assert(p1 == player_snap);
            assert(target2 == enemy_target);
            assert(k0 == e.bullets@);
            let b1 = integrate_map(e.bullets@, p1.pos, target2);
            assert(b1 =~= k6) by {
                assert forall|i: int| 0 <= i < b1.len() implies b1[i] == k6[i] by {
                    assert(b1[i] == crate::bullet::integrate_spec(
                        e.bullets@[i],
                        Some(p1.pos),
                        target2,
                    ));
                }
            }
            let pc = crate::geom::Circle { pos: p1.pos, radius: e.player.radius };
            assert(player_hits@ == crate::hits::player_hits_spec(b1, pc));
            assert(bullet_hits@ == crate::hits::bullet_hits_spec(b1, b1));
            assert(enemy_hits@ == crate::hits::enemy_hits_spec(b1, e.enemies@));
            assert(culled == crate::bullet::cull_spec(b1));
            let b3 = age_map(crate::bullet::cull_spec(b1), dt);
            assert(b3 =~= b3snap) by {
                assert forall|i: int| 0 <= i < b3.len() implies b3[i] == b3snap[i] by {
                    assert(b3[i] == crate::bullet::age_step_spec(culled[i], dt));
                }
            }
            let switched2 = input.alt_fire != e.player.alt_fire;
            let w1 = weapons_after_switch(e.weapons@, switched2);
            assert(w1 == w1v);
            let ft = crate::weapon::fire_fold(
                w1,
                input.alt_fire,
                dt,
                e.player.ammo.0 as int,
                0,
                crate::weapon::group_count(w1, input.alt_fire),
                p1.pos,
                (e.next_id + em_spawned.len()) as u64,
            );
            let shots = if input.fire {
                ft.2
            } else {
                Seq::<Bullet>::empty()
            };
            assert(ammo0 == e.player.ammo);
            assert(nid1 == e.next_id + em_spawned.len());
            let b4 = b3 + em_spawned + shots;
            assert(b4 =~= b4v);
            let b5 = crate::hits::bb_resolve_spec(b4, bullet_hits@);
            let res = crate::hits::php_spec(
                b5,
                player_hits@,
                bullet_hits@,
                salted_ids@,
                e.player.life.0 as int,
                false,
                p1.invuln is Some,
            );
            assert(self.player.life.0 == res.1);
            assert(self.bullets@ == crate::hits::peh_keep_rec(e.enemies@, res.0, enemy_hits@));
            assert(self.enemies@ == crate::enemy::alive_spec(
                crate::hits::peh_enemies_spec(res.0, e.enemies@, enemy_hits@),
            ));
            assert(forall|i: int|
                0 <= i < em_spawned.len() ==> (#[trigger] em_spawned[i]).id == e.next_id + i);
            assert(forall|id: u64|
                salted_ids@.contains(id) ==> exists|i: int|
                    0 <= i < b4.len() && (#[trigger] b4[i]).id == id && b4[i].salted
                        && b4[i].player is Some);
            assert(forall|i: int|
                0 <= i < b4.len() && (#[trigger] b4[i]).salted && b4[i].player is Some
                    ==> salted_ids@.contains(b4[i].id));
            assert(self.clock == crate::enemy::advance_time_spec(e.clock, e.spellcards@, dt));
            assert(self.spellcards@ == e.spellcards@);
            assert(self.next_id == e.next_id + em_spawned.len() + shots.len());
            assert(self.weapons@ == (if input.fire {
                ft.0
            } else {
                w1
            }));
            let lost2 = res.1 < e.player.life.0;
            assert(self.player == (Player {
                life: crate::mission::Life(res.1 as usize),
                ammo: crate::mission::Ammo(
                    (if input.fire {
                        ft.1
                    } else {
                        e.player.ammo.0 as int
                    }) as u32,
                ),
                invuln: if lost2 {
                    Some(3000u64)
                } else {
                    p1.invuln
                },
                ..p1
            }));
            assert(self.emitters@.len() == e.emitters@.len());
            assert(forall|j: int|
                0 <= j < self.emitters@.len() ==> {
                    &&& (#[trigger] self.emitters@[j]).active == crate::enemy::spell_active_spec(
                        e.spellcards@,
                        j,
                        self.clock,
                    )
                    &&& self.emitters@[j].owner == e.emitters@[j].owner
                    &&& self.emitters@[j].spawner == e.emitters@[j].spawner
                });
            assert(self.mission == (if res.1 == 0 {
                MissionState::Fail
            } else if self.enemies@.len() == 0 {
                MissionState::Success
            } else {
                MissionState::Ongoing
            }));
            let gated2 = gate_map(
                e.emitters@,
                e.spellcards@,
                crate::enemy::advance_time_spec(e.clock, e.spellcards@, dt),
            );
            assert(gated2 == eorig);
            assert(emitters_due(eorig.skip(en as int), enemies_snap, dt) == 0);
            assert(em_spawned.len() == emitters_due(gated2, e.enemies@, dt));
            assert(tick_rel_parts(
                e,
                *self,
                input,
                dt,
                em_spawned,
                salted_ids@,
                p1,
                b4,
                ft,
                shots,
                crate::enemy::advance_time_spec(e.clock, e.spellcards@, dt),
                w1,
                res.1,
                crate::hits::peh_keep_rec(e.enemies@, res.0, enemy_hits@),
                crate::enemy::alive_spec(
                    crate::hits::peh_enemies_spec(res.0, e.enemies@, enemy_hits@),
                ),
                gated2,
            ));
            assert(tick_rel(*old(self), *self, input, dt, em_spawned, salted_ids@));
        }
    }
}

} // verus!