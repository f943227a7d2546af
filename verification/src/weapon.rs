//! Player weapons: structurally the same periodic spawners as the
//! enemy emitters, driven by input and ammunition instead of a
//! spellcard window, plus the loadout that builds them at mission
//! start.

use crate::bullet::{all_ok, spawner_ok, Bullet, BulletSpawner, DelayedBullet,
    HomingBullet, NormalBullet, PlayerBullet, Target, Velocity};
use crate::fixed::SPEED_LIMIT;
use crate::geom::{clamp_translate_spec, pos_ok, Vec2I};
use crate::mission::{Ammo, Player};
use crate::timer::{timer_ok, timer_tick_spec, Timer};
use vstd::prelude::*;

verus! {

/// A player weapon: fire-period timer, ammunition cost, bullet
/// prototype, damage, the salted and phasing tags its bullets carry,
/// and whether it belongs to the alternate-fire group.
#[derive(Debug)]
pub struct Weapon {
    pub timer: Timer,
    pub ammo_cost: u32,
    pub bullet: BulletSpawner,
    pub salted: bool,
    pub phasing: bool,
    pub damage: u32,
    /// Whether this weapon fires on alternate fire rather than primary.
    pub alt: bool,
}

/// A well-formed weapon.
pub open spec fn weapon_ok(w: Weapon) -> bool {
    timer_ok(w.timer) && spawner_ok(w.bullet) && w.damage <= 0x7FFF_FFFF
}

/// Every weapon of a sequence is well formed.
pub open spec fn all_weapons_ok(s: Seq<Weapon>) -> bool {
    forall|i: int| 0 <= i < s.len() ==> weapon_ok(#[trigger] s[i])
}

/// The machine gun as a value: a fast, cheap, salted pellet stream,
/// firing every 50 milliseconds, one round each, 20 pixels per tick,
/// 2 damage.
pub open spec fn machinegun_spec() -> Weapon {
    Weapon {
        timer: Timer { duration: 50 as u64, elapsed: 0 as u64, just_finished: false },
        ammo_cost: 1 as u32,
        bullet: BulletSpawner {
            radius: 6_000 as i64,
            offset: Vec2I { x: 0, y: 0 },
            normal: Some(NormalBullet { velocity: Velocity { speed: 20_000 as i64, angle: 0 as i64 } }),
            rotation: None,
            stutter: None,
            homing: None,
            wave: None,
            delayed: None,
        },
        salted: true,
        phasing: false,
        damage: 2 as u32,
        alt: false,
    }
}

/// Builds the machine gun.
pub fn make_machinegun() -> (r: Weapon)
    ensures
        r == machinegun_spec(),
        weapon_ok(r),
{
    Weapon {
        timer: Timer::new(50),
        ammo_cost: 1,
        bullet: BulletSpawner {
            radius: 6_000,
            offset: Vec2I { x: 0, y: 0 },
            normal: Some(NormalBullet { velocity: Velocity { speed: 20_000, angle: 0 } }),
            rotation: None,
            stutter: None,
            homing: None,
            wave: None,
            delayed: None,
        },
        salted: true,
        phasing: false,
        damage: 2,
        alt: false,
    }
}

/// The rocket launcher as a value: slow, costly rockets whose
/// 300-millisecond fuse arms them into homing missiles that chase the
/// enemy for a minute, turning 48 angle units per tick.
pub open spec fn rocketlauncher_spec() -> Weapon {
    Weapon {
        timer: Timer { duration: 500 as u64, elapsed: 0 as u64, just_finished: false },
        ammo_cost: 100 as u32,
        bullet: BulletSpawner {
            radius: 20_000 as i64,
            offset: Vec2I { x: 0, y: 0 },
            normal: Some(NormalBullet { velocity: Velocity { speed: 10_000 as i64, angle: 0 as i64 } }),
            rotation: None,
            stutter: None,
            homing: None,
            wave: None,
            delayed: Some(
                DelayedBullet {
                    bullet: Box::new(
                        BulletSpawner {
                            radius: 20_000 as i64,
                            offset: Vec2I { x: 0, y: 0 },
                            normal: Some(
                                NormalBullet { velocity: Velocity { speed: 10_000 as i64, angle: 0 as i64 } },
                            ),
                            rotation: None,
                            stutter: None,
                            homing: Some(
                                HomingBullet {
                                    rotation_speed: 48 as i64,
                                    seeking_time: 60_000 as u64,
                                    target: Target::Enemy,
                                },
                            ),
                            wave: None,
                            delayed: None,
                        },
                    ),
                    delay: 300 as u64,
                    deployed: false,
                },
            ),
        },
        salted: false,
        phasing: false,
        damage: 50 as u32,
        alt: false,
    }
}

/// Builds the rocket launcher.
pub fn make_rocketlauncher() -> (r: Weapon)
    ensures
        r == rocketlauncher_spec(),
        weapon_ok(r),
{
    let inner = BulletSpawner {
        radius: 20_000,
        offset: Vec2I { x: 0, y: 0 },
        normal: Some(NormalBullet { velocity: Velocity { speed: 10_000, angle: 0 } }),
        rotation: None,
        stutter: None,
        homing: Some(
            HomingBullet { rotation_speed: 48, seeking_time: 60_000, target: Target::Enemy },
        ),
        wave: None,
        delayed: None,
    };
    proof {
        assert(spawner_ok(inner));
    }
    let outer = BulletSpawner {
        radius: 20_000,
        offset: Vec2I { x: 0, y: 0 },
        normal: Some(NormalBullet { velocity: Velocity { speed: 10_000, angle: 0 } }),
        rotation: None,
        stutter: None,
        homing: None,
        wave: None,
        delayed: Some(DelayedBullet { bullet: Box::new(inner), delay: 300, deployed: false }),
    };
    proof {
        assert(spawner_ok(outer));
    }
    Weapon {
        timer: Timer::new(500),
        ammo_cost: 100,
        bullet: outer,
        salted: false,
        phasing: false,
        damage: 50,
        alt: false,
    }
}

/// The vertical offset of the `idx`-th of `count` stacked muzzles, in
/// fixed-point units below the player's center.
pub open spec fn muzzle_drop(idx: int, count: int) -> int {
    (idx - 1) * 50_000 - 25_000 * (count - 1)
}

/// The bullet the `idx`-th matching weapon fires: the prototype's laws
/// and collider, player-owned with the weapon's damage and tags,
/// spawned at the weapon's muzzle below the player.
pub open spec fn weapon_bullet_spec(w: Weapon, pp: Vec2I, idx: int, count: int, id: u64) -> Bullet {
    let muzzle = Vec2I {
        x: pp.x,
        y: crate::fixed::clamp_add_spec(pp.y as int, -muzzle_drop(idx, count)) as i64,
    };
    Bullet {
        id,
        pos: clamp_translate_spec(muzzle, w.bullet.offset),
        radius: w.bullet.radius,
        age: 0,
        player: Some(PlayerBullet { damage: w.damage }),
        salted: w.salted,
        phasing: w.phasing,
        normal: w.bullet.normal,
        rotating: w.bullet.rotation,
        homing: w.bullet.homing,
        stutter: w.bullet.stutter,
        wave: w.bullet.wave,
        delayed: w.bullet.delayed,
    }
}

/// One tick of the weapon group as a fold, in order: weapons of the
/// other group are untouched; each matching weapon counts up the
/// muzzle index and advances its timer; when the period elapses the
/// timer starts over and, if the ammunition covers the cost, the cost
/// is paid and one bullet spawns.
pub open spec fn fire_fold(
    ws: Seq<Weapon>,
    alt: bool,
    dt: u64,
    ammo: int,
    idx: int,
    count: int,
    pp: Vec2I,
    next: u64,
) -> (Seq<Weapon>, int, Seq<Bullet>)
    decreases ws.len(),
{
    if ws.len() == 0 {
        (Seq::empty(), ammo, Seq::empty())
    } else {
        let w = ws[0];
        if w.alt != alt {
            let rest = fire_fold(ws.drop_first(), alt, dt, ammo, idx, count, pp, next);
            (seq![w] + rest.0, rest.1, rest.2)
        } else {
            let t1 = timer_tick_spec(w.timer, dt);
            if t1.just_finished {
                let w1 = Weapon {
                    timer: Timer { duration: t1.duration, elapsed: 0, just_finished: false },
                    ..w
                };
                if ammo < w.ammo_cost {
                    let rest = fire_fold(ws.drop_first(), alt, dt, ammo, idx + 1, count, pp, next);
                    (seq![w1] + rest.0, rest.1, rest.2)
                } else {
                    let b = weapon_bullet_spec(w, pp, idx + 1, count, next);
                    let rest = fire_fold(
                        ws.drop_first(),
                        alt,
                        dt,
                        ammo - w.ammo_cost,
                        idx + 1,
                        count,
                        pp,
                        (next + 1) as u64,
                    );
                    (seq![w1] + rest.0, rest.1, seq![b] + rest.2)
                }
            } else {
                let w1 = Weapon { timer: t1, ..w };
                let rest = fire_fold(ws.drop_first(), alt, dt, ammo, idx + 1, count, pp, next);
                (seq![w1] + rest.0, rest.1, rest.2)
            }
        }
    }
}

/// The fold never spends more ammunition than it has, fires at most
/// one bullet per weapon, and keeps every weapon well formed.
pub proof fn lemma_fire_fold_frame(
    ws: Seq<Weapon>,
    alt: bool,
    dt: u64,
    ammo: int,
    idx: int,
    count: int,
    pp: Vec2I,
    next: u64,
)
    requires
        all_weapons_ok(ws),
        0 <= ammo,
        dt <= 1_000_000,
        next + ws.len() <= u64::MAX,
    ensures
        fire_fold(ws, alt, dt, ammo, idx, count, pp, next).0.len() == ws.len(),
        0 <= fire_fold(ws, alt, dt, ammo, idx, count, pp, next).1 <= ammo,
        fire_fold(ws, alt, dt, ammo, idx, count, pp, next).2.len() <= ws.len(),
        all_weapons_ok(fire_fold(ws, alt, dt, ammo, idx, count, pp, next).0),
    decreases ws.len(),
{
    if ws.len() > 0 {
        assert(all_weapons_ok(ws.drop_first()));
        let w = ws[0];
        if w.alt != alt {
            lemma_fire_fold_frame(ws.drop_first(), alt, dt, ammo, idx, count, pp, next);
        } else {
            let t1 = timer_tick_spec(w.timer, dt);
            if t1.just_finished {
                if ammo < w.ammo_cost {
                    lemma_fire_fold_frame(ws.drop_first(), alt, dt, ammo, idx + 1, count, pp, next);
                } else {
                    lemma_fire_fold_frame(
                        ws.drop_first(),
                        alt,
                        dt,
                        ammo - w.ammo_cost,
                        idx + 1,
                        count,
                        pp,
                        (next + 1) as u64,
                    );
                }
            } else {
                lemma_fire_fold_frame(ws.drop_first(), alt, dt, ammo, idx + 1, count, pp, next);
            }
        }
        let r = fire_fold(ws, alt, dt, ammo, idx, count, pp, next);
        assert(forall|i: int| 0 <= i < r.0.len() ==> weapon_ok(#[trigger] r.0[i]));
    }
}

/// Counts the weapons of one fire group.
pub open spec fn group_count(ws: Seq<Weapon>, alt: bool) -> int
    decreases ws.len(),
{
    if ws.len() == 0 {
        0
    } else {
        (if ws[0].alt == alt {
            1int
        } else {
            0int
        }) + group_count(ws.drop_first(), alt)
    }
}

/// The group count is never larger than the list.
pub proof fn lemma_group_count_bound(ws: Seq<Weapon>, alt: bool)
    ensures
        0 <= group_count(ws, alt) <= ws.len(),
    decreases ws.len(),
{
    if ws.len() > 0 {
        lemma_group_count_bound(ws.drop_first(), alt);
    }
}

/// Fires the player's weapons for one tick while the fire button is
/// held: exactly the fold's weapons, ammunition and bullets, with the
/// spawned bullets taking consecutive identities from `next_id`.
#[verifier::rlimit(100)]
pub fn fire_weapons(
    weapons: &mut Vec<Weapon>,
    ammo: &mut Ammo,
    player_pos: Vec2I,
    alt_fire: bool,
    dt: u64,
    next_id: &mut u64,
) -> (r: Vec<Bullet>)
    requires
        all_weapons_ok(old(weapons)@),
        old(weapons)@.len() <= 1000,
        pos_ok(player_pos),
        dt <= 1_000_000,
        *old(next_id) + old(weapons)@.len() <= u64::MAX,
    ensures
        ({
            let t = fire_fold(
                old(weapons)@,
                alt_fire,
                dt,
                old(ammo).0 as int,
                0,
                group_count(old(weapons)@, alt_fire),
                player_pos,
                *old(next_id),
            );
            &&& final(weapons)@ == t.0
            &&& final(ammo).0 == t.1
            &&& r@ == t.2
            &&& *final(next_id) == *old(next_id) + r@.len()
        }),
        final(weapons)@.len() == old(weapons)@.len(),
        all_weapons_ok(final(weapons)@),
        all_ok(r@),
{
    let ghost orig = weapons@;
    let ghost count_g = group_count(orig, alt_fire);
    proof {
        lemma_fire_fold_frame(
            orig,
            alt_fire,
            dt,
            old(ammo).0 as int,
            0,
            count_g,
            player_pos,
            *old(next_id),
        );
    }
    // Count the weapons of the active group, as the muzzle spread
    // depends on it.
    let n = weapons.len();
    let mut count: usize = 0;
    let mut i: usize = 0;
    proof {
        assert(orig.skip(0) =~= orig);
    }
    while i < n
        invariant
            orig == weapons@,
            n == orig.len(),
            i <= n,
            count <= i,
            count_g == group_count(orig, alt_fire),
            count_g == count + group_count(orig.skip(i as int), alt_fire),
        decreases n - i,
    {
        proof {
            assert(orig.skip(i as int).drop_first() =~= orig.skip(i as int + 1));
            assert(orig.skip(i as int)[0] == orig[i as int]);
            lemma_group_count_bound(orig.skip(i as int + 1), alt_fire);
        }
        if weapons[i].alt == alt_fire {
            count += 1;
        }
        i += 1;
    }
    proof {
        assert(orig.skip(n as int) =~= Seq::<Weapon>::empty());
        assert(group_count(orig.skip(n as int), alt_fire) == 0);
        lemma_group_count_bound(orig, alt_fire);
    }
    let count_i64: i64 = count as i64;
    // Walk the weapons, advancing matching timers and firing.
    let mut out: Vec<Bullet> = Vec::new();
    let mut idx: usize = 0;
    let mut j: usize = 0;
    let ghost t_total = fire_fold(
        orig,
        alt_fire,
        dt,
        old(ammo).0 as int,
        0,
        count_g,
        player_pos,
        *old(next_id),
    );
    while j < n
        invariant
            n == weapons@.len(),
            n == orig.len(),
            n <= 1000,
            j <= n,
            idx <= j,
            all_weapons_ok(weapons@),
            all_ok(out@),
            pos_ok(player_pos),
            dt <= 1_000_000,
            count_g == group_count(orig, alt_fire),
            count_i64 == count_g,
            0 <= count_i64 <= n,
            *old(next_id) + n <= u64::MAX,
            *next_id == *old(next_id) + out@.len(),
            out@.len() <= j,
            forall|b: int| j <= b < n ==> weapons@[b] == orig[b],
            t_total == ({
                let sub = fire_fold(
                    orig.skip(j as int),
                    alt_fire,
                    dt,
                    ammo.0 as int,
                    idx as int,
                    count_g,
                    player_pos,
                    *next_id,
                );
                (weapons@.take(j as int) + sub.0, sub.1, out@ + sub.2)
            }),
        decreases n - j,
    {
        proof {
            assert(orig.skip(j as int).drop_first() =~= orig.skip(j as int + 1));
            assert(orig.skip(j as int)[0] == orig[j as int]);
        }
        let w_alt = weapons[j].alt;
        if w_alt != alt_fire {
            proof {
                let sub1 = fire_fold(
                    orig.skip(j as int + 1),
                    alt_fire,
                    dt,
                    ammo.0 as int,
                    idx as int,
                    count_g,
                    player_pos,
                    *next_id,
                );
                assert(weapons@.take(j as int) + (seq![orig[j as int]] + sub1.0) =~= weapons@.take(
                    j as int,
                ) + seq![orig[j as int]] + sub1.0);
                assert(weapons@.take(j as int) + seq![orig[j as int]] =~= weapons@.take(
                    j as int + 1,
                ));
            }
            j += 1;
        } else {
        idx += 1;
        let ghost pre = weapons@;
        let mut w = weapons.remove(j);
        w.timer.tick(dt);
        let fired = w.timer.finished();
        if fired {
            w.timer.reset();
            if ammo.0 >= w.ammo_cost {
                ammo.0 = ammo.0 - w.ammo_cost;
                let drop_amt: i64 = ((idx as i64) - 1) * 50_000 - 25_000 * (count_i64 - 1);
                let muzzle = Vec2I {
                    x: player_pos.x,
                    y: crate::fixed::clamp_add(player_pos.y, -drop_amt),
                };
                let b = Bullet {
                    id: *next_id,
                    pos: muzzle.clamp_translate(w.bullet.offset),
                    radius: w.bullet.radius,
                    age: 0,
                    player: Some(PlayerBullet { damage: w.damage }),
                    salted: w.salted,
                    phasing: w.phasing,
                    normal: w.bullet.normal,
                    rotating: w.bullet.rotation,
                    homing: w.bullet.homing,
                    stutter: w.bullet.stutter,
                    wave: w.bullet.wave,
                    delayed: match &w.bullet.delayed {
                        Some(d) => Some(
                            DelayedBullet {
                                bullet: Box::new(d.bullet.duplicate()),
                                delay: d.delay,
                                deployed: d.deployed,
                            },
                        ),
                        None => None,
                    },
                };
                proof {
                    assert(b == weapon_bullet_spec(
                        orig[j as int],
                        player_pos,
                        idx as int,
                        count_g,
                        (*old(next_id) + out@.len()) as u64,
                    ));
                }
                out.push(b);
                *next_id = *next_id + 1;
            }
        }
        weapons.insert(j, w);
        proof {
            assert(weapons@ =~= pre.update(j as int, w));
            assert(weapons@.take(j as int) + seq![w] =~= weapons@.take(j as int + 1));
            let sub1 = fire_fold(
                orig.skip(j as int + 1),
                alt_fire,
                dt,
                ammo.0 as int,
                idx as int,
                count_g,
                player_pos,
                *next_id,
            );
            assert(weapons@.take(j as int) + (seq![w] + sub1.0) =~= weapons@.take(j as int + 1)
                + sub1.0);
            if t_total.2 != out@ + sub1.2 {
                assert(t_total.2 =~= out@ + sub1.2);
            }
        }
        j += 1;
        }
    }
    proof {
        assert(orig.skip(n as int) =~= Seq::<Weapon>::empty());
        assert(weapons@.take(n as int) =~= weapons@);
        assert(t_total.0 =~= weapons@);
        assert(t_total.2 =~= out@);
    }
    out
}

/// Starts every weapon's fire cycle over; nothing else about a weapon
/// changes. This happens whenever the alternate-fire modifier is
/// pressed or released, so neither group carries a half-elapsed cycle
/// across the switch.
pub fn set_alt_fire(weapons: &mut Vec<Weapon>)
    requires
        all_weapons_ok(old(weapons)@),
    ensures
        final(weapons)@.len() == old(weapons)@.len(),
        forall|i: int|
            0 <= i < old(weapons)@.len() ==> final(weapons)@[i] == (Weapon {
                timer: Timer {
                    duration: old(weapons)@[i].timer.duration,
                    elapsed: 0u64,
                    just_finished: false,
                },
                ..old(weapons)@[i]
            }),
        all_weapons_ok(final(weapons)@),
{
    let ghost orig = weapons@;
    let n = weapons.len();
    let mut i: usize = 0;
    while i < n
        invariant
            n == orig.len(),
            weapons@.len() == n,
            i <= n,
            all_weapons_ok(orig),
            all_weapons_ok(weapons@),
            forall|j: int|
                0 <= j < i ==> weapons@[j] == (Weapon {
                    timer: Timer {
                        duration: orig[j].timer.duration,
                        elapsed: 0u64,
                        just_finished: false,
                    },
                    ..orig[j]
                }),
            forall|j: int| i <= j < n ==> weapons@[j] == orig[j],
        decreases n - i,
    {
        let ghost prev = weapons@;
        let mut w = weapons.remove(i);
        w.timer.reset();
        weapons.insert(i, w);
        proof {
            assert(weapons@ =~= prev.update(i as int, w));
        }
        i += 1;
    }
}

/// A weapon technology of the loadout description the surrounding
/// mission hands in.
#[derive(Clone, Copy, Debug, PartialEq, Eq, Structural)]
pub enum Tech {
    MachineGun,
    AmmoStockpile,
    HeavyBody,
    Rocket,
    MagicBullet,
    EngineT1,
    EngineT2,
    MachineGunT2,
    Phase,
    /// A technology with no effect on the encounter loadout.
    Other,
}

/// One loadout line: a technology and whether it goes to the
/// alternate-fire group.
#[derive(Clone, Copy, Debug, PartialEq, Eq, Structural)]
pub struct LoadoutEntry {
    pub tech: Tech,
    pub alt: bool,
}

/// The running state of loadout configuration: the two weapon groups
/// being collected, the tag flags per group, the percent multipliers,
/// and the player figures the techs adjust directly.
pub struct LoadoutAcc {
    pub weapons: Seq<Weapon>,
    pub alt_weapons: Seq<Weapon>,
    pub salted: bool,
    pub alt_salted: bool,
    pub phasing: bool,
    pub alt_phasing: bool,
    /// Ammunition multiplier, in percent.
    pub ammo_mult: int,
    /// Damage multiplier, in percent.
    pub damage_mult: int,
    pub ammo: int,
    pub life: int,
    pub radius: int,
    pub speed: int,
}

/// The loadout state before any entry is read.
pub open spec fn loadout_init(p: Player) -> LoadoutAcc {
    LoadoutAcc {
        weapons: Seq::empty(),
        alt_weapons: Seq::empty(),
        salted: false,
        alt_salted: false,
        phasing: false,
        alt_phasing: false,
        ammo_mult: 100,
        damage_mult: 100,
        ammo: p.ammo.0 as int,
        life: p.life.0 as int,
        radius: p.radius as int,
        speed: p.speed as int,
    }
}

/// A speed doubled `k`-fold, capped at the engine's speed limit.
pub open spec fn speed_scaled(s: int, k: int) -> int {
    if s * k > SPEED_LIMIT {
        SPEED_LIMIT as int
    } else {
        s * k
    }
}

/// What one loadout entry does to the state.
pub open spec fn loadout_step(acc: LoadoutAcc, e: LoadoutEntry) -> LoadoutAcc {
    match e.tech {
        Tech::MachineGun => if e.alt {
            LoadoutAcc { alt_weapons: acc.alt_weapons.push(machinegun_spec()), ..acc }
        } else {
            LoadoutAcc { weapons: acc.weapons.push(machinegun_spec()), ..acc }
        },
        Tech::AmmoStockpile => LoadoutAcc { ammo: acc.ammo + 1000, ..acc },
        Tech::HeavyBody => LoadoutAcc {
            ammo_mult: acc.ammo_mult + 50,
            life: acc.life + 3,
            radius: acc.radius + 5_000,
            ..acc
        },
        Tech::Rocket => if e.alt {
            LoadoutAcc { alt_weapons: acc.alt_weapons.push(rocketlauncher_spec()), ..acc }
        } else {
            LoadoutAcc { weapons: acc.weapons.push(rocketlauncher_spec()), ..acc }
        },
        Tech::MagicBullet => if e.alt {
            LoadoutAcc { alt_salted: true, ..acc }
        } else {
            LoadoutAcc { salted: true, ..acc }
        },
        Tech::EngineT1 => LoadoutAcc { speed: speed_scaled(acc.speed, 2), ..acc },
        Tech::EngineT2 => LoadoutAcc {
            speed: speed_scaled(acc.speed, 4),
            damage_mult: acc.damage_mult + 50,
            ..acc
        },
        Tech::MachineGunT2 => if e.alt {
            LoadoutAcc {
                alt_weapons: acc.alt_weapons.push(machinegun_spec()).push(machinegun_spec()),
                ..acc
            }
        } else {
            LoadoutAcc {
                weapons: acc.weapons.push(machinegun_spec()).push(machinegun_spec()),
                ..acc
            }
        },
        Tech::Phase => if e.alt {
            LoadoutAcc { alt_phasing: true, ..acc }
        } else {
            LoadoutAcc { phasing: true, ..acc }
        },
        Tech::Other => acc,
    }
}

/// The whole loadout read left to right.
pub open spec fn loadout_fold(entries: Seq<LoadoutEntry>, acc: LoadoutAcc) -> LoadoutAcc
    decreases entries.len(),
{
    if entries.len() == 0 {
        acc
    } else {
        loadout_fold(entries.drop_first(), loadout_step(acc, entries[0]))
    }
}

/// A damage figure scaled by a percent multiplier, truncated, capped
/// at the largest damage a bullet may carry.
pub open spec fn damage_scaled(d: int, mult: int) -> int {
    if (d * mult) / 100 > 0x7FFF_FFFF {
        0x7FFF_FFFF
    } else {
        (d * mult) / 100
    }
}

/// An ammunition figure scaled by a percent multiplier, truncated,
/// capped at the counter's range.
pub open spec fn ammo_scaled(a: int, mult: int) -> int {
    if (a * mult) / 100 > u32::MAX {
        u32::MAX as int
    } else {
        (a * mult) / 100
    }
}

/// A collected weapon finished for battle: the group's tags and the
/// damage multiplier applied, and the group recorded.
pub open spec fn finished_weapon(w: Weapon, salted: bool, phasing: bool, dmult: int, alt: bool) -> Weapon {
    Weapon { salted, phasing, damage: damage_scaled(w.damage as int, dmult) as u32, alt, ..w }
}

/// Finishes one collected weapon for battle.
fn finish_weapon(w: Weapon, salted: bool, phasing: bool, dmult: u32, alt: bool) -> (r: Weapon)
    requires
        weapon_ok(w),
        dmult <= 1_000_000,
    ensures
        r == finished_weapon(w, salted, phasing, dmult as int, alt),
        weapon_ok(r),
{
    proof {
        assert((w.damage as int) * (dmult as int) <= 0xFFFF_FFFF * 1_000_000) by (nonlinear_arith)
            requires
                0 <= w.damage <= 0xFFFF_FFFF,
                0 <= dmult <= 1_000_000,
        ;
    }
    let p = (w.damage as u64) * (dmult as u64);
    let q = p / 100;
    let damage: u32 = if q > 0x7FFF_FFFF {
        0x7FFF_FFFF
    } else {
        q as u32
    };
    Weapon { salted, phasing, damage, alt, ..w }
}

/// Reads the loadout description once at mission start: collects the
/// primary and alternate weapon groups, applies the stat techs to the
/// player, then hands back every weapon finished with its group's
/// tags and the damage multiplier — primaries first, alternates
/// after.
pub fn config_loadout(player: &mut Player, loadout: &Vec<LoadoutEntry>) -> (r: Vec<Weapon>)
    requires
        crate::mission::player_ok(*old(player)),
        loadout@.len() <= 32,
        old(player).ammo.0 <= 1_000_000_000,
        old(player).life.0 <= 1_000_000,
        old(player).radius <= crate::bullet::RADIUS_LIMIT - 160_000,
    ensures
        ({
            let acc = loadout_fold(loadout@, loadout_init(*old(player)));
            &&& final(player).ammo.0 == ammo_scaled(acc.ammo, acc.ammo_mult)
            &&& final(player).life.0 == acc.life
            &&& final(player).radius == acc.radius
            &&& final(player).speed == acc.speed
            &&& final(player).pos == old(player).pos
            &&& final(player).invuln == old(player).invuln
            &&& final(player).alt_fire == old(player).alt_fire
            &&& r@ == acc.weapons.map_values(
                |w: Weapon| finished_weapon(w, acc.salted, acc.phasing, acc.damage_mult, false),
            ) + acc.alt_weapons.map_values(
                |w: Weapon|
                    finished_weapon(w, acc.alt_salted, acc.alt_phasing, acc.damage_mult, true),
            )
        }),
        all_weapons_ok(r@),
        crate::mission::player_ok(*final(player)),
{
    let ghost init = loadout_init(*old(player));
    let ghost total = loadout_fold(loadout@, init);
    let n = loadout.len();
    let mut weapons: Vec<Weapon> = Vec::new();
    let mut alt_weapons: Vec<Weapon> = Vec::new();
    let mut salted = false;
    let mut alt_salted = false;
    let mut phasing = false;
    let mut alt_phasing = false;
    let mut ammo_mult: u32 = 100;
    let mut damage_mult: u32 = 100;
    let mut ammo_cur: u32 = player.ammo.0;
    let mut life_cur: usize = player.life.0;
    let mut radius_cur: i64 = player.radius;
    let mut speed_cur: i64 = player.speed;
    let mut i: usize = 0;
    proof {
        assert(loadout@.skip(0) =~= loadout@);
    }
    while i < n
        invariant
            n == loadout@.len(),
            n <= 32,
            i <= n,
            all_weapons_ok(weapons@),
            all_weapons_ok(alt_weapons@),
            ammo_cur <= 1_000_000_000 + 1000 * i,
            100 <= ammo_mult <= 100 + 50 * i,
            100 <= damage_mult <= 100 + 50 * i,
            life_cur <= 1_000_000 + 3 * i,
            radius_cur <= crate::bullet::RADIUS_LIMIT - 160_000 + 5_000 * i,
            0 <= radius_cur,
            0 <= speed_cur <= SPEED_LIMIT,
            total == loadout_fold(
                loadout@.skip(i as int),
                LoadoutAcc {
                    weapons: weapons@,
                    alt_weapons: alt_weapons@,
                    salted,
                    alt_salted,
                    phasing,
                    alt_phasing,
                    ammo_mult: ammo_mult as int,
                    damage_mult: damage_mult as int,
                    ammo: ammo_cur as int,
                    life: life_cur as int,
                    radius: radius_cur as int,
                    speed: speed_cur as int,
                },
            ),
        decreases n - i,
    {
        proof {
            assert(loadout@.skip(i as int).drop_first() =~= loadout@.skip(i as int + 1));
            assert(loadout@.skip(i as int)[0] == loadout@[i as int]);
        }
        let e = loadout[i];
        match e.tech {
            Tech::MachineGun => {
                if e.alt {
                    alt_weapons.push(make_machinegun());
                } else {
                    weapons.push(make_machinegun());
                }
            },
            Tech::AmmoStockpile => {
                ammo_cur = ammo_cur + 1000;
            },
            Tech::HeavyBody => {
                ammo_mult = ammo_mult + 50;
                life_cur = life_cur + 3;
                radius_cur = radius_cur + 5_000;
            },
            Tech::Rocket => {
                if e.alt {
                    alt_weapons.push(make_rocketlauncher());
                } else {
                    weapons.push(make_rocketlauncher());
                }
            },
            Tech::MagicBullet => {
                if e.alt {
                    alt_salted = true;
                } else {
                    salted = true;
                }
            },
            Tech::EngineT1 => {
                let s2 = speed_cur * 2;
                speed_cur = if s2 > SPEED_LIMIT {
                    SPEED_LIMIT
                } else {
                    s2
                };
            },
            Tech::EngineT2 => {
                let s4 = speed_cur * 4;
                speed_cur = if s4 > SPEED_LIMIT {
                    SPEED_LIMIT
                } else {
                    s4
                };
                damage_mult = damage_mult + 50;
            },
            Tech::MachineGunT2 => {
                if e.alt {
                    alt_weapons.push(make_machinegun());
                    alt_weapons.push(make_machinegun());
                } else {
                    weapons.push(make_machinegun());
                    weapons.push(make_machinegun());
                }
            },
            Tech::Phase => {
                if e.alt {
                    alt_phasing = true;
                } else {
                    phasing = true;
                }
            },
            Tech::Other => {},
        }
        i += 1;
    }
    proof {
        assert(loadout@.skip(n as int) =~= Seq::<LoadoutEntry>::empty());
    }
    let ghost acc = total;
    // Apply the collected stats to the player.
    proof {
        assert((ammo_cur as int) * (ammo_mult as int) <= 0xFFFF_FFFF * 1_000_000)
            by (nonlinear_arith)
            requires
                0 <= ammo_cur <= 0xFFFF_FFFF,
                0 <= ammo_mult <= 1_000_000,
        ;
    }
    let ap = (ammo_cur as u64) * (ammo_mult as u64);
    let aq = ap / 100;
    let new_ammo: u32 = if aq > 0xFFFF_FFFF {
        0xFFFF_FFFF
    } else {
        aq as u32
    };
    player.ammo = Ammo(new_ammo);
    player.life = crate::mission::Life(life_cur);
    player.radius = radius_cur;
    player.speed = speed_cur;
    // Finish both groups, primaries first.
    let mut out: Vec<Weapon> = Vec::new();
    let ghost wseq = weapons@;
    let mut k: usize = 0;
    let wn = weapons.len();
    while weapons.len() > 0
        invariant
            wseq == acc.weapons,
            all_weapons_ok(weapons@),
            all_weapons_ok(out@),
            damage_mult <= 1_000_000,
            salted == acc.salted,
            phasing == acc.phasing,
            damage_mult as int == acc.damage_mult,
            wseq.len() <= usize::MAX,
            k + weapons@.len() == wseq.len(),
            weapons@ == wseq.skip(k as int),
            out@.len() == k,
            forall|j: int|
                0 <= j < k ==> out@[j] == finished_weapon(
                    #[trigger] wseq[j],
                    acc.salted,
                    acc.phasing,
                    acc.damage_mult,
                    false,
                ),
        decreases weapons@.len(),
    {
        proof {
            assert(weapons@.drop_first() =~= wseq.skip(k as int + 1));
            assert(weapons@[0] == wseq[k as int]);
        }
        let w = weapons.remove(0);
        out.push(finish_weapon(w, salted, phasing, damage_mult, false));
        k += 1;
    }
    let ghost aseq = acc.alt_weapons;
    let mut k2: usize = 0;
    let alen = alt_weapons.len();
    proof {
        assert(alt_weapons@ == aseq);
        assert(aseq.skip(0) =~= aseq);
        assert(aseq.len() == alen);
    }
    while alt_weapons.len() > 0
        invariant
            wseq == acc.weapons,
            aseq == acc.alt_weapons,
            all_weapons_ok(alt_weapons@),
            all_weapons_ok(out@),
            damage_mult <= 1_000_000,
            alt_salted == acc.alt_salted,
            alt_phasing == acc.alt_phasing,
            damage_mult as int == acc.damage_mult,
            aseq.len() <= usize::MAX,
            wseq.len() <= usize::MAX,
            k2 + alt_weapons@.len() == aseq.len(),
            alt_weapons@ == aseq.skip(k2 as int),
            out@.len() == wseq.len() + k2,
            forall|j: int|
                0 <= j < wseq.len() ==> out@[j] == finished_weapon(
                    #[trigger] wseq[j],
                    acc.salted,
                    acc.phasing,
                    acc.damage_mult,
                    false,
                ),
            forall|j: int|
                0 <= j < k2 ==> out@[wseq.len() + j] == finished_weapon(
                    #[trigger] aseq[j],
                    acc.alt_salted,
                    acc.alt_phasing,
                    acc.damage_mult,
                    true,
                ),
        decreases alt_weapons@.len(),
    {
        proof {
            assert(alt_weapons@.drop_first() =~= aseq.skip(k2 as int + 1));
            assert(alt_weapons@[0] == aseq[k2 as int]);
        }
        let w = alt_weapons.remove(0);
        out.push(finish_weapon(w, alt_salted, alt_phasing, damage_mult, true));
        k2 += 1;
    }
    proof {
        let f1 = |w: Weapon| finished_weapon(w, acc.salted, acc.phasing, acc.damage_mult, false);
        let f2 = |w: Weapon|
            finished_weapon(w, acc.alt_salted, acc.alt_phasing, acc.damage_mult, true);
        assert(out@ =~= acc.weapons.map_values(f1) + acc.alt_weapons.map_values(f2));
    }
    out
}

} // verus!