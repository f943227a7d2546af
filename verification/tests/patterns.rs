use danmaku::angle::{HALF_TURN, QUARTER_TURN};
use danmaku::bullet::{BulletSpawner, NormalBullet, Velocity};
use danmaku::encounter::{spawn_enemy, Encounter, Enemies, TickInput};
use danmaku::enemy::{
    advance_encounter_time, circular_aimed_fire, circular_homing_fire, divisive_fire, flood_fire,
    process_spellcards, spray_fire_tick, tentacle_fire, CircularAimedEmitter,
    CircularHomingEmitter, DivisiveEmitter, EmitterBundle, Emitter, FloodEmitter, Pattern,
    Spellcard, SprayEmitter, TentacleEmitter,
};
use danmaku::geom::Vec2I;
use danmaku::mission::MissionState;
use danmaku::timer::Timer;
use danmaku::weapon::{config_loadout, fire_weapons, make_machinegun, LoadoutEntry, Tech};
use danmaku::mission::Ammo;

fn plain_spawner(speed: i64, angle: i64) -> BulletSpawner {
    BulletSpawner {
        radius: 5_000,
        offset: Vec2I { x: 0, y: 0 },
        normal: Some(NormalBullet {
            velocity: Velocity { speed, angle },
        }),
        rotation: None,
        stutter: None,
        homing: None,
        wave: None,
        delayed: None,
    }
}

#[test]
fn divisive_wall_has_columns_down_and_rows_left() {
    // columns = 3, rows = 2: exactly five bullets — three falling
    // from evenly spaced top-edge positions, two sweeping left from
    // evenly spaced right-edge positions.
    let spawner = plain_spawner(5_000, 0);
    let c = DivisiveEmitter { columns: 3, rows: 2 };
    let bullets = divisive_fire(&spawner, c, 100);
    assert_eq!(bullets.len(), 5);

    let xs: Vec<i64> = bullets[0..3].iter().map(|b| b.pos.x).collect();
    assert_eq!(xs, vec![-480_000, 0, 480_000]);
    for b in &bullets[0..3] {
        assert_eq!(b.pos.y, 600_000);
        // Straight down: a three-quarter turn.
        let v = b.normal.as_ref().unwrap().velocity;
        assert_eq!(v.angle, 3 * QUARTER_TURN);
        assert_eq!(v.speed, 5_000);
    }

    let ys: Vec<i64> = bullets[3..5].iter().map(|b| b.pos.y).collect();
    assert_eq!(ys, vec![-180_000, 180_000]);
    for b in &bullets[3..5] {
        assert_eq!(b.pos.x, 1_000_000);
        // Straight left: a half turn.
        let v = b.normal.as_ref().unwrap().velocity;
        assert_eq!(v.angle, HALF_TURN);
        assert_eq!(v.speed, 5_000);
    }

    // Identities run consecutively from the handed-in base.
    let ids: Vec<u64> = bullets.iter().map(|b| b.id).collect();
    assert_eq!(ids, vec![100, 101, 102, 103, 104]);
}

#[test]
fn ring_burst_turns_each_slot_by_its_share() {
    let spawner = plain_spawner(4_000, 0);
    let c = CircularAimedEmitter { offset: 0, count: 8 };
    let bullets = circular_aimed_fire(&spawner, c, Vec2I { x: 10_000, y: 0 }, 1);
    assert_eq!(bullets.len(), 8);
    for (i, b) in bullets.iter().enumerate() {
        let v = b.normal.as_ref().unwrap().velocity;
        assert_eq!(v.angle, (6144 / 8) * i as i64);
        assert_eq!(v.speed, 4_000);
        assert_eq!(b.pos, Vec2I { x: 10_000, y: 0 });
        assert!(b.player.is_none());
    }
}

#[test]
fn ring_burst_offsets_bullets_around_the_ring() {
    let spawner = plain_spawner(4_000, 0);
    let c = CircularAimedEmitter { offset: 100_000, count: 4 };
    let bullets = circular_aimed_fire(&spawner, c, Vec2I { x: 0, y: 0 }, 1);
    let ps: Vec<Vec2I> = bullets.iter().map(|b| b.pos).collect();
    assert_eq!(
        ps,
        vec![
            Vec2I { x: 100_000, y: 0 },
            Vec2I { x: 0, y: 100_000 },
            Vec2I { x: -100_000, y: 0 },
            Vec2I { x: 0, y: -100_000 },
        ]
    );
}

#[test]
fn tentacle_bullets_carry_the_fused_companion() {
    let spawner = plain_spawner(4_000, 0);
    let c = TentacleEmitter { offset: 100_000, count: 4 };
    let bullets = tentacle_fire(&spawner, c, Vec2I { x: 0, y: 0 }, 1);
    assert_eq!(bullets.len(), 4);
    for b in &bullets {
        let d = b.delayed.as_ref().unwrap();
        assert_eq!(d.delay, 1_000);
        assert!(!d.deployed);
        let h = d.bullet.homing.as_ref().unwrap();
        assert_eq!(h.seeking_time, 2_000);
    }
}

#[test]
fn homing_turret_cycles_four_slots() {
    let spawner = plain_spawner(2_000, 0);
    let mut c = CircularHomingEmitter { offset: 150_000, count: 4, idx: 0 };
    let mut seen = Vec::new();
    for _ in 0..5 {
        let (bullets, c2) = circular_homing_fire(&spawner, c, Vec2I { x: 0, y: 0 }, 1);
        assert_eq!(bullets.len(), 1);
        seen.push(c.idx);
        c = c2;
    }
    assert_eq!(seen, vec![0, 1, 2, 3, 0]);
}

#[test]
fn spray_owes_whole_bullets_and_keeps_the_fraction() {
    // 25 ms at 10 ms per bullet owes 2 whole bullets and keeps half a
    // bullet in the accumulator.
    let spawner = plain_spawner(4_000, 0);
    let c = SprayEmitter { spray_width: 0, firing_time: 1_000, firing_speed: 10, count: 0 };
    let (bullets, c2) = spray_fire_tick(
        &spawner,
        c,
        Vec2I { x: 0, y: 0 },
        Vec2I { x: 100_000, y: 0 },
        25,
        1,
    );
    assert_eq!(bullets.len(), 2);
    assert_eq!(c2.count, 500);
    // With a zero band width the scatter is forced to zero: both
    // bullets aim exactly at the player (who sits straight right).
    for b in &bullets {
        let v = b.normal.as_ref().unwrap().velocity;
        assert_eq!(v.angle, 0);
        assert_eq!(v.speed, 4_000);
    }
}

#[test]
fn spray_scatter_stays_within_the_band() {
    let spawner = plain_spawner(4_000, 0);
    let c = SprayEmitter { spray_width: 200, firing_time: 1_000, firing_speed: 1, count: 0 };
    let (bullets, _) = spray_fire_tick(
        &spawner,
        c,
        Vec2I { x: 0, y: 0 },
        Vec2I { x: 100_000, y: 0 },
        50,
        1,
    );
    assert_eq!(bullets.len(), 50);
    for b in &bullets {
        let a = b.normal.as_ref().unwrap().velocity.angle;
        // Within 100 units of the aim (which is zero), on either side.
        assert!(a <= 100 || a >= 6144 - 100);
    }
}

#[test]
fn flood_bullets_rain_in_from_the_right_edge() {
    let spawner = plain_spawner(5_000, HALF_TURN);
    let c = FloodEmitter { spray: 384 };
    for _ in 0..20 {
        let bullets = flood_fire(&spawner, c, 9);
        assert_eq!(bullets.len(), 1);
        let b = &bullets[0];
        assert_eq!(b.pos.x, 920_000);
        assert!(-540_000 <= b.pos.y && b.pos.y <= 540_000);
        let a = b.normal.as_ref().unwrap().velocity.angle;
        assert!(HALF_TURN - 192 <= a && a <= HALF_TURN + 192);
    }
}

#[test]
fn spellcard_windows_gate_the_emitters() {
    // Two overlapping windows over two emitters: both active only in
    // the overlap; outside every window an emitter stays inactive.
    let mk_emitter = || EmitterBundle {
        owner: 1,
        emitter: Emitter::new_millis(100),
        spawner: plain_spawner(4_000, 0),
        active: false,
        pattern: Pattern::CircularAimed(CircularAimedEmitter { offset: 0, count: 8 }),
    };
    let cards = vec![
        Spellcard { start_time: 0, end_time: 10_000, emitters: vec![0] },
        Spellcard { start_time: 5_000, end_time: 20_000, emitters: vec![1] },
    ];
    let mut emitters = vec![mk_emitter(), mk_emitter()];

    process_spellcards(&cards, &mut emitters, 3_000);
    assert!(emitters[0].active && !emitters[1].active);

    process_spellcards(&cards, &mut emitters, 7_000);
    assert!(emitters[0].active && emitters[1].active);

    process_spellcards(&cards, &mut emitters, 12_000);
    assert!(!emitters[0].active && emitters[1].active);

    process_spellcards(&cards, &mut emitters, 20_000);
    assert!(!emitters[0].active && !emitters[1].active);
}

#[test]
fn encounter_clock_resets_only_after_the_last_window() {
    // Windows ending at 10 and 20 seconds: a clock past 10 but not
    // past 20 keeps counting; only past 20 does it loop to zero.
    let cards = vec![
        Spellcard { start_time: 0, end_time: 10_000, emitters: vec![0] },
        Spellcard { start_time: 5_000, end_time: 20_000, emitters: vec![1] },
    ];
    let mut clock: u64 = 14_000;
    advance_encounter_time(&mut clock, &cards, 1_000);
    assert_eq!(clock, 15_000);
    let mut clock: u64 = 19_500;
    advance_encounter_time(&mut clock, &cards, 500);
    // Exactly at the last end time: not yet beyond it, no reset.
    assert_eq!(clock, 20_000);
    let mut clock: u64 = 20_000;
    advance_encounter_time(&mut clock, &cards, 1);
    assert_eq!(clock, 0);
}

#[test]
fn deactivation_keeps_the_timer_counting_state() {
    // An emitter deactivated mid-cycle keeps its accumulated timer, so
    // reactivation can fire immediately once the period has elapsed.
    let cards = vec![Spellcard { start_time: 0, end_time: 1_000, emitters: vec![0] }];
    let mut emitters = vec![EmitterBundle {
        owner: 1,
        emitter: Emitter {
            timer: Timer { duration: 100, elapsed: 60, just_finished: false },
        },
        spawner: plain_spawner(4_000, 0),
        active: true,
        pattern: Pattern::CircularAimed(CircularAimedEmitter { offset: 0, count: 8 }),
    }];
    process_spellcards(&cards, &mut emitters, 5_000);
    assert!(!emitters[0].active);
    assert_eq!(emitters[0].emitter.timer.elapsed, 60);
}

#[test]
fn machinegun_fires_once_per_period_and_spends_ammo() {
    let mut weapons = vec![make_machinegun()];
    let mut ammo = Ammo(10);
    let mut next_id: u64 = 1;
    let shots = fire_weapons(
        &mut weapons,
        &mut ammo,
        Vec2I { x: -640_000, y: 0 },
        false,
        50,
        &mut next_id,
    );
    assert_eq!(shots.len(), 1);
    assert_eq!(ammo.0, 9);
    assert_eq!(next_id, 2);
    let b = &shots[0];
    assert_eq!(b.player.as_ref().unwrap().damage, 2);
    assert!(b.salted);
    // A single muzzle sits exactly at the player.
    assert_eq!(b.pos, Vec2I { x: -640_000, y: 0 });
    // The timer starts its cycle over.
    assert_eq!(weapons[0].timer.elapsed, 0);
}

#[test]
fn weapons_hold_fire_without_ammo() {
    let mut weapons = vec![make_machinegun()];
    let mut ammo = Ammo(0);
    let mut next_id: u64 = 1;
    let shots = fire_weapons(
        &mut weapons,
        &mut ammo,
        Vec2I { x: 0, y: 0 },
        false,
        50,
        &mut next_id,
    );
    assert_eq!(shots.len(), 0);
    assert_eq!(ammo.0, 0);
}

#[test]
fn alternate_fire_only_triggers_the_alternate_group() {
    let mut primary = make_machinegun();
    primary.alt = false;
    let mut alt = make_machinegun();
    alt.alt = true;
    alt.damage = 9;
    let mut weapons = vec![primary, alt];
    let mut ammo = Ammo(100);
    let mut next_id: u64 = 1;
    let shots = fire_weapons(
        &mut weapons,
        &mut ammo,
        Vec2I { x: 0, y: 0 },
        true,
        50,
        &mut next_id,
    );
    assert_eq!(shots.len(), 1);
    assert_eq!(shots[0].player.as_ref().unwrap().damage, 9);
    // The primary weapon's timer did not advance.
    assert_eq!(weapons[0].timer.elapsed, 0);
    assert_eq!(weapons[1].timer.elapsed, 0);
}

#[test]
fn loadout_builds_weapons_and_applies_multipliers() {
    let mut player = danmaku::mission::spawn_player();
    let loadout = vec![
        LoadoutEntry { tech: Tech::MachineGun, alt: false },
        LoadoutEntry { tech: Tech::MagicBullet, alt: false },
        LoadoutEntry { tech: Tech::HeavyBody, alt: false },
        LoadoutEntry { tech: Tech::EngineT2, alt: false },
    ];
    let weapons = config_loadout(&mut player, &loadout);
    assert_eq!(weapons.len(), 1);
    assert!(weapons[0].salted);
    assert!(!weapons[0].alt);
    // Damage 2 at a 150 percent multiplier truncates to 3.
    assert_eq!(weapons[0].damage, 3);
    // Ammunition 1000 at a 150 percent multiplier.
    assert_eq!(player.ammo.0, 1500);
    assert_eq!(player.life.0, 6);
    assert_eq!(player.radius, 12_500);
    // Speed quadrupled by the second-tier engine.
    assert_eq!(player.speed, 26_000);
}

#[test]
fn encounter_runs_a_boss_opening() {
    let mut enc = Encounter::new();
    spawn_enemy(&mut enc, Enemies::RedGirl);
    assert_eq!(enc.enemies.len(), 1);
    assert_eq!(enc.enemies[0].health.0, 2000);
    assert_eq!(enc.emitters.len(), 5);
    assert_eq!(enc.spellcards.len(), 3);
    let input = TickInput { dx: 0, dy: 0, fire: false, alt_fire: false };
    for _ in 0..8 {
        enc.tick(input, 16);
    }
    assert!(matches!(enc.mission, MissionState::Ongoing));
    // The first spellcard window is open: its two emitters are active,
    // the third window's emitter is not.
    assert!(enc.emitters[0].active);
    assert!(enc.emitters[1].active);
    assert!(!enc.emitters[4].active);
    // The ring emitter (50 ms period) has fired by now: eight-bullet
    // bursts are in flight.
    assert!(enc.bullets.len() >= 8);
    assert_eq!(enc.clock, 128);
}

#[test]
fn a_tick_resolves_a_player_hit_and_grants_invulnerability() {
    let mut enc = Encounter::new();
    // A living boss far away keeps the mission running.
    enc.enemies.push(danmaku::enemy::Enemy {
        id: 1,
        pos: Vec2I { x: 800_000, y: 0 },
        radius: 10_000,
        health: danmaku::enemy::Health(100),
    });
    // An enemy bullet sitting right on the player.
    enc.bullets.push(danmaku::bullet::Bullet {
        id: 999,
        pos: enc.player.pos,
        radius: 5_000,
        age: 0,
        player: None,
        salted: false,
        phasing: false,
        normal: None,
        rotating: None,
        homing: None,
        stutter: None,
        wave: None,
        delayed: None,
    });
    let input = TickInput { dx: 0, dy: 0, fire: false, alt_fire: false };
    enc.tick(input, 16);
    assert_eq!(enc.player.life.0, 2);
    assert_eq!(enc.player.invuln, Some(3_000));
    assert!(matches!(enc.mission, MissionState::Ongoing));
    // The window shields the very next hit.
    enc.bullets.push(danmaku::bullet::Bullet {
        id: 1000,
        pos: enc.player.pos,
        radius: 5_000,
        age: 0,
        player: None,
        salted: false,
        phasing: false,
        normal: None,
        rotating: None,
        homing: None,
        stutter: None,
        wave: None,
        delayed: None,
    });
    enc.tick(input, 16);
    assert_eq!(enc.player.life.0, 2);
}

#[test]
fn losing_the_last_life_fails_the_mission() {
    let mut enc = Encounter::new();
    enc.player.life = danmaku::mission::Life(1);
    enc.bullets.push(danmaku::bullet::Bullet {
        id: 999,
        pos: enc.player.pos,
        radius: 5_000,
        age: 0,
        player: None,
        salted: false,
        phasing: false,
        normal: None,
        rotating: None,
        homing: None,
        stutter: None,
        wave: None,
        delayed: None,
    });
    let input = TickInput { dx: 0, dy: 0, fire: false, alt_fire: false };
    enc.tick(input, 16);
    assert_eq!(enc.player.life.0, 0);
    assert!(matches!(enc.mission, MissionState::Fail));
    // A decided mission never moves again.
    let bullets_before = enc.bullets.len();
    enc.tick(input, 16);
    assert!(matches!(enc.mission, MissionState::Fail));
    assert_eq!(enc.bullets.len(), bullets_before);
}

#[test]
fn an_empty_field_is_a_success() {
    let mut enc = Encounter::new();
    let input = TickInput { dx: 0, dy: 0, fire: false, alt_fire: false };
    enc.tick(input, 16);
    assert!(matches!(enc.mission, MissionState::Success));
}

#[test]
fn loadout_routes_alternate_entries_to_the_alternate_group() {
    let mut player = danmaku::mission::spawn_player();
    let loadout = vec![
        LoadoutEntry { tech: Tech::MachineGunT2, alt: false },
        LoadoutEntry { tech: Tech::Rocket, alt: true },
        LoadoutEntry { tech: Tech::MagicBullet, alt: true },
    ];
    let weapons = config_loadout(&mut player, &loadout);
    assert_eq!(weapons.len(), 3);
    assert!(!weapons[0].alt && !weapons[1].alt);
    assert!(weapons[2].alt);
    // The alternate group carries the alternate tags: the rocket is
    // salted, the primaries are not (no primary MagicBullet).
    assert!(weapons[2].salted);
    assert!(!weapons[0].salted);
    assert_eq!(weapons[2].ammo_cost, 100);
}

#[test]
fn boss_drift_eases_between_its_resting_points() {
    // Halfway through a move the half-cosine ease sits exactly in the
    // middle; at the end it has arrived.
    let mut m = danmaku::enemy::RandomMovement {
        next_move_timer: Timer { duration: 1_000_000, elapsed: 0, just_finished: false },
        move_start: Vec2I { x: 0, y: 0 },
        move_end: Vec2I { x: 100_000, y: 0 },
        move_time: 3_000,
        time_since_last_move: 0,
    };
    let mut pos = Vec2I { x: 0, y: 0 };
    danmaku::enemy::do_random_movement(&mut m, &mut pos, 1_500);
    assert_eq!(pos, Vec2I { x: 50_000, y: 0 });
    danmaku::enemy::do_random_movement(&mut m, &mut pos, 1_500);
    assert_eq!(pos, Vec2I { x: 100_000, y: 0 });
    // Past the move's end the position is left alone.
    danmaku::enemy::do_random_movement(&mut m, &mut pos, 1_500);
    assert_eq!(pos, Vec2I { x: 100_000, y: 0 });
}

#[test]
fn boss_drift_draws_a_new_target_when_the_pause_elapses() {
    let mut m = danmaku::enemy::RandomMovement {
        next_move_timer: Timer { duration: 100, elapsed: 0, just_finished: false },
        move_start: Vec2I { x: 0, y: 0 },
        move_end: Vec2I { x: 100_000, y: 0 },
        move_time: 3_000,
        time_since_last_move: 0,
    };
    let mut pos = Vec2I { x: 0, y: 0 };
    danmaku::enemy::do_random_movement(&mut m, &mut pos, 200);
    // The next move starts where the last one pointed, toward a fresh
    // target on the boss's side of the field, after a longer pause.
    assert_eq!(m.move_start, Vec2I { x: 100_000, y: 0 });
    assert_eq!(m.time_since_last_move, 0);
    assert!(200_000 <= m.move_end.x && m.move_end.x <= 900_000);
    assert!(-500_000 <= m.move_end.y && m.move_end.y <= 500_000);
    assert!(3_500 <= m.next_move_timer.duration && m.next_move_timer.duration <= 13_000);
}
