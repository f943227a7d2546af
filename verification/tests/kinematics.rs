use danmaku::angle::{cos_fp, dir_angle, sin_fp, HALF_TURN, QUARTER_TURN, TURN};
use danmaku::bullet::{
    move_homing_bullets, move_normal_bullets, move_rotating_bullets, move_stutter_bullets,
    move_wave_bullets, resolve_delayed_bullets, tick_bullets, Bullet, BulletSpawner, DelayedBullet,
    HomingBullet, NormalBullet, RotatingBullet, StutterBullet, Target, Velocity, WaveBullet,
};
use danmaku::fixed::isqrt;
use danmaku::geom::Vec2I;

fn bare_bullet(id: u64, x: i64, y: i64) -> Bullet {
    Bullet {
        id,
        pos: Vec2I { x, y },
        radius: 5_000,
        age: 0,
        player: None,
        salted: false,
        phasing: false,
        normal: None,
        rotating: None,
        homing: None,
        stutter: None,
        wave: None,
        delayed: None,
    }
}

#[test]
fn trig_hits_the_compass_points() {
    assert_eq!(sin_fp(0), 0);
    assert_eq!(sin_fp(QUARTER_TURN), 1000);
    assert_eq!(sin_fp(HALF_TURN), 0);
    assert_eq!(sin_fp(3 * QUARTER_TURN), -1000);
    assert_eq!(cos_fp(0), 1000);
    assert_eq!(cos_fp(QUARTER_TURN), 0);
    assert_eq!(cos_fp(HALF_TURN), -1000);
}

#[test]
fn direction_angle_is_exact_on_the_axes_and_diagonal() {
    assert_eq!(dir_angle(1, 0), 0);
    assert_eq!(dir_angle(0, 1), QUARTER_TURN);
    assert_eq!(dir_angle(-1, 0), HALF_TURN);
    assert_eq!(dir_angle(0, -1), 3 * QUARTER_TURN);
    assert_eq!(dir_angle(1, 1), QUARTER_TURN / 2);
    assert_eq!(dir_angle(0, 0), 0);
}

#[test]
fn integer_square_root_brackets() {
    assert_eq!(isqrt(0), 0);
    assert_eq!(isqrt(10), 3);
    assert_eq!(isqrt(16), 4);
    assert_eq!(isqrt(24), 4);
    assert_eq!(isqrt(25), 5);
}

#[test]
fn normal_bullet_walks_n_velocity_steps() {
    // Straight motion: after three ticks the bullet stands exactly
    // three velocity steps from where it started.
    let mut bullets = vec![bare_bullet(1, 0, 0)];
    bullets[0].normal = Some(NormalBullet {
        velocity: Velocity { speed: 4_000, angle: 0 },
    });
    for _ in 0..3 {
        move_normal_bullets(&mut bullets);
    }
    assert_eq!(bullets[0].pos, Vec2I { x: 12_000, y: 0 });
    // The velocity itself never changed.
    assert_eq!(
        bullets[0].normal.as_ref().unwrap().velocity,
        Velocity { speed: 4_000, angle: 0 }
    );
}

#[test]
fn rotating_only_bullet_keeps_its_radius() {
    // Pure rotation: the polar radius that dictates the position never
    // drifts, however many ticks pass.
    let mut bullets = vec![bare_bullet(1, 100_000, 0)];
    bullets[0].rotating = Some(RotatingBullet {
        origin: Vec2I { x: 0, y: 0 },
        rotation_speed: 96,
        radius: 100_000,
        angle: 0,
    });
    for _ in 0..40 {
        move_rotating_bullets(&mut bullets);
    }
    let r = bullets[0].rotating.as_ref().unwrap();
    assert_eq!(r.radius, 100_000);
    assert_eq!(r.angle, 40 * 96 % TURN);
    assert_eq!(r.origin, Vec2I { x: 0, y: 0 });
}

#[test]
fn rotating_only_bullet_position_follows_the_polar_offset() {
    let mut bullets = vec![bare_bullet(1, 100_000, 0)];
    bullets[0].rotating = Some(RotatingBullet {
        origin: Vec2I { x: 0, y: 0 },
        rotation_speed: 96,
        radius: 100_000,
        angle: 0,
    });
    move_rotating_bullets(&mut bullets);
    move_rotating_bullets(&mut bullets);
    // angle 192: the engine's cosine gives 984, its sine 234.
    assert_eq!(bullets[0].pos, Vec2I { x: 98_400, y: 23_400 });
}

#[test]
fn rotating_with_normal_turns_the_velocity_too() {
    let mut bullets = vec![bare_bullet(1, 50_000, 0)];
    bullets[0].normal = Some(NormalBullet {
        velocity: Velocity { speed: 2_000, angle: 100 },
    });
    bullets[0].rotating = Some(RotatingBullet {
        origin: Vec2I { x: 0, y: 0 },
        rotation_speed: 7,
        radius: 0,
        angle: 0,
    });
    move_rotating_bullets(&mut bullets);
    let v = bullets[0].normal.as_ref().unwrap().velocity;
    assert_eq!(v.angle, 107);
    assert_eq!(v.speed, 2_000);
}

#[test]
fn homing_bullet_steers_without_changing_speed() {
    // Guidance: the direction creeps toward the target, the speed
    // stays put, tick after tick.
    let mut bullets = vec![bare_bullet(1, 0, 0)];
    bullets[0].normal = Some(NormalBullet {
        velocity: Velocity { speed: 5_000, angle: 0 },
    });
    bullets[0].homing = Some(HomingBullet {
        rotation_speed: 10,
        seeking_time: 10_000,
        target: Target::Player,
    });
    let player = Some(Vec2I { x: 0, y: 100_000 });
    for k in 1..=5u32 {
        move_homing_bullets(&mut bullets, player, None);
        let v = bullets[0].normal.as_ref().unwrap().velocity;
        assert_eq!(v.speed, 5_000);
        assert_eq!(v.angle, (10 * k) as i64);
    }
}

#[test]
fn homing_bullet_without_target_flies_straight() {
    let mut bullets = vec![bare_bullet(1, 0, 0)];
    bullets[0].normal = Some(NormalBullet {
        velocity: Velocity { speed: 5_000, angle: 123 },
    });
    bullets[0].homing = Some(HomingBullet {
        rotation_speed: 10,
        seeking_time: 10_000,
        target: Target::Enemy,
    });
    move_homing_bullets(&mut bullets, Some(Vec2I { x: 0, y: 0 }), None);
    assert_eq!(bullets[0].normal.as_ref().unwrap().velocity.angle, 123);
}

#[test]
fn wave_factor_runs_from_zero_to_double_and_never_reverses() {
    // At phase zero the factor is 1; at the crest 2; in the trough 0.
    // The direction angle never moves.
    let mk = |age: u64| {
        let mut b = bare_bullet(1, 0, 0);
        b.age = age;
        b.normal = Some(NormalBullet {
            velocity: Velocity { speed: 0, angle: 0 },
        });
        b.wave = Some(WaveBullet {
            true_velocity: Velocity { speed: 3_000, angle: 0 },
            sine_mod: 1536,
        });
        b
    };
    // phase = age * 1536 / 1000 mod 6144
    let mut bullets = vec![mk(0)];
    move_wave_bullets(&mut bullets);
    assert_eq!(bullets[0].normal.as_ref().unwrap().velocity.speed, 3_000);

    let mut bullets = vec![mk(1_000)]; // phase 1536: crest
    move_wave_bullets(&mut bullets);
    let v = bullets[0].normal.as_ref().unwrap().velocity;
    assert_eq!(v.speed, 6_000);
    assert_eq!(v.angle, 0);

    let mut bullets = vec![mk(3_000)]; // phase 4608: trough
    move_wave_bullets(&mut bullets);
    let v = bullets[0].normal.as_ref().unwrap().velocity;
    assert_eq!(v.speed, 0);
    assert_eq!(v.angle, 0);
}

#[test]
fn stutter_bullet_holds_then_launches_once() {
    let mut bullets = vec![bare_bullet(1, 0, 0)];
    bullets[0].normal = Some(NormalBullet {
        velocity: Velocity { speed: 9_999, angle: 55 },
    });
    bullets[0].stutter = Some(StutterBullet {
        wait_time: 100,
        initial_velocity: Velocity { speed: 4_000, angle: 0 },
        has_started: false,
    });
    // Young: held at zero speed.
    move_stutter_bullets(&mut bullets);
    assert_eq!(bullets[0].normal.as_ref().unwrap().velocity.speed, 0);
    // Old enough: launched exactly once.
    bullets[0].age = 150;
    move_stutter_bullets(&mut bullets);
    assert_eq!(
        bullets[0].normal.as_ref().unwrap().velocity,
        Velocity { speed: 4_000, angle: 0 }
    );
    assert!(bullets[0].stutter.as_ref().unwrap().has_started);
    // The launch is one-shot: later passes leave the velocity alone.
    bullets[0].normal = Some(NormalBullet {
        velocity: Velocity { speed: 777, angle: 1 },
    });
    move_stutter_bullets(&mut bullets);
    assert_eq!(
        bullets[0].normal.as_ref().unwrap().velocity,
        Velocity { speed: 777, angle: 1 }
    );
}

#[test]
fn delayed_bullet_arms_once_when_the_fuse_elapses() {
    let mut bullets = vec![bare_bullet(1, 0, 0)];
    bullets[0].normal = Some(NormalBullet {
        velocity: Velocity { speed: 1_000, angle: 0 },
    });
    bullets[0].delayed = Some(DelayedBullet {
        bullet: Box::new(BulletSpawner {
            radius: 5_000,
            offset: Vec2I { x: 0, y: 0 },
            normal: None,
            rotation: None,
            stutter: None,
            homing: Some(HomingBullet {
                rotation_speed: 96,
                seeking_time: 2_000,
                target: Target::Player,
            }),
            wave: None,
            delayed: None,
        }),
        delay: 100,
        deployed: false,
    });
    // Fuse not elapsed: nothing happens.
    resolve_delayed_bullets(&mut bullets);
    assert!(bullets[0].homing.is_none());
    assert!(!bullets[0].delayed.as_ref().unwrap().deployed);
    // Fuse elapsed: the homing law is attached, the fuse marked spent.
    bullets[0].age = 150;
    resolve_delayed_bullets(&mut bullets);
    assert!(bullets[0].homing.is_some());
    assert!(bullets[0].delayed.as_ref().unwrap().deployed);
    // The existing straight-line velocity survived (the spawner had none).
    assert_eq!(bullets[0].normal.as_ref().unwrap().velocity.speed, 1_000);
    // One-shot: removing the homing law and running again changes nothing.
    bullets[0].homing = None;
    resolve_delayed_bullets(&mut bullets);
    assert!(bullets[0].homing.is_none());
}

#[test]
fn age_clock_accumulates() {
    let mut bullets = vec![bare_bullet(1, 0, 0)];
    tick_bullets(&mut bullets, 16);
    tick_bullets(&mut bullets, 16);
    assert_eq!(bullets[0].age, 32);
}

#[test]
fn spawner_builders_compose_the_laws() {
    let s = BulletSpawner::new(5_000, Vec2I { x: 0, y: 0 })
        .normal(Velocity { speed: 4_000, angle: 0 })
        .stutter(1_000, Velocity { speed: 4_000, angle: 0 }, false)
        .homing(3_000, 32, Target::Player);
    assert_eq!(s.radius, 5_000);
    assert!(s.normal.is_some());
    assert!(s.stutter.is_some());
    assert!(s.homing.is_some());
    assert!(s.wave.is_none());
    let copy = s.duplicate();
    assert_eq!(copy.homing.as_ref().unwrap().seeking_time, 3_000);
}
