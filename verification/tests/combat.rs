use danmaku::bullet::{despawn_bullets, Bullet, NormalBullet, PlayerBullet, Velocity};
use danmaku::enemy::{enemy_dead, last_enemy_dead, Enemy, Health};
use danmaku::geom::{create_gameplay_rect, Circle, Vec2I};
use danmaku::hits::{
    bullet_bullet_hit, check_bullet_bullet, check_enemy_bullets, check_player_bullets,
    process_enemy_hits, process_player_hits, PlayerHit,
};
use danmaku::mission::{update_invulnerability, Life};

fn bullet_at(id: u64, x: i64, y: i64, player: Option<u32>) -> Bullet {
    Bullet {
        id,
        pos: Vec2I { x, y },
        radius: 5_000,
        age: 0,
        player: player.map(|damage| PlayerBullet { damage }),
        salted: false,
        phasing: false,
        normal: Some(NormalBullet {
            velocity: Velocity { speed: 1_000, angle: 0 },
        }),
        rotating: None,
        homing: None,
        stutter: None,
        wave: None,
        delayed: None,
    }
}

#[test]
fn circles_hit_exactly_when_closer_than_the_radius_sum() {
    let a = Circle { pos: Vec2I { x: 0, y: 0 }, radius: 3_000 };
    let b = Circle { pos: Vec2I { x: 5_000, y: 0 }, radius: 3_000 };
    assert!(a.hits(b));
    let c = Circle { pos: Vec2I { x: 0, y: 0 }, radius: 2_000 };
    let d = Circle { pos: Vec2I { x: 5_000, y: 0 }, radius: 2_000 };
    assert!(!c.hits(d));
    // Exactly touching counts as a miss: the distance must be less.
    let e = Circle { pos: Vec2I { x: 0, y: 0 }, radius: 2_500 };
    let f = Circle { pos: Vec2I { x: 5_000, y: 0 }, radius: 2_500 };
    assert!(!e.hits(f));
}

#[test]
fn gameplay_rect_is_the_screen() {
    let r = create_gameplay_rect();
    assert_eq!(r.min, Vec2I { x: -960_000, y: -540_000 });
    assert_eq!(r.max, Vec2I { x: 960_000, y: 540_000 });
}

#[test]
fn cull_removes_only_faraway_enemy_bullets() {
    let mut bullets = vec![
        bullet_at(1, 2_000_000, 0, None),
        bullet_at(2, 2_000_000, 0, Some(5)),
        bullet_at(3, 0, 0, None),
    ];
    despawn_bullets(&mut bullets);
    let ids: Vec<u64> = bullets.iter().map(|b| b.id).collect();
    assert_eq!(ids, vec![2, 3]);
}

#[test]
fn detection_pairs_player_bullets_with_enemy_bullets() {
    let mut pb = bullet_at(1, 0, 0, Some(5));
    pb.salted = true;
    let eb = bullet_at(2, 1_000, 0, None);
    let far = bullet_at(3, 500_000, 0, None);
    let bullets = vec![pb, eb, far];
    let hits = check_bullet_bullet(&bullets);
    assert_eq!(hits.len(), 1);
    assert_eq!(hits[0].player, 1);
    assert_eq!(hits[0].enemy, 2);
}

#[test]
fn phasing_player_bullets_skip_bullet_detection() {
    let mut pb = bullet_at(1, 0, 0, Some(5));
    pb.phasing = true;
    let eb = bullet_at(2, 1_000, 0, None);
    let bullets = vec![pb, eb];
    assert_eq!(check_bullet_bullet(&bullets).len(), 0);
}

#[test]
fn salted_interception_spares_the_player_a_life() {
    // One salted player bullet intercepts an enemy bullet that also
    // registered a player hit this tick: both bullets are removed and
    // no life is lost.
    let mut pb = bullet_at(1, 0, 0, Some(5));
    pb.salted = true;
    let eb = bullet_at(2, 1_000, 0, None);
    let mut bullets = vec![pb, eb];
    let player_circle = Circle { pos: Vec2I { x: 1_000, y: 0 }, radius: 7_500 };
    let player_hits = check_enemy_bullets(&bullets, player_circle);
    assert_eq!(player_hits.len(), 1);
    assert_eq!(player_hits[0].0, 2);
    let bullet_hits = check_bullet_bullet(&bullets);
    let salted_ids = vec![1u64];
    bullet_bullet_hit(&mut bullets, &bullet_hits);
    assert_eq!(bullets.len(), 0);
    let mut life = Life(3);
    process_player_hits(&mut bullets, &player_hits, &bullet_hits, &salted_ids, &mut life, false);
    assert_eq!(life.0, 3);
}

#[test]
fn unsalted_interception_still_costs_the_life() {
    // The same collision without the salted tag: the player bullet is
    // spent, the enemy bullet survives the first stage, and the player
    // hit goes through.
    let pb = bullet_at(1, 0, 0, Some(5));
    let eb = bullet_at(2, 1_000, 0, None);
    let mut bullets = vec![pb, eb];
    let player_circle = Circle { pos: Vec2I { x: 1_000, y: 0 }, radius: 7_500 };
    let player_hits = check_enemy_bullets(&bullets, player_circle);
    let bullet_hits = check_bullet_bullet(&bullets);
    let salted_ids: Vec<u64> = Vec::new();
    bullet_bullet_hit(&mut bullets, &bullet_hits);
    assert_eq!(bullets.len(), 1);
    assert_eq!(bullets[0].id, 2);
    let mut life = Life(3);
    process_player_hits(&mut bullets, &player_hits, &bullet_hits, &salted_ids, &mut life, false);
    assert_eq!(life.0, 2);
    assert_eq!(bullets.len(), 0);
}

#[test]
fn at_most_one_life_per_tick() {
    // Three simultaneous unrelated player hits cost exactly one life.
    let mut bullets = vec![
        bullet_at(1, 0, 0, None),
        bullet_at(2, 1_000, 0, None),
        bullet_at(3, 2_000, 0, None),
    ];
    let hits = vec![PlayerHit(1), PlayerHit(2), PlayerHit(3)];
    let mut life = Life(3);
    process_player_hits(&mut bullets, &hits, &Vec::new(), &Vec::new(), &mut life, false);
    assert_eq!(life.0, 2);
    assert_eq!(bullets.len(), 0);
}

#[test]
fn invulnerability_blocks_the_life_loss() {
    let mut bullets = vec![bullet_at(1, 0, 0, None)];
    let hits = vec![PlayerHit(1)];
    let mut life = Life(3);
    process_player_hits(&mut bullets, &hits, &Vec::new(), &Vec::new(), &mut life, true);
    assert_eq!(life.0, 3);
    // The bullet is still spent.
    assert_eq!(bullets.len(), 0);
}

#[test]
fn stale_player_hit_events_are_dropped() {
    let mut bullets = vec![bullet_at(1, 0, 0, None)];
    let hits = vec![PlayerHit(42)];
    let mut life = Life(3);
    process_player_hits(&mut bullets, &hits, &Vec::new(), &Vec::new(), &mut life, false);
    assert_eq!(life.0, 3);
    assert_eq!(bullets.len(), 1);
}

#[test]
fn enemy_hit_damage_is_doubled_unless_phasing() {
    // A non-phasing bullet with damage 10 takes 20 hit points; a
    // phasing one takes exactly 10.
    let enemy = Enemy {
        id: 7,
        pos: Vec2I { x: 0, y: 0 },
        radius: 150_000,
        health: Health(100),
    };

    let pb = bullet_at(1, 0, 0, Some(10));
    let mut bullets = vec![pb];
    let mut enemies = vec![enemy];
    let hits = check_player_bullets(&bullets, &enemies);
    assert_eq!(hits.len(), 1);
    process_enemy_hits(&mut bullets, &mut enemies, &hits);
    assert_eq!(enemies[0].health.0, 80);
    assert_eq!(bullets.len(), 0);

    let mut phasing_bullet = bullet_at(2, 0, 0, Some(10));
    phasing_bullet.phasing = true;
    let mut bullets = vec![phasing_bullet];
    let hits = check_player_bullets(&bullets, &enemies);
    process_enemy_hits(&mut bullets, &mut enemies, &hits);
    assert_eq!(enemies[0].health.0, 70);
    assert_eq!(bullets.len(), 0);
}

#[test]
fn enemy_health_never_goes_below_zero() {
    let enemy = Enemy {
        id: 7,
        pos: Vec2I { x: 0, y: 0 },
        radius: 150_000,
        health: Health(5),
    };
    let mut bullets = vec![bullet_at(1, 0, 0, Some(10))];
    let mut enemies = vec![enemy];
    let hits = check_player_bullets(&bullets, &enemies);
    process_enemy_hits(&mut bullets, &mut enemies, &hits);
    assert_eq!(enemies[0].health.0, 0);
}

#[test]
fn death_sweep_and_success_signal() {
    let mut enemies = vec![
        Enemy { id: 1, pos: Vec2I { x: 0, y: 0 }, radius: 1_000, health: Health(0) },
        Enemy { id: 2, pos: Vec2I { x: 0, y: 0 }, radius: 1_000, health: Health(9) },
    ];
    enemy_dead(&mut enemies);
    assert_eq!(enemies.len(), 1);
    assert_eq!(enemies[0].id, 2);
    assert!(!last_enemy_dead(&enemies));
    enemies.clear();
    assert!(last_enemy_dead(&enemies));
}

#[test]
fn invulnerability_window_runs_down_and_expires() {
    let mut invuln = Some(100u64);
    update_invulnerability(&mut invuln, 40);
    assert_eq!(invuln, Some(60));
    update_invulnerability(&mut invuln, 60);
    assert_eq!(invuln, None);
    update_invulnerability(&mut invuln, 10);
    assert_eq!(invuln, None);
}

#[test]
fn polar_form_of_a_pythagorean_offset() {
    let (len, ang) = danmaku::geom::to_polar(Vec2I { x: 3_000, y: 4_000 });
    assert_eq!(len, 5_000);
    // The diamond direction of (3, 4): a quarter turn scaled by 4/7.
    assert_eq!(ang, 1536 * 4_000 / 7_000);
}

#[test]
fn player_death_is_reported_only_at_zero_lives() {
    assert!(danmaku::mission::player_dead(Some(&Life(0))));
    assert!(!danmaku::mission::player_dead(Some(&Life(1))));
    assert!(!danmaku::mission::player_dead(None));
}

#[test]
fn movement_clamps_the_collider_inside_the_field() {
    let mut p = danmaku::mission::spawn_player();
    p.pos = Vec2I { x: 959_000, y: 0 };
    danmaku::mission::do_movement(&mut p, 1, 0, create_gameplay_rect());
    assert_eq!(p.pos.x, 960_000 - p.radius);
    assert_eq!(p.pos.y, 0);
}

#[test]
fn movement_halves_speed_under_alternate_fire() {
    let mut p = danmaku::mission::spawn_player();
    p.pos = Vec2I { x: 0, y: 0 };
    p.alt_fire = true;
    danmaku::mission::do_movement(&mut p, 1, 0, create_gameplay_rect());
    assert_eq!(p.pos, Vec2I { x: 3_250, y: 0 });
}

#[test]
fn repeating_timer_wraps_its_overshoot() {
    let mut t = danmaku::timer::Timer::new(100);
    t.tick(250);
    assert!(t.finished());
    assert_eq!(t.elapsed, 50);
    t.tick(30);
    assert!(!t.finished());
    assert_eq!(t.elapsed, 80);
    t.reset();
    assert_eq!(t.elapsed, 0);
}
