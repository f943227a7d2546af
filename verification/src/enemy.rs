//! Enemies: the boss entities that bullets are fired by and at.

use crate::angle::{add_angle, add_angle_spec, angle_ok, slot_angle, slot_spec, HALF_TURN,
    QUARTER_TURN, TURN};
use crate::bullet::{all_ok, spawner_ok, Bullet, BulletSpawner, DelayedBullet, HomingBullet,
    NormalBullet, RotatingBullet, Target, Velocity, WaveBullet, RADIUS_LIMIT};
use crate::fixed::POS_LIMIT;
use crate::geom::{clamp_translate_spec, polar_vec, pos_ok, Circle, Vec2I};
use crate::timer::{timer_ok, timer_tick_spec, Timer};
use vstd::prelude::*;

verus! {

/// Hit points of an enemy.
#[derive(Clone, Copy, Debug, PartialEq, Eq, Structural)]
pub struct Health(pub u32);

/// A living enemy: identity, collider, hit points.
#[derive(Clone, Copy, Debug, PartialEq, Eq, Structural)]
pub struct Enemy {
    /// Entity identity; never reused within an encounter.
    pub id: u64,
    pub pos: Vec2I,
    /// Collider radius.
    pub radius: i64,
    pub health: Health,
}

/// A well-formed enemy.
pub open spec fn enemy_ok(e: Enemy) -> bool {
    pos_ok(e.pos) && 0 <= e.radius <= RADIUS_LIMIT
}

/// Every enemy of a sequence is well formed.
pub open spec fn all_enemies_ok(s: Seq<Enemy>) -> bool {
    forall|i: int| 0 <= i < s.len() ==> enemy_ok(#[trigger] s[i])
}

impl Enemy {
    /// The enemy's collider circle.
    pub fn circle(&self) -> (r: Circle)
        ensures
            r == (Circle { pos: self.pos, radius: self.radius }),
    {
        Circle { pos: self.pos, radius: self.radius }
    }
}

/// The enemies surviving the death sweep: those with hit points left.
pub open spec fn alive_spec(s: Seq<Enemy>) -> Seq<Enemy>
    decreases s.len(),
{
    if s.len() == 0 {
        Seq::empty()
    } else {
        let rest = alive_spec(s.drop_first());
        if s[0].health.0 > 0 {
            seq![s[0]] + rest
        } else {
            rest
        }
    }
}

/// Removes every enemy whose hit points have reached zero, keeping the
/// others in order.
pub fn enemy_dead(enemies: &mut Vec<Enemy>)
    requires
        all_enemies_ok(old(enemies)@),
    ensures
        final(enemies)@ == alive_spec(old(enemies)@),
        all_enemies_ok(final(enemies)@),
{
    let ghost orig = enemies@;
    let mut out: Vec<Enemy> = Vec::new();
    while enemies.len() > 0
        invariant
            all_enemies_ok(orig),
            all_enemies_ok(enemies@),
            all_enemies_ok(out@),
            alive_spec(orig) == out@ + alive_spec(enemies@),
        decreases enemies@.len(),
    {
        let ghost prev = enemies@;
        let e = enemies.remove(0);
        proof {
            assert(enemies@ =~= prev.drop_first());
        }
        if e.health.0 > 0 {
            out.push(e);
            proof {
                assert(out@ + alive_spec(enemies@) =~= alive_spec(orig));
            }
        } else {
            proof {
                assert(out@ + alive_spec(enemies@) =~= alive_spec(orig));
            }
        }
    }
    proof {
        assert(alive_spec(enemies@) =~= Seq::<Enemy>::empty());
        assert(out@ + alive_spec(enemies@) =~= out@);
        assert(forall|i: int| 0 <= i < out@.len() ==> enemy_ok(#[trigger] out@[i]));
    }
    *enemies = out;
}

/// Whether the last enemy is gone: the success condition of the
/// encounter.
pub fn last_enemy_dead(enemies: &Vec<Enemy>) -> (r: bool)
    ensures
        r == (enemies@.len() == 0),
{
    enemies.is_empty()
}

/// Eased drift between randomly chosen resting points: how a boss
/// wanders the field. Each move interpolates from `move_start` to
/// `move_end` over `move_time` milliseconds with a half-cosine ease;
/// when the pause timer elapses, a new random target and a new random
/// pause are drawn.
#[derive(Clone, Copy, Debug, PartialEq, Eq, Structural)]
pub struct RandomMovement {
    /// Time until the next move begins; its period is randomized after
    /// every move.
    pub next_move_timer: Timer,
    pub move_start: Vec2I,
    pub move_end: Vec2I,
    /// How long one move takes, in milliseconds.
    pub move_time: u64,
    /// Milliseconds since the current move began.
    pub time_since_last_move: u64,
}

/// A well-formed drift state.
pub open spec fn rm_ok(m: RandomMovement) -> bool {
    &&& timer_ok(m.next_move_timer)
    &&& pos_ok(m.move_start)
    &&& pos_ok(m.move_end)
    &&& 0 < m.move_time <= 1_000_000_000
}

/// The half-cosine ease, in thousandths: 0 at the start of a move,
/// `SCALE` at its end, accelerating then braking in between.
pub open spec fn ease_spec(x: int) -> int
    recommends
        0 <= x <= 1000,
{
    (crate::fixed::SCALE - crate::angle::cos_spec((x * HALF_TURN) / 1000)) / 2
}

/// One eased interpolation coordinate: `a` plus the eased share of the
/// way to `b`, clamped to the position range.
pub open spec fn lerp_spec(a: i64, b: i64, e: int) -> int {
    crate::fixed::clamp_add_spec(a as int, crate::fixed::tdiv((b - a) * e, 1000))
}

/// Where a drift state puts its owner: while a move is running (its
/// progress at most whole), the eased interpolation point; afterwards
/// the position is left alone.
pub open spec fn drift_pos_spec(m: RandomMovement, p: Vec2I) -> Vec2I
    recommends
        rm_ok(m),
{
    let prog = (m.time_since_last_move * 1000) as int / m.move_time as int;
    if m.time_since_last_move <= m.move_time {
        Vec2I {
            x: lerp_spec(m.move_start.x, m.move_end.x, ease_spec(prog)) as i64,
            y: lerp_spec(m.move_start.y, m.move_end.y, ease_spec(prog)) as i64,
        }
    } else {
        p
    }
}

/// Computes `ease_spec(x)`.
fn ease(x: u64) -> (r: i64)
    requires
        x <= 1000,
    ensures
        r == ease_spec(x as int),
        0 <= r <= 1000,
{
    let phase = ((x * (HALF_TURN as u64)) / 1000) as i64;
    proof {
        vstd::arithmetic::div_mod::lemma_div_pos_is_pos((x * HALF_TURN) as int, 1000);
        vstd::arithmetic::div_mod::lemma_div_is_ordered(
            (x * HALF_TURN) as int,
            1000 * HALF_TURN as int,
            1000,
        );
        vstd::arithmetic::div_mod::lemma_div_multiples_vanish(HALF_TURN as int, 1000);
    }
    let c = crate::angle::cos_fp(phase);
    (1000 - c) / 2
}

/// One eased interpolation coordinate.
fn lerp(a: i64, b: i64, e: i64) -> (r: i64)
    requires
        -crate::fixed::POS_LIMIT <= a <= crate::fixed::POS_LIMIT,
        -crate::fixed::POS_LIMIT <= b <= crate::fixed::POS_LIMIT,
        0 <= e <= 1000,
    ensures
        r == lerp_spec(a, b, e as int),
        -crate::fixed::POS_LIMIT <= r <= crate::fixed::POS_LIMIT,
{
    proof {
        assert(-(2 * crate::fixed::POS_LIMIT) * 1000 <= (b - a) * e <= (2
            * crate::fixed::POS_LIMIT) * 1000) by (nonlinear_arith)
            requires
                -2 * crate::fixed::POS_LIMIT <= b - a <= 2 * crate::fixed::POS_LIMIT,
                0 <= e <= 1000,
        ;
        crate::fixed::lemma_tdiv_bound(
            (b - a) as int * e,
            1000,
            (2 * crate::fixed::POS_LIMIT) as int * 1000,
        );
    }
    let step = crate::fixed::div_trunc((b - a) * e, 1000);
    crate::fixed::clamp_add(a, step)
}

/// One drift tick: the pause timer and the move stopwatch advance, a
/// running move places its owner on the eased path, and an elapsed
/// pause starts the next move — from where the last one ended, toward
/// a random target on the boss's side of the field, after a random
/// extra pause.
pub fn do_random_movement(m: &mut RandomMovement, pos: &mut Vec2I, dt: u64)
    requires
        rm_ok(*old(m)),
        pos_ok(*old(pos)),
        dt <= 1_000_000,
    ensures
        rm_ok(*final(m)),
        pos_ok(*final(pos)),
        *final(pos) == drift_pos_spec(
            RandomMovement {
                time_since_last_move: crate::timer::watch_tick_spec(
                    old(m).time_since_last_move,
                    dt,
                ),
                ..*old(m)
            },
            *old(pos),
        ),
        final(m).move_time == old(m).move_time,
        ({
            let ticked = timer_tick_spec(old(m).next_move_timer, dt);
            if ticked.just_finished {
                &&& final(m).time_since_last_move == 0
                &&& final(m).move_start == old(m).move_end
                &&& final(m).next_move_timer.elapsed == 0
                &&& old(m).move_time + 500 <= final(m).next_move_timer.duration <= old(
                    m,
                ).move_time + 10_000
                &&& 200_000 <= final(m).move_end.x <= 900_000
                &&& -500_000 <= final(m).move_end.y <= 500_000
            } else {
                &&& final(m).time_since_last_move == crate::timer::watch_tick_spec(
                    old(m).time_since_last_move,
                    dt,
                )
                &&& final(m).move_start == old(m).move_start
                &&& final(m).move_end == old(m).move_end
                &&& final(m).next_move_timer == ticked
            }
        }),
{
    m.next_move_timer.tick(dt);
    m.time_since_last_move = crate::timer::watch_tick(m.time_since_last_move, dt);
    if m.time_since_last_move <= m.move_time {
        let prog = (m.time_since_last_move * 1000) / m.move_time;
        proof {
            vstd::arithmetic::div_mod::lemma_div_pos_is_pos(
                (m.time_since_last_move * 1000) as int,
                m.move_time as int,
            );
            vstd::arithmetic::div_mod::lemma_div_is_ordered(
                (m.time_since_last_move * 1000) as int,
                (m.move_time * 1000) as int,
                m.move_time as int,
            );
            vstd::arithmetic::div_mod::lemma_div_multiples_vanish(1000, m.move_time as int);
            assert(m.move_time as int * 1000 == 1000 * m.move_time as int) by (nonlinear_arith);
        }
        let e = ease(prog);
        let nx = lerp(m.move_start.x, m.move_end.x, e);
        let ny = lerp(m.move_start.y, m.move_end.y, e);
        *pos = Vec2I { x: nx, y: ny };
    }
    if m.next_move_timer.finished() {
        m.time_since_last_move = 0;
        let extra = crate::rng::random_in(500, 10_000);
        m.next_move_timer = Timer::new(m.move_time + (extra as u64));
        m.move_start = m.move_end;
        let tx = crate::rng::random_in(200_000, 900_000);
        let ty = crate::rng::random_in(-500_000, 500_000);
        m.move_end = Vec2I { x: tx, y: ty };
    }
}

/// A periodic trigger for a bullet emitter.
#[derive(Clone, Copy, Debug, PartialEq, Eq, Structural)]
pub struct Emitter {
    pub timer: Timer,
}

impl Emitter {
    /// An emitter firing every `duration` milliseconds.
    pub fn new_millis(duration: u64) -> (r: Emitter)
        requires
            0 < duration <= 0x8000_0000_0000_0000,
        ensures
            r.timer.duration == duration,
            r.timer.elapsed == 0,
            !r.timer.just_finished,
            timer_ok(r.timer),
    {
        Emitter { timer: Timer::new(duration) }
    }
}

/// Ring burst: `count` bullets evenly spaced around the circle at
/// `offset` radius, each bullet's velocity turned to its slot.
#[derive(Clone, Copy, Debug, PartialEq, Eq, Structural)]
pub struct CircularAimedEmitter {
    pub offset: i64,
    pub count: usize,
}

/// Round-robin turret: one homing bullet per trigger, cycling four ring
/// slots.
#[derive(Clone, Copy, Debug, PartialEq, Eq, Structural)]
pub struct CircularHomingEmitter {
    pub offset: i64,
    pub count: usize,
    /// The slot the next trigger fires from.
    pub idx: usize,
}

/// Precessing ring of wave bullets: the whole ring turns by
/// `rotation_speed` after each trigger.
#[derive(Clone, Copy, Debug, PartialEq, Eq, Structural)]
pub struct CircularWaveEmitter {
    pub offset: i64,
    pub count: usize,
    /// Current precession, a normalized angle.
    pub rotation: i64,
    /// Precession per trigger, a normalized angle.
    pub rotation_speed: i64,
}

/// Ring burst whose bullets each carry a fused homing companion.
#[derive(Clone, Copy, Debug, PartialEq, Eq, Structural)]
pub struct TentacleEmitter {
    pub offset: i64,
    pub count: usize,
}

/// One random-angle bullet per period, raining in from a fixed edge
/// position.
#[derive(Clone, Copy, Debug, PartialEq, Eq, Structural)]
pub struct FloodEmitter {
    /// Full width of the random angle band.
    pub spray: i64,
}

/// Random-angle bullets aimed at the player, accumulating fractionally
/// over a firing window.
#[derive(Clone, Copy, Debug, PartialEq, Eq, Structural)]
pub struct SprayEmitter {
    /// Full width of the random angle band.
    pub spray_width: i64,
    /// The window within each period during which bullets spawn, in
    /// milliseconds.
    pub firing_time: u64,
    /// Milliseconds per bullet.
    pub firing_speed: u64,
    /// Fractional bullet accumulator, in thousandths of a bullet.
    pub count: i64,
}

/// Several spray arms, evenly spaced, all turning together every tick.
#[derive(Clone, Copy, Debug, PartialEq, Eq, Structural)]
pub struct RotatingSprayEmitter {
    pub spray_width: i64,
    pub firing_time: u64,
    pub firing_speed: u64,
    pub count: i64,
    /// Turn per tick, a normalized angle.
    pub rotation_speed: i64,
    /// Current turn, a normalized angle.
    pub rotation: i64,
    pub spray_count: usize,
}

/// A full wall: `columns` bullets falling from the top edge and `rows`
/// bullets sweeping in from the right edge, together each trigger.
#[derive(Clone, Copy, Debug, PartialEq, Eq, Structural)]
pub struct DivisiveEmitter {
    pub columns: u64,
    pub rows: u64,
}

/// The one pattern an emitter drives; an emitter never has two.
#[derive(Clone, Copy, Debug, PartialEq, Eq, Structural)]
pub enum Pattern {
    CircularAimed(CircularAimedEmitter),
    CircularHoming(CircularHomingEmitter),
    CircularWave(CircularWaveEmitter),
    Tentacle(TentacleEmitter),
    Spray(SprayEmitter),
    RotatingSpray(RotatingSprayEmitter),
    Flood(FloodEmitter),
    Divisive(DivisiveEmitter),
}

/// An emitter as it hangs off its owning enemy: trigger timer, bullet
/// prototype, the activation flag the spellcards drive, and its
/// pattern.
#[derive(Debug)]
pub struct EmitterBundle {
    /// The enemy this emitter is attached to; it fires from that
    /// enemy's position.
    pub owner: u64,
    pub emitter: Emitter,
    pub spawner: BulletSpawner,
    pub active: bool,
    pub pattern: Pattern,
}

/// Pattern parameters in working ranges.
pub open spec fn pattern_ok(p: Pattern) -> bool {
    match p {
        Pattern::CircularAimed(c) => 1 <= c.count <= 6144 && 0 <= c.offset <= POS_LIMIT,
        Pattern::CircularHoming(c) => 4 <= c.count <= 6144 && 0 <= c.offset <= POS_LIMIT && c.idx
            < 4,
        Pattern::CircularWave(c) => 1 <= c.count <= 6144 && 0 <= c.offset <= POS_LIMIT
            && angle_ok(c.rotation as int) && angle_ok(c.rotation_speed as int),
        Pattern::Tentacle(c) => 1 <= c.count <= 6144 && 0 <= c.offset <= POS_LIMIT,
        Pattern::Spray(c) => 0 <= c.spray_width <= TURN && 0 < c.firing_speed && 0 <= c.count
            <= 1_000_000_000,
        Pattern::RotatingSpray(c) => 0 <= c.spray_width <= TURN && 0 < c.firing_speed && 0
            <= c.count <= 1_000_000_000 && angle_ok(c.rotation as int) && angle_ok(
            c.rotation_speed as int,
        ) && 1 <= c.spray_count <= 6144,
        Pattern::Flood(c) => 0 <= c.spray <= TURN,
        Pattern::Divisive(c) => c.columns <= 1_000_000 && c.rows <= 1_000_000,
    }
}

/// A well-formed emitter unit.
pub open spec fn emitter_ok(e: EmitterBundle) -> bool {
    timer_ok(e.emitter.timer) && spawner_ok(e.spawner) && pattern_ok(e.pattern)
}

/// Every emitter of a sequence is well formed.
pub open spec fn all_emitters_ok(s: Seq<EmitterBundle>) -> bool {
    forall|i: int| 0 <= i < s.len() ==> emitter_ok(#[trigger] s[i])
}

/// A named time window of the encounter clock, with the emitters it
/// governs (as indices into the encounter's emitter list).
#[derive(Debug)]
pub struct Spellcard {
    /// Window start, in encounter-clock milliseconds; inclusive.
    pub start_time: u64,
    /// Window end; exclusive.
    pub end_time: u64,
    pub emitters: Vec<usize>,
}

/// Whether a spellcard's window contains the clock value: the window is
/// closed at its start and open at its end.
pub open spec fn in_window(card: Spellcard, now: u64) -> bool {
    card.start_time <= now < card.end_time
}

/// Whether some spellcard whose window contains `now` governs emitter
/// `j`: exactly then is that emitter active this tick.
pub open spec fn spell_active_spec(cards: Seq<Spellcard>, j: int, now: u64) -> bool {
    exists|c: int|
        0 <= c < cards.len() && in_window(#[trigger] cards[c], now) && cards[c].emitters@.contains(
            j as usize,
        )
}

/// Whether any spellcard of the list activates emitter `j` at `now`.
fn card_activates(cards: &Vec<Spellcard>, j: usize, now: u64) -> (r: bool)
    ensures
        r == spell_active_spec(cards@, j as int, now),
{
    let m = cards.len();
    let mut c: usize = 0;
    while c < m
        invariant
            m == cards@.len(),
            c <= m,
            forall|b: int|
                0 <= b < c ==> !(in_window(#[trigger] cards@[b], now)
                    && cards@[b].emitters@.contains(j)),
        decreases m - c,
    {
        let card = &cards[c];
        proof {
            assert(card.emitters@ == cards@[c as int].emitters@);
        }
        if card.start_time <= now && now < card.end_time {
            let k = card.emitters.len();
            let mut i: usize = 0;
            while i < k
                invariant
                    c < m,
                    m == cards@.len(),
                    k == cards@[c as int].emitters@.len(),
                    i <= k,
                    in_window(cards@[c as int], now),
                    card.emitters@ == cards@[c as int].emitters@,
                    forall|b: int| 0 <= b < i ==> cards@[c as int].emitters@[b] != j,
                decreases k - i,
            {
                if card.emitters[i] == j {
                    proof {
                        assert(cards@[c as int].emitters@.contains(j));
                        assert(in_window(cards@[c as int], now));
                    }
                    return true;
                }
                i += 1;
            }
            proof {
                assert(!cards@[c as int].emitters@.contains(j));
            }
        }
        c += 1;
    }
    false
}

/// The spellcard scheduler: clears every emitter's activation flag,
/// then sets it exactly for the emitters of spellcards whose window
/// contains the clock. Nothing else about an emitter changes; in
/// particular a deactivated emitter keeps its accumulated timer.
pub fn process_spellcards(cards: &Vec<Spellcard>, emitters: &mut Vec<EmitterBundle>, now: u64)
    requires
        all_emitters_ok(old(emitters)@),
    ensures
        final(emitters)@.len() == old(emitters)@.len(),
        forall|j: int|
            0 <= j < old(emitters)@.len() ==> {
                &&& (#[trigger] final(emitters)@[j]).active == spell_active_spec(cards@, j, now)
                &&& final(emitters)@[j].owner == old(emitters)@[j].owner
                &&& final(emitters)@[j].emitter == old(emitters)@[j].emitter
                &&& final(emitters)@[j].spawner == old(emitters)@[j].spawner
                &&& final(emitters)@[j].pattern == old(emitters)@[j].pattern
            },
        all_emitters_ok(final(emitters)@),
{
    let ghost orig = emitters@;
    let n = emitters.len();
    let mut j: usize = 0;
    while j < n
        invariant
            n == emitters@.len(),
            n == orig.len(),
            j <= n,
            all_emitters_ok(orig),
            all_emitters_ok(emitters@),
            forall|b: int|
                0 <= b < j ==> {
                    &&& (#[trigger] emitters@[b]).active == spell_active_spec(cards@, b, now)
                    &&& emitters@[b].owner == orig[b].owner
                    &&& emitters@[b].emitter == orig[b].emitter
                    &&& emitters@[b].spawner == orig[b].spawner
                    &&& emitters@[b].pattern == orig[b].pattern
                },
            forall|b: int| j <= b < n ==> emitters@[b] == orig[b],
        decreases n - j,
    {
        let a = card_activates(cards, j, now);
        let ghost prev = emitters@;
        let em = emitters.remove(j);
        let em2 = EmitterBundle { active: a, ..em };
        emitters.insert(j, em2);
        proof {
            assert(emitters@ =~= prev.update(j as int, em2));
        }
        j += 1;
    }
}

/// The encounter clock after one tick: it advances by `dt`, and resets
/// to zero exactly when it then exceeds every spellcard's end time, so
/// the boss's whole attack sequence loops. One still-running spellcard
/// blocks the reset even if every other window has closed.
pub open spec fn advance_time_spec(clock: u64, cards: Seq<Spellcard>, dt: u64) -> u64 {
    let t = crate::timer::watch_tick_spec(clock, dt);
    if forall|c: int| 0 <= c < cards.len() ==> (#[trigger] cards[c]).end_time < t {
        0u64
    } else {
        t
    }
}

/// Advances the encounter clock, looping it once every spellcard has
/// ended.
pub fn advance_encounter_time(clock: &mut u64, cards: &Vec<Spellcard>, dt: u64)
    ensures
        *final(clock) == advance_time_spec(*old(clock), cards@, dt),
{
    let t = crate::timer::watch_tick(*clock, dt);
    let m = cards.len();
    let mut all_over = true;
    let mut c: usize = 0;
    while c < m
        invariant
            m == cards@.len(),
            c <= m,
            all_over == (forall|b: int| 0 <= b < c ==> (#[trigger] cards@[b]).end_time < t),
        decreases m - c,
    {
        if cards[c].end_time >= t {
            all_over = false;
        }
        c += 1;
    }
    if all_over {
        *clock = 0;
    } else {
        *clock = t;
    }
}

/// A prototype's rotation law, carried over to a bullet spawned at a
/// world position: the orbit origin shifts by the emitter's position.
pub open spec fn shift_rotating(r: RotatingBullet, base: Vec2I) -> RotatingBullet {
    RotatingBullet { origin: clamp_translate_spec(r.origin, base), ..r }
}

/// The `i`-th bullet of a ring burst: spawned one slot around the ring
/// at `offset` radius from the emitter (prototype offset included),
/// with the prototype's straight-line velocity turned to the slot, and
/// the prototype's rotating, stutter and homing laws carried over.
pub open spec fn aimed_bullet_spec(
    s: BulletSpawner,
    c: CircularAimedEmitter,
    base: Vec2I,
    id0: u64,
    i: int,
) -> Bullet {
    let slot = slot_spec(c.count as int, i);
    let center = clamp_translate_spec(base, s.offset);
    Bullet {
        id: (id0 + i) as u64,
        pos: clamp_translate_spec(center, polar_vec(c.offset as int, slot)),
        radius: s.radius,
        age: 0,
        player: None,
        salted: false,
        phasing: false,
        normal: match s.normal {
            Some(n) => Some(
                NormalBullet {
                    velocity: Velocity {
                        speed: n.velocity.speed,
                        angle: add_angle_spec(n.velocity.angle as int, slot) as i64,
                    },
                },
            ),
            None => None,
        },
        rotating: match s.rotation {
            Some(r) => Some(shift_rotating(r, base)),
            None => None,
        },
        homing: s.homing,
        stutter: s.stutter,
        wave: None,
        delayed: None,
    }
}

/// Fires one ring burst of the CircularAimed pattern.
pub fn circular_aimed_fire(
    spawner: &BulletSpawner,
    c: CircularAimedEmitter,
    base: Vec2I,
    next_id: u64,
) -> (r: Vec<Bullet>)
    requires
        spawner_ok(*spawner),
        pattern_ok(Pattern::CircularAimed(c)),
        pos_ok(base),
        next_id + c.count <= u64::MAX,
    ensures
        r@.len() == c.count,
        forall|i: int|
            0 <= i < c.count ==> r@[i] == aimed_bullet_spec(*spawner, c, base, next_id, i),
        all_ok(r@),
{
    let mut out: Vec<Bullet> = Vec::new();
    let center = base.clamp_translate(spawner.offset);
    let mut i: usize = 0;
    while i < c.count
        invariant
            spawner_ok(*spawner),
            pattern_ok(Pattern::CircularAimed(c)),
            pos_ok(base),
            next_id + c.count <= u64::MAX,
            center == clamp_translate_spec(base, spawner.offset),
            i <= c.count,
            out@.len() == i,
            forall|j: int|
                0 <= j < i ==> out@[j] == aimed_bullet_spec(*spawner, c, base, next_id, j),
            all_ok(out@),
        decreases c.count - i,
    {
        let slot = slot_angle(c.count, i);
        let step = crate::geom::polar_step(c.offset, slot);
        let pos = center.clamp_translate(step);
        let normal = match &spawner.normal {
            Some(n) => Some(
                NormalBullet {
                    velocity: Velocity {
                        speed: n.velocity.speed,
                        angle: add_angle(n.velocity.angle, slot),
                    },
                },
            ),
            None => None,
        };
        let rotating = match &spawner.rotation {
            Some(r) => Some(RotatingBullet { origin: r.origin.clamp_translate(base), ..*r }),
            None => None,
        };
        let b = Bullet {
            id: next_id + (i as u64),
            pos,
            radius: spawner.radius,
            age: 0,
            player: None,
            salted: false,
            phasing: false,
            normal,
            rotating,
            homing: spawner.homing,
            stutter: spawner.stutter,
            wave: None,
            delayed: None,
        };
        out.push(b);
        i += 1;
    }
    out
}

/// The fused homing companion every Tentacle-pattern bullet carries:
/// after a one-second fuse it arms into a two-second homing chase of
/// the player, a full turn per second of steering.
pub open spec fn tentacle_companion_spec() -> DelayedBullet {
    DelayedBullet {
        bullet: Box::new(
            BulletSpawner {
                radius: 5_000 as i64,
                offset: Vec2I { x: 0, y: 0 },
                normal: None,
                rotation: None,
                stutter: None,
                homing: Some(
                    HomingBullet {
                        rotation_speed: 96 as i64,
                        seeking_time: 2_000 as u64,
                        target: Target::Player,
                    },
                ),
                wave: None,
                delayed: None,
            },
        ),
        delay: 1_000 as u64,
        deployed: false,
    }
}

/// The `i`-th bullet of a Tentacle burst: a ring bullet carrying only
/// the turned straight-line velocity and the fused homing companion.
pub open spec fn tentacle_bullet_spec(
    s: BulletSpawner,
    c: TentacleEmitter,
    base: Vec2I,
    id0: u64,
    i: int,
) -> Bullet {
    let slot = slot_spec(c.count as int, i);
    let center = clamp_translate_spec(base, s.offset);
    Bullet {
        id: (id0 + i) as u64,
        pos: clamp_translate_spec(center, polar_vec(c.offset as int, slot)),
        radius: s.radius,
        age: 0,
        player: None,
        salted: false,
        phasing: false,
        normal: match s.normal {
            Some(n) => Some(
                NormalBullet {
                    velocity: Velocity {
                        speed: n.velocity.speed,
                        angle: add_angle_spec(n.velocity.angle as int, slot) as i64,
                    },
                },
            ),
            None => None,
        },
        rotating: None,
        homing: None,
        stutter: None,
        wave: None,
        delayed: Some(tentacle_companion_spec()),
    }
}

/// Builds the Tentacle pattern's fused homing companion.
fn tentacle_companion() -> (r: DelayedBullet)
    ensures
        r == tentacle_companion_spec(),
{
    DelayedBullet {
        bullet: Box::new(
            BulletSpawner {
                radius: 5_000,
                offset: Vec2I { x: 0, y: 0 },
                normal: None,
                rotation: None,
                stutter: None,
                homing: Some(
                    HomingBullet { rotation_speed: 96, seeking_time: 2_000, target: Target::Player },
                ),
                wave: None,
                delayed: None,
            },
        ),
        delay: 1_000,
        deployed: false,
    }
}

/// Fires one ring burst of the Tentacle pattern.
pub fn tentacle_fire(spawner: &BulletSpawner, c: TentacleEmitter, base: Vec2I, next_id: u64) -> (r:
    Vec<Bullet>)
    requires
        spawner_ok(*spawner),
        pattern_ok(Pattern::Tentacle(c)),
        pos_ok(base),
        next_id + c.count <= u64::MAX,
    ensures
        r@.len() == c.count,
        forall|i: int|
            0 <= i < c.count ==> r@[i] == tentacle_bullet_spec(*spawner, c, base, next_id, i),
        all_ok(r@),
{
    let mut out: Vec<Bullet> = Vec::new();
    let center = base.clamp_translate(spawner.offset);
    let mut i: usize = 0;
    while i < c.count
        invariant
            spawner_ok(*spawner),
            pattern_ok(Pattern::Tentacle(c)),
            pos_ok(base),
            next_id + c.count <= u64::MAX,
            center == clamp_translate_spec(base, spawner.offset),
            i <= c.count,
            out@.len() == i,
            forall|j: int|
                0 <= j < i ==> out@[j] == tentacle_bullet_spec(*spawner, c, base, next_id, j),
            all_ok(out@),
        decreases c.count - i,
    {
        let slot = slot_angle(c.count, i);
        let step = crate::geom::polar_step(c.offset, slot);
        let pos = center.clamp_translate(step);
        let normal = match &spawner.normal {
            Some(n) => Some(
                NormalBullet {
                    velocity: Velocity {
                        speed: n.velocity.speed,
                        angle: add_angle(n.velocity.angle, slot),
                    },
                },
            ),
            None => None,
        };
        let b = Bullet {
            id: next_id + (i as u64),
            pos,
            radius: spawner.radius,
            age: 0,
            player: None,
            salted: false,
            phasing: false,
            normal,
            rotating: None,
            homing: None,
            stutter: None,
            wave: None,
            delayed: Some(tentacle_companion()),
        };
        out.push(b);
        i += 1;
    }
    out
}

/// The `i`-th bullet of a precessing wave ring: its direction is the
/// slot turned by the ring's current precession; the straight-line and
/// wave velocities are both turned to it.
pub open spec fn wave_bullet_spec(
    s: BulletSpawner,
    c: CircularWaveEmitter,
    base: Vec2I,
    id0: u64,
    i: int,
) -> Bullet {
    let dir = add_angle_spec(slot_spec(c.count as int, i), c.rotation as int);
    let center = clamp_translate_spec(base, s.offset);
    Bullet {
        id: (id0 + i) as u64,
        pos: clamp_translate_spec(center, polar_vec(c.offset as int, dir)),
        radius: s.radius,
        age: 0,
        player: None,
        salted: false,
        phasing: false,
        normal: match s.normal {
            Some(n) => Some(
                NormalBullet {
                    velocity: Velocity {
                        speed: n.velocity.speed,
                        angle: add_angle_spec(n.velocity.angle as int, dir) as i64,
                    },
                },
            ),
            None => None,
        },
        rotating: None,
        homing: None,
        stutter: None,
        wave: match s.wave {
            Some(w) => Some(
                WaveBullet {
                    true_velocity: Velocity {
                        speed: w.true_velocity.speed,
                        angle: add_angle_spec(w.true_velocity.angle as int, dir) as i64,
                    },
                    sine_mod: w.sine_mod,
                },
            ),
            None => None,
        },
        delayed: None,
    }
}

/// Fires one ring of the CircularWave pattern and precesses the ring;
/// the returned pattern state carries the advanced precession.
pub fn circular_wave_fire(
    spawner: &BulletSpawner,
    c: CircularWaveEmitter,
    base: Vec2I,
    next_id: u64,
) -> (r: (Vec<Bullet>, CircularWaveEmitter))
    requires
        spawner_ok(*spawner),
        pattern_ok(Pattern::CircularWave(c)),
        pos_ok(base),
        next_id + c.count <= u64::MAX,
    ensures
        r.0@.len() == c.count,
        forall|i: int|
            0 <= i < c.count ==> r.0@[i] == wave_bullet_spec(*spawner, c, base, next_id, i),
        all_ok(r.0@),
        r.1 == (CircularWaveEmitter {
            rotation: add_angle_spec(c.rotation as int, c.rotation_speed as int) as i64,
            ..c
        }),
        pattern_ok(Pattern::CircularWave(r.1)),
{
    let mut out: Vec<Bullet> = Vec::new();
    let center = base.clamp_translate(spawner.offset);
    let mut i: usize = 0;
    while i < c.count
        invariant
            spawner_ok(*spawner),
            pattern_ok(Pattern::CircularWave(c)),
            pos_ok(base),
            next_id + c.count <= u64::MAX,
            center == clamp_translate_spec(base, spawner.offset),
            i <= c.count,
            out@.len() == i,
            forall|j: int|
                0 <= j < i ==> out@[j] == wave_bullet_spec(*spawner, c, base, next_id, j),
            all_ok(out@),
        decreases c.count - i,
    {
        let slot = slot_angle(c.count, i);
        let dir = add_angle(slot, c.rotation);
        let step = crate::geom::polar_step(c.offset, dir);
        let pos = center.clamp_translate(step);
        let normal = match &spawner.normal {
            Some(n) => Some(
                NormalBullet {
                    velocity: Velocity {
                        speed: n.velocity.speed,
                        angle: add_angle(n.velocity.angle, dir),
                    },
                },
            ),
            None => None,
        };
        let wave = match &spawner.wave {
            Some(w) => Some(
                WaveBullet {
                    true_velocity: Velocity {
                        speed: w.true_velocity.speed,
                        angle: add_angle(w.true_velocity.angle, dir),
                    },
                    sine_mod: w.sine_mod,
                },
            ),
            None => None,
        };
        let b = Bullet {
            id: next_id + (i as u64),
            pos,
            radius: spawner.radius,
            age: 0,
            player: None,
            salted: false,
            phasing: false,
            normal,
            rotating: None,
            homing: None,
            stutter: None,
            wave,
            delayed: None,
        };
        out.push(b);
        i += 1;
    }
    let c2 = CircularWaveEmitter { rotation: add_angle(c.rotation, c.rotation_speed), ..c };
    (out, c2)
}

/// The one bullet a CircularHoming trigger fires, from ring slot `idx`:
/// the prototype's straight-line velocity turned to the slot, with the
/// homing law carried over.
pub open spec fn homing_bullet_spec(
    s: BulletSpawner,
    c: CircularHomingEmitter,
    base: Vec2I,
    id0: u64,
) -> Bullet {
    let slot = slot_spec(c.count as int, c.idx as int);
    let center = clamp_translate_spec(base, s.offset);
    Bullet {
        id: id0,
        pos: clamp_translate_spec(center, polar_vec(c.offset as int, slot)),
        radius: s.radius,
        age: 0,
        player: None,
        salted: false,
        phasing: false,
        normal: match s.normal {
            Some(n) => Some(
                NormalBullet {
                    velocity: Velocity {
                        speed: n.velocity.speed,
                        angle: add_angle_spec(n.velocity.angle as int, slot) as i64,
                    },
                },
            ),
            None => None,
        },
        rotating: None,
        homing: s.homing,
        stutter: None,
        wave: None,
        delayed: None,
    }
}

/// Fires one bullet of the CircularHoming pattern and advances the
/// round-robin slot, which cycles through four positions.
pub fn circular_homing_fire(
    spawner: &BulletSpawner,
    c: CircularHomingEmitter,
    base: Vec2I,
    next_id: u64,
) -> (r: (Vec<Bullet>, CircularHomingEmitter))
    requires
        spawner_ok(*spawner),
        pattern_ok(Pattern::CircularHoming(c)),
        pos_ok(base),
        next_id < u64::MAX,
    ensures
        r.0@.len() == 1,
        r.0@[0] == homing_bullet_spec(*spawner, c, base, next_id),
        all_ok(r.0@),
        r.1 == (CircularHomingEmitter {
            idx: if c.idx + 1 == 4 {
                0
            } else {
                (c.idx + 1) as usize
            },
            ..c
        }),
        pattern_ok(Pattern::CircularHoming(r.1)),
{
    let center = base.clamp_translate(spawner.offset);
    let slot = slot_angle(c.count, c.idx);
    let step = crate::geom::polar_step(c.offset, slot);
    let pos = center.clamp_translate(step);
    let normal = match &spawner.normal {
        Some(n) => Some(
            NormalBullet {
                velocity: Velocity {
                    speed: n.velocity.speed,
                    angle: add_angle(n.velocity.angle, slot),
                },
            },
        ),
        None => None,
    };
    let b = Bullet {
        id: next_id,
        pos,
        radius: spawner.radius,
        age: 0,
        player: None,
        salted: false,
        phasing: false,
        normal,
        rotating: None,
        homing: spawner.homing,
        stutter: None,
        wave: None,
        delayed: None,
    };
    let mut out: Vec<Bullet> = Vec::new();
    out.push(b);
    let nidx: usize = if c.idx + 1 == 4 {
        0
    } else {
        c.idx + 1
    };
    (out, CircularHomingEmitter { idx: nidx, ..c })
}

/// The `i`-th top-edge bullet of a Divisive trigger: one of `columns`
/// bullets evenly spaced along the top of the field, moving straight
/// down (the prototype's velocity turned a quarter turn clockwise).
pub open spec fn divisive_col_spec(s: BulletSpawner, c: DivisiveEmitter, id0: u64, i: int) -> Bullet {
    let gap = 1_920_000 as int / (c.columns + 1) as int;
    Bullet {
        id: (id0 + i) as u64,
        pos: Vec2I { x: (-960_000 + gap * (i + 1)) as i64, y: 600_000 as i64 },
        radius: s.radius,
        age: 0,
        player: None,
        salted: false,
        phasing: false,
        normal: match s.normal {
            Some(n) => Some(
                NormalBullet {
                    velocity: Velocity {
                        speed: n.velocity.speed,
                        angle: add_angle_spec(
                            n.velocity.angle as int,
                            3 * QUARTER_TURN as int,
                        ) as i64,
                    },
                },
            ),
            None => None,
        },
        rotating: None,
        homing: None,
        stutter: None,
        wave: None,
        delayed: None,
    }
}

/// The `i`-th right-edge bullet of a Divisive trigger: one of `rows`
/// bullets evenly spaced along the right of the field, moving straight
/// left (the prototype's velocity turned a half turn).
pub open spec fn divisive_row_spec(s: BulletSpawner, c: DivisiveEmitter, id0: u64, i: int) -> Bullet {
    let gap = 1_080_000 as int / (c.rows + 1) as int;
    Bullet {
        id: (id0 + c.columns + i) as u64,
        pos: Vec2I { x: 1_000_000 as i64, y: (-540_000 + gap * (i + 1)) as i64 },
        radius: s.radius,
        age: 0,
        player: None,
        salted: false,
        phasing: false,
        normal: match s.normal {
            Some(n) => Some(
                NormalBullet {
                    velocity: Velocity {
                        speed: n.velocity.speed,
                        angle: add_angle_spec(n.velocity.angle as int, HALF_TURN as int) as i64,
                    },
                },
            ),
            None => None,
        },
        rotating: None,
        homing: None,
        stutter: None,
        wave: None,
        delayed: None,
    }
}

/// A wall position stays within the field edge: the gap times any slot
/// index up to the count stays within the whole span.
proof fn lemma_gap_bound(span: int, k: int, i: int)
    requires
        span >= 1,
        k >= 1,
        0 <= i < k,
    ensures
        0 <= (span / (k + 1)) * (i + 1) <= span,
{
    let g = span / (k + 1);
    vstd::arithmetic::div_mod::lemma_div_pos_is_pos(span, k + 1);
    vstd::arithmetic::div_mod::lemma_fundamental_div_mod(span, k + 1);
    vstd::arithmetic::div_mod::lemma_mod_bound(span, k + 1);
    assert((k + 1) * g <= span);
    assert(0 <= g * (i + 1) <= g * (k + 1)) by (nonlinear_arith)
        requires
            g >= 0,
            0 <= i + 1 <= k + 1,
    ;
    assert(g * (k + 1) == (k + 1) * g) by (nonlinear_arith);
}

/// Fires one Divisive trigger: exactly `columns + rows` bullets — the
/// first `columns` falling from evenly spaced top-edge positions, the
/// following `rows` sweeping left from evenly spaced right-edge
/// positions.
pub fn divisive_fire(spawner: &BulletSpawner, c: DivisiveEmitter, next_id: u64) -> (r: Vec<Bullet>)
    requires
        spawner_ok(*spawner),
        pattern_ok(Pattern::Divisive(c)),
        next_id + c.columns + c.rows <= u64::MAX,
    ensures
        r@.len() == c.columns + c.rows,
        forall|i: int| 0 <= i < c.columns ==> r@[i] == divisive_col_spec(*spawner, c, next_id, i),
        forall|i: int|
            0 <= i < c.rows ==> r@[c.columns + i] == divisive_row_spec(*spawner, c, next_id, i),
        all_ok(r@),
{
    let mut out: Vec<Bullet> = Vec::new();
    let col_gap = 1_920_000u64 / (c.columns + 1);
    let mut i: u64 = 0;
    while i < c.columns
        invariant
            spawner_ok(*spawner),
            pattern_ok(Pattern::Divisive(c)),
            next_id + c.columns + c.rows <= u64::MAX,
            col_gap == 1_920_000 as int / (c.columns + 1) as int,
            i <= c.columns,
            out@.len() == i,
            forall|j: int| 0 <= j < i ==> out@[j] == divisive_col_spec(*spawner, c, next_id, j),
            all_ok(out@),
        decreases c.columns - i,
    {
        proof {
            lemma_gap_bound(1_920_000, c.columns as int, i as int);
        }
        let x = -960_000 + (col_gap * (i + 1)) as i64;
        let normal = match &spawner.normal {
            Some(n) => Some(
                NormalBullet {
                    velocity: Velocity {
                        speed: n.velocity.speed,
                        angle: add_angle(n.velocity.angle, 3 * QUARTER_TURN),
                    },
                },
            ),
            None => None,
        };
        let b = Bullet {
            id: next_id + i,
            pos: Vec2I { x, y: 600_000 },
            radius: spawner.radius,
            age: 0,
            player: None,
            salted: false,
            phasing: false,
            normal,
            rotating: None,
            homing: None,
            stutter: None,
            wave: None,
            delayed: None,
        };
        out.push(b);
        i += 1;
    }
    let row_gap = 1_080_000u64 / (c.rows + 1);
    let mut i2: u64 = 0;
    while i2 < c.rows
        invariant
            spawner_ok(*spawner),
            pattern_ok(Pattern::Divisive(c)),
            next_id + c.columns + c.rows <= u64::MAX,
            row_gap == 1_080_000 as int / (c.rows + 1) as int,
            i2 <= c.rows,
            out@.len() == c.columns + i2,
            forall|j: int| 0 <= j < c.columns ==> out@[j] == divisive_col_spec(*spawner, c, next_id, j),
            forall|j: int|
                0 <= j < i2 ==> out@[c.columns + j] == divisive_row_spec(*spawner, c, next_id, j),
            all_ok(out@),
        decreases c.rows - i2,
    {
        proof {
            lemma_gap_bound(1_080_000, c.rows as int, i2 as int);
        }
        let y = -540_000 + (row_gap * (i2 + 1)) as i64;
        let normal = match &spawner.normal {
            Some(n) => Some(
                NormalBullet {
                    velocity: Velocity {
                        speed: n.velocity.speed,
                        angle: add_angle(n.velocity.angle, HALF_TURN),
                    },
                },
            ),
            None => None,
        };
        let b = Bullet {
            id: next_id + c.columns + i2,
            pos: Vec2I { x: 1_000_000, y },
            radius: spawner.radius,
            age: 0,
            player: None,
            salted: false,
            phasing: false,
            normal,
            rotating: None,
            homing: None,
            stutter: None,
            wave: None,
            delayed: None,
        };
        out.push(b);
        i2 += 1;
    }
    out
}

/// What every Spray bullet looks like: spawned at the emitter
/// (prototype offset included), the prototype's rotation law carried
/// over, and the prototype's velocity aimed at the player and
/// scattered by at most half the band width either way.
pub open spec fn spray_shape(
    b: Bullet,
    s: BulletSpawner,
    base: Vec2I,
    player: Vec2I,
    width: int,
    id: u64,
) -> bool {
    let aim = crate::angle::dir_spec(player.x - base.x, player.y - base.y);
    &&& b.id == id
    &&& b.pos == clamp_translate_spec(base, s.offset)
    &&& b.radius == s.radius
    &&& b.age == 0
    &&& b.player is None
    &&& !b.salted
    &&& !b.phasing
    &&& b.rotating == s.rotation
    &&& b.homing is None
    &&& b.stutter is None
    &&& b.wave is None
    &&& b.delayed is None
    &&& match (s.normal, b.normal) {
        (Some(n), Some(bn)) => {
            &&& bn.velocity.speed == n.velocity.speed
            &&& angle_ok(bn.velocity.angle as int)
            &&& -(width / 2) <= crate::angle::signed_gap(
                add_angle_spec(n.velocity.angle as int, aim),
                bn.velocity.angle as int,
            ) <= width / 2
        },
        (None, None) => true,
        _ => false,
    }
}

/// Builds one Spray bullet from a drawn angle offset.
fn spray_one(
    spawner: &BulletSpawner,
    base: Vec2I,
    player: Vec2I,
    off: i64,
    width: i64,
    id: u64,
) -> (r: Bullet)
    requires
        spawner_ok(*spawner),
        pos_ok(base),
        pos_ok(player),
        0 <= width <= TURN,
        -(width / 2) <= off <= width / 2,
    ensures
        spray_shape(r, *spawner, base, player, width as int, id),
        crate::bullet::bullet_ok(r),
{
    let aim = crate::angle::dir_angle(player.x - base.x, player.y - base.y);
    let normal = match &spawner.normal {
        Some(n) => {
            let a1 = add_angle(n.velocity.angle, aim);
            let a2 = crate::angle::norm_angle(a1 + off);
            proof {
                crate::angle::lemma_offset_gap(a1 as int, off as int, width as int / 2);
            }
            Some(NormalBullet { velocity: Velocity { speed: n.velocity.speed, angle: a2 } })
        },
        None => None,
    };
    Bullet {
        id,
        pos: base.clamp_translate(spawner.offset),
        radius: spawner.radius,
        age: 0,
        player: None,
        salted: false,
        phasing: false,
        normal,
        rotating: spawner.rotation,
        homing: None,
        stutter: None,
        wave: None,
        delayed: None,
    }
}

/// How a spray accumulator advances in one tick: it gains
/// `dt * 1000 / firing_speed` thousandths of a bullet, the whole
/// bullets are spawned, and the fraction is kept.
pub open spec fn spray_gain(dt: u64, firing_speed: u64) -> int {
    dt * 1000 as int / firing_speed as int
}

/// Whole bullets owed once the accumulator has gained.
pub open spec fn spray_due(count: int, dt: u64, firing_speed: u64) -> int {
    (count + spray_gain(dt, firing_speed)) / 1000
}

/// The fraction kept after the whole bullets are spawned.
pub open spec fn spray_rest(count: int, dt: u64, firing_speed: u64) -> int {
    (count + spray_gain(dt, firing_speed)) % 1000
}

/// The accumulator arithmetic stays in range for one tick.
proof fn lemma_spray_accounting(count: int, dt: u64, firing_speed: u64)
    requires
        0 <= count <= 1_000_000_000,
        dt <= 1_000_000,
        0 < firing_speed,
    ensures
        0 <= spray_gain(dt, firing_speed) <= 1_000_000_000,
        0 <= spray_due(count, dt, firing_speed) <= 2_000_000,
        0 <= spray_rest(count, dt, firing_speed) < 1000,
        count + spray_gain(dt, firing_speed) == 1000 * spray_due(count, dt, firing_speed)
            + spray_rest(count, dt, firing_speed),
{
    let g = spray_gain(dt, firing_speed);
    vstd::arithmetic::div_mod::lemma_div_pos_is_pos(dt * 1000 as int, firing_speed as int);
    vstd::arithmetic::div_mod::lemma_div_is_ordered(
        dt * 1000 as int,
        1_000_000_000_000,
        firing_speed as int,
    );
    vstd::arithmetic::div_mod::lemma_div_is_ordered_by_denominator(
        1_000_000_000_000,
        1,
        firing_speed as int,
    );
    let t = count + g;
    vstd::arithmetic::div_mod::lemma_div_pos_is_pos(t, 1000);
    vstd::arithmetic::div_mod::lemma_div_is_ordered(t, 2_000_000_000, 1000);
    vstd::arithmetic::div_mod::lemma_fundamental_div_mod(t, 1000);
    vstd::arithmetic::div_mod::lemma_mod_bound(t, 1000);
}

/// Fires the Spray bullets owed for one in-window tick: the
/// accumulator gains `dt * 1000 / firing_speed` thousandths, the whole
/// bullets are spawned with random scatter within the band, and the
/// fraction is kept in the returned pattern state.
pub fn spray_fire_tick(
    spawner: &BulletSpawner,
    c: SprayEmitter,
    base: Vec2I,
    player: Vec2I,
    dt: u64,
    next_id: u64,
) -> (r: (Vec<Bullet>, SprayEmitter))
    requires
        spawner_ok(*spawner),
        pattern_ok(Pattern::Spray(c)),
        pos_ok(base),
        pos_ok(player),
        dt <= 1_000_000,
        next_id + 2_000_000 <= u64::MAX,
    ensures
        r.0@.len() == spray_due(c.count as int, dt, c.firing_speed),
        forall|i: int|
            0 <= i < r.0@.len() ==> spray_shape(
                #[trigger] r.0@[i],
                *spawner,
                base,
                player,
                c.spray_width as int,
                (next_id + i) as u64,
            ),
        all_ok(r.0@),
        r.1 == (SprayEmitter { count: spray_rest(c.count as int, dt, c.firing_speed) as i64, ..c }),
        pattern_ok(Pattern::Spray(r.1)),
{
    proof {
        lemma_spray_accounting(c.count as int, dt, c.firing_speed);
    }
    let gain = (dt * 1000) / c.firing_speed;
    let total = c.count + (gain as i64);
    let due = total / 1000;
    let rest = total % 1000;
    proof {
        assert(due == spray_due(c.count as int, dt, c.firing_speed));
        assert(rest == spray_rest(c.count as int, dt, c.firing_speed));
    }
    let half = c.spray_width / 2;
    let mut out: Vec<Bullet> = Vec::new();
    let n = due as usize;
    let mut i: usize = 0;
    while i < n
        invariant
            spawner_ok(*spawner),
            pattern_ok(Pattern::Spray(c)),
            pos_ok(base),
            pos_ok(player),
            next_id + 2_000_000 <= u64::MAX,
            n <= 2_000_000,
            half == c.spray_width as int / 2,
            0 <= half <= HALF_TURN,
            i <= n,
            out@.len() == i,
            forall|j: int|
                0 <= j < i ==> spray_shape(
                    #[trigger] out@[j],
                    *spawner,
                    base,
                    player,
                    c.spray_width as int,
                    (next_id + j) as u64,
                ),
            all_ok(out@),
        decreases n - i,
    {
        let off = crate::rng::random_in(-half, half);
        let b = spray_one(spawner, base, player, off, c.spray_width, next_id + (i as u64));
        out.push(b);
        i += 1;
    }
    (out, SprayEmitter { count: rest, ..c })
}

/// What the one Flood bullet of a trigger looks like: it appears at
/// the fixed right-edge x position, somewhere along the edge, with the
/// prototype's velocity scattered by at most half the band width.
pub open spec fn flood_shape(b: Bullet, s: BulletSpawner, spray: int, id: u64) -> bool {
    &&& b.id == id
    &&& b.pos.x == 920_000
    &&& -540_000 <= b.pos.y <= 540_000
    &&& b.radius == s.radius
    &&& b.age == 0
    &&& b.player is None
    &&& !b.salted
    &&& !b.phasing
    &&& b.rotating is None
    &&& b.homing is None
    &&& b.stutter is None
    &&& b.wave is None
    &&& b.delayed is None
    &&& match (s.normal, b.normal) {
        (Some(n), Some(bn)) => {
            &&& bn.velocity.speed == n.velocity.speed
            &&& angle_ok(bn.velocity.angle as int)
            &&& -(spray / 2) <= crate::angle::signed_gap(
                n.velocity.angle as int,
                bn.velocity.angle as int,
            ) <= spray / 2
        },
        (None, None) => true,
        _ => false,
    }
}

/// Fires one Flood bullet: a random scatter within the band, at a
/// random height along the right edge.
pub fn flood_fire(spawner: &BulletSpawner, c: FloodEmitter, next_id: u64) -> (r: Vec<Bullet>)
    requires
        spawner_ok(*spawner),
        pattern_ok(Pattern::Flood(c)),
    ensures
        r@.len() == 1,
        flood_shape(r@[0], *spawner, c.spray as int, next_id),
        all_ok(r@),
{
    let half = c.spray / 2;
    let off = crate::rng::random_in(-half, half);
    let y = crate::rng::random_in(-540_000, 540_000);
    let normal = match &spawner.normal {
        Some(n) => {
            let a = crate::angle::norm_angle(n.velocity.angle + off);
            proof {
                crate::angle::lemma_offset_gap(
                    n.velocity.angle as int,
                    off as int,
                    c.spray as int / 2,
                );
            }
            Some(NormalBullet { velocity: Velocity { speed: n.velocity.speed, angle: a } })
        },
        None => None,
    };
    let b = Bullet {
        id: next_id,
        pos: Vec2I { x: 920_000, y },
        radius: spawner.radius,
        age: 0,
        player: None,
        salted: false,
        phasing: false,
        normal,
        rotating: None,
        homing: None,
        stutter: None,
        wave: None,
        delayed: None,
    };
    let mut out: Vec<Bullet> = Vec::new();
    out.push(b);
    out
}

/// What every RotatingSpray bullet looks like: spawned at the emitter
/// (prototype offset included), carrying only a straight-line velocity
/// of the prototype's speed in some randomized arm direction.
pub open spec fn rspray_shape(
    b: Bullet,
    s: BulletSpawner,
    base: Vec2I,
    rotation: int,
    spray_count: int,
    width: int,
    id: u64,
) -> bool {
    &&& b.id == id
    &&& b.pos == clamp_translate_spec(base, s.offset)
    &&& b.radius == s.radius
    &&& b.age == 0
    &&& b.player is None
    &&& !b.salted
    &&& !b.phasing
    &&& b.rotating is None
    &&& b.homing is None
    &&& b.stutter is None
    &&& b.wave is None
    &&& b.delayed is None
    &&& match (s.normal, b.normal) {
        (Some(n), Some(bn)) => {
            &&& bn.velocity.speed == n.velocity.speed
            &&& angle_ok(bn.velocity.angle as int)
            &&& exists|arm: int|
                0 <= arm < spray_count && -(width / 2) <= crate::angle::signed_gap(
                    add_angle_spec(
                        add_angle_spec(n.velocity.angle as int, rotation),
                        #[trigger] slot_spec(spray_count, arm),
                    ),
                    bn.velocity.angle as int,
                ) <= width / 2
        },
        (None, None) => true,
        _ => false,
    }
}

/// The accumulator and bullet total after the arms of one
/// RotatingSpray tick have fired in turn: each arm adds one gain to
/// the shared accumulator and spawns the whole bullets then owed.
pub open spec fn rspray_fold(count: int, gain: int, arms: nat) -> (int, int)
    decreases arms,
{
    if arms == 0 {
        (count, 0)
    } else {
        let t = count + gain;
        let due = t / 1000;
        let sub = rspray_fold(t % 1000, gain, (arms - 1) as nat);
        (sub.0, sub.1 + due)
    }
}

/// The shared accumulator stays a fraction, and the total owed stays
/// small, across any number of arms.
proof fn lemma_rspray_fold_range(count: int, gain: int, arms: nat)
    requires
        0 <= count <= 1_000_000_000,
        0 <= gain <= 1_000_000_000,
    ensures
        0 <= rspray_fold(count, gain, arms).0 <= 1_000_000_000,
        0 <= rspray_fold(count, gain, arms).1 <= arms * 2_000_001,
        arms > 0 ==> rspray_fold(count, gain, arms).0 < 1000,
    decreases arms,
{
    if arms > 0 {
        let t = count + gain;
        vstd::arithmetic::div_mod::lemma_div_pos_is_pos(t, 1000);
        vstd::arithmetic::div_mod::lemma_div_is_ordered(t, 2_000_000_000, 1000);
        vstd::arithmetic::div_mod::lemma_mod_bound(t, 1000);
        lemma_rspray_fold_range(t % 1000, gain, (arms - 1) as nat);
        assert((arms - 1) * 2_000_001 + 2_000_000 <= arms * 2_000_001) by (nonlinear_arith)
            requires
                arms >= 1,
        ;
    } else {
        assert(rspray_fold(count, gain, arms).1 == 0);
        assert(arms * 2_000_001 == 0) by (nonlinear_arith)
            requires
                arms == 0,
        ;
    }
}

/// Fires the RotatingSpray bullets owed for one in-window tick: every
/// arm in turn gains the tick's fraction and spawns the whole bullets
/// owed, scattered within the band around the arm's turned direction.
/// The returned pattern state keeps the shared fraction.
pub fn rotating_spray_fire_tick(
    spawner: &BulletSpawner,
    c: RotatingSprayEmitter,
    base: Vec2I,
    dt: u64,
    next_id: u64,
) -> (r: (Vec<Bullet>, RotatingSprayEmitter))
    requires
        spawner_ok(*spawner),
        pattern_ok(Pattern::RotatingSpray(c)),
        pos_ok(base),
        dt <= 1_000_000,
        next_id + c.spray_count * 2_000_001 <= u64::MAX,
    ensures
        r.0@.len() == rspray_fold(
            c.count as int,
            spray_gain(dt, c.firing_speed),
            c.spray_count as nat,
        ).1,
        forall|i: int|
            0 <= i < r.0@.len() ==> rspray_shape(
                #[trigger] r.0@[i],
                *spawner,
                base,
                c.rotation as int,
                c.spray_count as int,
                c.spray_width as int,
                (next_id + i) as u64,
            ),
        all_ok(r.0@),
        r.1 == (RotatingSprayEmitter {
            count: rspray_fold(
                c.count as int,
                spray_gain(dt, c.firing_speed),
                c.spray_count as nat,
            ).0 as i64,
            ..c
        }),
        pattern_ok(Pattern::RotatingSpray(r.1)),
{
    proof {
        lemma_spray_accounting(c.count as int, dt, c.firing_speed);
        lemma_rspray_fold_range(
            c.count as int,
            spray_gain(dt, c.firing_speed),
            c.spray_count as nat,
        );
    }
    let gain = ((dt * 1000) / c.firing_speed) as i64;
    let half = c.spray_width / 2;
    let mut out: Vec<Bullet> = Vec::new();
    let mut count = c.count;
    let mut arm: usize = 0;
    while arm < c.spray_count
        invariant
            spawner_ok(*spawner),
            pattern_ok(Pattern::RotatingSpray(c)),
            pos_ok(base),
            next_id + c.spray_count * 2_000_001 <= u64::MAX,
            gain == spray_gain(dt, c.firing_speed),
            0 <= gain <= 1_000_000_000,
            half == c.spray_width as int / 2,
            0 <= half <= HALF_TURN,
            arm <= c.spray_count,
            0 <= count <= 1_000_000_000,
            rspray_fold(c.count as int, gain as int, c.spray_count as nat).0 == rspray_fold(
                count as int,
                gain as int,
                (c.spray_count - arm) as nat,
            ).0,
            out@.len() == rspray_fold(c.count as int, gain as int, c.spray_count as nat).1
                - rspray_fold(count as int, gain as int, (c.spray_count - arm) as nat).1,
            out@.len() <= arm * 2_000_001,
            forall|j: int|
                0 <= j < out@.len() ==> rspray_shape(
                    #[trigger] out@[j],
                    *spawner,
                    base,
                    c.rotation as int,
                    c.spray_count as int,
                    c.spray_width as int,
                    (next_id + j) as u64,
                ),
            all_ok(out@),
        decreases c.spray_count - arm,
    {
        let total = count + gain;
        let due = total / 1000;
        let rest = total % 1000;
        proof {
            vstd::arithmetic::div_mod::lemma_div_pos_is_pos(total as int, 1000);
            vstd::arithmetic::div_mod::lemma_div_is_ordered(total as int, 2_000_000_000, 1000);
            vstd::arithmetic::div_mod::lemma_mod_bound(total as int, 1000);
            lemma_rspray_fold_range(rest as int, gain as int, (c.spray_count - arm - 1) as nat);
            assert(rspray_fold(count as int, gain as int, (c.spray_count - arm) as nat)
                == (rspray_fold(rest as int, gain as int, (c.spray_count - arm - 1) as nat).0,
            rspray_fold(rest as int, gain as int, (c.spray_count - arm - 1) as nat).1
                + due as int));
            assert((arm + 1) * 2_000_001 <= c.spray_count * 2_000_001) by (nonlinear_arith)
                requires
                    arm + 1 <= c.spray_count,
            ;
            assert(arm * 2_000_001 + 2_000_000 <= (arm + 1) * 2_000_001) by (nonlinear_arith);
        }
        let slot = slot_angle(c.spray_count, arm);
        let dir = add_angle(c.rotation, slot);
        let n_arm = due as usize;
        let ghost len0 = out@.len();
        let mut k: usize = 0;
        while k < n_arm
            invariant
                spawner_ok(*spawner),
                pattern_ok(Pattern::RotatingSpray(c)),
                pos_ok(base),
                next_id + c.spray_count * 2_000_001 <= u64::MAX,
                half == c.spray_width as int / 2,
                0 <= half <= HALF_TURN,
                arm < c.spray_count,
                slot == slot_spec(c.spray_count as int, arm as int),
                angle_ok(slot as int),
                dir == add_angle_spec(c.rotation as int, slot as int),
                angle_ok(dir as int),
                k <= n_arm,
                n_arm <= 2_000_000,
                out@.len() == len0 + k,
                len0 + n_arm <= (arm + 1) * 2_000_001,
                (arm + 1) * 2_000_001 <= c.spray_count * 2_000_001,
                forall|j: int|
                    0 <= j < out@.len() ==> rspray_shape(
                        #[trigger] out@[j],
                        *spawner,
                        base,
                        c.rotation as int,
                        c.spray_count as int,
                        c.spray_width as int,
                        (next_id + j) as u64,
                    ),
                all_ok(out@),
            decreases n_arm - k,
        {
            let off = crate::rng::random_in(-half, half);
            let normal = match &spawner.normal {
                Some(n) => {
                    let a1 = add_angle(n.velocity.angle, dir);
                    let a2 = crate::angle::norm_angle(a1 + off);
                    proof {
                        crate::angle::lemma_offset_gap(a1 as int, off as int, half as int);
                        // The arm's turned direction composes the same
                        // whichever way the two turns are added.
                        assert(add_angle_spec(
                            add_angle_spec(n.velocity.angle as int, c.rotation as int),
                            slot_spec(c.spray_count as int, arm as int),
                        ) == a1 as int);
                    }
                    Some(
                        NormalBullet {
                            velocity: Velocity { speed: n.velocity.speed, angle: a2 },
                        },
                    )
                },
                None => None,
            };
            let id = next_id + (out.len() as u64);
            let b = Bullet {
                id,
                pos: base.clamp_translate(spawner.offset),
                radius: spawner.radius,
                age: 0,
                player: None,
                salted: false,
                phasing: false,
                normal,
                rotating: None,
                homing: None,
                stutter: None,
                wave: None,
                delayed: None,
            };
            proof {
                assert(rspray_shape(
                    b,
                    *spawner,
                    base,
                    c.rotation as int,
                    c.spray_count as int,
                    c.spray_width as int,
                    id,
                ));
            }
            out.push(b);
            k += 1;
        }
        count = rest;
        arm += 1;
    }
    proof {
        assert(rspray_fold(count as int, gain as int, 0nat).1 == 0);
        assert(rspray_fold(count as int, gain as int, 0nat).0 == count as int);
    }
    (out, RotatingSprayEmitter { count, ..c })
}

/// Room reserved per emitter tick in the identity space: no pattern
/// can spawn more bullets than this in one tick.
pub const EMITTER_ID_ROOM: u64 = 13_000_000_000_000;

/// Whether the emitter's period elapses on this tick.
pub open spec fn emitter_fires(e: EmitterBundle, dt: u64) -> bool {
    timer_tick_spec(e.emitter.timer, dt).just_finished
}

/// The emitter's timer after the tick: advanced, and started over if
/// the period elapsed.
pub open spec fn emitter_timer_after(e: EmitterBundle, dt: u64) -> Timer {
    let t1 = timer_tick_spec(e.emitter.timer, dt);
    if t1.just_finished {
        Timer { duration: t1.duration, elapsed: 0, just_finished: false }
    } else {
        t1
    }
}

/// Whether a spray-style pattern is inside its firing window on this
/// tick: the period timer has accumulated less than the window.
pub open spec fn emitter_in_window(e: EmitterBundle, dt: u64, firing_time: u64) -> bool {
    timer_tick_spec(e.emitter.timer, dt).elapsed < firing_time
}

/// How many bullets one emitter owes on one tick: its pattern's whole
/// geometry when the period elapses (or, for the spray patterns, the
/// accumulator's whole bullets while the firing window is open), and
/// none otherwise.
pub open spec fn due_count(em: EmitterBundle, dt: u64) -> int {
    match em.pattern {
        Pattern::CircularAimed(c) => if emitter_fires(em, dt) {
            c.count as int
        } else {
            0
        },
        Pattern::Tentacle(c) => if emitter_fires(em, dt) {
            c.count as int
        } else {
            0
        },
        Pattern::Divisive(c) => if emitter_fires(em, dt) {
            c.columns + c.rows
        } else {
            0
        },
        Pattern::CircularWave(c) => if emitter_fires(em, dt) {
            c.count as int
        } else {
            0
        },
        Pattern::CircularHoming(_) => if emitter_fires(em, dt) {
            1
        } else {
            0
        },
        Pattern::Flood(_) => if emitter_fires(em, dt) {
            1
        } else {
            0
        },
        Pattern::Spray(c) => if emitter_in_window(em, dt, c.firing_time) {
            spray_due(c.count as int, dt, c.firing_speed)
        } else {
            0
        },
        Pattern::RotatingSpray(c) => if emitter_in_window(em, dt, c.firing_time) {
            rspray_fold(c.count as int, spray_gain(dt, c.firing_speed), c.spray_count as nat).1
        } else {
            0
        },
    }
}

/// One tick of one emitter: nothing at all happens while the
/// activation flag is clear (the timer keeps its accumulated state);
/// an active emitter advances its timer and fires its pattern's
/// bullets when due. Spawned bullets take consecutive identities from
/// `next_id`.
pub fn emitter_tick(
    em: &mut EmitterBundle,
    dt: u64,
    owner_pos: Vec2I,
    player_pos: Vec2I,
    next_id: &mut u64,
) -> (r: Vec<Bullet>)
    requires
        emitter_ok(*old(em)),
        pos_ok(owner_pos),
        pos_ok(player_pos),
        dt <= 1_000_000,
        *old(next_id) + EMITTER_ID_ROOM <= u64::MAX,
    ensures
        emitter_ok(*final(em)),
        final(em).owner == old(em).owner,
        final(em).spawner == old(em).spawner,
        final(em).active == old(em).active,
        all_ok(r@),
        r@.len() <= EMITTER_ID_ROOM,
        old(em).active ==> r@.len() == due_count(*old(em), dt),
        forall|i: int| 0 <= i < r@.len() ==> (#[trigger] r@[i]).id == *old(next_id) + i,
        *final(next_id) == *old(next_id) + r@.len(),
        !old(em).active ==> *final(em) == *old(em) && r@.len() == 0,
        old(em).active ==> final(em).emitter.timer == emitter_timer_after(*old(em), dt),
        old(em).active ==> match old(em).pattern {
            Pattern::CircularAimed(c) => {
                &&& final(em).pattern == old(em).pattern
                &&& if emitter_fires(*old(em), dt) {
                    r@.len() == c.count && forall|i: int|
                        0 <= i < c.count ==> r@[i] == aimed_bullet_spec(
                            old(em).spawner,
                            c,
                            owner_pos,
                            *old(next_id),
                            i,
                        )
                } else {
                    r@.len() == 0
                }
            },
            Pattern::Tentacle(c) => {
                &&& final(em).pattern == old(em).pattern
                &&& if emitter_fires(*old(em), dt) {
                    r@.len() == c.count && forall|i: int|
                        0 <= i < c.count ==> r@[i] == tentacle_bullet_spec(
                            old(em).spawner,
                            c,
                            owner_pos,
                            *old(next_id),
                            i,
                        )
                } else {
                    r@.len() == 0
                }
            },
            Pattern::Divisive(c) => {
                &&& final(em).pattern == old(em).pattern
                &&& if emitter_fires(*old(em), dt) {
                    r@.len() == c.columns + c.rows && (forall|i: int|
                        0 <= i < c.columns ==> r@[i] == divisive_col_spec(
                            old(em).spawner,
                            c,
                            *old(next_id),
                            i,
                        )) && (forall|i: int|
                        0 <= i < c.rows ==> r@[c.columns + i] == divisive_row_spec(
                            old(em).spawner,
                            c,
                            *old(next_id),
                            i,
                        ))
                } else {
                    r@.len() == 0
                }
            },
            Pattern::CircularWave(c) => if emitter_fires(*old(em), dt) {
                r@.len() == c.count && (forall|i: int|
                    0 <= i < c.count ==> r@[i] == wave_bullet_spec(
                        old(em).spawner,
                        c,
                        owner_pos,
                        *old(next_id),
                        i,
                    )) && final(em).pattern == Pattern::CircularWave(
                    CircularWaveEmitter {
                        rotation: add_angle_spec(c.rotation as int, c.rotation_speed as int) as i64,
                        ..c
                    },
                )
            } else {
                r@.len() == 0 && final(em).pattern == old(em).pattern
            },
            Pattern::CircularHoming(c) => if emitter_fires(*old(em), dt) {
                r@.len() == 1 && r@[0] == homing_bullet_spec(
                    old(em).spawner,
                    c,
                    owner_pos,
                    *old(next_id),
                ) && final(em).pattern == Pattern::CircularHoming(
                    CircularHomingEmitter {
                        idx: if c.idx + 1 == 4 {
                            0
                        } else {
                            (c.idx + 1) as usize
                        },
                        ..c
                    },
                )
            } else {
                r@.len() == 0 && final(em).pattern == old(em).pattern
            },
            Pattern::Flood(c) => {
                &&& final(em).pattern == old(em).pattern
                &&& if emitter_fires(*old(em), dt) {
                    r@.len() == 1 && flood_shape(r@[0], old(em).spawner, c.spray as int, *old(next_id))
                } else {
                    r@.len() == 0
                }
            },
            Pattern::Spray(c) => if emitter_in_window(*old(em), dt, c.firing_time) {
                r@.len() == spray_due(c.count as int, dt, c.firing_speed) && (forall|i: int|
                    0 <= i < r@.len() ==> spray_shape(
                        #[trigger] r@[i],
                        old(em).spawner,
                        owner_pos,
                        player_pos,
                        c.spray_width as int,
                        (*old(next_id) + i) as u64,
                    )) && final(em).pattern == Pattern::Spray(
                    SprayEmitter {
                        count: spray_rest(c.count as int, dt, c.firing_speed) as i64,
                        ..c
                    },
                )
            } else {
                r@.len() == 0 && final(em).pattern == old(em).pattern
            },
            Pattern::RotatingSpray(c) => {
                let turned = add_angle_spec(c.rotation as int, c.rotation_speed as int) as i64;
                if emitter_in_window(*old(em), dt, c.firing_time) {
                    r@.len() == rspray_fold(
                        c.count as int,
                        spray_gain(dt, c.firing_speed),
                        c.spray_count as nat,
                    ).1 && (forall|i: int|
                        0 <= i < r@.len() ==> rspray_shape(
                            #[trigger] r@[i],
                            old(em).spawner,
                            owner_pos,
                            turned as int,
                            c.spray_count as int,
                            c.spray_width as int,
                            (*old(next_id) + i) as u64,
                        )) && final(em).pattern == Pattern::RotatingSpray(
                        RotatingSprayEmitter {
                            rotation: turned,
                            count: rspray_fold(
                                c.count as int,
                                spray_gain(dt, c.firing_speed),
                                c.spray_count as nat,
                            ).0 as i64,
                            ..c
                        },
                    )
                } else {
                    r@.len() == 0 && final(em).pattern == Pattern::RotatingSpray(
                        RotatingSprayEmitter { rotation: turned, ..c },
                    )
                }
            },
        },
{
    if !em.active {
        let out: Vec<Bullet> = Vec::new();
        return out;
    }
    em.emitter.timer.tick(dt);
    let fired = em.emitter.timer.finished();
    let window_elapsed = em.emitter.timer.elapsed_ms();
    if fired {
        em.emitter.timer.reset();
    }
    match em.pattern {
        Pattern::CircularAimed(c) => {
            if fired {
                let out = circular_aimed_fire(&em.spawner, c, owner_pos, *next_id);
                proof {
                    assert forall|i: int| 0 <= i < out@.len() implies (#[trigger] out@[i]).id
                        == *next_id + i by {
                        assert(out@[i] == aimed_bullet_spec(em.spawner, c, owner_pos, *next_id, i));
                    }
                }
                *next_id = *next_id + (out.len() as u64);
                out
            } else {
                Vec::new()
            }
        },
        Pattern::Tentacle(c) => {
            if fired {
                let out = tentacle_fire(&em.spawner, c, owner_pos, *next_id);
                proof {
                    assert forall|i: int| 0 <= i < out@.len() implies (#[trigger] out@[i]).id
                        == *next_id + i by {
                        assert(out@[i] == tentacle_bullet_spec(em.spawner, c, owner_pos, *next_id, i));
                    }
                }
                *next_id = *next_id + (out.len() as u64);
                out
            } else {
                Vec::new()
            }
        },
        Pattern::Divisive(c) => {
            if fired {
                let out = divisive_fire(&em.spawner, c, *next_id);
                proof {
                    assert forall|i: int| 0 <= i < out@.len() implies (#[trigger] out@[i]).id
                        == *next_id + i by {
                        if i < c.columns {
                            assert(out@[i] == divisive_col_spec(em.spawner, c, *next_id, i));
                        } else {
                            assert(out@[c.columns + (i - c.columns)] == divisive_row_spec(
                                em.spawner,
                                c,
                                *next_id,
                                i - c.columns,
                            ));
                        }
                    }
                }
                *next_id = *next_id + (out.len() as u64);
                out
            } else {
                Vec::new()
            }
        },
        Pattern::CircularWave(c) => {
            if fired {
                let (out, c2) = circular_wave_fire(&em.spawner, c, owner_pos, *next_id);
                em.pattern = Pattern::CircularWave(c2);
                proof {
                    assert forall|i: int| 0 <= i < out@.len() implies (#[trigger] out@[i]).id
                        == *next_id + i by {
                        assert(out@[i] == wave_bullet_spec(em.spawner, c, owner_pos, *next_id, i));
                    }
                }
                *next_id = *next_id + (out.len() as u64);
                out
            } else {
                Vec::new()
            }
        },
        Pattern::CircularHoming(c) => {
            if fired {
                let (out, c2) = circular_homing_fire(&em.spawner, c, owner_pos, *next_id);
                em.pattern = Pattern::CircularHoming(c2);
                proof {
                    assert forall|i: int| 0 <= i < out@.len() implies (#[trigger] out@[i]).id
                        == *next_id + i by {
                        assert(out@[0] == homing_bullet_spec(em.spawner, c, owner_pos, *next_id));
                    }
                }
                *next_id = *next_id + (out.len() as u64);
                out
            } else {
                Vec::new()
            }
        },
        Pattern::Flood(c) => {
            if fired {
                let out = flood_fire(&em.spawner, c, *next_id);
                proof {
                    assert forall|i: int| 0 <= i < out@.len() implies (#[trigger] out@[i]).id
                        == *next_id + i by {
                        assert(flood_shape(out@[0], em.spawner, c.spray as int, *next_id));
                    }
                }
                *next_id = *next_id + (out.len() as u64);
                out
            } else {
                Vec::new()
            }
        },
        Pattern::Spray(c) => {
            if window_elapsed < c.firing_time {
                let (out, c2) = spray_fire_tick(
                    &em.spawner,
                    c,
                    owner_pos,
                    player_pos,
                    dt,
                    *next_id,
                );
                em.pattern = Pattern::Spray(c2);
                proof {
                    lemma_spray_accounting(c.count as int, dt, c.firing_speed);
                    assert forall|i: int| 0 <= i < out@.len() implies (#[trigger] out@[i]).id
                        == *next_id + i by {
                        assert(spray_shape(
                            out@[i],
                            em.spawner,
                            owner_pos,
                            player_pos,
                            c.spray_width as int,
                            (*next_id + i) as u64,
                        ));
                    }
                }
                *next_id = *next_id + (out.len() as u64);
                out
            } else {
                Vec::new()
            }
        },
        Pattern::RotatingSpray(c) => {
            let turned = add_angle(c.rotation, c.rotation_speed);
            let c1 = RotatingSprayEmitter { rotation: turned, ..c };
            if window_elapsed < c.firing_time {
                let (out, c2) = rotating_spray_fire_tick(&em.spawner, c1, owner_pos, dt, *next_id);
                em.pattern = Pattern::RotatingSpray(c2);
                proof {
                    lemma_spray_accounting(c.count as int, dt, c.firing_speed);
                    lemma_rspray_fold_range(
                        c.count as int,
                        spray_gain(dt, c.firing_speed),
                        c.spray_count as nat,
                    );
                    assert(c.spray_count * 2_000_001 <= 6144 * 2_000_001) by (nonlinear_arith)
                        requires
                            c.spray_count <= 6144,
                    ;
                    assert forall|i: int| 0 <= i < out@.len() implies (#[trigger] out@[i]).id
                        == *next_id + i by {
                        assert(rspray_shape(
                            out@[i],
                            em.spawner,
                            owner_pos,
                            c1.rotation as int,
                            c1.spray_count as int,
                            c1.spray_width as int,
                            (*next_id + i) as u64,
                        ));
                    }
                }
                *next_id = *next_id + (out.len() as u64);
                out
            } else {
                em.pattern = Pattern::RotatingSpray(RotatingSprayEmitter { rotation: turned, ..c });
                Vec::new()
            }
        },
    }
}

} // verus!
