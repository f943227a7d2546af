//! Collision detection and deferred hit resolution.
//!
//! Detection is pure: three passes read the world and produce hit
//! events, touching nothing. Resolution then applies the events in the
//! engine's strict order — bullet against bullet, then player hits, then
//! enemy hits — so that health and lives are only ever changed in one
//! single-threaded stage. An event that refers to an entity despawned
//! earlier in the stage is silently dropped.

use crate::bullet::{all_ok, bullet_ok, Bullet, RADIUS_LIMIT};
use crate::enemy::{all_enemies_ok, Enemy};
use crate::geom::{circles_hit, pos_ok, Circle};
use vstd::prelude::*;

verus! {

/// An enemy bullet touched the player: the bullet's identity.
#[derive(Clone, Copy, Debug, PartialEq, Eq, Structural)]
pub struct PlayerHit(pub u64);

/// A player bullet touched an enemy bullet.
#[derive(Clone, Copy, Debug, PartialEq, Eq, Structural)]
pub struct BulletHit {
    /// The player bullet's identity.
    pub player: u64,
    /// The enemy bullet's identity.
    pub enemy: u64,
}

/// A player bullet touched an enemy.
#[derive(Clone, Copy, Debug, PartialEq, Eq, Structural)]
pub struct EnemyHit {
    /// The player bullet's identity.
    pub bullet: u64,
    /// The enemy's identity.
    pub enemy: u64,
}

/// The collider circle of a bullet, as a spec value.
pub open spec fn bullet_circle(b: Bullet) -> Circle {
    Circle { pos: b.pos, radius: b.radius }
}

/// The collider circle of an enemy, as a spec value.
pub open spec fn enemy_circle(e: Enemy) -> Circle {
    Circle { pos: e.pos, radius: e.radius }
}

/// The first bullet of the sequence with the given identity.
pub open spec fn bullet_with(s: Seq<Bullet>, id: u64) -> Option<Bullet>
    decreases s.len(),
{
    if s.len() == 0 {
        None
    } else if s[0].id == id {
        Some(s[0])
    } else {
        bullet_with(s.drop_first(), id)
    }
}

/// The sequence with the first bullet of the given identity taken out.
pub open spec fn remove_first_id(s: Seq<Bullet>, id: u64) -> Seq<Bullet>
    decreases s.len(),
{
    if s.len() == 0 {
        s
    } else if s[0].id == id {
        s.drop_first()
    } else {
        seq![s[0]] + remove_first_id(s.drop_first(), id)
    }
}

/// Removing an absent identity changes nothing.
pub proof fn lemma_remove_absent(s: Seq<Bullet>, id: u64)
    requires
        bullet_with(s, id) is None,
    ensures
        remove_first_id(s, id) == s,
    decreases s.len(),
{
    if s.len() > 0 {
        lemma_remove_absent(s.drop_first(), id);
        assert(remove_first_id(s, id) =~= s);
    }
}

/// Removing a bullet keeps every bullet well formed.
pub proof fn lemma_remove_first_ok(s: Seq<Bullet>, id: u64)
    requires
        all_ok(s),
    ensures
        all_ok(remove_first_id(s, id)),
        remove_first_id(s, id).len() <= s.len(),
    decreases s.len(),
{
    if s.len() > 0 && s[0].id != id {
        assert(all_ok(s.drop_first()));
        lemma_remove_first_ok(s.drop_first(), id);
        assert(forall|i: int|
            0 <= i < remove_first_id(s, id).len() ==> bullet_ok(
                #[trigger] remove_first_id(s, id)[i],
            ));
    } else if s.len() > 0 {
        assert(all_ok(s.drop_first()));
    }
}

/// Whether the sequence of identities contains `id`.
pub fn contains_id(ids: &Vec<u64>, id: u64) -> (r: bool)
    ensures
        r == ids@.contains(id),
{
    let n = ids.len();
    let mut i: usize = 0;
    while i < n
        invariant
            n == ids@.len(),
            i <= n,
            forall|j: int| 0 <= j < i ==> ids@[j] != id,
        decreases n - i,
    {
        if ids[i] == id {
            return true;
        }
        i += 1;
    }
    false
}

/// Looks a bullet up by identity without touching the list; reports
/// whether it exists, whether it is player-owned, whether it is salted
/// or phasing, and its damage, as `bullet_with` sees it.
pub fn lookup_bullet(bullets: &Vec<Bullet>, id: u64) -> (r: Option<(bool, bool, bool, u32)>)
    ensures
        match bullet_with(bullets@, id) {
            Some(b) => r == Some(
                (
                    b.player is Some,
                    b.salted,
                    b.phasing,
                    match b.player {
                        Some(p) => p.damage,
                        None => 0u32,
                    },
                ),
            ),
            None => r is None,
        },
{
    let n = bullets.len();
    let mut i: usize = 0;
    proof {
        assert(bullets@.skip(0) =~= bullets@);
    }
    while i < n
        invariant
            n == bullets@.len(),
            i <= n,
            bullet_with(bullets@, id) == bullet_with(bullets@.skip(i as int), id),
        decreases n - i,
    {
        proof {
            assert(bullets@.skip(i as int).drop_first() =~= bullets@.skip(i as int + 1));
        }
        let b = &bullets[i];
        if b.id == id {
            return Some(
                (
                    b.player.is_some(),
                    b.salted,
                    b.phasing,
                    match &b.player {
                        Some(p) => p.damage,
                        None => 0u32,
                    },
                ),
            );
        }
        i += 1;
    }
    proof {
        assert(bullets@.skip(n as int) =~= Seq::<Bullet>::empty());
    }
    None
}

/// Takes the first bullet with the given identity out of the list;
/// reports whether one was there.
pub fn remove_bullet(bullets: &mut Vec<Bullet>, id: u64) -> (found: bool)
    ensures
        final(bullets)@ == remove_first_id(old(bullets)@, id),
        found == (bullet_with(old(bullets)@, id) is Some),
{
    let ghost orig = bullets@;
    let n = bullets.len();
    let mut i: usize = 0;
    proof {
        assert(bullets@.skip(0) =~= bullets@);
        assert(bullets@.take(0) + remove_first_id(bullets@.skip(0), id) =~= remove_first_id(
            bullets@,
            id,
        ));
    }
    while i < n
        invariant
            orig == old(bullets)@,
            orig == bullets@,
            n == bullets@.len(),
            i <= n,
            forall|j: int| 0 <= j < i ==> bullets@[j].id != id,
            bullet_with(bullets@, id) == bullet_with(bullets@.skip(i as int), id),
            remove_first_id(bullets@, id) == bullets@.take(i as int) + remove_first_id(
                bullets@.skip(i as int),
                id,
            ),
        decreases n - i,
    {
        proof {
            assert(bullets@.skip(i as int).drop_first() =~= bullets@.skip(i as int + 1));
            assert(bullets@.take(i as int + 1) =~= bullets@.take(i as int) + seq![
                bullets@[i as int],
            ]);
        }
        if bullets[i].id == id {
            let ghost pre = bullets@;
            bullets.remove(i);
            proof {
                assert(pre.skip(i as int)[0] == pre[i as int]);
                assert(bullet_with(pre, id) is Some);
                assert(remove_first_id(pre.skip(i as int), id) == pre.skip(i as int).drop_first());
                assert(pre.skip(i as int).drop_first() =~= pre.skip(i as int + 1));
                assert(bullets@ =~= pre.take(i as int) + pre.skip(i as int + 1));
                assert(remove_first_id(pre, id) =~= bullets@);
                assert(pre == orig);
            }
            return true;
        }
        proof {
            assert(bullets@.take(i as int) + (seq![bullets@[i as int]] + remove_first_id(
                bullets@.skip(i as int + 1),
                id,
            )) =~= bullets@.take(i as int + 1) + remove_first_id(bullets@.skip(i as int + 1), id));
        }
        i += 1;
    }
    proof {
        assert(bullets@.skip(n as int) =~= Seq::<Bullet>::empty());
        assert(bullets@.take(n as int) =~= bullets@);
        assert(remove_first_id(bullets@, id) =~= bullets@);
    }
    false
}

/// The player-hit events of a detection pass: one for each enemy-owned
/// bullet whose circle meets the player's, in list order.
pub open spec fn player_hits_spec(s: Seq<Bullet>, pc: Circle) -> Seq<PlayerHit>
    decreases s.len(),
{
    if s.len() == 0 {
        Seq::empty()
    } else {
        let rest = player_hits_spec(s.drop_first(), pc);
        if s[0].player is None && circles_hit(bullet_circle(s[0]), pc) {
            seq![PlayerHit(s[0].id)] + rest
        } else {
            rest
        }
    }
}

/// Detection: enemy bullets against the player's circle. Pure.
pub fn check_enemy_bullets(bullets: &Vec<Bullet>, player: Circle) -> (r: Vec<PlayerHit>)
    requires
        all_ok(bullets@),
        pos_ok(player.pos),
        0 <= player.radius <= RADIUS_LIMIT,
    ensures
        r@ == player_hits_spec(bullets@, player),
{
    let mut out: Vec<PlayerHit> = Vec::new();
    let n = bullets.len();
    let mut i: usize = 0;
    proof {
        assert(bullets@.skip(0) =~= bullets@);
        assert(out@ + player_hits_spec(bullets@.skip(0), player) =~= player_hits_spec(
            bullets@,
            player,
        ));
    }
    while i < n
        invariant
            n == bullets@.len(),
            i <= n,
            all_ok(bullets@),
            pos_ok(player.pos),
            0 <= player.radius <= RADIUS_LIMIT,
            out@ + player_hits_spec(bullets@.skip(i as int), player) == player_hits_spec(
                bullets@,
                player,
            ),
        decreases n - i,
    {
        proof {
            assert(bullets@.skip(i as int).drop_first() =~= bullets@.skip(i as int + 1));
        }
        let b = &bullets[i];
        let hit = b.player.is_none() && b.circle().hits(player);
        if hit {
            out.push(PlayerHit(b.id));
        }
        proof {
            assert(out@ + player_hits_spec(bullets@.skip(i as int + 1), player)
                =~= player_hits_spec(bullets@, player));
        }
        i += 1;
    }
    proof {
        assert(bullets@.skip(n as int) =~= Seq::<Bullet>::empty());
        assert(out@ + player_hits_spec(bullets@.skip(n as int), player) =~= out@);
    }
    out
}

/// The bullet-against-bullet events that one player bullet produces: one
/// for each enemy-owned bullet whose circle meets its, in list order.
pub open spec fn hits_of_player(p: Bullet, s: Seq<Bullet>) -> Seq<BulletHit>
    decreases s.len(),
{
    if s.len() == 0 {
        Seq::empty()
    } else {
        let rest = hits_of_player(p, s.drop_first());
        if s[0].player is None && circles_hit(bullet_circle(p), bullet_circle(s[0])) {
            seq![BulletHit { player: p.id, enemy: s[0].id }] + rest
        } else {
            rest
        }
    }
}

/// The bullet-against-bullet events of a detection pass: each
/// non-phasing player bullet of `outer` against every enemy bullet of
/// `all`, in list order.
pub open spec fn bullet_hits_spec(outer: Seq<Bullet>, all: Seq<Bullet>) -> Seq<BulletHit>
    decreases outer.len(),
{
    if outer.len() == 0 {
        Seq::empty()
    } else {
        let rest = bullet_hits_spec(outer.drop_first(), all);
        if outer[0].player is Some && !outer[0].phasing {
            hits_of_player(outer[0], all) + rest
        } else {
            rest
        }
    }
}

/// Detection: non-phasing player bullets against enemy bullets. Pure.
pub fn check_bullet_bullet(bullets: &Vec<Bullet>) -> (r: Vec<BulletHit>)
    requires
        all_ok(bullets@),
    ensures
        r@ == bullet_hits_spec(bullets@, bullets@),
{
    let ghost s = bullets@;
    let mut out: Vec<BulletHit> = Vec::new();
    let n = bullets.len();
    let mut i: usize = 0;
    proof {
        assert(s.skip(0) =~= s);
        assert(out@ + bullet_hits_spec(s.skip(0), s) =~= bullet_hits_spec(s, s));
    }
    while i < n
        invariant
            s == bullets@,
            n == s.len(),
            i <= n,
            all_ok(s),
            out@ + bullet_hits_spec(s.skip(i as int), s) == bullet_hits_spec(s, s),
        decreases n - i,
    {
        proof {
            assert(s.skip(i as int).drop_first() =~= s.skip(i as int + 1));
            assert(s.skip(i as int)[0] == s[i as int]);
        }
        let is_player = bullets[i].player.is_some();
        let is_phasing = bullets[i].phasing;
        if is_player && !is_phasing {
            let ghost pv = s[i as int];
            let mut j: usize = 0;
            proof {
                assert(s.skip(0) =~= s);
                assert(out@ + (hits_of_player(pv, s.skip(0)) + bullet_hits_spec(
                    s.skip(i as int + 1),
                    s,
                )) =~= bullet_hits_spec(s, s));
            }
            while j < n
                invariant
                    s == bullets@,
                    n == s.len(),
                    i < n,
                    j <= n,
                    all_ok(s),
                    pv == s[i as int],
                    pv.player is Some && !pv.phasing,
                    out@ + (hits_of_player(pv, s.skip(j as int)) + bullet_hits_spec(
                        s.skip(i as int + 1),
                        s,
                    )) == bullet_hits_spec(s, s),
                decreases n - j,
            {
                proof {
                    assert(s.skip(j as int).drop_first() =~= s.skip(j as int + 1));
                    assert(s.skip(j as int)[0] == s[j as int]);
                }
                let e_enemy = bullets[j].player.is_none();
                if e_enemy {
                    let pc = bullets[i].circle();
                    let ec = bullets[j].circle();
                    if pc.hits(ec) {
                        out.push(BulletHit { player: bullets[i].id, enemy: bullets[j].id });
                    }
                }
                proof {
                    assert(out@ + (hits_of_player(pv, s.skip(j as int + 1)) + bullet_hits_spec(
                        s.skip(i as int + 1),
                        s,
                    )) =~= bullet_hits_spec(s, s));
                }
                j += 1;
            }
            proof {
                assert(s.skip(n as int) =~= Seq::<Bullet>::empty());
                assert(hits_of_player(pv, s.skip(n as int)) =~= Seq::<BulletHit>::empty());
                assert(out@ + bullet_hits_spec(s.skip(i as int + 1), s) =~= bullet_hits_spec(
                    s,
                    s,
                ));
            }
        } else {
            proof {
                assert(out@ + bullet_hits_spec(s.skip(i as int + 1), s) =~= bullet_hits_spec(
                    s,
                    s,
                ));
            }
        }
        i += 1;
    }
    proof {
        assert(s.skip(n as int) =~= Seq::<Bullet>::empty());
        assert(out@ + bullet_hits_spec(s.skip(n as int), s) =~= out@);
    }
    out
}

/// The enemy-hit events that one player bullet produces: one for each
/// enemy whose circle meets its, in list order.
pub open spec fn hits_on_enemies(p: Bullet, es: Seq<Enemy>) -> Seq<EnemyHit>
    decreases es.len(),
{
    if es.len() == 0 {
        Seq::empty()
    } else {
        let rest = hits_on_enemies(p, es.drop_first());
        if circles_hit(bullet_circle(p), enemy_circle(es[0])) {
            seq![EnemyHit { bullet: p.id, enemy: es[0].id }] + rest
        } else {
            rest
        }
    }
}

/// The enemy-hit events of a detection pass: each player bullet against
/// every enemy, in list order.
pub open spec fn enemy_hits_spec(s: Seq<Bullet>, es: Seq<Enemy>) -> Seq<EnemyHit>
    decreases s.len(),
{
    if s.len() == 0 {
        Seq::empty()
    } else {
        let rest = enemy_hits_spec(s.drop_first(), es);
        if s[0].player is Some {
            hits_on_enemies(s[0], es) + rest
        } else {
            rest
        }
    }
}

/// Detection: player bullets against enemies. Pure.
pub fn check_player_bullets(bullets: &Vec<Bullet>, enemies: &Vec<Enemy>) -> (r: Vec<EnemyHit>)
    requires
        all_ok(bullets@),
        all_enemies_ok(enemies@),
    ensures
        r@ == enemy_hits_spec(bullets@, enemies@),
{
    let ghost s = bullets@;
    let ghost es = enemies@;
    let mut out: Vec<EnemyHit> = Vec::new();
    let n = bullets.len();
    let m = enemies.len();
    let mut i: usize = 0;
    proof {
        assert(s.skip(0) =~= s);
        assert(out@ + enemy_hits_spec(s.skip(0), es) =~= enemy_hits_spec(s, es));
    }
    while i < n
        invariant
            s == bullets@,
            es == enemies@,
            n == s.len(),
            m == es.len(),
            i <= n,
            all_ok(s),
            all_enemies_ok(es),
            out@ + enemy_hits_spec(s.skip(i as int), es) == enemy_hits_spec(s, es),
        decreases n - i,
    {
        proof {
            assert(s.skip(i as int).drop_first() =~= s.skip(i as int + 1));
            assert(s.skip(i as int)[0] == s[i as int]);
        }
        let is_player = bullets[i].player.is_some();
        if is_player {
            let ghost pv = s[i as int];
            let mut j: usize = 0;
            proof {
                assert(es.skip(0) =~= es);
                assert(out@ + (hits_on_enemies(pv, es.skip(0)) + enemy_hits_spec(
                    s.skip(i as int + 1),
                    es,
                )) =~= enemy_hits_spec(s, es));
            }
            while j < m
                invariant
                    s == bullets@,
                    es == enemies@,
                    n == s.len(),
                    m == es.len(),
                    i < n,
                    j <= m,
                    all_ok(s),
                    all_enemies_ok(es),
                    pv == s[i as int],
                    pv.player is Some,
                    out@ + (hits_on_enemies(pv, es.skip(j as int)) + enemy_hits_spec(
                        s.skip(i as int + 1),
                        es,
                    )) == enemy_hits_spec(s, es),
                decreases m - j,
            {
                proof {
                    assert(es.skip(j as int).drop_first() =~= es.skip(j as int + 1));
                    assert(es.skip(j as int)[0] == es[j as int]);
                }
                let pc = bullets[i].circle();
                let ec = enemies[j].circle();
                if pc.hits(ec) {
                    out.push(EnemyHit { bullet: bullets[i].id, enemy: enemies[j].id });
                }
                proof {
                    assert(out@ + (hits_on_enemies(pv, es.skip(j as int + 1)) + enemy_hits_spec(
                        s.skip(i as int + 1),
                        es,
                    )) =~= enemy_hits_spec(s, es));
                }
                j += 1;
            }
            proof {
                assert(es.skip(m as int) =~= Seq::<Enemy>::empty());
                assert(hits_on_enemies(pv, es.skip(m as int)) =~= Seq::<EnemyHit>::empty());
                assert(out@ + enemy_hits_spec(s.skip(i as int + 1), es) =~= enemy_hits_spec(
                    s,
                    es,
                ));
            }
        } else {
            proof {
                assert(out@ + enemy_hits_spec(s.skip(i as int + 1), es) =~= enemy_hits_spec(
                    s,
                    es,
                ));
            }
        }
        i += 1;
    }
    proof {
        assert(s.skip(n as int) =~= Seq::<Bullet>::empty());
        assert(out@ + enemy_hits_spec(s.skip(n as int), es) =~= out@);
    }
    out
}

/// Whether the player bullet named by the event was salted, as the
/// pre-resolution world saw it.
pub open spec fn interceptor_salted(s: Seq<Bullet>, h: BulletHit) -> bool {
    match bullet_with(s, h.player) {
        Some(p) => p.player is Some && p.salted,
        None => false,
    }
}

/// Whether the bullet-against-bullet stage removes bullet `b`: it is
/// the player bullet of some event, or the enemy bullet of some event
/// whose player bullet was salted. Lookups are against the state at the
/// stage's start, as with deferred despawn commands.
pub open spec fn bb_removed(s: Seq<Bullet>, hits: Seq<BulletHit>, b: Bullet) -> bool {
    exists|k: int|
        0 <= k < hits.len() && {
            let h = #[trigger] hits[k];
            (h.player == b.id && b.player is Some) || (h.enemy == b.id && b.player is None
                && interceptor_salted(s, h))
        }
}

/// The bullets surviving the bullet-against-bullet stage, in order.
pub open spec fn bb_keep_rec(orig: Seq<Bullet>, rem: Seq<Bullet>, hits: Seq<BulletHit>) -> Seq<
    Bullet,
>
    decreases rem.len(),
{
    if rem.len() == 0 {
        Seq::empty()
    } else {
        let rest = bb_keep_rec(orig, rem.drop_first(), hits);
        if !bb_removed(orig, hits, rem[0]) {
            seq![rem[0]] + rest
        } else {
            rest
        }
    }
}

/// The whole bullet-against-bullet stage, as a value.
pub open spec fn bb_resolve_spec(s: Seq<Bullet>, hits: Seq<BulletHit>) -> Seq<Bullet> {
    bb_keep_rec(s, s, hits)
}

/// Survivors of the stage were all well formed before it.
pub proof fn lemma_bb_keep_ok(orig: Seq<Bullet>, rem: Seq<Bullet>, hits: Seq<BulletHit>)
    requires
        all_ok(rem),
    ensures
        all_ok(bb_keep_rec(orig, rem, hits)),
    decreases rem.len(),
{
    if rem.len() > 0 {
        assert(all_ok(rem.drop_first()));
        lemma_bb_keep_ok(orig, rem.drop_first(), hits);
        if !bb_removed(orig, hits, rem[0]) {
            assert(forall|i: int|
                0 <= i < bb_keep_rec(orig, rem, hits).len() ==> bullet_ok(
                    #[trigger] bb_keep_rec(orig, rem, hits)[i],
                ));
        }
    }
}

/// Whether some event of the list removes this bullet, given the
/// per-event salted flags.
fn bb_is_removed(
    b: &Bullet,
    hits: &Vec<BulletHit>,
    flags: &Vec<bool>,
    Ghost(orig): Ghost<Seq<Bullet>>,
) -> (r: bool)
    requires
        flags@.len() == hits@.len(),
        forall|k: int|
            0 <= k < hits@.len() ==> flags@[k] == interceptor_salted(orig, #[trigger] hits@[k]),
    ensures
        r == bb_removed(orig, hits@, *b),
{
    let m = hits.len();
    let is_player = b.player.is_some();
    let mut k: usize = 0;
    while k < m
        invariant
            m == hits@.len(),
            k <= m,
            flags@.len() == hits@.len(),
            is_player == (b.player is Some),
            forall|j: int|
                0 <= j < hits@.len() ==> flags@[j] == interceptor_salted(
                    orig,
                    #[trigger] hits@[j],
                ),
            forall|j: int|
                0 <= j < k ==> !{
                    let h = #[trigger] hits@[j];
                    (h.player == b.id && b.player is Some) || (h.enemy == b.id && b.player is None
                        && interceptor_salted(orig, h))
                },
        decreases m - k,
    {
        let h = hits[k];
        if h.player == b.id && is_player {
            return true;
        }
        if h.enemy == b.id && !is_player && flags[k] {
            return true;
        }
        k += 1;
    }
    false
}

/// Resolution, first stage: for each bullet-against-bullet event, the
/// player bullet despawns; the enemy bullet despawns as well exactly
/// when the player bullet was salted. Events naming despawned bullets
/// are dropped.
pub fn bullet_bullet_hit(bullets: &mut Vec<Bullet>, hits: &Vec<BulletHit>)
    requires
        all_ok(old(bullets)@),
    ensures
        final(bullets)@ == bb_resolve_spec(old(bullets)@, hits@),
        all_ok(final(bullets)@),
{
    let ghost orig = bullets@;
    // Record, per event, whether its player bullet is salted, before
    // anything despawns.
    let m = hits.len();
    let mut flags: Vec<bool> = Vec::new();
    let mut k: usize = 0;
    while k < m
        invariant
            orig == bullets@,
            m == hits@.len(),
            k <= m,
            flags@.len() == k,
            forall|j: int|
                0 <= j < k ==> flags@[j] == interceptor_salted(orig, #[trigger] hits@[j]),
        decreases m - k,
    {
        let f = match lookup_bullet(bullets, hits[k].player) {
            Some((is_p, sal, _ph, _dmg)) => is_p && sal,
            None => false,
        };
        flags.push(f);
        k += 1;
    }
    // Rebuild the list, dropping every removed bullet.
    let mut out: Vec<Bullet> = Vec::new();
    proof {
        assert(out@ + bb_keep_rec(orig, bullets@, hits@) =~= bb_resolve_spec(orig, hits@));
    }
    while bullets.len() > 0
        invariant
            orig == old(bullets)@,
            m == hits@.len(),
            flags@.len() == m,
            forall|j: int|
                0 <= j < m ==> flags@[j] == interceptor_salted(orig, #[trigger] hits@[j]),
            all_ok(bullets@),
            all_ok(out@),
            out@ + bb_keep_rec(orig, bullets@, hits@) == bb_resolve_spec(orig, hits@),
        decreases bullets@.len(),
    {
        let ghost prev = bullets@;
        let b = bullets.remove(0);
        proof {
            assert(bullets@ =~= prev.drop_first());
        }
        let removed = bb_is_removed(&b, hits, &flags, Ghost(orig));
        if !removed {
            out.push(b);
        }
        proof {
            assert(out@ + bb_keep_rec(orig, bullets@, hits@) =~= bb_resolve_spec(orig, hits@));
        }
    }
    proof {
        assert(bb_keep_rec(orig, bullets@, hits@) =~= Seq::<Bullet>::empty());
        assert(out@ + bb_keep_rec(orig, bullets@, hits@) =~= out@);
        assert(forall|i: int| 0 <= i < out@.len() ==> bullet_ok(#[trigger] out@[i]));
    }
    *bullets = out;
}

/// Whether a player-hit event is cancelled by the dedup rule: its enemy
/// bullet was intercepted this tick by a salted player bullet.
pub open spec fn dedup_skip(h: PlayerHit, bullet_hits: Seq<BulletHit>, salted: Seq<u64>) -> bool {
    exists|k: int|
        0 <= k < bullet_hits.len() && (#[trigger] bullet_hits[k]).enemy == h.0 && salted.contains(
            bullet_hits[k].player,
        )
}

/// The player-hit stage as a fold over the events, in order: state is
/// (bullets, lives, whether a life was already lost this tick).
///
/// For each event: a salted interception skips it outright; an event
/// naming a bullet already gone is dropped; otherwise the enemy bullet
/// despawns, and one life is deducted unless the player is invulnerable
/// or a life was already lost this tick.
pub open spec fn php_spec(
    bullets: Seq<Bullet>,
    hits: Seq<PlayerHit>,
    bullet_hits: Seq<BulletHit>,
    salted: Seq<u64>,
    life: int,
    lost: bool,
    invuln: bool,
) -> (Seq<Bullet>, int, bool)
    decreases hits.len(),
{
    if hits.len() == 0 {
        (bullets, life, lost)
    } else {
        let h = hits[0];
        let rest = hits.drop_first();
        if dedup_skip(h, bullet_hits, salted) {
            php_spec(bullets, rest, bullet_hits, salted, life, lost, invuln)
        } else if bullet_with(bullets, h.0) is None {
            php_spec(bullets, rest, bullet_hits, salted, life, lost, invuln)
        } else {
            let nb = remove_first_id(bullets, h.0);
            if lost || invuln {
                php_spec(nb, rest, bullet_hits, salted, life, lost, invuln)
            } else {
                php_spec(
                    nb,
                    rest,
                    bullet_hits,
                    salted,
                    if life > 0 {
                        life - 1
                    } else {
                        0
                    },
                    true,
                    invuln,
                )
            }
        }
    }
}

/// At most one life is ever lost in one player-hit stage, none with the
/// lost flag set or invulnerability on, and lives never go up.
pub proof fn lemma_one_life_per_tick(
    bullets: Seq<Bullet>,
    hits: Seq<PlayerHit>,
    bullet_hits: Seq<BulletHit>,
    salted: Seq<u64>,
    life: int,
    lost: bool,
    invuln: bool,
)
    requires
        life >= 0,
    ensures
        php_spec(bullets, hits, bullet_hits, salted, life, lost, invuln).1 <= life,
        php_spec(bullets, hits, bullet_hits, salted, life, lost, invuln).1 >= life - 1,
        lost || invuln ==> php_spec(bullets, hits, bullet_hits, salted, life, lost, invuln).1
            == life,
    decreases hits.len(),
{
    if hits.len() > 0 {
        let h = hits[0];
        let rest = hits.drop_first();
        if dedup_skip(h, bullet_hits, salted) {
            lemma_one_life_per_tick(bullets, rest, bullet_hits, salted, life, lost, invuln);
        } else if bullet_with(bullets, h.0) is None {
            lemma_one_life_per_tick(bullets, rest, bullet_hits, salted, life, lost, invuln);
        } else {
            let nb = remove_first_id(bullets, h.0);
            if lost || invuln {
                lemma_one_life_per_tick(nb, rest, bullet_hits, salted, life, lost, invuln);
            } else {
                let l1 = if life > 0 {
                    life - 1
                } else {
                    0
                };
                lemma_one_life_per_tick(nb, rest, bullet_hits, salted, l1, true, invuln);
            }
        }
    }
}

/// Whether one player-hit event is cancelled by the dedup rule.
fn is_deduped(h: PlayerHit, bullet_hits: &Vec<BulletHit>, salted_ids: &Vec<u64>) -> (r: bool)
    ensures
        r == dedup_skip(h, bullet_hits@, salted_ids@),
{
    let m = bullet_hits.len();
    let mut k: usize = 0;
    while k < m
        invariant
            m == bullet_hits@.len(),
            k <= m,
            forall|j: int|
                0 <= j < k ==> !((#[trigger] bullet_hits@[j]).enemy == h.0 && salted_ids@.contains(
                    bullet_hits@[j].player,
                )),
        decreases m - k,
    {
        let bh = bullet_hits[k];
        if bh.enemy == h.0 && contains_id(salted_ids, bh.player) {
            return true;
        }
        k += 1;
    }
    false
}

/// Resolution, second stage: player hits. For each event in order, an
/// enemy bullet intercepted by a salted player bullet this tick is
/// skipped; an already-despawned bullet is dropped; otherwise the
/// bullet despawns and — unless the player is invulnerable or a life
/// was already deducted this tick — exactly one life is lost. However
/// many events fire, at most one life is lost per stage.
pub fn process_player_hits(
    bullets: &mut Vec<Bullet>,
    hits: &Vec<PlayerHit>,
    bullet_hits: &Vec<BulletHit>,
    salted_ids: &Vec<u64>,
    life: &mut crate::mission::Life,
    invulnerable: bool,
)
    requires
        all_ok(old(bullets)@),
    ensures
        final(bullets)@ == php_spec(
            old(bullets)@,
            hits@,
            bullet_hits@,
            salted_ids@,
            old(life).0 as int,
            false,
            invulnerable,
        ).0,
        final(life).0 == php_spec(
            old(bullets)@,
            hits@,
            bullet_hits@,
            salted_ids@,
            old(life).0 as int,
            false,
            invulnerable,
        ).1,
        all_ok(final(bullets)@),
        old(life).0 - 1 <= final(life).0 <= old(life).0,
        invulnerable ==> final(life).0 == old(life).0,
{
    proof {
        lemma_one_life_per_tick(
            old(bullets)@,
            hits@,
            bullet_hits@,
            salted_ids@,
            old(life).0 as int,
            false,
            invulnerable,
        );
    }
    let ghost total = php_spec(
        old(bullets)@,
        hits@,
        bullet_hits@,
        salted_ids@,
        old(life).0 as int,
        false,
        invulnerable,
    );
    let n = hits.len();
    let mut i: usize = 0;
    let mut lost: bool = false;
    proof {
        assert(hits@.skip(0) =~= hits@);
    }
    while i < n
        invariant
            n == hits@.len(),
            i <= n,
            all_ok(bullets@),
            total == php_spec(
                bullets@,
                hits@.skip(i as int),
                bullet_hits@,
                salted_ids@,
                life.0 as int,
                lost,
                invulnerable,
            ),
        decreases n - i,
    {
        proof {
            assert(hits@.skip(i as int).drop_first() =~= hits@.skip(i as int + 1));
            assert(hits@.skip(i as int)[0] == hits@[i as int]);
        }
        let h = hits[i];
        if !is_deduped(h, bullet_hits, salted_ids) {
            let ghost pre = bullets@;
            let found = remove_bullet(bullets, h.0);
            proof {
                lemma_remove_first_ok(pre, h.0);
                if !found {
                    lemma_remove_absent(pre, h.0);
                }
            }
            if found {
                if !lost && !invulnerable {
                    if life.0 > 0 {
                        life.0 = life.0 - 1;
                    }
                    lost = true;
                }
            }
        }
        i += 1;
    }
    proof {
        assert(hits@.skip(n as int) =~= Seq::<PlayerHit>::empty());
    }
}

/// Hit points after damage, never below zero.
pub open spec fn sat_sub_u32(a: u32, d: u32) -> u32 {
    if a >= d {
        (a - d) as u32
    } else {
        0u32
    }
}

/// The damage an enemy-hit event carries: double the bullet's damage,
/// unless the bullet is phasing, which deals the base amount. An event
/// whose bullet is gone or not player-owned carries none.
pub open spec fn hit_damage(s: Seq<Bullet>, h: EnemyHit) -> Option<u32> {
    match bullet_with(s, h.bullet) {
        Some(b) => match b.player {
            Some(p) => Some(
                if b.phasing {
                    p.damage
                } else {
                    (2 * p.damage) as u32
                },
            ),
            None => None,
        },
        None => None,
    }
}

/// The enemies with the first one of the given identity damaged.
pub open spec fn damage_enemy_spec(es: Seq<Enemy>, id: u64, dmg: u32) -> Seq<Enemy>
    decreases es.len(),
{
    if es.len() == 0 {
        es
    } else if es[0].id == id {
        seq![
            Enemy { health: crate::enemy::Health(sat_sub_u32(es[0].health.0, dmg)), ..es[0] },
        ] + es.drop_first()
    } else {
        seq![es[0]] + damage_enemy_spec(es.drop_first(), id, dmg)
    }
}

/// The enemy healths after the enemy-hit stage: a fold over the events
/// in order; bullet lookups are against the stage's entry state, as
/// with deferred despawn commands.
pub open spec fn peh_enemies_spec(entry: Seq<Bullet>, es: Seq<Enemy>, hits: Seq<EnemyHit>) -> Seq<
    Enemy,
>
    decreases hits.len(),
{
    if hits.len() == 0 {
        es
    } else {
        let rest = hits.drop_first();
        match hit_damage(entry, hits[0]) {
            Some(d) => peh_enemies_spec(entry, damage_enemy_spec(es, hits[0].enemy, d), rest),
            None => peh_enemies_spec(entry, es, rest),
        }
    }
}

/// Whether some enemy carries the given identity.
pub open spec fn enemy_present(es: Seq<Enemy>, id: u64) -> bool {
    exists|i: int| 0 <= i < es.len() && (#[trigger] es[i]).id == id
}

/// Whether the enemy-hit stage despawns bullet `b`: it is the player
/// bullet of some event whose enemy existed at the stage's entry.
pub open spec fn peh_removed(
    es_entry: Seq<Enemy>,
    hits: Seq<EnemyHit>,
    b: Bullet,
) -> bool {
    exists|k: int|
        0 <= k < hits.len() && (#[trigger] hits[k]).bullet == b.id && b.player is Some
            && enemy_present(es_entry, hits[k].enemy)
}

/// The bullets surviving the enemy-hit stage, in order.
pub open spec fn peh_keep_rec(
    es_entry: Seq<Enemy>,
    rem: Seq<Bullet>,
    hits: Seq<EnemyHit>,
) -> Seq<Bullet>
    decreases rem.len(),
{
    if rem.len() == 0 {
        Seq::empty()
    } else {
        let rest = peh_keep_rec(es_entry, rem.drop_first(), hits);
        if !peh_removed(es_entry, hits, rem[0]) {
            seq![rem[0]] + rest
        } else {
            rest
        }
    }
}

/// Survivors of the enemy-hit stage were all well formed before it.
pub proof fn lemma_peh_keep_ok(es_entry: Seq<Enemy>, rem: Seq<Bullet>, hits: Seq<EnemyHit>)
    requires
        all_ok(rem),
    ensures
        all_ok(peh_keep_rec(es_entry, rem, hits)),
    decreases rem.len(),
{
    if rem.len() > 0 {
        assert(all_ok(rem.drop_first()));
        lemma_peh_keep_ok(es_entry, rem.drop_first(), hits);
        if !peh_removed(es_entry, hits, rem[0]) {
            assert(forall|i: int|
                0 <= i < peh_keep_rec(es_entry, rem, hits).len() ==> bullet_ok(
                    #[trigger] peh_keep_rec(es_entry, rem, hits)[i],
                ));
        }
    }
}

/// Whether some enemy of the list carries the given identity.
pub fn has_enemy(enemies: &Vec<Enemy>, id: u64) -> (r: bool)
    ensures
        r == enemy_present(enemies@, id),
{
    let m = enemies.len();
    let mut i: usize = 0;
    while i < m
        invariant
            m == enemies@.len(),
            i <= m,
            forall|j: int| 0 <= j < i ==> (#[trigger] enemies@[j]).id != id,
        decreases m - i,
    {
        if enemies[i].id == id {
            return true;
        }
        i += 1;
    }
    false
}

/// Damages the first enemy with the given identity, if present.
fn damage_enemy(enemies: &mut Vec<Enemy>, id: u64, dmg: u32)
    ensures
        final(enemies)@ == damage_enemy_spec(old(enemies)@, id, dmg),
{
    let ghost orig = enemies@;
    let m = enemies.len();
    let mut i: usize = 0;
    proof {
        assert(enemies@.skip(0) =~= enemies@);
        assert(enemies@.take(0) + damage_enemy_spec(enemies@.skip(0), id, dmg)
            =~= damage_enemy_spec(enemies@, id, dmg));
    }
    while i < m
        invariant
            orig == old(enemies)@,
            orig == enemies@,
            m == enemies@.len(),
            i <= m,
            forall|j: int| 0 <= j < i ==> (#[trigger] enemies@[j]).id != id,
            damage_enemy_spec(enemies@, id, dmg) == enemies@.take(i as int) + damage_enemy_spec(
                enemies@.skip(i as int),
                id,
                dmg,
            ),
        decreases m - i,
    {
        proof {
            assert(enemies@.skip(i as int).drop_first() =~= enemies@.skip(i as int + 1));
            assert(enemies@.skip(i as int)[0] == enemies@[i as int]);
            assert(enemies@.take(i as int + 1) =~= enemies@.take(i as int) + seq![
                enemies@[i as int],
            ]);
        }
        if enemies[i].id == id {
            let ghost pre = enemies@;
            let e = enemies[i];
            let nh = e.health.0.saturating_sub(dmg);
            let ne = Enemy { health: crate::enemy::Health(nh), ..e };
            enemies[i] = ne;
            proof {
                assert(damage_enemy_spec(pre.skip(i as int), id, dmg) =~= seq![ne] + pre.skip(
                    i as int,
                ).drop_first());
                assert(pre.skip(i as int).drop_first() =~= pre.skip(i as int + 1));
                assert(enemies@ =~= pre.update(i as int, ne));
                assert(enemies@ =~= pre.take(i as int) + (seq![ne] + pre.skip(i as int + 1)));
                assert(damage_enemy_spec(pre, id, dmg) =~= enemies@);
            }
            return ;
        }
        proof {
            assert(enemies@.take(i as int) + (seq![enemies@[i as int]] + damage_enemy_spec(
                enemies@.skip(i as int + 1),
                id,
                dmg,
            )) =~= enemies@.take(i as int + 1) + damage_enemy_spec(
                enemies@.skip(i as int + 1),
                id,
                dmg,
            ));
        }
        i += 1;
    }
    proof {
        assert(enemies@.skip(m as int) =~= Seq::<Enemy>::empty());
        assert(enemies@.take(m as int) =~= enemies@);
        assert(damage_enemy_spec(enemies@, id, dmg) =~= enemies@);
    }
}

/// Whether some enemy-hit event despawns this bullet, given the
/// per-event enemy-present flags.
fn peh_is_removed(
    b: &Bullet,
    hits: &Vec<EnemyHit>,
    present: &Vec<bool>,
    Ghost(es_entry): Ghost<Seq<Enemy>>,
) -> (r: bool)
    requires
        present@.len() == hits@.len(),
        forall|k: int|
            0 <= k < hits@.len() ==> present@[k] == enemy_present(
                es_entry,
                (#[trigger] hits@[k]).enemy,
            ),
    ensures
        r == peh_removed(es_entry, hits@, *b),
{
    let m = hits.len();
    let is_player = b.player.is_some();
    let mut k: usize = 0;
    while k < m
        invariant
            m == hits@.len(),
            k <= m,
            present@.len() == hits@.len(),
            is_player == (b.player is Some),
            forall|j: int|
                0 <= j < hits@.len() ==> present@[j] == enemy_present(
                    es_entry,
                    (#[trigger] hits@[j]).enemy,
                ),
            forall|j: int|
                0 <= j < k ==> !((#[trigger] hits@[j]).bullet == b.id && b.player is Some
                    && enemy_present(es_entry, hits@[j].enemy)),
        decreases m - k,
    {
        if hits[k].bullet == b.id && is_player && present[k] {
            return true;
        }
        k += 1;
    }
    false
}

/// Resolution, third stage: enemy hits. Each event applies its
/// bullet's damage to the enemy's health — doubled unless the bullet
/// is phasing — and despawns the bullet. Events whose bullet or enemy
/// is gone are dropped.
pub fn process_enemy_hits(bullets: &mut Vec<Bullet>, enemies: &mut Vec<Enemy>, hits: &Vec<EnemyHit>)
    requires
        all_ok(old(bullets)@),
        all_enemies_ok(old(enemies)@),
    ensures
        final(enemies)@ == peh_enemies_spec(old(bullets)@, old(enemies)@, hits@),
        final(bullets)@ == peh_keep_rec(old(enemies)@, old(bullets)@, hits@),
        all_ok(final(bullets)@),
        all_enemies_ok(final(enemies)@),
{
    let ghost b_entry = bullets@;
    let ghost es_entry = enemies@;
    // Record, per event, whether its enemy exists at entry.
    let n = hits.len();
    let mut present: Vec<bool> = Vec::new();
    let mut k: usize = 0;
    while k < n
        invariant
            es_entry == enemies@,
            b_entry == bullets@,
            n == hits@.len(),
            k <= n,
            present@.len() == k,
            forall|j: int|
                0 <= j < k ==> present@[j] == enemy_present(
                    es_entry,
                    (#[trigger] hits@[j]).enemy,
                ),
        decreases n - k,
    {
        let f = has_enemy(enemies, hits[k].enemy);
        present.push(f);
        k += 1;
    }
    // Apply the damage of each event, in order.
    let mut i: usize = 0;
    proof {
        assert(hits@.skip(0) =~= hits@);
    }
    while i < n
        invariant
            b_entry == bullets@,
            b_entry == old(bullets)@,
            es_entry == old(enemies)@,
            n == hits@.len(),
            i <= n,
            all_ok(bullets@),
            all_enemies_ok(enemies@),
            peh_enemies_spec(b_entry, enemies@, hits@.skip(i as int)) == peh_enemies_spec(
                b_entry,
                es_entry,
                hits@,
            ),
        decreases n - i,
    {
        proof {
            assert(hits@.skip(i as int).drop_first() =~= hits@.skip(i as int + 1));
            assert(hits@.skip(i as int)[0] == hits@[i as int]);
        }
        let h = hits[i];
        match lookup_bullet(bullets, h.bullet) {
            Some((is_p, _sal, ph, dmg)) => {
                if is_p {
                    let ghost pre = enemies@;
                    let full: u32 = if ph {
                        dmg
                    } else {
                        proof {
                            assert(bullet_ok(bullet_with(b_entry, h.bullet)->0)) by {
                                lemma_bullet_with_ok(b_entry, h.bullet);
                            }
                        }
                        2 * dmg
                    };
                    damage_enemy(enemies, h.enemy, full);
                    proof {
                        lemma_damage_enemy_ok(pre, h.enemy, full);
                    }
                } else {
                }
            },
            None => {},
        }
        i += 1;
    }
    proof {
        assert(hits@.skip(n as int) =~= Seq::<EnemyHit>::empty());
    }
    // Despawn the spent bullets.
    let mut out: Vec<Bullet> = Vec::new();
    proof {
        assert(out@ + peh_keep_rec(es_entry, bullets@, hits@) =~= peh_keep_rec(
            es_entry,
            b_entry,
            hits@,
        ));
    }
    while bullets.len() > 0
        invariant
            b_entry == old(bullets)@,
            es_entry == old(enemies)@,
            n == hits@.len(),
            present@.len() == n,
            forall|j: int|
                0 <= j < n ==> present@[j] == enemy_present(
                    es_entry,
                    (#[trigger] hits@[j]).enemy,
                ),
            all_ok(bullets@),
            all_ok(out@),
            out@ + peh_keep_rec(es_entry, bullets@, hits@) == peh_keep_rec(
                es_entry,
                b_entry,
                hits@,
            ),
        decreases bullets@.len(),
    {
        let ghost prev = bullets@;
        let b = bullets.remove(0);
        proof {
            assert(bullets@ =~= prev.drop_first());
        }
        let removed = peh_is_removed(&b, hits, &present, Ghost(es_entry));
        if !removed {
            out.push(b);
        }
        proof {
            assert(out@ + peh_keep_rec(es_entry, bullets@, hits@) =~= peh_keep_rec(
                es_entry,
                b_entry,
                hits@,
            ));
        }
    }
    proof {
        assert(peh_keep_rec(es_entry, bullets@, hits@) =~= Seq::<Bullet>::empty());
        assert(out@ + peh_keep_rec(es_entry, bullets@, hits@) =~= out@);
        assert(forall|i: int| 0 <= i < out@.len() ==> bullet_ok(#[trigger] out@[i]));
    }
    *bullets = out;
}

/// A bullet that `bullet_with` finds in a well-formed list is well
/// formed; in particular its damage is small enough to double.
pub proof fn lemma_bullet_with_ok(s: Seq<Bullet>, id: u64)
    requires
        all_ok(s),
        bullet_with(s, id) is Some,
    ensures
        bullet_ok(bullet_with(s, id)->0),
    decreases s.len(),
{
    if s.len() > 0 && s[0].id != id {
        assert(all_ok(s.drop_first()));
        lemma_bullet_with_ok(s.drop_first(), id);
    }
}

/// Damaging an enemy keeps every enemy well formed.
pub proof fn lemma_damage_enemy_ok(es: Seq<Enemy>, id: u64, dmg: u32)
    requires
        all_enemies_ok(es),
    ensures
        all_enemies_ok(damage_enemy_spec(es, id, dmg)),
    decreases es.len(),
{
    if es.len() > 0 && es[0].id != id {
        assert(all_enemies_ok(es.drop_first()));
        lemma_damage_enemy_ok(es.drop_first(), id, dmg);
        assert(forall|i: int|
            0 <= i < damage_enemy_spec(es, id, dmg).len() ==> crate::enemy::enemy_ok(
                #[trigger] damage_enemy_spec(es, id, dmg)[i],
            ));
    } else if es.len() > 0 {
        assert(all_enemies_ok(es.drop_first()));
        assert(forall|i: int|
            0 <= i < damage_enemy_spec(es, id, dmg).len() ==> crate::enemy::enemy_ok(
                #[trigger] damage_enemy_spec(es, id, dmg)[i],
            ));
    }
}

} // verus!
