//! Properties of the simulation that span several steps, proved from the
//! contracts of the steps.
use vstd::prelude::*;
use crate::combat::{Tower, cooled, shot, closest_enemy};
use crate::creep::{Course, Enemy, ARRIVAL_SQ, heading_point, steer, arrive, moved};
use crate::geom::{Vec2i, dist_sq};
use crate::lifecycle::{HitEvent, KilledEvent, apply_hit, after_hits, creep_with_id, marked, swept, reported};
use crate::level::{Level, PlacedTile, Marker, reloaded};
use crate::seqs::{kept, survivors, lemma_kept_from, lemma_first_where_stable};
use crate::world::{
    World, ids_fresh, spawned, with_spawned, creeps_moved, creeps_hit, creeps_after, flight,
};

verus! {

/// Every creep of `t` is a creep of `s` with the same id, whose waypoint
/// index grew by at most `bump`.
pub open spec fn follows(s: Seq<Enemy>, t: Seq<Enemy>, bump: int) -> bool {
    forall|j: int| 0 <= j < t.len() ==> derives_from(s, #[trigger] t[j], bump)
}

/// `d` is a creep of `s` with the same id, whose waypoint index grew by at
/// most `bump`.
pub open spec fn derives_from(s: Seq<Enemy>, d: Enemy, bump: int) -> bool {
    exists|k: int| 0 <= k < s.len() && is_origin(s[k], d, bump)
}

pub open spec fn is_origin(c: Enemy, d: Enemy, bump: int) -> bool {
    c.id == d.id && c.follower.index <= d.follower.index <= c.follower.index + bump
}

pub open spec fn distinct_ids(s: Seq<Enemy>) -> bool {
    forall|i: int, j: int| 0 <= i < s.len() && 0 <= j < s.len() && s[i].id == s[j].id ==> i == j
}

proof fn lemma_follows_trans(a: Seq<Enemy>, b: Seq<Enemy>, c: Seq<Enemy>, x: int, y: int)
    requires
        follows(a, b, x),
        follows(b, c, y),
    ensures
        follows(a, c, x + y),
{
    assert forall|j: int| 0 <= j < c.len() implies derives_from(a, #[trigger] c[j], x + y) by {
        assert(derives_from(b, c[j], y));
        let m = choose|m: int| 0 <= m < b.len() && is_origin(b[m], c[j], y);
        assert(derives_from(a, b[m], x));
        let k = choose|k: int| 0 <= k < a.len() && is_origin(a[k], b[m], x);
        assert(is_origin(a[k], c[j], x + y));
    }
}

/// What a step keeps keeps its id and moves its waypoint index up by at most
/// `bump`; then what survives follows what was there, and distinct ids stay
/// distinct.
proof fn lemma_survivors_follow(s: Seq<Enemy>, f: spec_fn(Enemy) -> Option<Enemy>, bump: int)
    requires
        forall|c: Enemy|
            (#[trigger] f(c)) matches Some(d) ==> d.id == c.id && c.follower.index
                <= d.follower.index <= c.follower.index + bump,
    ensures
        follows(s, survivors(s.map_values(f)), bump),
        distinct_ids(s) ==> distinct_ids(survivors(s.map_values(f))),
{
    let m = s.map_values(f);
    let t = survivors(m);
    assert forall|j: int| 0 <= j < t.len() implies derives_from(s, #[trigger] t[j], bump) by {
        lemma_kept_from(m, m.len() as int, j);
        let k = choose|k: int| 0 <= k < m.len() && m[k] == Some(t[j]);
        assert(f(s[k]) == Some(t[j]));
        assert(is_origin(s[k], t[j], bump));
    }
    if distinct_ids(s) {
        lemma_kept_distinct(s, f, m.len() as int);
    }
}

proof fn lemma_kept_distinct(s: Seq<Enemy>, f: spec_fn(Enemy) -> Option<Enemy>, n: int)
    requires
        0 <= n <= s.len(),
        distinct_ids(s),
        forall|c: Enemy| (#[trigger] f(c)) matches Some(d) ==> d.id == c.id,
    ensures
        distinct_ids(kept(s.map_values(f), n)),
        forall|j: int|
            0 <= j < kept(s.map_values(f), n).len() ==> exists|k: int|
                0 <= k < n && s[k].id == (#[trigger] kept(s.map_values(f), n)[j]).id,
    decreases n,
{
    let m = s.map_values(f);
    if n > 0 {
        lemma_kept_distinct(s, f, n - 1);
        let prev = kept(m, n - 1);
        let cur = kept(m, n);
        assert(f(s[n - 1]) == m[n - 1]);
        assert forall|j: int| 0 <= j < cur.len() implies exists|k: int|
            0 <= k < n && s[k].id == (#[trigger] cur[j]).id by {
            if j < prev.len() {
                assert(cur[j] == prev[j]);
                let k = choose|k: int| 0 <= k < n - 1 && s[k].id == (#[trigger] prev[j]).id;
            } else {
                assert(s[n - 1].id == cur[j].id);
            }
        }
        assert forall|i: int, j: int|
            0 <= i < cur.len() && 0 <= j < cur.len() && cur[i].id == cur[j].id implies i == j by {
            if i < prev.len() && j < prev.len() {
                assert(cur[i] == prev[i] && cur[j] == prev[j]);
            } else if i < prev.len() {
                assert(cur[i] == prev[i]);
                let k = choose|k: int| 0 <= k < n - 1 && s[k].id == (#[trigger] prev[i]).id;
                assert(s[n - 1].id == cur[j].id);
            } else if j < prev.len() {
                assert(cur[j] == prev[j]);
                let k = choose|k: int| 0 <= k < n - 1 && s[k].id == (#[trigger] prev[j]).id;
                assert(s[n - 1].id == cur[i].id);
            }
        }
    }
}

/// A step that keeps every creep, its id and its waypoint index.
proof fn lemma_map_follows(s: Seq<Enemy>, g: spec_fn(Enemy) -> Enemy)
    requires
        forall|c: Enemy|
            (#[trigger] g(c)).id == c.id && g(c).follower.index == c.follower.index,
    ensures
        follows(s, s.map_values(g), 0),
        distinct_ids(s) ==> distinct_ids(s.map_values(g)),
{
    let t = s.map_values(g);
    assert forall|j: int| 0 <= j < t.len() implies derives_from(s, #[trigger] t[j], 0) by {
        assert(g(s[j]) == t[j]);
        assert(is_origin(s[j], t[j], 0));
    }
    if distinct_ids(s) {
        assert forall|i: int, j: int|
            0 <= i < t.len() && 0 <= j < t.len() && t[i].id == t[j].id implies i == j by {
            assert(g(s[i]) == t[i] && g(s[j]) == t[j]);
        }
    }
}

/// Hits change health alone: every position keeps its creep's id, path
/// index and dying mark.
proof fn lemma_hits_keep_creeps(s: Seq<Enemy>, hits: Seq<HitEvent>, n: int)
    requires
        0 <= n <= hits.len(),
    ensures
        after_hits(s, hits, n).0.len() == s.len(),
        forall|i: int|
            0 <= i < s.len() ==> (#[trigger] after_hits(s, hits, n).0[i]).id == s[i].id
                && after_hits(s, hits, n).0[i].follower == s[i].follower
                && after_hits(s, hits, n).0[i].dying == s[i].dying,
    decreases n,
{
    if n > 0 {
        lemma_hits_keep_creeps(s, hits, n - 1);
        let cs = after_hits(s, hits, n - 1).0;
        let hit = hits[n - 1];
        if creep_with_id(cs, hit.target) is Some {
            lemma_first_where_stable(cs, |c: Enemy| c.id == hit.target, cs.len() as int, cs.len() as int);
        }
    }
}

proof fn lemma_hits_follow(s: Seq<Enemy>, hits: Seq<HitEvent>)
    ensures
        follows(s, after_hits(s, hits, hits.len() as int).0, 0),
        distinct_ids(s) ==> distinct_ids(after_hits(s, hits, hits.len() as int).0),
{
    let t = after_hits(s, hits, hits.len() as int).0;
    lemma_hits_keep_creeps(s, hits, hits.len() as int);
    assert forall|j: int| 0 <= j < t.len() implies derives_from(s, #[trigger] t[j], 0) by {
        assert(t[j].id == s[j].id);
        assert(is_origin(s[j], t[j], 0));
    }
    if distinct_ids(s) {
        assert forall|i: int, j: int|
            0 <= i < t.len() && 0 <= j < t.len() && t[i].id == t[j].id implies i == j by {
            assert(t[i].id == s[i].id && t[j].id == s[j].id);
        }
    }
}

proof fn lemma_frame_follows(w: World, dt_ms: int)
    requires
        ids_fresh(w.creeps@, w.next_id),
    ensures
        follows(
            with_spawned(w.creeps@, spawned(w.spawner, w.course, w.next_id, dt_ms)),
            creeps_after(w, dt_ms),
            1,
        ),
        distinct_ids(creeps_after(w, dt_ms)),
{
    let c0 = with_spawned(w.creeps@, spawned(w.spawner, w.course, w.next_id, dt_ms));
    let fs = |c: Enemy| steer(w.course, c);
    let fa = |c: Enemy| arrive(w.course, c);
    let gm = |c: Enemy| moved(c, dt_ms);
    let c1 = survivors(c0.map_values(fa));
    let c2 = survivors(c1.map_values(fs));
    let c3 = c2.map_values(gm);
    assert(c3 == creeps_moved(w, dt_ms));
    let hits = flight(w, dt_ms).1;
    let (c4, killed) = creeps_hit(w, dt_ms);
    let gk = |c: Enemy| marked(c, killed);
    let c5 = c4.map_values(gk);
    let fw = |c: Enemy| swept(c);
    let c6 = survivors(c5.map_values(fw));
    assert(c6 == creeps_after(w, dt_ms));

    assert(distinct_ids(c0)) by {
        assert forall|i: int, j: int|
            0 <= i < c0.len() && 0 <= j < c0.len() && c0[i].id == c0[j].id implies i == j by {
            if i < w.creeps@.len() && j < w.creeps@.len() {
            } else if i < w.creeps@.len() {
                assert(w.creeps@[i].id < w.next_id);
            } else if j < w.creeps@.len() {
                assert(w.creeps@[j].id < w.next_id);
            }
        }
    }
    assert forall|c: Enemy| (#[trigger] fs(c)) matches Some(d) ==> d.id == c.id && c.follower.index
        <= d.follower.index <= c.follower.index + 0 by {}
    lemma_survivors_follow(c1, fs, 0);
    assert forall|c: Enemy| (#[trigger] fa(c)) matches Some(d) ==> d.id == c.id && c.follower.index
        <= d.follower.index <= c.follower.index + 1 by {}
    lemma_survivors_follow(c0, fa, 1);
    lemma_map_follows(c2, gm);
    lemma_hits_follow(c3, hits);
    lemma_map_follows(c4, gk);
    assert forall|c: Enemy| (#[trigger] fw(c)) matches Some(d) ==> d.id == c.id && c.follower.index
        <= d.follower.index <= c.follower.index + 0 by {}
    lemma_survivors_follow(c5, fw, 0);
    lemma_follows_trans(c0, c1, c2, 1, 0);
    lemma_follows_trans(c0, c2, c3, 1, 0);
    lemma_follows_trans(c0, c3, c4, 1, 0);
    lemma_follows_trans(c0, c4, c5, 1, 0);
    lemma_follows_trans(c0, c5, c6, 1, 0);
}

/// Over a frame, a creep's waypoint index never decreases, and grows by at
/// most one: arrival moves a creep on at most once per frame.
pub proof fn lemma_waypoint_index_monotone(w: World, dt_ms: int, c: Enemy, d: Enemy)
    requires
        ids_fresh(w.creeps@, w.next_id),
        w.creeps@.contains(c),
        creeps_after(w, dt_ms).contains(d),
        c.id == d.id,
    ensures
        c.follower.index <= d.follower.index <= c.follower.index + 1,
{
    lemma_frame_follows(w, dt_ms);
    let c0 = with_spawned(w.creeps@, spawned(w.spawner, w.course, w.next_id, dt_ms));
    let t = creeps_after(w, dt_ms);
    let j = choose|j: int| 0 <= j < t.len() && t[j] == d;
    assert(derives_from(c0, t[j], 1));
    let k = choose|k: int| 0 <= k < c0.len() && is_origin(c0[k], t[j], 1);
    let i = choose|i: int| 0 <= i < w.creeps@.len() && w.creeps@[i] == c;
    if k < w.creeps@.len() {
        assert(c0[k] == w.creeps@[k]);
    } else {
        assert(w.creeps@[i].id < w.next_id);
    }
}

/// A frame keeps creep ids distinct and below the next id, so the frame
/// after it is covered by `lemma_waypoint_index_monotone` too.
pub proof fn lemma_frame_keeps_ids_fresh(w: World, dt_ms: int)
    requires
        ids_fresh(w.creeps@, w.next_id),
    ensures
        ids_fresh(
            creeps_after(w, dt_ms),
            if spawned(w.spawner, w.course, w.next_id, dt_ms) is Some {
                (w.next_id + 1) as u64
            } else {
                w.next_id
            },
        ),
{
    lemma_frame_follows(w, dt_ms);
    let c0 = with_spawned(w.creeps@, spawned(w.spawner, w.course, w.next_id, dt_ms));
    let t = creeps_after(w, dt_ms);
    assert forall|j: int| 0 <= j < t.len() implies #[trigger] t[j].id < (if spawned(
        w.spawner,
        w.course,
        w.next_id,
        dt_ms,
    ) is Some {
        (w.next_id + 1) as u64
    } else {
        w.next_id
    }) by {
        assert(derives_from(c0, t[j], 1));
        let k = choose|k: int| 0 <= k < c0.len() && is_origin(c0[k], t[j], 1);
        if k < w.creeps@.len() {
            assert(w.creeps@[k].id < w.next_id);
        }
    }
}

/// A creep within one world unit of its current waypoint moves on to the
/// next index, exactly one further.
pub proof fn lemma_arrival_advances_once(course: Course, c: Enemy, p: Vec2i)
    requires
        heading_point(course, c.follower.index) == Some((p, true)),
        dist_sq(c.position, p) < ARRIVAL_SQ,
        c.follower.index < i32::MAX,
    ensures
        arrive(course, c) matches Some(d) && d.follower.index == c.follower.index + 1 && d.id == c.id
            && d.position == c.position,
{
}

/// A tower whose cooldown does not complete during the frame fires nothing.
pub proof fn lemma_no_shot_while_cooling(t: Tower, creeps: Seq<Enemy>, dt_ms: int)
    requires
        !t.launcher.cooldown.completes(dt_ms),
    ensures
        shot(t, creeps, dt_ms) is None,
{
}

/// A tower whose cooldown completes with no creep in range fires nothing,
/// and its cooldown still starts over: a whole period is used up.
pub proof fn lemma_cooldown_spent_without_target(t: Tower, creeps: Seq<Enemy>, dt_ms: int)
    requires
        t.wf(),
        dt_ms >= 0,
        t.launcher.cooldown.completes(dt_ms),
        closest_enemy(creeps, t.position, t.launcher.range as int) is None,
    ensures
        shot(t, creeps, dt_ms) is None,
        cooled(t, dt_ms).launcher.cooldown.elapsed_ms + t.launcher.cooldown.duration_ms
            <= t.launcher.cooldown.elapsed_ms + dt_ms,
        cooled(t, dt_ms).launcher.cooldown.duration_ms == t.launcher.cooldown.duration_ms,
{
    let e = t.launcher.cooldown.elapsed_ms + dt_ms;
    let d = t.launcher.cooldown.duration_ms as int;
    assert(e % d + d <= e) by (nonlinear_arith)
        requires
            d > 0,
            e >= d,
    ;
}

/// A hit on a live creep lowers its health by exactly the damage, when the
/// difference fits in an `i32`; its maximum stays.
pub proof fn lemma_hit_subtracts_damage(creeps: Seq<Enemy>, hit: HitEvent, k: int)
    requires
        creep_with_id(creeps, hit.target) == Some(k),
        !creeps[k].dying,
        i32::MIN <= creeps[k].health.current - hit.damage <= i32::MAX,
    ensures
        apply_hit(creeps, hit).0[k].health.current == creeps[k].health.current - hit.damage,
        apply_hit(creeps, hit).0[k].health.max == creeps[k].health.max,
        apply_hit(creeps, hit).1 == (if creeps[k].health.current - hit.damage <= 0 {
            Some(KilledEvent { who: hit.target })
        } else {
            None
        }),
{
    lemma_first_where_stable(creeps, |c: Enemy| c.id == hit.target, creeps.len() as int, creeps.len() as int);
}

/// A dying creep takes no further hits.
pub proof fn lemma_dying_takes_no_hits(creeps: Seq<Enemy>, hit: HitEvent, k: int)
    requires
        creep_with_id(creeps, hit.target) == Some(k),
        creeps[k].dying,
    ensures
        apply_hit(creeps, hit) == (creeps, None::<KilledEvent>),
{
}

/// A creep whose health the hits bring from above zero to zero or below is
/// reported killed.
proof fn lemma_lethal_hits_reported(s: Seq<Enemy>, hits: Seq<HitEvent>, n: int, i: int)
    requires
        0 <= n <= hits.len(),
        0 <= i < s.len(),
        s[i].health.current > 0,
        after_hits(s, hits, n).0[i].health.current <= 0,
    ensures
        reported(after_hits(s, hits, n).1, s[i].id),
    decreases n,
{
    lemma_hits_keep_creeps(s, hits, n);
    if n > 0 {
        lemma_hits_keep_creeps(s, hits, n - 1);
        let (cs, ks) = after_hits(s, hits, n - 1);
        let hit = hits[n - 1];
        let (cs2, k) = apply_hit(cs, hit);
        if cs[i].health.current <= 0 {
            lemma_lethal_hits_reported(s, hits, n - 1, i);
            let j = choose|j: int| 0 <= j < ks.len() && ks[j].who == s[i].id;
            assert(after_hits(s, hits, n).1[j] == ks[j]);
        } else {
            match creep_with_id(cs, hit.target) {
                Some(m) => {
                    lemma_first_where_stable(cs, |c: Enemy| c.id == hit.target, cs.len() as int, cs.len() as int);
                    assert(m == i);
                    let out = after_hits(s, hits, n).1;
                    assert(out[out.len() - 1].who == s[i].id);
                },
                None => {},
            }
        }
    }
}

/// A creep that the hits of a frame bring from above zero health to zero or
/// below is gone at the end of that frame; and no creep left at the end of
/// a frame is dying.
pub proof fn lemma_killed_removed_same_frame(w: World, dt_ms: int, i: int)
    requires
        0 <= i < creeps_moved(w, dt_ms).len(),
        creeps_moved(w, dt_ms)[i].health.current > 0,
        creeps_hit(w, dt_ms).0[i].health.current <= 0,
    ensures
        forall|j: int|
            0 <= j < creeps_after(w, dt_ms).len() ==> (#[trigger] creeps_after(w, dt_ms)[j]).id
                != creeps_moved(w, dt_ms)[i].id,
        forall|j: int| 0 <= j < creeps_after(w, dt_ms).len() ==> !(#[trigger] creeps_after(w, dt_ms)[j]).dying,
{
    let c3 = creeps_moved(w, dt_ms);
    let hits = flight(w, dt_ms).1;
    let (c4, killed) = creeps_hit(w, dt_ms);
    lemma_lethal_hits_reported(c3, hits, hits.len() as int, i);
    let c5 = c4.map_values(|c: Enemy| marked(c, killed));
    let m = c5.map_values(|c: Enemy| swept(c));
    let t = survivors(m);
    assert(t == creeps_after(w, dt_ms));
    assert forall|j: int| 0 <= j < t.len() implies (#[trigger] t[j]).id != c3[i].id && !t[j].dying by {
        lemma_kept_from(m, m.len() as int, j);
        let k = choose|k: int| 0 <= k < m.len() && m[k] == Some(t[j]);
        assert(swept(c5[k]) == Some(t[j]));
        assert(c5[k] == marked(c4[k], killed));
    }
}

/// Loading a level and then loading the same level again gives the same
/// tiles and markers as loading it once.
pub proof fn lemma_reload_idempotent(before: (Seq<PlacedTile>, Seq<Marker>), level: Level)
    ensures
        reloaded(reloaded(before, level), level) == reloaded(before, level),
{
}

} // verus!
