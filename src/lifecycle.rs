//! Damage and death: hits lower health, a creep at or below zero health is
//! reported killed, marked dying, then removed.
use vstd::prelude::*;
use crate::creep::{Enemy, Health, all_wf};
use crate::geom::clamp;
use crate::seqs::{first_where, lemma_first_where_stable, kept, survivors};

verus! {

/// A projectile reached its target.
#[derive(Clone, Copy, Debug, PartialEq, Eq, Structural)]
pub struct HitEvent {
    pub damage: i32,
    pub target: u64,
}

/// A creep's health fell to zero or below.
#[derive(Clone, Copy, Debug, PartialEq, Eq, Structural)]
pub struct KilledEvent {
    pub who: u64,
}

/// Position of the first creep with the given id.
pub open spec fn creep_with_id(creeps: Seq<Enemy>, id: u64) -> Option<int> {
    first_where(creeps, |c: Enemy| c.id == id, creeps.len() as int)
}

/// Health after taking `damage`; the subtraction saturates at the bounds of
/// `i32`.
pub open spec fn damaged(h: Health, damage: i32) -> Health {
    Health { current: clamp(h.current - damage, i32::MIN as int, i32::MAX as int) as i32, ..h }
}

/// The creeps after one hit, and the kill it causes, if any. A hit on a
/// creep that is gone or dying changes nothing.
pub open spec fn apply_hit(creeps: Seq<Enemy>, hit: HitEvent) -> (Seq<Enemy>, Option<KilledEvent>) {
    match creep_with_id(creeps, hit.target) {
        Some(k) => if creeps[k].dying {
            (creeps, None)
        } else {
            let h = damaged(creeps[k].health, hit.damage);
            (
                creeps.update(k, Enemy { health: h, ..creeps[k] }),
                if h.current <= 0 {
                    Some(KilledEvent { who: hit.target })
                } else {
                    None
                },
            )
        },
        None => (creeps, None),
    }
}

/// The creeps after the first `n` hits in order, and the kills reported.
pub open spec fn after_hits(creeps: Seq<Enemy>, hits: Seq<HitEvent>, n: int) -> (
    Seq<Enemy>,
    Seq<KilledEvent>,
)
    decreases n,
{
    if n <= 0 || n > hits.len() {
        (creeps, Seq::empty())
    } else {
        let (cs, ks) = after_hits(creeps, hits, n - 1);
        let (cs2, k) = apply_hit(cs, hits[n - 1]);
        (
            cs2,
            match k {
                Some(e) => ks.push(e),
                None => ks,
            },
        )
    }
}

/// Whether some event reports the creep with this id killed.
pub open spec fn reported(killed: Seq<KilledEvent>, id: u64) -> bool {
    exists|j: int| 0 <= j < killed.len() && killed[j].who == id
}

/// A creep after the kill reports: dying if it was, or if it is reported.
pub open spec fn marked(c: Enemy, killed: Seq<KilledEvent>) -> Enemy {
    Enemy { dying: c.dying || reported(killed, c.id), ..c }
}

/// A creep after the sweep: gone if dying.
pub open spec fn swept(c: Enemy) -> Option<Enemy> {
    if c.dying {
        None
    } else {
        Some(c)
    }
}

/// Position of the first creep with the given id.
pub fn find_creep(creeps: &Vec<Enemy>, id: u64) -> (r: Option<usize>)
    ensures
        r matches Some(k) ==> creep_with_id(creeps@, id) == Some(k as int) && k < creeps@.len(),
        r is None ==> creep_with_id(creeps@, id) is None,
{
    let mut i: usize = 0;
    while i < creeps.len()
        invariant
            i <= creeps@.len(),
            first_where(creeps@, |c: Enemy| c.id == id, i as int) is None,
        decreases creeps@.len() - i,
    {
        if creeps[i].id == id {
            proof {
                lemma_first_where_stable(creeps@, |c: Enemy| c.id == id, i + 1, creeps@.len() as int);
            }
            return Some(i);
        }
        i = i + 1;
    }
    None
}

/// Applies the hits in order: each lowers its target's health by its damage
/// and reports the target killed when its health is then zero or below.
pub fn deal_projectile_damage(creeps: &mut Vec<Enemy>, hits: &Vec<HitEvent>) -> (killed: Vec<
    KilledEvent,
>)
    requires
        all_wf(old(creeps)@),
    ensures
        (final(creeps)@, killed@) == after_hits(old(creeps)@, hits@, hits@.len() as int),
        all_wf(final(creeps)@),
{
    let ghost before = creeps@;
    let mut killed: Vec<KilledEvent> = Vec::new();
    let mut i: usize = 0;
    while i < hits.len()
        invariant
            i <= hits@.len(),
            (creeps@, killed@) == after_hits(before, hits@, i as int),
            all_wf(creeps@),
        decreases hits@.len() - i,
    {
        let hit = hits[i];
        match find_creep(creeps, hit.target) {
            Some(k) => {
                let c = creeps[k];
                assert(creeps@[k as int].wf());
                if !c.dying {
                    let wide: i64 = c.health.current as i64 - hit.damage as i64;
                    let current: i32 = if wide < i32::MIN as i64 {
                        i32::MIN
                    } else if wide > i32::MAX as i64 {
                        i32::MAX
                    } else {
                        wide as i32
                    };
                    let h = Health { current, ..c.health };
                    creeps.set(k, Enemy { health: h, ..c });
                    if current <= 0 {
                        killed.push(KilledEvent { who: hit.target });
                    }
                    proof {
                        assert(creeps@[k as int].wf());
                    }
                }
            },
            None => {},
        }
        i = i + 1;
    }
    killed
}

/// Whether some event reports the creep with this id killed.
pub fn is_reported(killed: &Vec<KilledEvent>, id: u64) -> (r: bool)
    ensures
        r == reported(killed@, id),
{
    let mut j: usize = 0;
    while j < killed.len()
        invariant
            j <= killed@.len(),
            forall|m: int| 0 <= m < j ==> killed@[m].who != id,
        decreases killed@.len() - j,
    {
        if killed[j].who == id {
            return true;
        }
        j = j + 1;
    }
    false
}

/// Marks every creep reported killed as dying; marking one that is dying
/// already changes nothing.
pub fn on_enemy_killed(creeps: &mut Vec<Enemy>, killed: &Vec<KilledEvent>)
    requires
        all_wf(old(creeps)@),
    ensures
        final(creeps)@ == old(creeps)@.map_values(|c: Enemy| marked(c, killed@)),
        all_wf(final(creeps)@),
{
    let ghost before = creeps@;
    let mut i: usize = 0;
    while i < creeps.len()
        invariant
            i <= creeps@.len(),
            creeps@.len() == before.len(),
            all_wf(before),
            forall|j: int| 0 <= j < i ==> creeps@[j] == marked(#[trigger] before[j], killed@),
            forall|j: int| i <= j < creeps@.len() ==> creeps@[j] == before[j],
            forall|j: int| 0 <= j < creeps@.len() ==> #[trigger] creeps@[j].wf(),
        decreases creeps@.len() - i,
    {
        let c = creeps[i];
        assert(creeps@[i as int].wf());
        let hit = is_reported(killed, c.id);
        creeps.set(i, Enemy { dying: c.dying || hit, ..c });
        assert(creeps@[i as int].wf());
        i = i + 1;
    }
    assert(creeps@ =~= before.map_values(|c: Enemy| marked(c, killed@)));
}

/// Removes every dying creep.
pub fn despawn_dying(creeps: &mut Vec<Enemy>)
    requires
        all_wf(old(creeps)@),
    ensures
        final(creeps)@ == survivors(old(creeps)@.map_values(|c: Enemy| swept(c))),
        all_wf(final(creeps)@),
{
    let ghost steps = creeps@.map_values(|c: Enemy| swept(c));
    let mut out: Vec<Enemy> = Vec::new();
    let mut i: usize = 0;
    while i < creeps.len()
        invariant
            i <= creeps@.len(),
            steps == creeps@.map_values(|c: Enemy| swept(c)),
            all_wf(creeps@),
            out@ == kept(steps, i as int),
            all_wf(out@),
        decreases creeps@.len() - i,
    {
        let c = creeps[i];
        assert(steps[i as int] == swept(c));
        if !c.dying {
            assert(creeps@[i as int].wf());
            out.push(c);
        }
        i = i + 1;
    }
    *creeps = out;
}

} // verus!
