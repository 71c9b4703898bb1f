//! Towers, target selection, and projectiles.
use vstd::prelude::*;
use crate::creep::{Enemy, all_wf};
use crate::geom::{
    Vec2i, SCALE, COORD_MAX, dist_sq, offset, toward, stepped, clamp, isqrt,
    add_points, direction, distance_squared, move_step, isqrt_u128,
};
use crate::lifecycle::{HitEvent, creep_with_id, find_creep};
use crate::seqs::{kept, survivors};
use crate::timer::RepeatingTimer;

verus! {

/// Damage dealt by every projectile.
pub const PROJECTILE_DAMAGE: i32 = 40;

/// Speed of an arrow, in world units per second.
pub const FOLLOWER_SPEED: i64 = 800;

/// Speed of a bomb along the ground, in world units per second.
pub const POINTER_SPEED: i64 = 100;

/// Squared distance under which an arrow hits: twenty world units, squared.
pub const FOLLOWER_HIT_SQ: u128 = 400_000_000;

/// Squared distance under which a bomb lands: ten world units, squared.
pub const POINTER_LAND_SQ: u128 = 100_000_000;

/// Height above the tower at which its shots start: sixteen world units.
pub const LAUNCH_HEIGHT: i64 = 16_000;

/// Range of an arrow tower: 450 world units.
pub const ARROW_RANGE: i64 = 450_000;

/// Range of a bomb tower: 300 world units.
pub const BOMB_RANGE: i64 = 300_000;

/// Largest tower range, in position units.
pub const RANGE_MAX: i64 = 1_000_000_000;

#[derive(Clone, Copy, Debug, PartialEq, Eq, Structural)]
pub enum TowerType {
    Arrow,
    Bomb,
}

/// What a tower fires with: where shots start relative to the tower, its
/// cooldown, and its range in position units.
#[derive(Clone, Copy, Debug, PartialEq, Eq, Structural)]
pub struct Launcher {
    pub relative_start: Vec2i,
    pub cooldown: RepeatingTimer,
    pub range: i64,
}

#[derive(Clone, Copy, Debug, PartialEq, Eq, Structural)]
pub struct Tower {
    pub position: Vec2i,
    pub tower_type: TowerType,
    pub launcher: Launcher,
}

/// An arrow: flies at the creep with id `target`, wherever it goes.
#[derive(Clone, Copy, Debug, PartialEq, Eq, Structural)]
pub struct Follower {
    pub speed: i64,
    pub target: u64,
}

/// A bomb: flies along the ground from `source` to the point `target`, which
/// was fixed at launch; `pos` is where it is over the ground.
#[derive(Clone, Copy, Debug, PartialEq, Eq, Structural)]
pub struct Pointer {
    pub speed: i64,
    pub target: Vec2i,
    pub pos: Vec2i,
    pub source: Vec2i,
}

#[derive(Clone, Copy, Debug, PartialEq, Eq, Structural)]
pub enum Motion {
    Follow(Follower),
    Point(Pointer),
}

/// A projectile in flight: `position` is where it is drawn, `heading` the
/// direction it faces.
#[derive(Clone, Copy, Debug, PartialEq, Eq, Structural)]
pub struct Projectile {
    pub damage: i32,
    pub position: Vec2i,
    pub heading: Vec2i,
    pub motion: Motion,
}

impl Tower {
    pub open spec fn wf(self) -> bool {
        &&& self.position.in_world()
        &&& offset(self.position, self.launcher.relative_start).in_world()
        &&& self.launcher.relative_start.in_world()
        &&& self.launcher.cooldown.wf()
        &&& 0 <= self.launcher.range <= RANGE_MAX
    }

    /// The tower of the given type that stands at `position`.
    pub open spec fn of_type(tower_type: TowerType, position: Vec2i) -> Tower {
        let start = Vec2i { x: 0, y: LAUNCH_HEIGHT };
        Tower {
            position,
            tower_type,
            launcher: match tower_type {
                TowerType::Arrow => Launcher {
                    relative_start: start,
                    cooldown: RepeatingTimer { duration_ms: 1000, elapsed_ms: 0 },
                    range: ARROW_RANGE,
                },
                TowerType::Bomb => Launcher {
                    relative_start: start,
                    cooldown: RepeatingTimer { duration_ms: 3000, elapsed_ms: 0 },
                    range: BOMB_RANGE,
                },
            },
        }
    }

    /// Builds a tower: an arrow tower fires every second at creeps within 450
    /// world units, a bomb tower every three seconds within 300; both launch
    /// from 16 world units above the tower.
    pub fn build(tower_type: TowerType, position: Vec2i) -> (r: Tower)
        ensures
            r == Tower::of_type(tower_type, position),
    {
        let start = Vec2i::new(0, LAUNCH_HEIGHT);
        let launcher = match tower_type {
            TowerType::Arrow => Launcher {
                relative_start: start,
                cooldown: RepeatingTimer::new(1000),
                range: ARROW_RANGE,
            },
            TowerType::Bomb => Launcher {
                relative_start: start,
                cooldown: RepeatingTimer::new(3000),
                range: BOMB_RANGE,
            },
        };
        Tower { position, tower_type, launcher }
    }
}

impl Projectile {
    pub open spec fn wf(self) -> bool {
        match self.motion {
            Motion::Follow(f) => self.position.in_world() && 0 <= f.speed <= 1_000_000,
            Motion::Point(p) => {
                &&& p.pos.in_world()
                &&& p.target.in_world()
                &&& p.source.in_world()
                &&& 0 <= p.speed <= 1_000_000
                &&& self.position.bounded_by(2 * COORD_MAX)
            },
        }
    }
}

pub open spec fn all_projectiles_wf(ps: Seq<Projectile>) -> bool {
    forall|i: int| 0 <= i < ps.len() ==> #[trigger] ps[i].wf()
}

pub open spec fn all_towers_wf(ts: Seq<Tower>) -> bool {
    forall|i: int| 0 <= i < ts.len() ==> #[trigger] ts[i].wf()
}

/// A creep that a tower at `from` with this range may target.
pub open spec fn targetable(c: Enemy, from: Vec2i, range: int) -> bool {
    !c.dying && dist_sq(c.position, from) <= range * range
}

/// The nearest targetable creep among the first `n`, the first one among
/// equally near ones.
pub open spec fn closest_among(creeps: Seq<Enemy>, from: Vec2i, range: int, n: int) -> Option<int>
    decreases n,
{
    if n <= 0 || n > creeps.len() {
        None
    } else {
        let prev = closest_among(creeps, from, range, n - 1);
        let c = creeps[n - 1];
        if !targetable(c, from, range) {
            prev
        } else {
            match prev {
                None => Some(n - 1),
                Some(k) => if dist_sq(c.position, from) < dist_sq(creeps[k].position, from) {
                    Some(n - 1)
                } else {
                    Some(k)
                },
            }
        }
    }
}

pub open spec fn closest_enemy(creeps: Seq<Enemy>, from: Vec2i, range: int) -> Option<int> {
    closest_among(creeps, from, range, creeps.len() as int)
}

/// The target picked among the first `n` creeps is targetable, no farther
/// than any other targetable one, and strictly nearer than every targetable
/// one before it; none is picked only when none is targetable.
pub proof fn lemma_closest_among(creeps: Seq<Enemy>, from: Vec2i, range: int, n: int)
    requires
        0 <= n <= creeps.len(),
    ensures
        match closest_among(creeps, from, range, n) {
            Some(k) => {
                &&& 0 <= k < n
                &&& targetable(creeps[k], from, range)
                &&& forall|j: int|
                    0 <= j < n && targetable(#[trigger] creeps[j], from, range) ==> dist_sq(
                        creeps[k].position,
                        from,
                    ) <= dist_sq(creeps[j].position, from)
                &&& forall|j: int|
                    0 <= j < k && targetable(#[trigger] creeps[j], from, range) ==> dist_sq(
                        creeps[k].position,
                        from,
                    ) < dist_sq(creeps[j].position, from)
            },
            None => forall|j: int| 0 <= j < n ==> !targetable(#[trigger] creeps[j], from, range),
        },
    decreases n,
{
    if n > 0 {
        lemma_closest_among(creeps, from, range, n - 1);
    }
}

/// The shot a tower fires at `target`: an arrow tower an arrow at the creep,
/// a bomb tower a bomb at the point where the creep stands.
pub open spec fn launched(t: Tower, target: Enemy) -> Projectile {
    let start = offset(t.position, t.launcher.relative_start);
    match t.tower_type {
        TowerType::Arrow => Projectile {
            damage: PROJECTILE_DAMAGE,
            position: start,
            heading: toward(t.position, target.position.x as int, target.position.y as int),
            motion: Motion::Follow(Follower { speed: FOLLOWER_SPEED, target: target.id }),
        },
        TowerType::Bomb => Projectile {
            damage: PROJECTILE_DAMAGE,
            position: start,
            heading: Vec2i { x: 0, y: 0 },
            motion: Motion::Point(
                Pointer { speed: POINTER_SPEED, target: target.position, pos: start, source: start },
            ),
        },
    }
}

/// The tower after its cooldown ran for `dt_ms`.
pub open spec fn cooled(t: Tower, dt_ms: int) -> Tower {
    Tower {
        launcher: Launcher { cooldown: t.launcher.cooldown.advanced(dt_ms), ..t.launcher },
        ..t
    }
}

/// What a tower fires during a tick of `dt_ms`: nothing unless its cooldown
/// completes, then a shot at the nearest targetable creep, if there is one.
pub open spec fn shot(t: Tower, creeps: Seq<Enemy>, dt_ms: int) -> Option<Projectile> {
    if !t.launcher.cooldown.completes(dt_ms) {
        None
    } else {
        match closest_enemy(creeps, t.position, t.launcher.range as int) {
            Some(k) => Some(launched(t, creeps[k])),
            None => None,
        }
    }
}

/// Position of the nearest targetable creep within `range` of `from`: not
/// dying, and at a distance no greater than `range`; the first one wins
/// among equally near ones.
pub fn find_closest_enemy(creeps: &Vec<Enemy>, from: Vec2i, range: i64) -> (r: Option<usize>)
    requires
        all_wf(creeps@),
        from.in_world(),
        0 <= range <= RANGE_MAX,
    ensures
        r matches Some(k) ==> closest_enemy(creeps@, from, range as int) == Some(k as int),
        r is None ==> closest_enemy(creeps@, from, range as int) is None,
        r matches Some(k) ==> k < creeps@.len(),
{
    assert(range * range <= 1_000_000_000_000_000_000) by (nonlinear_arith)
        requires
            0 <= range <= 1_000_000_000,
    ;
    let range_sq: u128 = (range as u128) * (range as u128);
    let mut best: Option<usize> = None;
    let mut best_d: u128 = 0;
    let mut i: usize = 0;
    while i < creeps.len()
        invariant
            i <= creeps@.len(),
            all_wf(creeps@),
            from.in_world(),
            range_sq == range * range,
            best matches Some(k) ==> closest_among(creeps@, from, range as int, i as int) == Some(
                k as int,
            ) && k < i && best_d == dist_sq(creeps@[k as int].position, from),
            best is None ==> closest_among(creeps@, from, range as int, i as int) is None,
        decreases creeps@.len() - i,
    {
        let c = creeps[i];
        assert(creeps@[i as int].wf());
        let d = distance_squared(c.position, from);
        if !c.dying && d <= range_sq {
            match best {
                None => {
                    best = Some(i);
                    best_d = d;
                },
                Some(_) => {
                    if d < best_d {
                        best = Some(i);
                        best_d = d;
                    }
                },
            }
        }
        i = i + 1;
    }
    best
}

impl Tower {
    /// Runs the cooldown for `dt_ms`; when it completes, fires at the nearest
    /// targetable creep, if any. The cooldown starts over either way.
    pub fn fire(&mut self, creeps: &Vec<Enemy>, dt_ms: u64) -> (r: Option<Projectile>)
        requires
            old(self).wf(),
            all_wf(creeps@),
        ensures
            *final(self) == cooled(*old(self), dt_ms as int),
            final(self).wf(),
            r == shot(*old(self), creeps@, dt_ms as int),
            r matches Some(p) ==> p.wf(),
    {
        let finished = self.launcher.cooldown.tick(dt_ms);
        if !finished {
            return None;
        }
        match find_closest_enemy(creeps, self.position, self.launcher.range) {
            None => None,
            Some(k) => {
                let target = creeps[k];
                assert(creeps@[k as int].wf());
                let start = add_points(self.position, self.launcher.relative_start);
                match self.tower_type {
                    TowerType::Arrow => Some(
                        Projectile {
                            damage: PROJECTILE_DAMAGE,
                            position: start,
                            heading: direction(self.position, target.position),
                            motion: Motion::Follow(
                                Follower { speed: FOLLOWER_SPEED, target: target.id },
                            ),
                        },
                    ),
                    TowerType::Bomb => Some(
                        Projectile {
                            damage: PROJECTILE_DAMAGE,
                            position: start,
                            heading: Vec2i::zero(),
                            motion: Motion::Point(
                                Pointer {
                                    speed: POINTER_SPEED,
                                    target: target.position,
                                    pos: start,
                                    source: start,
                                },
                            ),
                        },
                    ),
                }
            },
        }
    }
}

/// Runs every tower's cooldown for `dt_ms` and collects the shots fired, in
/// tower order.
pub fn throw_projectiles(towers: &mut Vec<Tower>, creeps: &Vec<Enemy>, dt_ms: u64) -> (shots: Vec<
    Projectile,
>)
    requires
        all_towers_wf(old(towers)@),
        all_wf(creeps@),
    ensures
        final(towers)@ == old(towers)@.map_values(|t: Tower| cooled(t, dt_ms as int)),
        shots@ == survivors(old(towers)@.map_values(|t: Tower| shot(t, creeps@, dt_ms as int))),
        all_towers_wf(final(towers)@),
        all_projectiles_wf(shots@),
{
    let ghost before = towers@;
    let ghost steps = before.map_values(|t: Tower| shot(t, creeps@, dt_ms as int));
    let mut shots: Vec<Projectile> = Vec::new();
    let mut i: usize = 0;
    while i < towers.len()
        invariant
            i <= towers@.len(),
            towers@.len() == before.len(),
            steps == before.map_values(|t: Tower| shot(t, creeps@, dt_ms as int)),
            all_towers_wf(before),
            all_wf(creeps@),
            forall|j: int| 0 <= j < i ==> towers@[j] == cooled(#[trigger] before[j], dt_ms as int),
            forall|j: int| i <= j < towers@.len() ==> towers@[j] == before[j],
            forall|j: int| 0 <= j < towers@.len() ==> #[trigger] towers@[j].wf(),
            shots@ == kept(steps, i as int),
            all_projectiles_wf(shots@),
        decreases towers@.len() - i,
    {
        let mut t = towers[i];
        assert(towers@[i as int].wf());
        let r = t.fire(creeps, dt_ms);
        towers.set(i, t);
        assert(steps[i as int] == r);
        match r {
            Some(p) => shots.push(p),
            None => {},
        }
        i = i + 1;
    }
    assert(towers@ =~= before.map_values(|t: Tower| cooled(t, dt_ms as int)));
    shots
}

/// Fraction of the way from `source` to `target` that a bomb at `pos` has
/// covered, in thousandths, within `[0, 1000]`; a bomb whose source is its
/// target has arrived.
pub open spec fn progress(source: Vec2i, target: Vec2i, pos: Vec2i) -> int {
    let total = isqrt(dist_sq(target, source) as nat) as int;
    let remaining = isqrt(dist_sq(target, pos) as nat) as int;
    if total == 0 {
        1000
    } else {
        clamp(1000 - (1000 * remaining) / total, 0, 1000)
    }
}

/// How high a bomb is drawn above the ground: a parabola over the progress,
/// zero at both ends and thirty world units halfway.
pub open spec fn arc_lift(source: Vec2i, target: Vec2i, pos: Vec2i) -> int {
    let p = progress(source, target, pos);
    let coef = 1000 - if 2 * p >= 1000 {
        2 * p - 1000
    } else {
        1000 - 2 * p
    };
    (coef * coef * 3) / 100
}

/// An arrow after a tick: gone without effect when its target is gone or
/// dying; else moved toward the target, and gone with a hit once within
/// twenty world units of it.
pub open spec fn follower_step(p: Projectile, f: Follower, creeps: Seq<Enemy>, dt_ms: int) -> (
    Option<Projectile>,
    Option<HitEvent>,
) {
    match creep_with_id(creeps, f.target) {
        Some(k) => if creeps[k].dying {
            (None, None)
        } else {
            let t = creeps[k].position;
            let dir = toward(p.position, t.x as int, t.y as int);
            let pos = stepped(p.position, dir, f.speed as int, dt_ms);
            if dist_sq(t, pos) < FOLLOWER_HIT_SQ {
                (None, Some(HitEvent { damage: p.damage, target: f.target }))
            } else {
                (Some(Projectile { position: pos, heading: dir, ..p }), None)
            }
        },
        None => (None, None),
    }
}

/// A bomb after a tick: moved toward its fixed target along the ground and
/// drawn on its arc; gone once within ten world units of the target.
pub open spec fn pointer_step(p: Projectile, b: Pointer, dt_ms: int) -> Option<Projectile> {
    let dir = toward(b.pos, b.target.x as int, b.target.y as int);
    let pos = stepped(b.pos, dir, b.speed as int, dt_ms);
    if dist_sq(b.target, pos) < POINTER_LAND_SQ {
        None
    } else {
        Some(
            Projectile {
                position: Vec2i {
                    x: pos.x,
                    y: (pos.y + arc_lift(b.source, b.target, pos)) as i64,
                },
                motion: Motion::Point(Pointer { pos, ..b }),
                ..p
            },
        )
    }
}

/// A projectile after a tick, and the hit it makes, if any.
pub open spec fn flown(p: Projectile, creeps: Seq<Enemy>, dt_ms: int) -> (
    Option<Projectile>,
    Option<HitEvent>,
) {
    match p.motion {
        Motion::Follow(f) => follower_step(p, f, creeps, dt_ms),
        Motion::Point(b) => (pointer_step(p, b, dt_ms), None),
    }
}

/// See `arc_lift`.
pub fn arc_height(source: Vec2i, target: Vec2i, pos: Vec2i) -> (r: i64)
    requires
        source.in_world(),
        target.in_world(),
        pos.in_world(),
    ensures
        r == arc_lift(source, target, pos),
        0 <= r <= 30 * SCALE,
{
    let total = isqrt_u128(distance_squared(target, source));
    let remaining = isqrt_u128(distance_squared(target, pos));
    let p: i64 = if total == 0 {
        1000
    } else {
        assert(remaining < 0x1_0000_0000_0000) by (nonlinear_arith)
            requires
                remaining * remaining < 0x100_0000_0000_0000_0000_0000,
        ;
        let covered: u128 = (1000 * remaining) / total;
        if covered >= 1000 {
            0
        } else {
            1000 - covered as i64
        }
    };
    let coef: i64 = if 2 * p >= 1000 {
        1000 - (2 * p - 1000)
    } else {
        1000 - (1000 - 2 * p)
    };
    assert(0 <= coef * coef <= 1_000_000) by (nonlinear_arith)
        requires
            0 <= coef <= 1000,
    ;
    (coef * coef * 3) / 100
}

/// Moves an arrow; see `follower_step`.
pub fn projectile_follow_step(p: Projectile, f: Follower, creeps: &Vec<Enemy>, dt_ms: u32) -> (r: (
    Option<Projectile>,
    Option<HitEvent>,
))
    requires
        p.wf(),
        p.motion == Motion::Follow(f),
        all_wf(creeps@),
    ensures
        r == follower_step(p, f, creeps@, dt_ms as int),
        r.0 matches Some(q) ==> q.wf(),
{
    match find_creep(creeps, f.target) {
        Some(k) => {
            let c = creeps[k];
            assert(creeps@[k as int].wf());
            if c.dying {
                return (None, None);
            }
            let dir = direction(p.position, c.position);
            let pos = move_step(p.position, dir, f.speed, dt_ms);
            if distance_squared(c.position, pos) < FOLLOWER_HIT_SQ {
                (None, Some(HitEvent { damage: p.damage, target: f.target }))
            } else {
                (Some(Projectile { position: pos, heading: dir, ..p }), None)
            }
        },
        None => (None, None),
    }
}

/// Moves a bomb; see `pointer_step`.
pub fn pointer_follow_step(p: Projectile, b: Pointer, dt_ms: u32) -> (r: Option<Projectile>)
    requires
        p.wf(),
        p.motion == Motion::Point(b),
    ensures
        r == pointer_step(p, b, dt_ms as int),
        r matches Some(q) ==> q.wf(),
{
    let dir = direction(b.pos, b.target);
    let pos = move_step(b.pos, dir, b.speed, dt_ms);
    if distance_squared(b.target, pos) < POINTER_LAND_SQ {
        None
    } else {
        let lift = arc_height(b.source, b.target, pos);
        Some(
            Projectile {
                position: Vec2i { x: pos.x, y: pos.y + lift },
                motion: Motion::Point(Pointer { pos, ..b }),
                ..p
            },
        )
    }
}

/// The projectiles among the first `n` that are still in flight after a
/// tick, and the hits made, both in order.
pub open spec fn after_flight(ps: Seq<Projectile>, creeps: Seq<Enemy>, dt_ms: int, n: int) -> (
    Seq<Projectile>,
    Seq<HitEvent>,
)
    decreases n,
{
    if n <= 0 || n > ps.len() {
        (Seq::empty(), Seq::empty())
    } else {
        let (qs, hs) = after_flight(ps, creeps, dt_ms, n - 1);
        let (q, h) = flown(ps[n - 1], creeps, dt_ms);
        (
            match q {
                Some(v) => qs.push(v),
                None => qs,
            },
            match h {
                Some(e) => hs.push(e),
                None => hs,
            },
        )
    }
}

/// Moves every projectile for `dt_ms`, removes those that hit, landed or
/// lost their target, and returns the hits in projectile order.
pub fn advance_projectiles(ps: &mut Vec<Projectile>, creeps: &Vec<Enemy>, dt_ms: u32) -> (hits: Vec<
    HitEvent,
>)
    requires
        all_projectiles_wf(old(ps)@),
        all_wf(creeps@),
    ensures
        (final(ps)@, hits@) == after_flight(old(ps)@, creeps@, dt_ms as int, old(ps)@.len() as int),
        all_projectiles_wf(final(ps)@),
{
    let mut out: Vec<Projectile> = Vec::new();
    let mut hits: Vec<HitEvent> = Vec::new();
    let mut i: usize = 0;
    while i < ps.len()
        invariant
            i <= ps@.len(),
            all_projectiles_wf(ps@),
            all_wf(creeps@),
            (out@, hits@) == after_flight(ps@, creeps@, dt_ms as int, i as int),
            all_projectiles_wf(out@),
        decreases ps@.len() - i,
    {
        let p = ps[i];
        assert(ps@[i as int].wf());
        let (q, h) = match p.motion {
            Motion::Follow(f) => projectile_follow_step(p, f, creeps, dt_ms),
            Motion::Point(b) => (pointer_follow_step(p, b, dt_ms), None),
        };
        match q {
            Some(v) => out.push(v),
            None => {},
        }
        match h {
            Some(e) => hits.push(e),
            None => {},
        }
        i = i + 1;
    }
    *ps = out;
    hits
}

} // verus!
