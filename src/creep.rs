//! Creeps and the path they follow: waypoint steering, arrival, movement
//! and spawning.
use vstd::prelude::*;
use crate::geom::{
    Vec2i, SCALE, SPEED_MAX, dist_sq, offset, toward, stepped, add_points,
    direction, distance_squared, move_step,
};
use crate::seqs::{kept, survivors, first_where, lemma_first_where_stable};
use crate::timer::RepeatingTimer;

verus! {

/// Health of a freshly spawned creep.
pub const SPAWN_HEALTH: i32 = 500;

/// Speed of a creep, in world units per second.
pub const CREEP_SPEED: i64 = 200;

/// Time between two spawns, in milliseconds.
pub const SPAWN_PERIOD_MS: u64 = 2000;

/// Squared distance under which a creep has reached its target: one world
/// unit, squared.
pub const ARRIVAL_SQ: u128 = 1_000_000;

#[derive(Clone, Copy, Debug, PartialEq, Eq, Structural)]
pub struct Health {
    pub current: i32,
    pub max: i32,
}

impl Health {
    pub fn full(max: i32) -> (r: Health)
        ensures
            r.current == max,
            r.max == max,
    {
        Health { current: max, max }
    }
}

/// Size of the health bar drawn over a creep, in position units.
#[derive(Clone, Copy, Debug, PartialEq, Eq, Structural)]
pub struct Healthbar {
    pub length: i64,
    pub height: i64,
}

impl Healthbar {
    /// The bar drawn over every creep: 64 by 10 world units.
    pub fn standard() -> (r: Healthbar)
        ensures
            r.length == 64_000,
            r.height == 10_000,
    {
        Healthbar { length: 64_000, height: 10_000 }
    }

    /// Length of the filled part of the bar: the share of health left, never
    /// below zero.
    pub fn fill_length(&self, health: Health) -> (r: i64)
        requires
            health.max > 0,
            0 <= self.length <= 1_000_000_000,
        ensures
            r == self.length * (if health.current > 0 {
                health.current as int
            } else {
                0
            }) / (health.max as int),
    {
        let left: i64 = if health.current > 0 {
            health.current as i64
        } else {
            0
        };
        assert(0 <= self.length * left <= 1_000_000_000 * 0x8000_0000) by (nonlinear_arith)
            requires
                0 <= self.length <= 1_000_000_000,
                0 <= left < 0x8000_0000,
        ;
        assert(self.length * left / (health.max as int) <= self.length * left) by (nonlinear_arith)
            requires
                0 <= self.length * left,
                health.max > 0,
        ;
        self.length * left / health.max as i64
    }
}

/// The index of the waypoint a creep is heading for.
#[derive(Clone, Copy, Debug, PartialEq, Eq, Structural)]
pub struct WaypointFollower {
    pub index: i32,
}

/// Speed in world units per second, and a direction of length `SCALE`.
#[derive(Clone, Copy, Debug, PartialEq, Eq, Structural)]
pub struct Velocity {
    pub speed: i64,
    pub direction: Vec2i,
}

/// A creep.
#[derive(Clone, Copy, Debug, PartialEq, Eq, Structural)]
pub struct Enemy {
    pub id: u64,
    pub health: Health,
    pub follower: WaypointFollower,
    pub position: Vec2i,
    pub velocity: Velocity,
    pub dying: bool,
}

impl Enemy {
    pub open spec fn wf(self) -> bool {
        &&& self.position.in_world()
        &&& self.velocity.direction.bounded_by(SCALE as int)
        &&& 0 <= self.velocity.speed <= SPEED_MAX
    }

    /// A creep as the spawner makes it.
    pub open spec fn fresh(id: u64, position: Vec2i) -> Enemy {
        Enemy {
            id,
            health: Health { current: SPAWN_HEALTH, max: SPAWN_HEALTH },
            follower: WaypointFollower { index: 0 },
            position,
            velocity: Velocity { speed: CREEP_SPEED, direction: Vec2i { x: 0, y: 0 } },
            dying: false,
        }
    }

    pub fn spawned(id: u64, position: Vec2i) -> (r: Enemy)
        ensures
            r == Enemy::fresh(id, position),
    {
        Enemy {
            id,
            health: Health::full(SPAWN_HEALTH),
            follower: WaypointFollower { index: 0 },
            position,
            velocity: Velocity { speed: CREEP_SPEED, direction: Vec2i::zero() },
            dying: false,
        }
    }
}

pub open spec fn all_wf(creeps: Seq<Enemy>) -> bool {
    forall|i: int| 0 <= i < creeps.len() ==> #[trigger] creeps[i].wf()
}

/// A checkpoint of the path; the path visits them by increasing index.
#[derive(Clone, Copy, Debug, PartialEq, Eq, Structural)]
pub struct Waypoint {
    pub index: i32,
    pub position: Vec2i,
}

/// Where creeps leave the level.
#[derive(Clone, Copy, Debug, PartialEq, Eq, Structural)]
pub struct EnemyFinish {
    pub position: Vec2i,
}

/// Produces a creep at its position each time its timer completes.
#[derive(Clone, Copy, Debug, PartialEq, Eq, Structural)]
pub struct EnemySpawner {
    pub timer: RepeatingTimer,
    pub position: Vec2i,
}

impl EnemySpawner {
    pub open spec fn wf(self) -> bool {
        self.timer.wf() && self.position.in_world()
    }

    pub fn new(position: Vec2i) -> (r: EnemySpawner)
        ensures
            r.position == position,
            r.timer.duration_ms == SPAWN_PERIOD_MS,
            r.timer.elapsed_ms == 0,
    {
        EnemySpawner { timer: RepeatingTimer::new(SPAWN_PERIOD_MS), position }
    }

    /// Advances the spawn timer by `dt_ms`; when it completes, a fresh creep
    /// with the given id stands at the spawner's position, shifted by `origin`.
    pub fn spawn_enemy(&mut self, dt_ms: u64, origin: Vec2i, id: u64) -> (r: Option<Enemy>)
        requires
            old(self).wf(),
            origin.in_world(),
            offset(old(self).position, origin).in_world(),
        ensures
            final(self).wf(),
            final(self).position == old(self).position,
            final(self).timer == old(self).timer.advanced(dt_ms as int),
            r == (if old(self).timer.completes(dt_ms as int) {
                Some(Enemy::fresh(id, offset(old(self).position, origin)))
            } else {
                None
            }),
            r matches Some(c) ==> c.wf(),
    {
        if !self.timer.tick(dt_ms) {
            return None;
        }
        let p = add_points(self.position, origin);
        Some(Enemy::spawned(id, p))
    }
}

/// The path: its waypoints, its finish, and the point that marker positions
/// are relative to.
#[derive(Debug)]
pub struct Course {
    pub waypoints: Vec<Waypoint>,
    pub finish: Option<EnemyFinish>,
    pub origin: Vec2i,
}

/// Position of the first waypoint with the given index.
pub open spec fn waypoint_for(wps: Seq<Waypoint>, index: i32) -> Option<int> {
    first_where(wps, |w: Waypoint| w.index == index, wps.len() as int)
}

/// The point a creep with the given waypoint index heads for, and whether it
/// is a waypoint (else it is the finish); none when the path is exhausted and
/// there is no finish.
pub open spec fn heading_point(course: Course, index: i32) -> Option<(Vec2i, bool)> {
    match waypoint_for(course.waypoints@, index) {
        Some(k) => Some((offset(course.waypoints@[k].position, course.origin), true)),
        None => match course.finish {
            Some(f) => Some((offset(f.position, course.origin), false)),
            None => None,
        },
    }
}

/// A creep steered toward its target; none when it has nowhere to go.
pub open spec fn steer(course: Course, c: Enemy) -> Option<Enemy> {
    match heading_point(course, c.follower.index) {
        Some((p, _)) => Some(
            Enemy {
                velocity: Velocity {
                    direction: toward(c.position, p.x as int, p.y as int),
                    ..c.velocity
                },
                ..c
            },
        ),
        None => None,
    }
}

/// The creep after its waypoint index moved one further.
pub open spec fn advance(c: Enemy) -> Enemy {
    if c.follower.index < i32::MAX {
        Enemy { follower: WaypointFollower { index: (c.follower.index + 1) as i32 }, ..c }
    } else {
        c
    }
}

/// A creep after the arrival check; none when it reached the finish.
pub open spec fn arrive(course: Course, c: Enemy) -> Option<Enemy> {
    match heading_point(course, c.follower.index) {
        Some((p, true)) => if dist_sq(c.position, p) < ARRIVAL_SQ {
            Some(advance(c))
        } else {
            Some(c)
        },
        Some((p, false)) => if dist_sq(c.position, p) < ARRIVAL_SQ {
            None
        } else {
            Some(c)
        },
        None => Some(c),
    }
}

/// A creep after moving for `dt_ms` at its velocity.
pub open spec fn moved(c: Enemy, dt_ms: int) -> Enemy {
    Enemy {
        position: stepped(c.position, c.velocity.direction, c.velocity.speed as int, dt_ms),
        ..c
    }
}

impl Course {
    pub open spec fn wf(self) -> bool {
        &&& self.origin.in_world()
        &&& forall|i: int|
            0 <= i < self.waypoints@.len() ==> #[trigger] offset(
                self.waypoints@[i].position,
                self.origin,
            ).in_world() && self.waypoints@[i].position.in_world()
        &&& self.finish matches Some(f) ==> f.position.in_world() && offset(
            f.position,
            self.origin,
        ).in_world()
    }

    /// Position in `waypoints` of the first waypoint with the given index.
    pub fn find_waypoint(&self, index: i32) -> (r: Option<usize>)
        ensures
            r matches Some(k) ==> waypoint_for(self.waypoints@, index) == Some(k as int) && k
                < self.waypoints@.len(),
            r is None ==> waypoint_for(self.waypoints@, index) is None,
    {
        let mut i: usize = 0;
        while i < self.waypoints.len()
            invariant
                i <= self.waypoints@.len(),
                first_where(self.waypoints@, |w: Waypoint| w.index == index, i as int) is None,
            decreases self.waypoints@.len() - i,
        {
            if self.waypoints[i].index == index {
                proof {
                    lemma_first_where_stable(
                        self.waypoints@,
                        |w: Waypoint| w.index == index,
                        i + 1,
                        self.waypoints@.len() as int,
                    );
                }
                return Some(i);
            }
            i = i + 1;
        }
        None
    }

    /// See `heading_point`.
    pub fn heading_point(&self, index: i32) -> (r: Option<(Vec2i, bool)>)
        requires
            self.wf(),
        ensures
            r == heading_point(*self, index),
            r matches Some((p, _)) ==> p.in_world(),
    {
        match self.find_waypoint(index) {
            Some(k) => {
                let wp = self.waypoints[k];
                assert(offset(self.waypoints@[k as int].position, self.origin).in_world());
                Some((add_points(wp.position, self.origin), true))
            },
            None => match self.finish {
                Some(f) => Some((add_points(f.position, self.origin), false)),
                None => None,
            },
        }
    }

    fn steer_one(&self, c: Enemy) -> (r: Option<Enemy>)
        requires
            self.wf(),
            c.wf(),
        ensures
            r == steer(*self, c),
            r matches Some(d) ==> d.wf(),
    {
        match self.heading_point(c.follower.index) {
            Some((p, _)) => {
                let dir = direction(c.position, p);
                Some(Enemy { velocity: Velocity { direction: dir, ..c.velocity }, ..c })
            },
            None => None,
        }
    }

    fn arrive_one(&self, c: Enemy) -> (r: Option<Enemy>)
        requires
            self.wf(),
            c.wf(),
        ensures
            r == arrive(*self, c),
            r matches Some(d) ==> d.wf(),
    {
        match self.heading_point(c.follower.index) {
            Some((p, at_waypoint)) => {
                let near = distance_squared(c.position, p) < ARRIVAL_SQ;
                if at_waypoint {
                    if near && c.follower.index < i32::MAX {
                        Some(Enemy { follower: WaypointFollower { index: c.follower.index + 1 }, ..c })
                    } else {
                        Some(c)
                    }
                } else if near {
                    None
                } else {
                    Some(c)
                }
            },
            None => Some(c),
        }
    }

    /// Points every creep at its current target: its waypoint, else the
    /// finish. A creep with neither is removed.
    pub fn follow_waypoint(&self, creeps: &mut Vec<Enemy>)
        requires
            self.wf(),
            all_wf(old(creeps)@),
        ensures
            final(creeps)@ == survivors(old(creeps)@.map_values(|c: Enemy| steer(*self, c))),
            all_wf(final(creeps)@),
    {
        let ghost steps = creeps@.map_values(|c: Enemy| steer(*self, c));
        let mut out: Vec<Enemy> = Vec::new();
        let mut i: usize = 0;
        while i < creeps.len()
            invariant
                i <= creeps@.len(),
                steps.len() == creeps@.len(),
                steps == creeps@.map_values(|c: Enemy| steer(*self, c)),
                self.wf(),
                all_wf(creeps@),
                out@ == kept(steps, i as int),
                all_wf(out@),
            decreases creeps@.len() - i,
        {
            let r = self.steer_one(creeps[i]);
            assert(steps[i as int] == r);
            match r {
                Some(c) => out.push(c),
                None => {},
            }
            i = i + 1;
        }
        *creeps = out;
    }

    /// Moves every creep within one world unit of its waypoint to the next
    /// index, and removes every creep within one world unit of the finish.
    pub fn reach_waypoint(&self, creeps: &mut Vec<Enemy>)
        requires
            self.wf(),
            all_wf(old(creeps)@),
        ensures
            final(creeps)@ == survivors(old(creeps)@.map_values(|c: Enemy| arrive(*self, c))),
            all_wf(final(creeps)@),
    {
        let ghost steps = creeps@.map_values(|c: Enemy| arrive(*self, c));
        let mut out: Vec<Enemy> = Vec::new();
        let mut i: usize = 0;
        while i < creeps.len()
            invariant
                i <= creeps@.len(),
                steps.len() == creeps@.len(),
                steps == creeps@.map_values(|c: Enemy| arrive(*self, c)),
                self.wf(),
                all_wf(creeps@),
                out@ == kept(steps, i as int),
                all_wf(out@),
            decreases creeps@.len() - i,
        {
            let r = self.arrive_one(creeps[i]);
            assert(steps[i as int] == r);
            match r {
                Some(c) => out.push(c),
                None => {},
            }
            i = i + 1;
        }
        *creeps = out;
    }
}

/// Moves every creep along its velocity for `dt_ms` milliseconds.
pub fn do_move_step(creeps: &mut Vec<Enemy>, dt_ms: u32)
    requires
        all_wf(old(creeps)@),
    ensures
        final(creeps)@ == old(creeps)@.map_values(|c: Enemy| moved(c, dt_ms as int)),
        all_wf(final(creeps)@),
{
    let ghost before = creeps@;
    let mut i: usize = 0;
    while i < creeps.len()
        invariant
            i <= creeps@.len(),
            creeps@.len() == before.len(),
            all_wf(before),
            forall|j: int| 0 <= j < i ==> creeps@[j] == moved(#[trigger] before[j], dt_ms as int),
            forall|j: int| i <= j < creeps@.len() ==> creeps@[j] == before[j],
            forall|j: int| 0 <= j < creeps@.len() ==> #[trigger] creeps@[j].wf(),
        decreases creeps@.len() - i,
    {
        let c = creeps[i];
        assert(creeps@[i as int].wf());
        let p = move_step(c.position, c.velocity.direction, c.velocity.speed, dt_ms);
        creeps.set(i, Enemy { position: p, ..c });
        i = i + 1;
    }
    assert(creeps@ =~= before.map_values(|c: Enemy| moved(c, dt_ms as int)));
}

} // verus!
