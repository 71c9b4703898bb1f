//! The simulation state and one frame of it.
use vstd::prelude::*;
use crate::combat::{
    Tower, Projectile, all_towers_wf, all_projectiles_wf, cooled, shot, after_flight,
    throw_projectiles, advance_projectiles,
};
use crate::creep::{
    Enemy, EnemySpawner, EnemyFinish, Course, Waypoint, all_wf, steer, arrive, moved, do_move_step,
};
use crate::geom::{Vec2i, offset, COORD_MAX};
use crate::level::LevelSetup;
use crate::lifecycle::{
    KilledEvent, after_hits, marked, swept, deal_projectile_damage, on_enemy_killed,
    despawn_dying,
};
use crate::seqs::survivors;

verus! {

/// Everything that changes during play, with the path it runs on.
#[derive(Debug)]
pub struct World {
    pub course: Course,
    pub spawner: Option<EnemySpawner>,
    pub creeps: Vec<Enemy>,
    pub towers: Vec<Tower>,
    pub projectiles: Vec<Projectile>,
    /// The id the next spawned creep gets.
    pub next_id: u64,
}

/// Creep ids are distinct and below `next_id`.
pub open spec fn ids_fresh(creeps: Seq<Enemy>, next_id: u64) -> bool {
    &&& forall|i: int| 0 <= i < creeps.len() ==> #[trigger] creeps[i].id < next_id
    &&& forall|i: int, j: int|
        0 <= i < creeps.len() && 0 <= j < creeps.len() && creeps[i].id == creeps[j].id ==> i == j
}

/// The spawner after a frame of `dt_ms`.
pub open spec fn spawner_after(s: Option<EnemySpawner>, dt_ms: int) -> Option<EnemySpawner> {
    match s {
        Some(sp) => Some(EnemySpawner { timer: sp.timer.advanced(dt_ms), ..sp }),
        None => None,
    }
}

/// The creep spawned during a frame of `dt_ms`, if any; none once ids are
/// used up.
pub open spec fn spawned(
    s: Option<EnemySpawner>,
    course: Course,
    next_id: u64,
    dt_ms: int,
) -> Option<Enemy> {
    match s {
        Some(sp) => if sp.timer.completes(dt_ms) && next_id < u64::MAX {
            Some(Enemy::fresh(next_id, offset(sp.position, course.origin)))
        } else {
            None
        },
        None => None,
    }
}

/// The creeps after the spawn: a spawned creep joins at the end.
pub open spec fn with_spawned(creeps: Seq<Enemy>, c: Option<Enemy>) -> Seq<Enemy> {
    match c {
        Some(e) => creeps.push(e),
        None => creeps,
    }
}

/// The creeps after spawning, the arrival check, steering and moving.
pub open spec fn creeps_moved(w: World, dt_ms: int) -> Seq<Enemy> {
    let c0 = with_spawned(w.creeps@, spawned(w.spawner, w.course, w.next_id, dt_ms));
    let c1 = survivors(c0.map_values(|c: Enemy| arrive(w.course, c)));
    let c2 = survivors(c1.map_values(|c: Enemy| steer(w.course, c)));
    c2.map_values(|c: Enemy| moved(c, dt_ms))
}

/// The shots fired during the frame, in tower order.
pub open spec fn shots_fired(w: World, dt_ms: int) -> Seq<Projectile> {
    survivors(w.towers@.map_values(|t: Tower| shot(t, creeps_moved(w, dt_ms), dt_ms)))
}

/// The projectiles that were in flight before the frame, after moving, and
/// the hits they made.
pub open spec fn flight(w: World, dt_ms: int) -> (Seq<Projectile>, Seq<crate::lifecycle::HitEvent>) {
    after_flight(w.projectiles@, creeps_moved(w, dt_ms), dt_ms, w.projectiles@.len() as int)
}

/// The creeps after the hits, and the kills reported.
pub open spec fn creeps_hit(w: World, dt_ms: int) -> (Seq<Enemy>, Seq<KilledEvent>) {
    let hits = flight(w, dt_ms).1;
    after_hits(creeps_moved(w, dt_ms), hits, hits.len() as int)
}

/// The creeps at the end of the frame: the killed ones marked dying, and all
/// dying ones removed.
pub open spec fn creeps_after(w: World, dt_ms: int) -> Seq<Enemy> {
    let (c4, killed) = creeps_hit(w, dt_ms);
    survivors(c4.map_values(|c: Enemy| marked(c, killed)).map_values(|c: Enemy| swept(c)))
}

impl World {
    pub open spec fn wf(self) -> bool {
        &&& self.course.wf()
        &&& self.spawner matches Some(s) ==> s.wf() && offset(s.position, self.course.origin).in_world()
        &&& all_wf(self.creeps@)
        &&& all_towers_wf(self.towers@)
        &&& all_projectiles_wf(self.projectiles@)
    }

    /// A world with no creeps, towers or projectiles yet.
    pub fn new(course: Course, spawner: Option<EnemySpawner>) -> (r: World)
        requires
            course.wf(),
            spawner matches Some(s) ==> s.wf() && offset(s.position, course.origin).in_world(),
        ensures
            r.wf(),
            r.course == course,
            r.spawner == spawner,
            r.creeps@.len() == 0,
            r.towers@.len() == 0,
            r.projectiles@.len() == 0,
            r.next_id == 0,
    {
        World {
            course,
            spawner,
            creeps: Vec::new(),
            towers: Vec::new(),
            projectiles: Vec::new(),
            next_id: 0,
        }
    }

    /// Adds a tower.
    pub fn add_tower(&mut self, t: Tower)
        requires
            old(self).wf(),
            t.wf(),
        ensures
            final(self).wf(),
            final(self).towers@ == old(self).towers@.push(t),
            final(self).creeps@ == old(self).creeps@,
            final(self).projectiles@ == old(self).projectiles@,
            final(self).spawner == old(self).spawner,
            final(self).next_id == old(self).next_id,
    {
        self.towers.push(t);
    }

    /// Runs the spawner for `dt_ms`; a creep it produces joins the world.
    pub fn spawn_enemy(&mut self, dt_ms: u32)
        requires
            old(self).wf(),
        ensures
            final(self).wf(),
            final(self).spawner == spawner_after(old(self).spawner, dt_ms as int),
            final(self).creeps@ == with_spawned(
                old(self).creeps@,
                spawned(old(self).spawner, old(self).course, old(self).next_id, dt_ms as int),
            ),
            final(self).next_id == (if spawned(
                old(self).spawner,
                old(self).course,
                old(self).next_id,
                dt_ms as int,
            ) is Some {
                old(self).next_id + 1
            } else {
                old(self).next_id as int
            }),
            final(self).course == old(self).course,
            final(self).towers@ == old(self).towers@,
            final(self).projectiles@ == old(self).projectiles@,
    {
        match self.spawner {
            None => {},
            Some(sp) => {
                let mut s = sp;
                let r = s.spawn_enemy(dt_ms as u64, self.course.origin, self.next_id);
                self.spawner = Some(s);
                match r {
                    Some(c) => {
                        if self.next_id < u64::MAX {
                            self.creeps.push(c);
                            self.next_id = self.next_id + 1;
                            assert(self.creeps@.last().wf());
                        }
                    },
                    None => {},
                }
            },
        }
    }

    /// One frame of `dt_ms` milliseconds: spawn, check arrivals, steer, move,
    /// fire, fly, apply the hits, mark the killed creeps dying, and remove
    /// the dying ones. Shots fired in a frame start moving in the next.
    pub fn tick(&mut self, dt_ms: u32)
        requires
            old(self).wf(),
        ensures
            final(self).wf(),
            final(self).course == old(self).course,
            final(self).spawner == spawner_after(old(self).spawner, dt_ms as int),
            final(self).creeps@ == creeps_after(*old(self), dt_ms as int),
            final(self).towers@ == old(self).towers@.map_values(
                |t: Tower| cooled(t, dt_ms as int),
            ),
            final(self).projectiles@ == flight(*old(self), dt_ms as int).0 + shots_fired(
                *old(self),
                dt_ms as int,
            ),
            final(self).next_id == (if spawned(
                old(self).spawner,
                old(self).course,
                old(self).next_id,
                dt_ms as int,
            ) is Some {
                old(self).next_id + 1
            } else {
                old(self).next_id as int
            }),
    {
        let ghost w0 = *old(self);
        self.spawn_enemy(dt_ms);
        self.course.reach_waypoint(&mut self.creeps);
        self.course.follow_waypoint(&mut self.creeps);
        do_move_step(&mut self.creeps, dt_ms);
        assert(self.creeps@ == creeps_moved(w0, dt_ms as int));
        let mut shots = throw_projectiles(&mut self.towers, &self.creeps, dt_ms as u64);
        let hits = advance_projectiles(&mut self.projectiles, &self.creeps, dt_ms);
        self.projectiles.append(&mut shots);
        let killed = deal_projectile_damage(&mut self.creeps, &hits);
        on_enemy_killed(&mut self.creeps, &killed);
        despawn_dying(&mut self.creeps);
        proof {
            assert forall|i: int| 0 <= i < self.projectiles@.len() implies #[trigger] self.projectiles@[i].wf() by {
                let n = flight(w0, dt_ms as int).0.len();
                if i >= n {
                    assert(self.projectiles@[i] == shots_fired(w0, dt_ms as int)[i - n]);
                }
            }
        }
    }
}

/// The one element of `s`, if it has exactly one.
pub open spec fn single<T>(s: Seq<T>) -> Option<T> {
    if s.len() == 1 {
        Some(s[0])
    } else {
        None
    }
}

/// A marker position that stays in the world once shifted by `origin`.
pub open spec fn fits(p: Vec2i, origin: Vec2i) -> bool {
    &&& p.in_world()
    &&& -COORD_MAX <= p.x + origin.x <= COORD_MAX
    &&& -COORD_MAX <= p.y + origin.y <= COORD_MAX
}

pub fn fits_at(p: Vec2i, origin: Vec2i) -> (r: bool)
    ensures
        r == fits(p, origin),
{
    let lim: i128 = COORD_MAX as i128;
    let x: i128 = p.x as i128 + origin.x as i128;
    let y: i128 = p.y as i128 + origin.y as i128;
    -lim <= p.x as i128 && p.x as i128 <= lim && -lim <= p.y as i128 && p.y as i128 <= lim && -lim
        <= x && x <= lim && -lim <= y && y <= lim
}

/// Whether a level's markers, shifted by `origin`, all stay in the world.
pub open spec fn setup_fits(waypoints: Seq<Waypoint>, finishes: Seq<EnemyFinish>, spawners: Seq<EnemySpawner>, origin: Vec2i) -> bool {
    &&& origin.in_world()
    &&& forall|i: int| 0 <= i < waypoints.len() ==> fits(#[trigger] waypoints[i].position, origin)
    &&& forall|i: int| 0 <= i < finishes.len() ==> fits(#[trigger] finishes[i].position, origin)
    &&& forall|i: int| 0 <= i < spawners.len() ==> spawner_fits(#[trigger] spawners[i], origin)
}

pub open spec fn spawner_fits(s: EnemySpawner, origin: Vec2i) -> bool {
    fits(s.position, origin) && s.timer.wf()
}

impl World {
    /// The world a level starts with: its waypoints, its finish and its
    /// spawner (each only if the level has exactly one), no creeps, towers
    /// or projectiles. None when a marker shifted by `origin` would leave the
    /// world.
    pub fn from_setup(setup: LevelSetup, origin: Vec2i) -> (r: Option<World>)
        ensures
            r is Some <==> setup_fits(setup.waypoints@, setup.finishes@, setup.spawners@, origin),
            r matches Some(w) ==> {
                &&& w.wf()
                &&& w.course.waypoints@ == setup.waypoints@
                &&& w.course.finish == single(setup.finishes@)
                &&& w.course.origin == origin
                &&& w.spawner == single(setup.spawners@)
                &&& w.creeps@.len() == 0
                &&& w.towers@.len() == 0
                &&& w.projectiles@.len() == 0
                &&& w.next_id == 0
            },
    {
        let lim: i64 = COORD_MAX;
        if origin.x < -lim || origin.x > lim || origin.y < -lim || origin.y > lim {
            return None;
        }
        let mut i: usize = 0;
        while i < setup.waypoints.len()
            invariant
                i <= setup.waypoints@.len(),
                forall|j: int| 0 <= j < i ==> fits(#[trigger] setup.waypoints@[j].position, origin),
            decreases setup.waypoints@.len() - i,
        {
            if !fits_at(setup.waypoints[i].position, origin) {
                return None;
            }
            i = i + 1;
        }
        let mut i: usize = 0;
        while i < setup.finishes.len()
            invariant
                i <= setup.finishes@.len(),
                forall|j: int| 0 <= j < i ==> fits(#[trigger] setup.finishes@[j].position, origin),
            decreases setup.finishes@.len() - i,
        {
            if !fits_at(setup.finishes[i].position, origin) {
                return None;
            }
            i = i + 1;
        }
        let mut i: usize = 0;
        while i < setup.spawners.len()
            invariant
                i <= setup.spawners@.len(),
                forall|j: int| 0 <= j < i ==> spawner_fits(#[trigger] setup.spawners@[j], origin),
            decreases setup.spawners@.len() - i,
        {
            let sp = setup.spawners[i];
            if !fits_at(sp.position, origin) || sp.timer.duration_ms == 0
                || sp.timer.elapsed_ms >= sp.timer.duration_ms {
                return None;
            }
            assert(spawner_fits(setup.spawners@[i as int], origin));
            i = i + 1;
        }
        let finish = if setup.finishes.len() == 1 {
            assert(fits(setup.finishes@[0].position, origin));
            Some(setup.finishes[0])
        } else {
            None
        };
        let spawner = if setup.spawners.len() == 1 {
            assert(spawner_fits(setup.spawners@[0], origin));
            Some(setup.spawners[0])
        } else {
            None
        };
        let course = Course { waypoints: setup.waypoints, finish, origin };
        assert(course.wf()) by {
            assert forall|i: int| 0 <= i < course.waypoints@.len() implies #[trigger] offset(
                course.waypoints@[i].position,
                course.origin,
            ).in_world() && course.waypoints@[i].position.in_world() by {
                assert(fits(setup.waypoints@[i].position, origin));
            }
        }
        Some(World::new(course, spawner))
    }
}

} // verus!
