use ioni_td::combat::{
    advance_projectiles, arc_height, find_closest_enemy, throw_projectiles, Follower, Motion,
    Pointer, Projectile, Tower, TowerType,
};
use ioni_td::creep::{
    do_move_step, Course, Enemy, EnemyFinish, EnemySpawner, Health, Healthbar, Velocity, Waypoint,
    WaypointFollower,
};
use ioni_td::geom::Vec2i;
use ioni_td::lifecycle::{
    deal_projectile_damage, despawn_dying, find_creep, on_enemy_killed, HitEvent, KilledEvent,
};
use ioni_td::world::World;

fn creep(id: u64, x: i64, y: i64) -> Enemy {
    Enemy::spawned(id, Vec2i::new(x, y))
}

fn course(waypoints: Vec<Waypoint>, finish: Option<EnemyFinish>) -> Course {
    Course { waypoints, finish, origin: Vec2i::new(0, 0) }
}

fn two_waypoints() -> Vec<Waypoint> {
    vec![
        Waypoint { index: 0, position: Vec2i::new(0, 0) },
        Waypoint { index: 1, position: Vec2i::new(100_000, 0) },
    ]
}

#[test]
fn health_full() {
    let h = Health::full(500);
    assert_eq!(h.current, 500);
    assert_eq!(h.max, 500);
}

#[test]
fn spawned_creep_starts_at_first_waypoint_index() {
    let c = creep(3, 1, 2);
    assert_eq!(c.id, 3);
    assert_eq!(c.health, Health { current: 500, max: 500 });
    assert_eq!(c.follower, WaypointFollower { index: 0 });
    assert_eq!(c.velocity, Velocity { speed: 200, direction: Vec2i::new(0, 0) });
    assert!(!c.dying);
}

#[test]
fn creep_near_waypoint_advances_and_turns_within_one_tick() {
    let mut w = World::new(course(two_waypoints(), None), None);
    w.creeps.push(creep(0, 500, 0));
    w.tick(0);
    assert_eq!(w.creeps.len(), 1);
    assert_eq!(w.creeps[0].follower.index, 1);
    assert_eq!(w.creeps[0].velocity.direction, Vec2i::new(1000, 0));
    assert_eq!(w.creeps[0].position, Vec2i::new(500, 0));
}

#[test]
fn arrival_advances_exactly_once_per_check() {
    let c = course(two_waypoints(), None);
    let mut creeps = vec![creep(0, 500, 0)];
    c.reach_waypoint(&mut creeps);
    assert_eq!(creeps[0].follower.index, 1);
    // still near waypoint 0, but now heading for waypoint 1: no second advance
    c.reach_waypoint(&mut creeps);
    assert_eq!(creeps[0].follower.index, 1);
}

#[test]
fn far_creep_keeps_its_index() {
    let c = course(two_waypoints(), None);
    let mut creeps = vec![creep(0, 1000, 0)];
    c.reach_waypoint(&mut creeps);
    assert_eq!(creeps[0].follower.index, 0);
}

#[test]
fn arrival_uses_the_origin() {
    let c = Course {
        waypoints: vec![Waypoint { index: 0, position: Vec2i::new(10_000, 0) }],
        finish: None,
        origin: Vec2i::new(5_000, 0),
    };
    let mut creeps = vec![creep(0, 15_000, 500)];
    c.reach_waypoint(&mut creeps);
    assert_eq!(creeps[0].follower.index, 1);
}

#[test]
fn creep_without_target_or_finish_is_removed() {
    let c = course(vec![], None);
    let mut creeps = vec![creep(0, 0, 0), creep(1, 5, 5)];
    c.follow_waypoint(&mut creeps);
    assert!(creeps.is_empty());
}

#[test]
fn creep_past_last_waypoint_heads_for_finish() {
    let c = course(two_waypoints(), Some(EnemyFinish { position: Vec2i::new(0, 30_000) }));
    let mut creeps = vec![creep(0, 0, 0)];
    creeps[0].follower.index = 2;
    c.follow_waypoint(&mut creeps);
    assert_eq!(creeps.len(), 1);
    assert_eq!(creeps[0].velocity.direction, Vec2i::new(0, 1000));
}

#[test]
fn creep_reaching_finish_is_removed() {
    let c = course(two_waypoints(), Some(EnemyFinish { position: Vec2i::new(0, 30_000) }));
    let mut creeps = vec![creep(0, 0, 29_500), creep(1, 0, 0)];
    creeps[0].follower.index = 2;
    creeps[1].follower.index = 2;
    c.reach_waypoint(&mut creeps);
    assert_eq!(creeps.len(), 1);
    assert_eq!(creeps[0].id, 1);
}

#[test]
fn creeps_move_along_their_velocity() {
    let mut creeps = vec![creep(0, 0, 0)];
    creeps[0].velocity.direction = Vec2i::new(600, 800);
    do_move_step(&mut creeps, 500);
    assert_eq!(creeps[0].position, Vec2i::new(60_000, 80_000));
}

#[test]
fn spawner_spawns_when_timer_completes() {
    let mut s = EnemySpawner::new(Vec2i::new(1000, 2000));
    assert_eq!(s.spawn_enemy(1999, Vec2i::new(10, 20), 4), None);
    let c = s.spawn_enemy(1, Vec2i::new(10, 20), 4).unwrap();
    assert_eq!(c.id, 4);
    assert_eq!(c.position, Vec2i::new(1010, 2020));
    assert_eq!(s.timer.elapsed_ms, 0);
}

#[test]
fn world_spawns_with_fresh_ids() {
    let spawner = EnemySpawner::new(Vec2i::new(0, 0));
    let mut w = World::new(course(two_waypoints(), None), Some(spawner));
    w.tick(2000);
    w.tick(2000);
    assert_eq!(w.creeps.len(), 2);
    assert_eq!(w.creeps[0].id, 0);
    assert_eq!(w.creeps[1].id, 1);
    assert_eq!(w.next_id, 2);
}

#[test]
fn waypoint_index_never_decreases_over_ticks() {
    let waypoints = vec![
        Waypoint { index: 0, position: Vec2i::new(0, 0) },
        Waypoint { index: 1, position: Vec2i::new(2_000, 0) },
        Waypoint { index: 2, position: Vec2i::new(4_000, 0) },
    ];
    let finish = Some(EnemyFinish { position: Vec2i::new(100_000, 0) });
    let mut w = World::new(course(waypoints, finish), None);
    w.creeps.push(creep(0, 0, 0));
    let mut last = 0;
    for _ in 0..20 {
        w.tick(5);
        assert_eq!(w.creeps.len(), 1);
        let now = w.creeps[0].follower.index;
        assert!(now >= last);
        assert!(now <= last + 1);
        last = now;
    }
    assert_eq!(last, 3);
}

fn arrow_tower() -> Tower {
    Tower::build(TowerType::Arrow, Vec2i::new(0, 0))
}

#[test]
fn tower_picks_nearer_creep() {
    let creeps = vec![creep(1, 20_000, 0), creep(2, 0, 10_000)];
    assert_eq!(find_closest_enemy(&creeps, Vec2i::new(0, 0), 450_000), Some(1));
    let mut t = arrow_tower();
    assert_eq!(t.launcher.range, 450_000);
    assert_eq!(t.launcher.cooldown.duration_ms, 1000);
    let p = t.fire(&creeps, 1000).unwrap();
    assert_eq!(p.motion, Motion::Follow(Follower { speed: 800, target: 2 }));
    assert_eq!(p.damage, 40);
    assert_eq!(p.position, Vec2i::new(0, 16_000));
    assert_eq!(p.heading, Vec2i::new(0, 1000));
}

#[test]
fn equal_distance_first_creep_wins() {
    let creeps = vec![creep(1, 10_000, 0), creep(2, 0, 10_000)];
    assert_eq!(find_closest_enemy(&creeps, Vec2i::new(0, 0), 450_000), Some(0));
}

#[test]
fn dying_and_far_creeps_are_not_targets() {
    let mut creeps = vec![creep(1, 10_000, 0), creep(2, 460_000, 0), creep(3, 450_000, 0)];
    creeps[0].dying = true;
    assert_eq!(find_closest_enemy(&creeps, Vec2i::new(0, 0), 450_000), Some(2));
    creeps.pop();
    assert_eq!(find_closest_enemy(&creeps, Vec2i::new(0, 0), 450_000), None);
}

#[test]
fn tower_cooling_down_does_not_fire() {
    let creeps = vec![creep(1, 10_000, 0)];
    let mut t = arrow_tower();
    assert_eq!(t.fire(&creeps, 999), None);
    assert_eq!(t.launcher.cooldown.elapsed_ms, 999);
    assert!(t.fire(&creeps, 1).is_some());
}

#[test]
fn tower_without_target_still_resets_cooldown() {
    let creeps = vec![creep(1, 500_000, 0)];
    let mut t = arrow_tower();
    t.launcher.cooldown.elapsed_ms = 900;
    assert_eq!(t.fire(&creeps, 600), None);
    assert_eq!(t.launcher.cooldown.elapsed_ms, 500);
    let mut towers = vec![arrow_tower()];
    let shots = throw_projectiles(&mut towers, &vec![], 1000);
    assert!(shots.is_empty());
    assert_eq!(towers[0].launcher.cooldown.elapsed_ms, 0);
}

#[test]
fn bomb_tower_throws_at_a_point() {
    let creeps = vec![creep(5, 0, 100_000)];
    let mut t = Tower::build(TowerType::Bomb, Vec2i::new(0, 0));
    assert_eq!(t.launcher.range, 300_000);
    assert_eq!(t.fire(&creeps, 2999), None);
    let p = t.fire(&creeps, 1).unwrap();
    assert_eq!(
        p.motion,
        Motion::Point(Pointer {
            speed: 100,
            target: Vec2i::new(0, 100_000),
            pos: Vec2i::new(0, 16_000),
            source: Vec2i::new(0, 16_000),
        })
    );
}

fn arrow_at(x: i64, y: i64, target: u64) -> Projectile {
    Projectile {
        damage: 40,
        position: Vec2i::new(x, y),
        heading: Vec2i::new(0, 0),
        motion: Motion::Follow(Follower { speed: 800, target }),
    }
}

#[test]
fn follower_with_despawned_target_is_removed_without_hit() {
    let mut ps = vec![arrow_at(0, 0, 7)];
    let creeps = vec![creep(1, 0, 0)];
    let hits = advance_projectiles(&mut ps, &creeps, 16);
    assert!(hits.is_empty());
    assert!(ps.is_empty());
}

#[test]
fn follower_with_dying_target_is_removed_without_hit() {
    let mut ps = vec![arrow_at(0, 0, 1)];
    let mut creeps = vec![creep(1, 0, 5_000)];
    creeps[0].dying = true;
    let hits = advance_projectiles(&mut ps, &creeps, 16);
    assert!(hits.is_empty());
    assert!(ps.is_empty());
}

#[test]
fn follower_hits_within_twenty_units() {
    let mut ps = vec![arrow_at(0, 0, 1)];
    let creeps = vec![creep(1, 0, 25_000)];
    let hits = advance_projectiles(&mut ps, &creeps, 10);
    assert_eq!(hits, vec![HitEvent { damage: 40, target: 1 }]);
    assert!(ps.is_empty());
}

#[test]
fn follower_homes_in() {
    let mut ps = vec![arrow_at(0, 0, 1)];
    let creeps = vec![creep(1, 0, 100_000)];
    let hits = advance_projectiles(&mut ps, &creeps, 10);
    assert!(hits.is_empty());
    assert_eq!(ps[0].position, Vec2i::new(0, 8_000));
    assert_eq!(ps[0].heading, Vec2i::new(0, 1000));
}

fn bomb(pos: Vec2i) -> Projectile {
    Projectile {
        damage: 40,
        position: pos,
        heading: Vec2i::new(0, 0),
        motion: Motion::Point(Pointer {
            speed: 100,
            target: Vec2i::new(0, 100_000),
            pos,
            source: Vec2i::new(0, 0),
        }),
    }
}

#[test]
fn pointer_follows_its_arc() {
    let mut ps = vec![bomb(Vec2i::new(0, 0))];
    let hits = advance_projectiles(&mut ps, &vec![], 100);
    assert!(hits.is_empty());
    assert_eq!(ps[0].position, Vec2i::new(0, 11_200));
    match ps[0].motion {
        Motion::Point(p) => assert_eq!(p.pos, Vec2i::new(0, 10_000)),
        _ => panic!("bomb changed kind"),
    }
}

#[test]
fn arc_height_peaks_halfway() {
    let s = Vec2i::new(0, 0);
    let t = Vec2i::new(0, 100_000);
    assert_eq!(arc_height(s, t, Vec2i::new(0, 50_000)), 30_000);
    assert_eq!(arc_height(s, t, Vec2i::new(0, 0)), 0);
    assert_eq!(arc_height(s, t, Vec2i::new(0, 90_000)), 1200);
    assert_eq!(arc_height(t, t, t), 0);
}

#[test]
fn pointer_lands_without_damage() {
    let mut ps = vec![bomb(Vec2i::new(0, 85_000))];
    let creeps = vec![creep(1, 0, 100_000)];
    let hits = advance_projectiles(&mut ps, &creeps, 100);
    assert!(hits.is_empty());
    assert!(ps.is_empty());
}

#[test]
fn two_hits_leave_health_at_420() {
    let mut creeps = vec![creep(1, 0, 0)];
    let hits = vec![HitEvent { damage: 40, target: 1 }, HitEvent { damage: 40, target: 1 }];
    let killed = deal_projectile_damage(&mut creeps, &hits);
    assert_eq!(creeps[0].health.current, 420);
    assert!(killed.is_empty());
}

#[test]
fn damage_is_subtracted_without_clamping() {
    let mut creeps = vec![creep(1, 0, 0)];
    creeps[0].health.current = 10;
    let killed = deal_projectile_damage(&mut creeps, &vec![HitEvent { damage: 40, target: 1 }]);
    assert_eq!(creeps[0].health.current, -30);
    assert_eq!(creeps[0].health.max, 500);
    assert_eq!(killed, vec![KilledEvent { who: 1 }]);
}

#[test]
fn damage_saturates_at_the_bottom_of_i32() {
    let mut creeps = vec![creep(1, 0, 0)];
    creeps[0].health.current = i32::MIN + 10;
    deal_projectile_damage(&mut creeps, &vec![HitEvent { damage: 100, target: 1 }]);
    assert_eq!(creeps[0].health.current, i32::MIN);
}

#[test]
fn hits_on_missing_or_dying_creeps_are_ignored() {
    let mut creeps = vec![creep(1, 0, 0), creep(2, 0, 0)];
    creeps[1].dying = true;
    let hits = vec![HitEvent { damage: 40, target: 9 }, HitEvent { damage: 600, target: 2 }];
    let killed = deal_projectile_damage(&mut creeps, &hits);
    assert!(killed.is_empty());
    assert_eq!(creeps[0].health.current, 500);
    assert_eq!(creeps[1].health.current, 500);
}

#[test]
fn killed_creep_is_marked_then_removed() {
    let mut creeps = vec![creep(1, 0, 0), creep(2, 0, 0)];
    creeps[0].health.current = 40;
    let killed = deal_projectile_damage(&mut creeps, &vec![HitEvent { damage: 40, target: 1 }]);
    assert_eq!(killed, vec![KilledEvent { who: 1 }]);
    on_enemy_killed(&mut creeps, &killed);
    assert!(creeps[0].dying);
    assert!(!creeps[1].dying);
    // marking twice changes nothing
    on_enemy_killed(&mut creeps, &killed);
    assert!(creeps[0].dying);
    despawn_dying(&mut creeps);
    assert_eq!(creeps.len(), 1);
    assert_eq!(creeps[0].id, 2);
    assert_eq!(find_creep(&creeps, 1), None);
    assert_eq!(find_creep(&creeps, 2), Some(0));
}

#[test]
fn killed_creep_is_gone_by_the_end_of_the_tick() {
    let finish = Some(EnemyFinish { position: Vec2i::new(1_000_000, 0) });
    let mut w = World::new(course(vec![], finish), None);
    let mut c = creep(0, 0, 25_000);
    c.health.current = 40;
    w.creeps.push(c);
    w.projectiles.push(arrow_at(0, 0, 0));
    w.tick(10);
    assert!(w.creeps.is_empty());
    assert!(w.projectiles.is_empty());
}

#[test]
fn tower_shots_fly_from_the_next_tick() {
    let finish = Some(EnemyFinish { position: Vec2i::new(0, 1_000_000) });
    let mut w = World::new(course(vec![], finish), None);
    w.creeps.push(creep(0, 0, 100_000));
    w.add_tower(arrow_tower());
    w.tick(1000);
    assert_eq!(w.projectiles.len(), 1);
    assert_eq!(w.projectiles[0].position, Vec2i::new(0, 16_000));
    assert_eq!(w.towers[0].launcher.cooldown.elapsed_ms, 0);
    w.tick(10);
    assert_eq!(w.projectiles[0].position, Vec2i::new(0, 24_000));
}

#[test]
fn health_bar_fill_never_below_zero() {
    let bar = Healthbar::standard();
    assert_eq!(bar.fill_length(Health { current: 500, max: 500 }), 64_000);
    assert_eq!(bar.fill_length(Health { current: 250, max: 500 }), 32_000);
    assert_eq!(bar.fill_length(Health { current: 420, max: 500 }), 53_760);
    assert_eq!(bar.fill_length(Health { current: -30, max: 500 }), 0);
}
