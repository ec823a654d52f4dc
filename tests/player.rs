use player::{
    animate_dust, animate_hair, animate_jump, animate_run, animate_stand, despawn_hair,
    is_player_identifier, player_dash, player_die, player_jump, player_revive, player_run,
    spawn_dust, spawn_hair, spawn_player, Actor, AnimationCycle, CollisionEvent, DashThrottle,
    Dust, Facing, FrameTimer, Hair, HairHistory, InputState, Position, SpawnPoint, Velocity,
};

const MS: u64 = 1_000_000;

fn keys(left: bool, right: bool, jump: bool, dash: bool) -> InputState {
    InputState { left, right, jump, dash }
}

fn pos(x: i64, y: i64) -> Position {
    Position { x, y }
}

fn actor_at(x: i64, y: i64) -> Actor {
    spawn_player(7, pos(x, y))
}

#[test]
fn timer_does_not_fire_early() {
    let mut t = FrameTimer::new(100 * MS);
    t.tick(60 * MS);
    assert!(!t.just_finished());
    t.tick(39 * MS);
    assert!(!t.just_finished());
    assert_eq!(t.elapsed_ns, 99 * MS);
    t.tick(1 * MS);
    assert!(t.just_finished());
    assert_eq!(t.finished_this_tick, 1);
    assert_eq!(t.elapsed_ns, 0);
}

#[test]
fn timer_keeps_overshoot_and_counts_several_intervals() {
    let mut t = FrameTimer::new(100 * MS);
    t.tick(250 * MS);
    assert_eq!(t.finished_this_tick, 2);
    assert_eq!(t.elapsed_ns, 50 * MS);
    t.tick(10 * MS);
    assert_eq!(t.finished_this_tick, 0);
    assert!(!t.just_finished());
}

#[test]
fn timer_total_completions_do_not_depend_on_chunking() {
    let deltas_a = [300 * MS];
    let deltas_b = [70 * MS, 70 * MS, 70 * MS, 70 * MS, 20 * MS];
    let deltas_c = [150 * MS, 1 * MS, 149 * MS];
    for deltas in [&deltas_a[..], &deltas_b[..], &deltas_c[..]] {
        let mut t = FrameTimer::new(100 * MS);
        let mut total: u32 = 0;
        for d in deltas {
            t.tick(*d);
            total += t.finished_this_tick;
        }
        assert_eq!(total, 3);
        assert_eq!(t.elapsed_ns, 0);
    }
}

#[test]
fn cycle_wraps_after_its_length() {
    let mut c = AnimationCycle::new(vec![1, 2, 3, 4]);
    assert_eq!(c.current(), 1);
    assert_eq!(c.advance(), 2);
    assert_eq!(c.advance(), 3);
    assert_eq!(c.advance(), 4);
    assert_eq!(c.advance(), 1);
    assert_eq!(c.index, 0);
}

#[test]
fn cycle_of_one_frame_stays() {
    let mut c = AnimationCycle::new(vec![9]);
    assert_eq!(c.advance(), 9);
    assert_eq!(c.index, 0);
}

#[test]
fn spawned_player_is_at_rest_facing_right() {
    let a = actor_at(5, 6);
    assert_eq!(a.id, 7);
    assert_eq!(a.position, pos(5, 6));
    assert_eq!(a.velocity, Velocity { x: 0, y: 0 });
    assert_eq!(a.facing, Facing::Right);
    assert_eq!(a.sprite.index, 1);
    assert!(!a.sprite.flip_x);
    assert_eq!(a.indices.sprite_indices, vec![1, 2, 3, 4]);
    assert_eq!(a.timer.interval_ns, 100 * MS);
}

#[test]
fn idle_actor_stands_and_run_cycle_does_not_advance() {
    let mut a = actor_at(0, 0);
    a.sprite.index = 4;
    animate_stand(&mut a);
    assert_eq!(a.sprite.index, 1);
    assert!(!a.sprite.flip_x);
    animate_run(&keys(false, false, false, false), &mut a, 500 * MS);
    assert_eq!(a.indices.index, 0);
    assert_eq!(a.timer.elapsed_ns, 0);
    assert_eq!(a.sprite.index, 1);
}

#[test]
fn running_right_for_350ms_lands_on_fourth_frame() {
    let mut a = actor_at(0, 0);
    let k = keys(false, true, false, false);
    player_run(&k, &mut a);
    assert_eq!(a.velocity.x, 50_000);
    for _ in 0..35 {
        animate_run(&k, &mut a, 10 * MS);
    }
    assert_eq!(a.indices.index, 3);
    assert_eq!(a.sprite.index, 4);
    assert!(!a.sprite.flip_x);
}

#[test]
fn running_left_mirrors_the_sprite() {
    let mut a = actor_at(0, 0);
    let k = keys(true, false, false, false);
    player_run(&k, &mut a);
    assert_eq!(a.velocity.x, -50_000);
    assert_eq!(a.facing, Facing::Left);
    animate_run(&k, &mut a, 100 * MS);
    assert_eq!(a.sprite.index, 2);
    assert!(a.sprite.flip_x);
}

#[test]
fn releasing_move_keys_stops_and_keeps_facing() {
    let mut a = actor_at(0, 0);
    player_run(&keys(true, false, false, false), &mut a);
    player_run(&keys(false, false, false, false), &mut a);
    assert_eq!(a.velocity.x, 0);
    assert_eq!(a.facing, Facing::Left);
}

#[test]
fn left_key_wins_over_right() {
    let mut a = actor_at(0, 0);
    player_run(&keys(true, true, false, false), &mut a);
    assert_eq!(a.velocity.x, -50_000);
    assert_eq!(a.facing, Facing::Left);
}

#[test]
fn jump_only_from_vertical_rest() {
    let mut a = actor_at(0, 0);
    a.velocity = Velocity { x: 50_000, y: 99 };
    player_jump(&keys(false, false, true, false), &mut a);
    assert_eq!(a.velocity, Velocity { x: 0, y: 300_000 });
    a.velocity = Velocity { x: 0, y: -5_000 };
    player_jump(&keys(false, false, true, false), &mut a);
    assert_eq!(a.velocity, Velocity { x: 0, y: -5_000 });
    a.velocity = Velocity { x: 0, y: 0 };
    player_jump(&keys(false, false, false, false), &mut a);
    assert_eq!(a.velocity, Velocity { x: 0, y: 0 });
}

#[test]
fn airborne_actor_shows_jump_frame() {
    let mut a = actor_at(0, 0);
    a.facing = Facing::Left;
    a.velocity = Velocity { x: 0, y: -101 };
    animate_jump(&mut a);
    assert_eq!(a.sprite.index, 3);
    assert!(a.sprite.flip_x);
    animate_stand(&mut a);
    assert_eq!(a.sprite.index, 3);
}

#[test]
fn slow_vertical_drift_is_not_a_jump() {
    let mut a = actor_at(0, 0);
    a.velocity = Velocity { x: 0, y: 100 };
    animate_jump(&mut a);
    assert_eq!(a.sprite.index, 1);
}

#[test]
fn dash_sets_velocity_by_facing() {
    let mut a = actor_at(0, 0);
    let mut th = DashThrottle::new();
    player_dash(&keys(false, false, false, true), &mut a, &mut th, 10 * MS);
    assert_eq!(a.velocity, Velocity { x: 200_000, y: 0 });
    a.facing = Facing::Left;
    player_dash(&keys(false, false, false, true), &mut a, &mut th, 10 * MS);
    assert_eq!(a.velocity, Velocity { x: -200_000, y: 0 });
}

#[test]
fn dash_key_up_changes_nothing() {
    let mut a = actor_at(0, 0);
    a.velocity = Velocity { x: 3, y: 4 };
    let mut th = DashThrottle { cooldown_ns: 5 * MS };
    let d = player_dash(&keys(false, false, false, false), &mut a, &mut th, 10 * MS);
    assert!(d.is_none());
    assert_eq!(th.cooldown_ns, 5 * MS);
    assert_eq!(a.velocity, Velocity { x: 3, y: 4 });
}

#[test]
fn first_dash_frame_spawns_dust_at_actor() {
    let mut a = actor_at(12, 34);
    let mut th = DashThrottle::new();
    let d = player_dash(&keys(false, false, false, true), &mut a, &mut th, 16 * MS).unwrap();
    assert_eq!(d.position, pos(12, 34));
    assert_eq!(d.sprite.index, 29);
    assert_eq!(d.frame, 0);
    assert_eq!(th.cooldown_ns, 20 * MS);
}

#[test]
fn dash_throttle_spawns_once_per_cooldown() {
    let mut a = actor_at(0, 0);
    let mut th = DashThrottle::new();
    let k = keys(false, false, false, true);
    let mut count = 0;
    // 36 frames of 10 ms: the first at time zero, the last 350 ms later.
    for _ in 0..36 {
        if player_dash(&k, &mut a, &mut th, 10 * MS).is_some() {
            count += 1;
        }
    }
    assert_eq!(count, 350 / 20 + 1);
}

#[test]
fn dust_shows_three_pictures_then_vanishes() {
    let mut dust: Vec<Dust> = vec![spawn_dust(pos(1, 2))];
    animate_dust(&mut dust, 50 * MS);
    assert_eq!(dust.len(), 1);
    assert_eq!(dust[0].sprite.index, 29);
    animate_dust(&mut dust, 50 * MS);
    assert_eq!(dust[0].sprite.index, 30);
    animate_dust(&mut dust, 100 * MS);
    assert_eq!(dust[0].sprite.index, 31);
    animate_dust(&mut dust, 100 * MS);
    assert!(dust.is_empty());
}

#[test]
fn dust_particles_advance_independently_in_order() {
    let mut old = spawn_dust(pos(0, 0));
    old.timer.elapsed_ns = 90 * MS;
    let young = spawn_dust(pos(5, 5));
    let mut dust = vec![old, young];
    animate_dust(&mut dust, 20 * MS);
    assert_eq!(dust.len(), 2);
    assert_eq!(dust[0].sprite.index, 30);
    assert_eq!(dust[0].timer.elapsed_ns, 10 * MS);
    assert_eq!(dust[1].sprite.index, 29);
    assert_eq!(dust[1].position, pos(5, 5));
}

#[test]
fn hair_appears_with_actor_and_goes_without() {
    let mut hair: Vec<Hair> = Vec::new();
    spawn_hair(&None, &mut hair);
    assert!(hair.is_empty());
    let a = Some(actor_at(3, 4));
    spawn_hair(&a, &mut hair);
    assert_eq!(hair.len(), 6);
    for (i, h) in hair.iter().enumerate() {
        assert_eq!(h.ordinal, i);
        assert_eq!(h.sprite.index, i);
        assert_eq!(h.position, pos(3, 4));
    }
    let before = hair.clone();
    spawn_hair(&a, &mut hair);
    assert_eq!(hair, before);
    despawn_hair(&a, &mut hair);
    assert_eq!(hair.len(), 6);
    despawn_hair(&None, &mut hair);
    assert!(hair.is_empty());
}

#[test]
fn hair_buckets_follow_history() {
    let mut a = actor_at(10, 0);
    let mut hair: Vec<Hair> = Vec::new();
    let mut history = HairHistory::new();
    spawn_hair(&Some(actor_at(0, 0)), &mut hair);
    let mut opt = Some(actor_at(10, 0));
    animate_hair(&opt, &mut hair, &mut history);
    assert!(hair.iter().all(|h| h.position == pos(10, 0)));
    a.position = pos(20, 0);
    opt = Some(a);
    animate_hair(&opt, &mut hair, &mut history);
    let mut a3 = actor_at(30, 0);
    a3.facing = Facing::Left;
    animate_hair(&Some(a3), &mut hair, &mut history);
    assert_eq!(history.samples, vec![pos(30, 0), pos(20, 0), pos(10, 0)]);
    // six segments over three samples: runs of three, newest first
    let xs: Vec<i64> = hair.iter().map(|h| h.position.x).collect();
    assert_eq!(xs, vec![30, 30, 30, 20, 20, 20]);
    assert!(hair.iter().all(|h| h.sprite.flip_x));
}

#[test]
fn hair_history_keeps_five_newest() {
    let mut hair: Vec<Hair> = Vec::new();
    let mut history = HairHistory::new();
    spawn_hair(&Some(actor_at(0, 0)), &mut hair);
    for x in 1..=7 {
        animate_hair(&Some(actor_at(x, 0)), &mut hair, &mut history);
    }
    let xs: Vec<i64> = history.samples.iter().map(|p| p.x).collect();
    assert_eq!(xs, vec![7, 6, 5, 4, 3]);
    // six segments over five samples: runs of two, the last sample unused
    let hx: Vec<i64> = hair.iter().map(|h| h.position.x).collect();
    assert_eq!(hx, vec![7, 7, 6, 6, 5, 5]);
}

#[test]
fn hair_does_nothing_without_actor() {
    let mut hair: Vec<Hair> = Vec::new();
    let mut history = HairHistory::new();
    spawn_hair(&Some(actor_at(1, 1)), &mut hair);
    let before = hair.clone();
    animate_hair(&None, &mut hair, &mut history);
    assert_eq!(hair, before);
    assert!(history.samples.is_empty());
}

#[test]
fn trap_contact_kills_the_player() {
    let mut a = Some(actor_at(0, 0));
    let events = vec![CollisionEvent::Stopped(1, 7), CollisionEvent::Started(1, 7)];
    let killed = player_die(&mut a, &events, &vec![1, 2]);
    assert_eq!(killed, vec![7]);
    assert!(a.is_none());
}

#[test]
fn trap_on_either_side_counts() {
    let mut a = Some(actor_at(0, 0));
    let killed = player_die(&mut a, &vec![CollisionEvent::Started(7, 2)], &vec![1, 2]);
    assert_eq!(killed, vec![7]);
    assert!(a.is_none());
}

#[test]
fn contacts_without_traps_are_harmless() {
    let mut a = Some(actor_at(0, 0));
    let events = vec![CollisionEvent::Started(7, 3), CollisionEvent::Stopped(1, 7)];
    let killed = player_die(&mut a, &events, &vec![1]);
    assert!(killed.is_empty());
    assert!(a.is_some());
}

#[test]
fn other_victims_leave_the_player_alive() {
    let mut a = Some(actor_at(0, 0));
    let killed = player_die(&mut a, &vec![CollisionEvent::Started(1, 9)], &vec![1]);
    assert_eq!(killed, vec![9]);
    assert_eq!(a.unwrap().id, 7);
}

fn point(name: &str, x: i64, y: i64) -> SpawnPoint {
    SpawnPoint { identifier: name.to_string(), position: pos(x, y) }
}

#[test]
fn revive_uses_first_player_point_with_offset() {
    let mut a: Option<Actor> = None;
    let points = vec![point("Spike", 0, 0), point("Player", 10, 20), point("Player", 99, 99)];
    player_revive(&mut a, &points, pos(-5, 100), 42);
    let a = a.unwrap();
    assert_eq!(a.id, 42);
    assert_eq!(a.position, pos(5, 120));
    assert_eq!(a.facing, Facing::Right);
    assert_eq!(a.velocity, Velocity { x: 0, y: 0 });
}

#[test]
fn revive_does_nothing_while_alive_or_without_point() {
    let mut a = Some(actor_at(1, 1));
    player_revive(&mut a, &vec![point("Player", 10, 20)], pos(0, 0), 42);
    assert_eq!(a.as_ref().unwrap().id, 7);
    let mut none: Option<Actor> = None;
    player_revive(&mut none, &vec![point("Spike", 10, 20)], pos(0, 0), 42);
    assert!(none.is_none());
}

#[test]
fn death_then_revival_makes_exactly_one_player() {
    let mut a = Some(actor_at(0, 0));
    let mut hair: Vec<Hair> = Vec::new();
    spawn_hair(&a, &mut hair);
    player_die(&mut a, &vec![CollisionEvent::Started(1, 7)], &vec![1]);
    assert!(a.is_none());
    despawn_hair(&a, &mut hair);
    assert!(hair.is_empty());
    player_revive(&mut a, &vec![point("Player", 4, 4)], pos(0, 0), 8);
    assert_eq!(a.as_ref().unwrap().position, pos(4, 4));
    spawn_hair(&a, &mut hair);
    assert_eq!(hair.len(), 6);
}

#[test]
fn player_identifier_is_exact() {
    assert!(is_player_identifier(&"Player".to_string()));
    assert!(!is_player_identifier(&"player".to_string()));
    assert!(!is_player_identifier(&"Players".to_string()));
    assert!(!is_player_identifier(&"".to_string()));
}
