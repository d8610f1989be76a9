//! Tests for timers, reload, blast decay, modifiers and the spawners.

use missile_command::consts::{
    BASE_EXPLOSION_MULT, BONUS_EXPLOSION_MULT, BONUS_MISSILE_SPEED, EXPLOSION_RADIUS,
    PLAYER_MISSILE_SPEED, POWERUP_RADIUS, SILO_MAX_MISSILES, SILO_RELOAD_TIME,
};
use missile_command::enemy::{update_timer, EnemyMissileSpawner};
use missile_command::events::{FrameEvents, SetPlayerExplosionSize, SetPlayerMissileSpeed};
use missile_command::explosion::{explosion_radius, update_explosions, Explosion};
use missile_command::geom::{Vec2, Viewport};
use missile_command::player_status::PlayerStatus;
use missile_command::powerups::{run_powerup_spawner, PowerupSpawner};
use missile_command::silo::{check_timers, Silo, SiloLocation};
use missile_command::team::Team;
use missile_command::timer::Timer;
use missile_command::world::World;

/// A one-shot timer completes once and reports it exactly once.
#[test]
fn one_shot_timer_completes_once() {
    let mut t = Timer::new(1_000, false);
    t.tick(400);
    assert!(!t.finished && !t.just_finished);
    assert_eq!(t.progress_permille(), 400);
    t.tick(600);
    assert!(t.finished && t.just_finished);
    assert_eq!(t.progress_permille(), 1000);
    t.tick(100);
    assert!(t.finished && !t.just_finished);
}

/// A repeating timer wraps around, keeping the overshoot.
#[test]
fn repeating_timer_wraps() {
    let mut t = Timer::new(1_000, true);
    t.tick(1_300);
    assert!(t.finished && t.just_finished);
    assert_eq!(t.elapsed, 300);
    t.tick(400);
    assert!(!t.finished);
    assert_eq!(t.elapsed, 700);
}

/// A completed reload restores exactly one round and re-arms itself
/// while rounds are missing, without any external input.
#[test]
fn reload_auto_repeats() {
    let mut reload = Timer::new(SILO_RELOAD_TIME, false);
    reload.tick(SILO_RELOAD_TIME - 100);
    let mut silos = vec![Silo {
        id: 0,
        location: SiloLocation::Middle,
        missiles: 1,
        reload,
        pos: Vec2 { x: 0, y: 0 },
    }];
    let mut ammo = Vec::new();
    check_timers(&mut silos, 100, &mut ammo);
    assert_eq!(silos[0].missiles, 2);
    // Still below the maximum: the countdown restarted on its own.
    assert_eq!(silos[0].reload.elapsed, 0);
    assert!(!silos[0].reload.finished);
    assert_eq!(ammo.len(), 1);
    assert_eq!(ammo[0].count, 2);
    assert_eq!(ammo[0].location, SiloLocation::Middle);
}

/// A reload completing into a full installation stops the countdown
/// and never pushes the count past the maximum.
#[test]
fn reload_stops_when_full() {
    let mut reload = Timer::new(SILO_RELOAD_TIME, false);
    reload.tick(SILO_RELOAD_TIME - 100);
    let mut silos = vec![Silo {
        id: 0,
        location: SiloLocation::Left,
        missiles: SILO_MAX_MISSILES - 1,
        reload,
        pos: Vec2 { x: 0, y: 0 },
    }];
    let mut ammo = Vec::new();
    check_timers(&mut silos, 100, &mut ammo);
    assert_eq!(silos[0].missiles, SILO_MAX_MISSILES);
    assert!(silos[0].reload.finished);
    // Nothing further happens on later ticks.
    check_timers(&mut silos, 5_000, &mut ammo);
    assert_eq!(silos[0].missiles, SILO_MAX_MISSILES);
    assert_eq!(ammo.len(), 1);
}

/// Blast size falls by the elapsed milliseconds and the collision
/// radius tracks it exactly; below the cutoff the volume despawns.
#[test]
fn blast_decays_and_despawns() {
    let mut w = World::new();
    w.push_explosion(Explosion {
        id: 0,
        pos: Vec2 { x: 0, y: 0 },
        team: Team::Player,
        base_radius: EXPLOSION_RADIUS,
        size_milli: BASE_EXPLOSION_MULT,
    });
    update_explosions(&mut w, 100);
    assert_eq!(w.explosions.len(), 1);
    assert_eq!(w.explosions[0].size_milli, 900);
    assert_eq!(explosion_radius(&w.explosions[0]), EXPLOSION_RADIUS * 900 / 1000);
    update_explosions(&mut w, 400);
    assert_eq!(w.explosions[0].size_milli, 500);
    assert_eq!(explosion_radius(&w.explosions[0]), EXPLOSION_RADIUS / 2);
    // Decaying below one hundredth of full size despawns the volume.
    update_explosions(&mut w, 491);
    assert_eq!(w.explosions.len(), 0);
}

/// A bonus event sets its modifier and arms the expiry; completion of
/// the countdown restores the baseline.
#[test]
fn modifier_expires_to_baseline() {
    let mut ps = PlayerStatus::new();
    ps.handle_events(
        &vec![SetPlayerExplosionSize(BONUS_EXPLOSION_MULT)],
        &vec![SetPlayerMissileSpeed(BONUS_MISSILE_SPEED)],
    );
    assert_eq!(ps.explosion_size, BONUS_EXPLOSION_MULT);
    assert_eq!(ps.missile_speed, BONUS_MISSILE_SPEED);
    ps.run_timers(5_000);
    assert_eq!(ps.explosion_size, BONUS_EXPLOSION_MULT);
    ps.run_timers(5_000);
    assert_eq!(ps.explosion_size, BASE_EXPLOSION_MULT);
    assert_eq!(ps.missile_speed, PLAYER_MISSILE_SPEED);
}

/// The hard reset restores both modifiers regardless of remaining
/// bonus time.
#[test]
fn modifier_hard_reset() {
    let mut ps = PlayerStatus::new();
    ps.handle_events(
        &vec![SetPlayerExplosionSize(BONUS_EXPLOSION_MULT)],
        &vec![SetPlayerMissileSpeed(BONUS_MISSILE_SPEED)],
    );
    ps.run_timers(1_000);
    ps.reset();
    assert_eq!(ps.explosion_size, BASE_EXPLOSION_MULT);
    assert_eq!(ps.missile_speed, PLAYER_MISSILE_SPEED);
    assert_eq!(ps.explosion_timer.elapsed, 0);
    assert_eq!(ps.missile_timer.elapsed, 0);
}

/// When its countdown completes, the hostile spawner queues one
/// launch request from the top edge toward the bottom edge, inside
/// the horizontal bounds.
#[test]
fn enemy_spawner_fires_in_bounds() {
    let vp = Viewport { half_width: 640_000, half_height: 360_000 };
    let mut spawner = EnemyMissileSpawner::new();
    let mut ev = FrameEvents::new();
    update_timer(&mut spawner, 1_000, &vp, &mut ev);
    assert_eq!(ev.spawn_missiles.len(), 0);
    update_timer(&mut spawner, 2_000, &vp, &mut ev);
    assert_eq!(ev.spawn_missiles.len(), 1);
    let e = &ev.spawn_missiles[0];
    assert_eq!(e.team, Team::Enemy);
    assert_eq!(e.position.y, 360_000);
    assert_eq!(e.target.y, -360_000);
    assert!(-640_000 <= e.position.x && e.position.x < 640_000);
    assert!(-640_000 <= e.target.x && e.target.x < 640_000);
}

/// The volley countdown queues three hostile launch requests at once.
#[test]
fn enemy_volley_fires_three() {
    let vp = Viewport { half_width: 640_000, half_height: 360_000 };
    let mut spawner = EnemyMissileSpawner::new();
    let mut ev = FrameEvents::new();
    // Twelve seconds: four single launches plus one volley of three.
    for _ in 0..4 {
        update_timer(&mut spawner, 3_000, &vp, &mut ev);
    }
    assert_eq!(ev.spawn_missiles.len(), 7);
    for e in ev.spawn_missiles.iter() {
        assert_eq!(e.team, Team::Enemy);
        assert_eq!(e.position.y, 360_000);
        assert_eq!(e.target.y, -360_000);
        assert!(-640_000 <= e.position.x && e.position.x < 640_000);
        assert!(-640_000 <= e.target.x && e.target.x < 640_000);
    }
}

/// When its countdown completes, the pickup spawner queues one pickup
/// just outside an edge, drifting inward, at a height in the upper
/// half.
#[test]
fn powerup_spawner_fires_at_edge() {
    let vp = Viewport { half_width: 640_000, half_height: 360_000 };
    let mut spawner = PowerupSpawner::new();
    let mut ev = FrameEvents::new();
    run_powerup_spawner(&mut spawner, 10_000, &vp, &mut ev);
    assert_eq!(ev.spawn_powerups.len(), 1);
    let e = &ev.spawn_powerups[0];
    assert!(0 <= e.position.y && e.position.y < 360_000);
    assert_eq!(e.velocity.y, 0);
    if e.position.x < 0 {
        assert_eq!(e.position.x, -640_000 - POWERUP_RADIUS);
        assert_eq!(e.velocity.x, 100);
    } else {
        assert_eq!(e.position.x, 640_000 + POWERUP_RADIUS);
        assert_eq!(e.velocity.x, -100);
    }
}

/// The cursor projection moves the origin from the window's corner
/// to its centre.
#[test]
fn cursor_projection_is_centred() {
    let vp = Viewport { half_width: 640_000, half_height: 360_000 };
    let p = missile_command::geom::cursor_to_world(&vp, 0, 0);
    assert_eq!(p, Vec2 { x: -640_000, y: -360_000 });
    let q = missile_command::geom::cursor_to_world(&vp, 640_000, 360_000);
    assert_eq!(q, Vec2 { x: 0, y: 0 });
}

/// The physics step moves everything by velocity times elapsed time.
#[test]
fn physics_moves_by_velocity_times_dt() {
    let mut w = World::new();
    w.push_missile(missile_command::missile::Missile {
        id: 0,
        pos: Vec2 { x: 1_000, y: -2_000 },
        vel: Vec2 { x: 120, y: -160 },
        target: Vec2 { x: 500_000, y: -500_000 },
        team: Team::Enemy,
        radius: missile_command::consts::MISSILE_RADIUS,
    });
    w.apply_velocity(16);
    assert_eq!(w.missiles[0].pos, Vec2 { x: 1_000 + 120 * 16, y: -2_000 - 160 * 16 });
}
