//! Scenario tests for the collision and lifecycle passes.

use missile_command::collision::{
    enemy_missile_collisions, explosion_collisions, missile_collisions,
};
use missile_command::consts::{
    BASE_EXPLOSION_MULT, ENEMY_MISSILE_SPEED, EXPLOSION_RADIUS, MISSILE_RADIUS, MISSILE_VALUE,
    PLAYER_MISSILE_SPEED, POWERUP_RADIUS, SILO_MAX_MISSILES, SILO_RELOAD_TIME,
};
use missile_command::debris::DebrisType;
use missile_command::events::FrameEvents;
use missile_command::explosion::Explosion;
use missile_command::geom::{Vec2, Viewport};
use missile_command::missile::{check_target_reached, spawn_missiles, Missile, SpawnMissile};
use missile_command::powerups::{check_offscreen_powerups, Powerup, PowerupType};
use missile_command::silo::{Silo, SiloLocation};
use missile_command::team::Team;
use missile_command::timer::Timer;
use missile_command::world::{Building, World};

fn enemy_missile(id: u64, x: i64, y: i64) -> Missile {
    Missile {
        id,
        pos: Vec2 { x, y },
        vel: Vec2 { x: 0, y: -ENEMY_MISSILE_SPEED },
        target: Vec2 { x, y: -300_000 },
        team: Team::Enemy,
        radius: MISSILE_RADIUS,
    }
}

/// One blast at the origin destroys every hostile projectile in
/// reach in the same pass, and the score rises once per projectile.
#[test]
fn blast_kills_cluster() {
    let mut w = World::new();
    w.push_explosion(Explosion {
        id: 0,
        pos: Vec2 { x: 0, y: 0 },
        team: Team::Player,
        base_radius: EXPLOSION_RADIUS,
        size_milli: BASE_EXPLOSION_MULT,
    });
    w.push_missile(enemy_missile(1, 10_000, 0));
    let m2 = enemy_missile(2, -20_000, 0);
    w.push_missile(m2);
    let mut ev = FrameEvents::new();
    explosion_collisions(&mut w, &mut ev);
    assert_eq!(w.missiles.len(), 0);
    assert_eq!(ev.score.len(), 2);
    let total: u64 = ev.score.iter().map(|s| s.0).sum();
    assert_eq!(total, MISSILE_VALUE * 2);
}

/// A hostile projectile out of every blast's reach survives the pass.
#[test]
fn blast_spares_out_of_reach() {
    let mut w = World::new();
    w.push_explosion(Explosion {
        id: 0,
        pos: Vec2 { x: 0, y: 0 },
        team: Team::Player,
        base_radius: EXPLOSION_RADIUS,
        size_milli: BASE_EXPLOSION_MULT,
    });
    // Radius sum is 35_500: just inside stays, just outside survives.
    w.push_missile(enemy_missile(1, 35_499, 0));
    w.push_missile(enemy_missile(2, 35_500, 0));
    let mut ev = FrameEvents::new();
    explosion_collisions(&mut w, &mut ev);
    assert_eq!(w.missiles.len(), 1);
    assert_eq!(w.missiles[0].id, 2);
    assert_eq!(ev.score.len(), 1);
}

/// A hostile blast destroys nothing: only defender blasts take part
/// in the offence rules.
#[test]
fn enemy_blast_is_harmless() {
    let mut w = World::new();
    w.push_explosion(Explosion {
        id: 0,
        pos: Vec2 { x: 0, y: 0 },
        team: Team::Enemy,
        base_radius: EXPLOSION_RADIUS,
        size_milli: BASE_EXPLOSION_MULT,
    });
    w.push_missile(enemy_missile(1, 0, 0));
    let mut ev = FrameEvents::new();
    explosion_collisions(&mut w, &mut ev);
    assert_eq!(w.missiles.len(), 1);
    assert_eq!(ev.score.len(), 0);
}

/// A projectile within the detonation distance of its target despawns
/// and the blast is requested at the projectile's current position,
/// not at the target point.
#[test]
fn projectile_reaches_target() {
    let mut w = World::new();
    w.push_missile(Missile {
        id: 0,
        pos: Vec2 { x: 0, y: 0 },
        vel: Vec2 { x: 0, y: PLAYER_MISSILE_SPEED },
        target: Vec2 { x: 3_000, y: 0 },
        team: Team::Player,
        radius: MISSILE_RADIUS,
    });
    let mut ev = FrameEvents::new();
    // Squared distance is 9 squared units, below the epsilon of 10.
    check_target_reached(&mut w, &mut ev, BASE_EXPLOSION_MULT);
    assert_eq!(w.missiles.len(), 0);
    assert_eq!(ev.spawn_explosions.len(), 1);
    assert_eq!(ev.spawn_explosions[0].position, Vec2 { x: 0, y: 0 });
    assert_eq!(ev.spawn_explosions[0].team, Team::Player);
}

/// A projectile still eleven squared units away flies on.
#[test]
fn projectile_short_of_target_flies_on() {
    let mut w = World::new();
    w.push_missile(Missile {
        id: 0,
        pos: Vec2 { x: 0, y: 0 },
        vel: Vec2 { x: 0, y: PLAYER_MISSILE_SPEED },
        target: Vec2 { x: 4_000, y: 0 },
        team: Team::Player,
        radius: MISSILE_RADIUS,
    });
    let mut ev = FrameEvents::new();
    check_target_reached(&mut w, &mut ev, BASE_EXPLOSION_MULT);
    assert_eq!(w.missiles.len(), 1);
    assert_eq!(ev.spawn_explosions.len(), 0);
}

/// A hostile projectile inside a building's footprint destroys the
/// building, leaves a hostile blast, and drops building debris.
#[test]
fn structure_destroyed_by_missile() {
    let mut w = World::new();
    w.push_building(Building { id: 0, pos: Vec2 { x: 100_000, y: -300_000 } });
    w.push_missile(enemy_missile(1, 100_000, -310_000));
    let mut ev = FrameEvents::new();
    enemy_missile_collisions(&mut w, &mut ev);
    assert_eq!(w.buildings.len(), 0);
    assert_eq!(w.missiles.len(), 0);
    assert_eq!(ev.spawn_explosions.len(), 1);
    assert_eq!(ev.spawn_explosions[0].team, Team::Enemy);
    assert_eq!(ev.spawn_debris.len(), 1);
    assert_eq!(ev.spawn_debris[0].x_position, 100_000);
    assert!(matches!(ev.spawn_debris[0].debris_type, DebrisType::Building));
}

/// A defender and a hostile projectile in mutual reach destroy each
/// other; the defender's blast opens at its own position.
#[test]
fn missiles_collide_head_on() {
    let mut w = World::new();
    w.push_missile(Missile {
        id: 0,
        pos: Vec2 { x: 0, y: 0 },
        vel: Vec2 { x: 0, y: PLAYER_MISSILE_SPEED },
        target: Vec2 { x: 0, y: 200_000 },
        team: Team::Player,
        radius: MISSILE_RADIUS,
    });
    w.push_missile(enemy_missile(1, 0, 5_000));
    let mut ev = FrameEvents::new();
    missile_collisions(&mut w, &mut ev, BASE_EXPLOSION_MULT);
    assert_eq!(w.missiles.len(), 0);
    assert_eq!(ev.spawn_explosions.len(), 1);
    assert_eq!(ev.spawn_explosions[0].position, Vec2 { x: 0, y: 0 });
    assert_eq!(ev.score.len(), 1);
    assert_eq!(ev.score[0].0, 20);
}

/// A pickup that drifts past the far edge despawns silently.
#[test]
fn pickup_offscreen() {
    let vp = Viewport { half_width: 640_000, half_height: 360_000 };
    let mut w = World::new();
    w.push_powerup(Powerup {
        id: 0,
        powerup_type: PowerupType::Score,
        pos: Vec2 { x: -640_000 - POWERUP_RADIUS - 1, y: 100_000 },
        vel: Vec2 { x: -100, y: 0 },
        radius: POWERUP_RADIUS,
    });
    w.push_powerup(Powerup {
        id: 1,
        powerup_type: PowerupType::Score,
        pos: Vec2 { x: 0, y: 100_000 },
        vel: Vec2 { x: -100, y: 0 },
        radius: POWERUP_RADIUS,
    });
    check_offscreen_powerups(&mut w, &vp);
    assert_eq!(w.powerups.len(), 1);
    assert_eq!(w.powerups[0].id, 1);
}

/// A pickup exactly on the threshold is still on the field.
#[test]
fn pickup_on_edge_stays() {
    let vp = Viewport { half_width: 640_000, half_height: 360_000 };
    let mut w = World::new();
    w.push_powerup(Powerup {
        id: 0,
        powerup_type: PowerupType::Score,
        pos: Vec2 { x: -640_000 - POWERUP_RADIUS, y: 100_000 },
        vel: Vec2 { x: -100, y: 0 },
        radius: POWERUP_RADIUS,
    });
    check_offscreen_powerups(&mut w, &vp);
    assert_eq!(w.powerups.len(), 1);
}

/// A despawn aimed at a handle that is already gone changes nothing,
/// however often it is issued, and never touches other entities.
#[test]
fn despawn_is_idempotent() {
    let mut w = World::new();
    w.push_missile(enemy_missile(0, 0, 0));
    w.push_missile(enemy_missile(1, 50_000, 0));
    w.despawn(0);
    assert_eq!(w.missiles.len(), 1);
    assert_eq!(w.missiles[0].id, 1);
    w.despawn(0);
    w.despawn(7777);
    assert_eq!(w.missiles.len(), 1);
    assert_eq!(w.missiles[0].id, 1);
    assert_eq!(w.missiles[0], enemy_missile(1, 50_000, 0));
}

/// Firing with rounds left consumes one round, queues one launch
/// request toward the chosen target, and leaves the countdown armed.
#[test]
fn fire_with_full_ammo() {
    let mut silo = Silo {
        id: 0,
        location: SiloLocation::Left,
        missiles: SILO_MAX_MISSILES,
        reload: Timer::new(SILO_RELOAD_TIME, false),
        pos: Vec2 { x: -500_000, y: -320_000 },
    };
    let target = Vec2 { x: 0, y: 100_000 };
    let ev = silo.fire(target).expect("a full installation must fire");
    assert_eq!(silo.missiles, SILO_MAX_MISSILES - 1);
    assert_eq!(ev.position, Vec2 { x: -500_000, y: -320_000 });
    assert_eq!(ev.target, target);
    assert_eq!(ev.team, Team::Player);
    assert!(silo.reload.elapsed < silo.reload.duration);

    // The queued request becomes a projectile whose velocity points
    // from the installation toward the target.
    let mut w = World::new();
    spawn_missiles(&mut w, &vec![ev], PLAYER_MISSILE_SPEED);
    assert_eq!(w.missiles.len(), 1);
    let m = &w.missiles[0];
    assert_eq!(m.pos, Vec2 { x: -500_000, y: -320_000 });
    assert!(m.vel.x > 0 && m.vel.y > 0);
    // The displacement is (500_000, 420_000); the velocity keeps that
    // orientation: vel.x * dy == vel.y * dx up to rounding.
    let cross = (m.vel.x as i128) * 420_000 - (m.vel.y as i128) * 500_000;
    assert!(cross.abs() <= 500_000 + 420_000);
}

/// Firing on an empty installation is rejected: no event, no change.
#[test]
fn fire_with_no_ammo_is_rejected() {
    let mut silo = Silo {
        id: 0,
        location: SiloLocation::Left,
        missiles: 0,
        reload: Timer::new(SILO_RELOAD_TIME, false),
        pos: Vec2 { x: 0, y: 0 },
    };
    let before = silo;
    assert!(silo.fire(Vec2 { x: 0, y: 100_000 }).is_none());
    assert_eq!(silo, before);
}

/// A launch request whose origin equals its target is dropped: there
/// is no direction to fly in.
#[test]
fn degenerate_launch_is_dropped() {
    let mut w = World::new();
    let e = SpawnMissile {
        position: Vec2 { x: 5, y: 5 },
        target: Vec2 { x: 5, y: 5 },
        team: Team::Enemy,
    };
    spawn_missiles(&mut w, &vec![e], PLAYER_MISSILE_SPEED);
    assert_eq!(w.missiles.len(), 0);
}

/// A pickup caught in a defender blast is collected: it despawns,
/// its effect event and a sound cue are emitted, and applying the
/// effect arms the matching modifier.
#[test]
fn pickup_collected_by_blast_grants_bonus() {
    let mut w = World::new();
    w.push_explosion(Explosion {
        id: 0,
        pos: Vec2 { x: 0, y: 0 },
        team: Team::Player,
        base_radius: EXPLOSION_RADIUS,
        size_milli: BASE_EXPLOSION_MULT,
    });
    w.push_powerup(Powerup {
        id: 1,
        powerup_type: PowerupType::ExplosionSize,
        pos: Vec2 { x: 20_000, y: 0 },
        vel: Vec2 { x: -100, y: 0 },
        radius: POWERUP_RADIUS,
    });
    let mut ev = FrameEvents::new();
    explosion_collisions(&mut w, &mut ev);
    assert_eq!(w.powerups.len(), 0);
    assert_eq!(ev.blast_bonus.len(), 1);
    assert_eq!(ev.sounds.len(), 1);
    assert_eq!(ev.score.len(), 0);

    let mut ps = missile_command::player_status::PlayerStatus::new();
    ps.handle_events(&ev.blast_bonus, &ev.speed_bonus);
    assert_eq!(ps.explosion_size, missile_command::consts::BONUS_EXPLOSION_MULT);
}

/// A defender projectile that flies into a pickup detonates there and
/// collects it.
#[test]
fn pickup_collected_by_missile() {
    let mut w = World::new();
    w.push_missile(Missile {
        id: 0,
        pos: Vec2 { x: 0, y: 0 },
        vel: Vec2 { x: 100, y: 0 },
        target: Vec2 { x: 400_000, y: 0 },
        team: Team::Player,
        radius: MISSILE_RADIUS,
    });
    w.push_powerup(Powerup {
        id: 1,
        powerup_type: PowerupType::Score,
        pos: Vec2 { x: 10_000, y: 0 },
        vel: Vec2 { x: -100, y: 0 },
        radius: POWERUP_RADIUS,
    });
    let mut ev = FrameEvents::new();
    missile_command::collision::powerup_collisions(&mut w, &mut ev, BASE_EXPLOSION_MULT);
    assert_eq!(w.missiles.len(), 0);
    assert_eq!(w.powerups.len(), 0);
    assert_eq!(ev.spawn_explosions.len(), 1);
    assert_eq!(ev.spawn_explosions[0].position, Vec2 { x: 0, y: 0 });
    assert_eq!(ev.score.len(), 1);
    assert_eq!(ev.score[0].0, 100);
    assert_eq!(ev.sounds.len(), 1);
}

/// A grounded projectile despawns with a blast of its own team at its
/// position.
#[test]
fn grounded_missile_detonates() {
    let mut w = World::new();
    w.push_missile(enemy_missile(0, 5_000, -297_000));
    let mut ev = FrameEvents::new();
    missile_command::collision::missile_ground_collisions(&mut w, &mut ev, BASE_EXPLOSION_MULT);
    assert_eq!(w.missiles.len(), 0);
    assert_eq!(ev.spawn_explosions.len(), 1);
    assert_eq!(ev.spawn_explosions[0].position, Vec2 { x: 5_000, y: -297_000 });
    assert_eq!(ev.spawn_explosions[0].team, Team::Enemy);
}

/// The launch velocity is the displacement normalised to the team's
/// speed, rounded toward zero: a 3-4-5 triangle gives exact
/// components.
#[test]
fn launch_velocity_three_four_five() {
    let mut w = World::new();
    let e = SpawnMissile {
        position: Vec2 { x: 0, y: 0 },
        target: Vec2 { x: 300_000, y: 400_000 },
        team: Team::Player,
    };
    spawn_missiles(&mut w, &vec![e], PLAYER_MISSILE_SPEED);
    assert_eq!(w.missiles.len(), 1);
    assert_eq!(w.missiles[0].vel, Vec2 { x: 120, y: 160 });
}
