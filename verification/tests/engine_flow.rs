//! Tests for the assembled engine: the state machine, scene setup and
//! the tick pipeline.

use missile_command::consts::{
    BASE_EXPLOSION_MULT, BONUS_EXPLOSION_MULT, ENEMY_MISSILE_SPEED, MISSILE_RADIUS,
    SILO_MAX_MISSILES,
};
use missile_command::engine::{Engine, SceneConfig, TickInput};
use missile_command::events::SetPlayerExplosionSize;
use missile_command::geom::{Vec2, Viewport};
use missile_command::missile::Missile;
use missile_command::silo::SiloLocation;
use missile_command::state::GameState;
use missile_command::team::Team;
use missile_command::world::Building;

fn viewport() -> Viewport {
    Viewport { half_width: 640_000, half_height: 360_000 }
}

fn config() -> SceneConfig {
    SceneConfig { ground_height: 48_000, silo_height: 32_000, building_height: 48_000 }
}

fn idle_input() -> TickInput {
    TickInput {
        fire_left: false,
        fire_middle: false,
        fire_right: false,
        target: Vec2 { x: 0, y: 100_000 },
    }
}

/// Entering play lays out three installations and six buildings and
/// zeroes the score.
#[test]
fn start_game_builds_scene() {
    let mut e = Engine::new(viewport(), config());
    assert_eq!(e.flow.current(), GameState::MainMenu);
    e.start_game();
    assert_eq!(e.flow.current(), GameState::Game);
    assert_eq!(e.world.silos.len(), 3);
    assert_eq!(e.world.buildings.len(), 6);
    assert_eq!(e.game_status.score, 0);
    let step = 1_280_000 / 9;
    let half = step / 2;
    assert_eq!(e.world.silos[0].location, SiloLocation::Left);
    assert_eq!(e.world.silos[0].pos.x, half - 640_000);
    assert_eq!(e.world.silos[1].location, SiloLocation::Middle);
    assert_eq!(e.world.silos[1].pos.x, step * 4 + half - 640_000);
    assert_eq!(e.world.silos[2].location, SiloLocation::Right);
    assert_eq!(e.world.silos[2].pos.x, step * 8 + half - 640_000);
    for s in e.world.silos.iter() {
        assert_eq!(s.missiles, SILO_MAX_MISSILES - 1);
        assert_eq!(s.pos.y, 32_000 / 2 + 48_000 - 360_000);
    }
    for b in e.world.buildings.iter() {
        assert_eq!(b.pos.y, 48_000 / 2 + 48_000 - 360_000);
    }
}

/// Pausing freezes the tick without touching any entity, and resuming
/// returns to play exactly where it froze.
#[test]
fn pause_freezes_and_resume_restores() {
    let mut e = Engine::new(viewport(), config());
    e.start_game();
    e.tick(16, &idle_input());
    let frozen_world = e.world.clone();
    e.pause();
    assert_eq!(e.flow.current(), GameState::Paused);
    let out = e.tick(16, &idle_input());
    assert_eq!(out.spawn_missiles.len(), 0);
    assert_eq!(e.world.silos.len(), frozen_world.silos.len());
    assert_eq!(e.world.silos[0], frozen_world.silos[0]);
    e.resume();
    assert_eq!(e.flow.current(), GameState::Game);
}

/// Abandoning a paused session tears every entity down and restores
/// the defender's modifiers.
#[test]
fn abandon_resets_everything() {
    let mut e = Engine::new(viewport(), config());
    e.start_game();
    e.player_status.handle_events(&vec![SetPlayerExplosionSize(BONUS_EXPLOSION_MULT)], &vec![]);
    e.pause();
    e.abandon();
    assert_eq!(e.flow.current(), GameState::MainMenu);
    assert_eq!(e.world.silos.len(), 0);
    assert_eq!(e.world.buildings.len(), 0);
    assert_eq!(e.player_status.explosion_size, BASE_EXPLOSION_MULT);
}

/// A fire signal consumes a round and the queued launch becomes a
/// projectile on the following tick, never the same one.
#[test]
fn fire_signal_spawns_next_tick() {
    let mut e = Engine::new(viewport(), config());
    e.start_game();
    let fire = TickInput { fire_left: true, ..idle_input() };
    e.tick(16, &fire);
    assert_eq!(e.world.silos[0].missiles, SILO_MAX_MISSILES - 2);
    assert_eq!(e.world.missiles.len(), 0);
    assert_eq!(e.events.spawn_missiles.len(), 1);
    e.tick(16, &idle_input());
    assert_eq!(e.world.missiles.len(), 1);
    assert_eq!(e.world.missiles[0].team, Team::Player);
}

/// When the last structure falls, play ends in game over on that
/// tick and the scene is torn down; acknowledging returns to the
/// main menu.
#[test]
fn last_structure_ends_game() {
    let mut e = Engine::new(viewport(), config());
    e.flow.reset_to(GameState::Game);
    let id = e.world.peek_id();
    e.world.push_building(Building { id, pos: Vec2 { x: 0, y: -300_000 } });
    let id = e.world.peek_id();
    e.world.push_missile(Missile {
        id,
        pos: Vec2 { x: 0, y: -310_000 },
        vel: Vec2 { x: 0, y: -ENEMY_MISSILE_SPEED },
        target: Vec2 { x: 0, y: -360_000 },
        team: Team::Enemy,
        radius: MISSILE_RADIUS,
    });
    let before = e.game_status.score;
    e.tick(0, &idle_input());
    assert_eq!(e.flow.current(), GameState::GameOver);
    assert_eq!(e.world.buildings.len(), 0);
    assert_eq!(e.world.missiles.len(), 0);
    assert_eq!(e.game_status.score, before);
    e.acknowledge_game_over();
    assert_eq!(e.flow.current(), GameState::MainMenu);
}

/// Score earned during a tick's resolution reaches the running total
/// on the following tick, by the one-tick event latency.
#[test]
fn score_lands_next_tick() {
    let mut e = Engine::new(viewport(), config());
    e.flow.reset_to(GameState::Game);
    let id = e.world.peek_id();
    e.world.push_building(Building { id, pos: Vec2 { x: -500_000, y: -288_000 } });
    let id = e.world.peek_id();
    e.world.push_explosion(missile_command::explosion::Explosion {
        id,
        pos: Vec2 { x: 0, y: 0 },
        team: Team::Player,
        base_radius: missile_command::consts::EXPLOSION_RADIUS,
        size_milli: BASE_EXPLOSION_MULT,
    });
    for x in [10_000, -20_000] {
        let id = e.world.peek_id();
        e.world.push_missile(Missile {
            id,
            pos: Vec2 { x, y: 0 },
            vel: Vec2 { x: 0, y: -ENEMY_MISSILE_SPEED },
            target: Vec2 { x, y: -360_000 },
            team: Team::Enemy,
            radius: MISSILE_RADIUS,
        });
    }
    e.tick(0, &idle_input());
    assert_eq!(e.game_status.score, 0);
    assert_eq!(e.world.missiles.len(), 0);
    assert_eq!(e.events.score.len(), 2);
    e.tick(0, &idle_input());
    assert_eq!(e.game_status.score, 2 * missile_command::consts::MISSILE_VALUE);
}

/// Ticks outside play leave the engine untouched.
#[test]
fn menu_tick_is_noop() {
    let mut e = Engine::new(viewport(), config());
    let out = e.tick(16, &idle_input());
    assert_eq!(e.flow.current(), GameState::MainMenu);
    assert_eq!(out.spawn_missiles.len(), 0);
    assert_eq!(e.world.next_id, 0);
}

/// The options menu opens from the main menu and closes back.
#[test]
fn options_menu_round_trip() {
    let mut e = Engine::new(viewport(), config());
    e.open_options();
    assert_eq!(e.flow.current(), GameState::OptionsMenu);
    e.close_options();
    assert_eq!(e.flow.current(), GameState::MainMenu);
}
