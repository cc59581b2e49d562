//! Tests of the Playing state's systems: motion, spawning and
//! collision resolution, driven through whole ticks.

use shooter_core::entity::{Category, Entity};
use shooter_core::game::{Game, GameState};
use shooter_core::input::InputState;
use shooter_core::menu::{ResultMenu, StartMenu};
use shooter_core::score::Score;
use shooter_core::store::Store;

fn ent(id: u64, category: Category, x: i64, y: i64) -> Entity {
    Entity { id, category, x, y }
}

fn playing_game(entities: Vec<Entity>, next_id: u64, score: u64) -> Game {
    Game {
        state: GameState::Playing,
        score: Score { value: score },
        store: Store { entities, next_id },
        start_menu: StartMenu::Start,
        result_menu: ResultMenu::Restart,
    }
}

fn idle() -> InputState {
    InputState::idle()
}

// A draw beside the sentinel: neither probabilistic spawn acts.
const NO_SPAWN: i32 = 1;

#[test]
fn motion_moves_every_category_by_its_velocity() {
    // Entities far apart so no collision rule fires.
    let mut game = playing_game(
        vec![
            ent(0, Category::Player, 0, 0),
            ent(1, Category::PlayerShot, 500_000, 0),
            ent(2, Category::EnemyShot, -500_000, 0),
            ent(3, Category::Enemy, 0, 800_000),
        ],
        4,
        0,
    );
    let mut inp = idle();
    inp.held_right = true;
    // 16 ms: player +800 units/s right, shot +1000 up, enemy shot -500
    // down, enemy -100 down; thousandths of a unit per millisecond.
    game.tick_with_draws(&inp, 16, NO_SPAWN, 0, NO_SPAWN);
    let live = game.live_entities();
    assert_eq!(live[0].x, 12_800);
    assert_eq!(live[0].y, 0);
    assert_eq!(live[1].y, 16_000);
    assert_eq!(live[1].x, 500_000);
    assert_eq!(live[2].y, -8_000);
    assert_eq!(live[3].y, 798_400);
}

#[test]
fn held_opposing_keys_cancel() {
    let mut game = playing_game(vec![ent(0, Category::Player, 0, 0)], 1, 0);
    let mut inp = idle();
    inp.held_left = true;
    inp.held_right = true;
    inp.held_up = true;
    game.tick_with_draws(&inp, 100, NO_SPAWN, 0, NO_SPAWN);
    let live = game.live_entities();
    assert_eq!(live[0].x, 0);
    assert_eq!(live[0].y, 80_000);
}

#[test]
fn fire_press_spawns_shot_at_player() {
    let mut game = playing_game(vec![ent(0, Category::Player, 20_000, -30_000)], 1, 0);
    let mut inp = idle();
    inp.press_fire = true;
    game.tick_with_draws(&inp, 0, NO_SPAWN, 0, NO_SPAWN);
    let live = game.live_entities();
    assert_eq!(live.len(), 2);
    assert_eq!(live[1].category, Category::PlayerShot);
    assert_eq!(live[1].x, 20_000);
    assert_eq!(live[1].y, -30_000);
    assert_eq!(live[1].id, 1);
    assert_eq!(game.store.next_id, 2);
}

#[test]
fn sentinel_draw_spawns_enemy_on_top_edge() {
    let mut game = playing_game(vec![ent(0, Category::Player, 0, 0)], 1, 0);
    game.tick_with_draws(&idle(), 0, 0, -123_000, NO_SPAWN);
    let live = game.live_entities();
    assert_eq!(live.len(), 2);
    assert_eq!(live[1].category, Category::Enemy);
    assert_eq!(live[1].x, -123_000);
    assert_eq!(live[1].y, 300_000);
}

#[test]
fn other_draws_spawn_nothing() {
    let mut game = playing_game(vec![ent(0, Category::Player, 0, 0)], 1, 0);
    game.tick_with_draws(&idle(), 0, 99, 0, 37);
    assert_eq!(game.live_entities().len(), 1);
}

#[test]
fn sentinel_draw_makes_every_enemy_fire() {
    let mut game = playing_game(
        vec![
            ent(0, Category::Player, 0, 0),
            ent(1, Category::Enemy, 400_000, 500_000),
            ent(2, Category::Enemy, -400_000, 500_000),
        ],
        3,
        0,
    );
    game.tick_with_draws(&idle(), 0, NO_SPAWN, 0, 0);
    let live = game.live_entities();
    assert_eq!(live.len(), 5);
    assert_eq!(live[3].category, Category::EnemyShot);
    assert_eq!(live[3].x, 400_000);
    assert_eq!(live[3].y, 500_000);
    assert_eq!(live[4].category, Category::EnemyShot);
    assert_eq!(live[4].x, -400_000);
    assert_eq!(live[4].y, 500_000);
}

#[test]
fn sentinel_draw_with_no_enemies_spawns_no_shot() {
    // The enemy-shot spawn silently does nothing when no enemy is
    // live, even on a sentinel draw.
    let mut game = playing_game(vec![ent(0, Category::Player, 0, 0)], 1, 0);
    game.tick_with_draws(&idle(), 0, NO_SPAWN, 0, 0);
    assert_eq!(game.live_entities().len(), 1);
    assert_eq!(game.current_state(), GameState::Playing);
}

#[test]
fn shot_destroys_overlapping_enemy_and_scores() {
    // A 10x10 player shot and a 50x50 enemy centred on the same spot.
    let mut game = playing_game(
        vec![
            ent(0, Category::Player, 500_000, -500_000),
            ent(1, Category::PlayerShot, 10_000, 10_000),
            ent(2, Category::Enemy, 10_000, 10_000),
        ],
        3,
        0,
    );
    let out = game.tick_with_draws(&idle(), 0, NO_SPAWN, 0, NO_SPAWN);
    assert_eq!(game.current_state(), GameState::Playing);
    assert_eq!(game.current_score(), 1);
    assert_eq!(game.store.count(Category::Enemy), 0);
    // The shot is not consumed.
    assert_eq!(game.store.count(Category::PlayerShot), 1);
    assert!(!out.enemy_shot_contact);
    assert!(!out.exit_requested);
}

#[test]
fn one_shot_may_destroy_several_enemies() {
    let mut game = playing_game(
        vec![
            ent(0, Category::Player, 500_000, -500_000),
            ent(1, Category::PlayerShot, 0, 0),
            ent(2, Category::Enemy, 10_000, 0),
            ent(3, Category::Enemy, -10_000, 0),
        ],
        4,
        0,
    );
    game.tick_with_draws(&idle(), 0, NO_SPAWN, 0, NO_SPAWN);
    assert_eq!(game.current_score(), 2);
    assert_eq!(game.store.count(Category::Enemy), 0);
}

#[test]
fn two_shots_on_one_enemy_score_twice() {
    // One point per overlapping pair, exactly as the scan works.
    let mut game = playing_game(
        vec![
            ent(0, Category::Player, 500_000, -500_000),
            ent(1, Category::PlayerShot, 10_000, 0),
            ent(2, Category::PlayerShot, -10_000, 0),
            ent(3, Category::Enemy, 0, 0),
        ],
        4,
        0,
    );
    game.tick_with_draws(&idle(), 0, NO_SPAWN, 0, NO_SPAWN);
    assert_eq!(game.current_score(), 2);
    assert_eq!(game.store.count(Category::Enemy), 0);
}

#[test]
fn enemy_shot_contact_is_detection_only() {
    let mut game = playing_game(
        vec![
            ent(0, Category::Player, 0, 0),
            ent(1, Category::EnemyShot, 10_000, 10_000),
        ],
        2,
        7,
    );
    let out = game.tick_with_draws(&idle(), 0, NO_SPAWN, 0, NO_SPAWN);
    assert!(out.enemy_shot_contact);
    // No damage, no score change, no transition.
    assert_eq!(game.current_state(), GameState::Playing);
    assert_eq!(game.current_score(), 7);
    assert_eq!(game.live_entities().len(), 2);
}

#[test]
fn score_is_monotone_across_playing_ticks() {
    let mut game = playing_game(vec![ent(0, Category::Player, 0, 0)], 1, 3);
    let mut last = game.current_score();
    for _ in 0..50 {
        game.tick_with_draws(&idle(), 16, NO_SPAWN, 0, NO_SPAWN);
        let now = game.current_score();
        assert!(now >= last);
        last = now;
    }
}

#[test]
fn exactly_one_player_before_and_after_each_playing_tick() {
    let mut game = playing_game(
        vec![
            ent(0, Category::Player, 0, 0),
            ent(1, Category::Enemy, 400_000, 500_000),
        ],
        2,
        0,
    );
    for _ in 0..20 {
        assert_eq!(game.store.count(Category::Player), 1);
        game.tick_with_draws(&idle(), 16, NO_SPAWN, 0, NO_SPAWN);
        if game.current_state() != GameState::Playing {
            break;
        }
        assert_eq!(game.store.count(Category::Player), 1);
    }
}

#[test]
fn random_ticks_keep_the_invariants() {
    // Drives the real generator: whatever it draws, the machine stays
    // ready and the player stays unique.
    let mut game = Game::new();
    let mut confirm = idle();
    confirm.press_confirm = true;
    game.tick(&confirm, 16);
    assert_eq!(game.current_state(), GameState::Playing);
    // 100 ticks of 16 ms: an enemy spawns 300 units up and descends
    // 100 units/s, so within 1.6 s none can reach the player at the
    // origin and the game must still be Playing.
    for _ in 0..100 {
        assert!(game.can_tick(16));
        game.tick(&idle(), 16);
        assert_eq!(game.current_state(), GameState::Playing);
        assert_eq!(game.store.count(Category::Player), 1);
    }
}
