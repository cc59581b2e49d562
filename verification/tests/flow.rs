//! Tests of the Start / Playing / Result flow: menu input, the
//! transition lifecycle, and the terminal collision.

use shooter_core::entity::{Category, Entity};
use shooter_core::game::{Game, GameState};
use shooter_core::input::InputState;
use shooter_core::menu::{ResultMenu, StartMenu};
use shooter_core::score::Score;
use shooter_core::store::Store;

fn ent(id: u64, category: Category, x: i64, y: i64) -> Entity {
    Entity { id, category, x, y }
}

fn playing_game(entities: Vec<Entity>, next_id: u64, score: u64) -> Game {
    Game {
        state: GameState::Playing,
        score: Score { value: score },
        store: Store { entities, next_id },
        start_menu: StartMenu::Start,
        result_menu: ResultMenu::Restart,
    }
}

fn result_game(score: u64) -> Game {
    Game {
        state: GameState::Result,
        score: Score { value: score },
        store: Store { entities: Vec::new(), next_id: 5 },
        start_menu: StartMenu::Start,
        result_menu: ResultMenu::Restart,
    }
}

fn idle() -> InputState {
    InputState::idle()
}

const NO_SPAWN: i32 = 1;

#[test]
fn new_game_opens_the_start_screen() {
    let game = Game::new();
    assert_eq!(game.current_state(), GameState::Start);
    assert_eq!(game.current_score(), 0);
    assert_eq!(game.start_selection(), StartMenu::Start);
    assert_eq!(game.live_entities().len(), 0);
    assert!(game.can_tick(16));
}

#[test]
fn confirming_default_start_selection_enters_playing() {
    // Confirm on the Start screen with the default selection: the next
    // state is Playing, the score is reset to zero, and the one player
    // stands at the origin.
    let mut game = Game::new();
    let mut inp = idle();
    inp.press_confirm = true;
    let out = game.tick_with_draws(&inp, 16, NO_SPAWN, 0, NO_SPAWN);
    assert_eq!(game.current_state(), GameState::Playing);
    assert_eq!(game.current_score(), 0);
    assert!(!out.exit_requested);
    let live = game.live_entities();
    assert_eq!(live.len(), 1);
    assert_eq!(live[0].category, Category::Player);
    assert_eq!(live[0].x, 0);
    assert_eq!(live[0].y, 0);
}

#[test]
fn start_menu_right_selects_exit_and_confirm_requests_it() {
    let mut game = Game::new();
    let mut right = idle();
    right.press_right = true;
    game.tick_with_draws(&right, 16, NO_SPAWN, 0, NO_SPAWN);
    assert_eq!(game.start_selection(), StartMenu::Exit);
    assert_eq!(game.current_state(), GameState::Start);

    let mut confirm = idle();
    confirm.press_confirm = true;
    let out = game.tick_with_draws(&confirm, 16, NO_SPAWN, 0, NO_SPAWN);
    // Exit terminates the process at the driver; the machine itself
    // stays on the Start screen.
    assert!(out.exit_requested);
    assert_eq!(game.current_state(), GameState::Start);
}

#[test]
fn start_menu_left_reselects_start() {
    let mut game = Game::new();
    let mut right = idle();
    right.press_right = true;
    game.tick_with_draws(&right, 16, NO_SPAWN, 0, NO_SPAWN);
    let mut left = idle();
    left.press_left = true;
    game.tick_with_draws(&left, 16, NO_SPAWN, 0, NO_SPAWN);
    assert_eq!(game.start_selection(), StartMenu::Start);
}

#[test]
fn right_wins_when_both_directions_arrive_together() {
    let mut game = Game::new();
    let mut both = idle();
    both.press_left = true;
    both.press_right = true;
    game.tick_with_draws(&both, 16, NO_SPAWN, 0, NO_SPAWN);
    assert_eq!(game.start_selection(), StartMenu::Exit);
}

#[test]
fn enemy_on_player_ends_the_session() {
    // A 100x100 player and a 50x50 enemy centred on the same spot:
    // the terminal collision fires and the next state is Result.
    let mut game = playing_game(
        vec![
            ent(0, Category::Player, 0, 0),
            ent(1, Category::Enemy, 0, 0),
        ],
        2,
        4,
    );
    game.tick_with_draws(&idle(), 0, NO_SPAWN, 0, NO_SPAWN);
    assert_eq!(game.current_state(), GameState::Result);
    // Leaving Playing purges every entity.
    assert_eq!(game.live_entities().len(), 0);
    // The Result screen opens on its first option; the score stays.
    assert_eq!(game.result_selection(), ResultMenu::Restart);
    assert_eq!(game.current_score(), 4);
}

#[test]
fn several_terminal_overlaps_run_one_lifecycle() {
    // Two enemies overlap the player at once: the transition request
    // is idempotent, so the tick still runs exactly one exit/enter
    // lifecycle and lands cleanly on Result.
    let mut game = playing_game(
        vec![
            ent(0, Category::Player, 0, 0),
            ent(1, Category::Enemy, 10_000, 0),
            ent(2, Category::Enemy, -10_000, 0),
        ],
        3,
        0,
    );
    game.tick_with_draws(&idle(), 0, NO_SPAWN, 0, NO_SPAWN);
    assert_eq!(game.current_state(), GameState::Result);
    assert_eq!(game.result_selection(), ResultMenu::Restart);
    assert_eq!(game.live_entities().len(), 0);
}

#[test]
fn result_right_then_confirm_goes_back_to_title() {
    // On the Result screen: directional right, then confirm.  The
    // selection becomes BackToTitle and the next state is Start.
    let mut game = result_game(9);
    let mut right = idle();
    right.press_right = true;
    game.tick_with_draws(&right, 16, NO_SPAWN, 0, NO_SPAWN);
    assert_eq!(game.result_selection(), ResultMenu::BackToTitle);
    assert_eq!(game.current_state(), GameState::Result);

    let mut confirm = idle();
    confirm.press_confirm = true;
    game.tick_with_draws(&confirm, 16, NO_SPAWN, 0, NO_SPAWN);
    assert_eq!(game.current_state(), GameState::Start);
    assert_eq!(game.start_selection(), StartMenu::Start);
}

#[test]
fn result_confirm_on_restart_reenters_playing() {
    let mut game = result_game(9);
    let mut confirm = idle();
    confirm.press_confirm = true;
    game.tick_with_draws(&confirm, 16, NO_SPAWN, 0, NO_SPAWN);
    assert_eq!(game.current_state(), GameState::Playing);
    // Entering Playing resets the score and creates the fresh player.
    assert_eq!(game.current_score(), 0);
    assert_eq!(game.live_entities().len(), 1);
    assert_eq!(game.live_entities()[0].category, Category::Player);
}

#[test]
fn result_continue_key_bypasses_the_menu() {
    // The generic continue key restarts play directly, whatever the
    // menu shows.
    let mut game = result_game(2);
    let mut right = idle();
    right.press_right = true;
    game.tick_with_draws(&right, 16, NO_SPAWN, 0, NO_SPAWN);
    assert_eq!(game.result_selection(), ResultMenu::BackToTitle);

    let mut cont = idle();
    cont.press_fire = true;
    game.tick_with_draws(&cont, 16, NO_SPAWN, 0, NO_SPAWN);
    assert_eq!(game.current_state(), GameState::Playing);
    assert_eq!(game.current_score(), 0);
}

#[test]
fn full_session_round_trip() {
    // Start -> Playing by confirm; a terminal collision cannot happen
    // with no enemy, so play a few ticks, then force the session's end
    // and restart from the Result screen.
    let mut game = Game::new();
    let mut confirm = idle();
    confirm.press_confirm = true;
    game.tick_with_draws(&confirm, 16, NO_SPAWN, 0, NO_SPAWN);
    assert_eq!(game.current_state(), GameState::Playing);
    for _ in 0..10 {
        game.tick_with_draws(&idle(), 16, NO_SPAWN, 0, NO_SPAWN);
    }
    assert_eq!(game.current_state(), GameState::Playing);
    // Plant an enemy on the player to end the session.
    let px = game.live_entities()[0].x;
    let py = game.live_entities()[0].y;
    let id = game.store.next_id;
    game.store.create(Category::Enemy, px, py);
    assert_eq!(id + 1, game.store.next_id);
    game.tick_with_draws(&idle(), 16, NO_SPAWN, 0, NO_SPAWN);
    assert_eq!(game.current_state(), GameState::Result);
    game.tick_with_draws(&confirm, 16, NO_SPAWN, 0, NO_SPAWN);
    assert_eq!(game.current_state(), GameState::Playing);
    assert_eq!(game.current_score(), 0);
}

#[test]
fn can_tick_rejects_bad_machines() {
    let game = Game::new();
    // A tick longer than the motion rules accept.
    assert!(!game.can_tick(1_000_001));
    // A menu screen with a live entity breaks the invariant.
    let broken = Game {
        state: GameState::Start,
        score: Score { value: 0 },
        store: Store { entities: vec![ent(0, Category::Enemy, 0, 0)], next_id: 1 },
        start_menu: StartMenu::Start,
        result_menu: ResultMenu::Restart,
    };
    assert!(!broken.can_tick(16));
    // Ids out of order break the store's invariant.
    let unsorted = playing_game(
        vec![
            ent(5, Category::Player, 0, 0),
            ent(2, Category::Enemy, 400_000, 0),
        ],
        6,
        0,
    );
    assert!(!unsorted.can_tick(16));
    // Two players during Playing break the invariant.
    let doubled = playing_game(
        vec![
            ent(0, Category::Player, 0, 0),
            ent(1, Category::Player, 200_000, 0),
        ],
        2,
        0,
    );
    assert!(!doubled.can_tick(16));
}
