//! The game itself: the Start / Playing / Result state machine, the
//! per-tick dispatch to the Playing systems, and the transition
//! lifecycle that runs exactly once at each tick boundary.
//!
//! A tick takes the input snapshot and the elapsed milliseconds,
//! updates the menus or runs motion, spawner and collision resolution,
//! and then applies the one requested state transition, firing the
//! leaving state's purge and the entered state's setup.

use vstd::prelude::*;

use crate::collision::{
    any_overlap, lemma_survivors_props, lemma_survivors_count, lemma_total_hits_bound,
    resolve_collisions, survivors, total_hits, MAX_SCAN,
};
use crate::entity::{
    count_cat, lemma_count_cat_concat, lemma_count_prefix_absent,
    ids_adjacent_sorted, lemma_sorted_prefix_pairwise, Category, Entity, entity_in_range,
};
use crate::geom::{in_coord_range, COORD_LIMIT};
use crate::input::InputState;
use crate::menu::{
    next_result_selection, next_start_selection, step_result_selection,
    step_start_selection, ResultMenu, StartMenu,
};
use crate::motion::{lemma_move_all_shape, lemma_move_all_count, move_all, move_entities, DT_MAX_MS};
use crate::score::{sat_add_u64, Score};
use crate::spawn::{
    lemma_spawn_reqs_props, materialize, spawn_reqs, stage_spawns, SpawnReq,
    ENEMY_SPAWN_X_MAX, ENEMY_SPAWN_X_MIN, SPAWN_DRAW_BOUND,
};
use crate::store::{model_wf, Store, StoreModel};
use crate::rng::draw_in_range;

verus! {

/// The three screens of the game flow.  Start is initial; the Result
/// screen always loops back, so there is no terminal state.
#[derive(Clone, Copy, PartialEq, Eq, Structural, Debug)]
pub enum GameState {
    Start,
    Playing,
    Result,
}

/// What one tick asks of the driver beyond the new state.
#[derive(Clone, Copy, PartialEq, Eq, Structural, Debug)]
pub struct TickOutcome {
    /// The Start menu's Exit option was confirmed: the process should
    /// terminate.
    pub exit_requested: bool,
    /// An enemy shot overlapped the player this tick: a detection
    /// signal with no gameplay effect.
    pub enemy_shot_contact: bool,
}

/// The whole simulation: current screen, score, live entities and the
/// two menu selections.
pub struct Game {
    pub state: GameState,
    pub score: Score,
    pub store: Store,
    pub start_menu: StartMenu,
    pub result_menu: ResultMenu,
}

/// A transition request, last-write-wins: whatever was requested
/// before, the tick boundary applies the newest request.  This is how
/// several terminal collisions in one scan still yield one exit/enter
/// lifecycle.
pub open spec fn request_set(pending: Option<GameState>, s: GameState) -> Option<GameState> {
    Some(s)
}

/// Requesting the same transition again within one tick changes
/// nothing, so however many terminal collisions request the Result
/// screen, exactly one exit/enter lifecycle runs at the boundary.
pub proof fn lemma_repeat_request_idempotent(pending: Option<GameState>, s: GameState)
    ensures
        request_set(request_set(pending, s), s) == request_set(pending, s),
{
}

/// The tick's snapshot in Playing: every entity after motion.
pub open spec fn playing_snapshot(g: Game, inp: InputState, dt: int) -> Seq<Entity> {
    move_all(g.store@.entities, inp, dt)
}

/// What the spawner stages on a Playing tick.
pub open spec fn playing_reqs(
    g: Game, inp: InputState, dt: int, d1: int, x: int, d2: int,
) -> Seq<SpawnReq> {
    spawn_reqs(playing_snapshot(g, inp, dt), inp, d1, x, d2)
}

/// An enemy overlaps the player this tick: the terminal collision.
pub open spec fn playing_terminal(g: Game, inp: InputState, dt: int) -> bool {
    any_overlap(playing_snapshot(g, inp, dt), Category::Enemy, Category::Player)
}

/// An enemy shot overlaps the player this tick: detection only.
pub open spec fn playing_contact(g: Game, inp: InputState, dt: int) -> bool {
    any_overlap(playing_snapshot(g, inp, dt), Category::EnemyShot, Category::Player)
}

/// The store a Playing tick leaves before the boundary lifecycle:
/// the snapshot minus the destroyed enemies, then the staged spawns,
/// their ids handed out in order.
pub open spec fn playing_store_after(
    g: Game, inp: InputState, dt: int, d1: int, x: int, d2: int,
) -> StoreModel {
    let snap = playing_snapshot(g, inp, dt);
    let reqs = playing_reqs(g, inp, dt, d1, x, d2);
    StoreModel {
        entities: survivors(snap) + materialize(reqs, g.store@.next_id),
        next_id: g.store@.next_id + reqs.len(),
    }
}

/// The transition this tick requests, if any.  In Start and Result it
/// comes from the menus and the continue key; in Playing from the
/// terminal collision.
pub open spec fn requested_transition(g: Game, inp: InputState, dt: int) -> Option<GameState> {
    match g.state {
        GameState::Start => {
            if inp.press_confirm
                && next_start_selection(g.start_menu, inp) == StartMenu::Start {
                request_set(None, GameState::Playing)
            } else {
                None
            }
        },
        GameState::Playing => {
            if playing_terminal(g, inp, dt) {
                request_set(None, GameState::Result)
            } else {
                None
            }
        },
        GameState::Result => {
            let cont = if inp.press_fire {
                request_set(None, GameState::Playing)
            } else {
                None
            };
            if inp.press_confirm {
                match next_result_selection(g.result_menu, inp) {
                    ResultMenu::Restart => request_set(cont, GameState::Playing),
                    ResultMenu::BackToTitle => request_set(cont, GameState::Start),
                }
            } else {
                cont
            }
        },
    }
}

/// The screen after the tick boundary.
pub open spec fn next_state(g: Game, inp: InputState, dt: int) -> GameState {
    match requested_transition(g, inp, dt) {
        Some(s) => s,
        None => g.state,
    }
}

/// The store after the tick boundary.  Leaving Playing purges every
/// entity; entering Playing creates the one player at the origin.
pub open spec fn next_store(
    g: Game, inp: InputState, dt: int, d1: int, x: int, d2: int,
) -> StoreModel {
    let mid = if g.state == GameState::Playing {
        playing_store_after(g, inp, dt, d1, x, d2)
    } else {
        g.store@
    };
    match requested_transition(g, inp, dt) {
        Some(GameState::Playing) => StoreModel {
            entities: seq![Entity {
                id: mid.next_id as u64,
                category: Category::Player,
                x: 0,
                y: 0,
            }],
            next_id: mid.next_id + 1,
        },
        Some(GameState::Result) => StoreModel { entities: Seq::empty(), next_id: mid.next_id },
        _ => mid,
    }
}

/// The score after the tick boundary: entering Playing resets it to
/// zero; a Playing tick adds one point per overlapping player-shot
/// and enemy pair; the menus leave it alone.
pub open spec fn next_score(g: Game, inp: InputState, dt: int) -> int {
    if requested_transition(g, inp, dt) == Some(GameState::Playing) {
        0
    } else if g.state == GameState::Playing {
        sat_add_u64(g.score.value as int, total_hits(playing_snapshot(g, inp, dt)))
    } else {
        g.score.value as int
    }
}

/// The Start selection after the tick: entering Start resets it to
/// its first option, a tick on the Start screen steps it.
pub open spec fn next_start_menu(g: Game, inp: InputState, dt: int) -> StartMenu {
    if requested_transition(g, inp, dt) == Some(GameState::Start) {
        StartMenu::Start
    } else if g.state == GameState::Start {
        next_start_selection(g.start_menu, inp)
    } else {
        g.start_menu
    }
}

/// The Result selection after the tick: entering Result resets it to
/// its first option, a tick on the Result screen steps it.
pub open spec fn next_result_menu(g: Game, inp: InputState, dt: int) -> ResultMenu {
    if requested_transition(g, inp, dt) == Some(GameState::Result) {
        ResultMenu::Restart
    } else if g.state == GameState::Result {
        next_result_selection(g.result_menu, inp)
    } else {
        g.result_menu
    }
}

/// The Start menu's Exit option was confirmed this tick.
pub open spec fn exit_requested(g: Game, inp: InputState) -> bool {
    &&& g.state == GameState::Start
    &&& inp.press_confirm
    &&& next_start_selection(g.start_menu, inp) == StartMenu::Exit
}

/// The detection signal of an enemy shot overlapping the player.
pub open spec fn contact_flag(g: Game, inp: InputState, dt: int) -> bool {
    g.state == GameState::Playing && playing_contact(g, inp, dt)
}

/// A Playing tick's systems keep the store well formed and touch no
/// player: the category counts survive motion, only enemies are
/// destroyed, and the spawner never creates a player.
proof fn lemma_playing_store_wf(g: Game, inp: InputState, dt: int, d1: int, x: int, d2: int)
    requires
        g.wf(),
        g.state == GameState::Playing,
        in_coord_range(x),
        g.store@.next_id + g.store@.entities.len() + 3 <= u64::MAX as int,
    ensures
        model_wf(playing_store_after(g, inp, dt, d1, x, d2)),
        count_cat(playing_store_after(g, inp, dt, d1, x, d2).entities, Category::Player)
            == count_cat(g.store@.entities, Category::Player),
        playing_store_after(g, inp, dt, d1, x, d2).next_id
            <= g.store@.next_id + g.store@.entities.len() + 2,
{
    let s0 = g.store@.entities;
    let base = g.store@.next_id;
    let snap = playing_snapshot(g, inp, dt);
    lemma_move_all_shape(s0, inp, dt);
    lemma_move_all_count(s0, inp, dt, Category::Player, s0.len() as int);
    assert(forall|i: int, j: int|
        0 <= i < j < snap.len() ==> (#[trigger] snap[i]).id < (#[trigger] snap[j]).id);
    let reqs = playing_reqs(g, inp, dt, d1, x, d2);
    lemma_spawn_reqs_props(snap, inp, d1, x, d2);
    lemma_survivors_props(snap, snap.len() as int);
    lemma_survivors_count(snap, snap.len() as int, Category::Player);
    let surv = survivors(snap);
    let mat = materialize(reqs, base);
    lemma_count_cat_concat(surv, mat, Category::Player);
    assert(forall|i: int| 0 <= i < mat.len()
        ==> (#[trigger] mat[i]).category != Category::Player);
    lemma_count_prefix_absent(mat, Category::Player, mat.len() as int);
    let m = playing_store_after(g, inp, dt, d1, x, d2);
    assert(m.entities == surv + mat);
    assert forall|a: int| 0 <= a < surv.len()
        implies (#[trigger] surv[a]).id < base && entity_in_range(surv[a]) by {
        let k = choose|k: int| 0 <= k < snap.len() && surv[a] == snap[k];
    }
    assert forall|i: int, j: int| 0 <= i < j < m.entities.len()
        implies (#[trigger] m.entities[i]).id < (#[trigger] m.entities[j]).id by {
        if j < surv.len() {
            assert(m.entities[i] == surv[i] && m.entities[j] == surv[j]);
        } else if i >= surv.len() {
            assert(m.entities[i] == mat[i - surv.len()]);
            assert(m.entities[j] == mat[j - surv.len()]);
        } else {
            assert(m.entities[i] == surv[i]);
            assert(m.entities[j] == mat[j - surv.len()]);
        }
    }
    assert(forall|i: int| 0 <= i < m.entities.len()
        ==> (#[trigger] m.entities[i]).id < m.next_id);
    assert(forall|i: int| 0 <= i < m.entities.len()
        ==> entity_in_range(#[trigger] m.entities[i]));
}

/// The tick boundary keeps the game's invariant: whatever screen the
/// tick ends on, the store is well formed, Playing holds exactly one
/// player, and the menu screens hold no entity at all.
pub proof fn lemma_next_wf(g: Game, inp: InputState, dt: int, d1: int, x: int, d2: int)
    requires
        g.wf(),
        in_coord_range(x),
        g.store@.next_id + g.store@.entities.len() + 3 <= u64::MAX as int,
    ensures
        model_wf(next_store(g, inp, dt, d1, x, d2)),
        next_store(g, inp, dt, d1, x, d2).next_id
            <= g.store@.next_id + g.store@.entities.len() + 3,
        next_state(g, inp, dt) == GameState::Playing
            ==> count_cat(next_store(g, inp, dt, d1, x, d2).entities, Category::Player) == 1,
        next_state(g, inp, dt) != GameState::Playing
            ==> next_store(g, inp, dt, d1, x, d2).entities.len() == 0,
{
    let m = next_store(g, inp, dt, d1, x, d2);
    if g.state == GameState::Playing {
        lemma_playing_store_wf(g, inp, dt, d1, x, d2);
    }
    match requested_transition(g, inp, dt) {
        Some(GameState::Playing) => {
            assert(count_cat(m.entities, Category::Player) == 1) by {
                assert(crate::entity::count_cat_prefix(m.entities, Category::Player, 0) == 0);
            }
        },
        _ => {},
    }
}

/// On every tick taken in Playing, exactly one player entity is live
/// before the tick; and when the tick stays in Playing, exactly one
/// is live after it too.
pub proof fn lemma_one_player_through_tick(
    g: Game, inp: InputState, dt: int, d1: int, x: int, d2: int,
)
    requires
        g.wf(),
        g.state == GameState::Playing,
        in_coord_range(x),
        g.store@.next_id + g.store@.entities.len() + 3 <= u64::MAX as int,
    ensures
        count_cat(g.store@.entities, Category::Player) == 1,
        next_state(g, inp, dt) == GameState::Playing
            ==> count_cat(next_store(g, inp, dt, d1, x, d2).entities, Category::Player) == 1,
{
    lemma_next_wf(g, inp, dt, d1, x, d2);
}

/// Within one Playing session the score never decreases: a tick that
/// stays in Playing only ever adds the points the scan scored.
pub proof fn lemma_score_monotone(g: Game, inp: InputState, dt: int)
    requires
        g.state == GameState::Playing,
        next_state(g, inp, dt) == GameState::Playing,
    ensures
        next_score(g, inp, dt) >= g.score.value as int,
{
    let snap = playing_snapshot(g, inp, dt);
    lemma_total_hits_bound(snap, snap.len() as int);
}

/// The score is exactly zero immediately after entering Playing.
pub proof fn lemma_score_reset_on_entry(g: Game, inp: InputState, dt: int)
    requires
        requested_transition(g, inp, dt) == Some(GameState::Playing),
    ensures
        next_score(g, inp, dt) == 0,
{
}

impl Game {
    /// The game's invariant: a well-formed store, exactly one player
    /// while Playing, and an empty store on the menu screens.
    pub open spec fn wf(&self) -> bool {
        &&& model_wf(self.store@)
        &&& self.state == GameState::Playing
            ==> count_cat(self.store@.entities, Category::Player) == 1
        &&& self.state != GameState::Playing ==> self.store@.entities.len() == 0
    }

    /// What one tick needs of the machine: a tick no longer than the
    /// motion rules accept, a store the collision scan can walk, and
    /// id headroom for everything the tick can create.
    pub open spec fn tick_ready(&self, dt_ms: u64) -> bool {
        &&& dt_ms <= DT_MAX_MS
        &&& self.store@.entities.len() <= MAX_SCAN as int
        &&& self.store@.next_id + self.store@.entities.len() + 3 <= u64::MAX as int
    }

    /// A fresh game: on the Start screen with its first option
    /// highlighted, score zero, no entities.
    pub fn new() -> (g: Game)
        ensures
            g.wf(),
            g.state == GameState::Start,
            g.score.value == 0,
            g.store@.entities.len() == 0,
            g.store@.next_id == 0,
            g.start_menu == StartMenu::Start,
            g.result_menu == ResultMenu::Restart,
    {
        Game {
            state: GameState::Start,
            score: Score::new(),
            store: Store::new(),
            start_menu: StartMenu::Start,
            result_menu: ResultMenu::Restart,
        }
    }

    /// The entering-Playing lifecycle: reset the score and create the
    /// one player at the origin.
    fn enter_playing(&mut self)
        requires
            model_wf(old(self).store@),
            old(self).store@.entities.len() == 0,
            old(self).store@.next_id < u64::MAX as int,
        ensures
            final(self).state == GameState::Playing,
            final(self).score.value == 0,
            final(self).store@.entities == seq![Entity {
                id: old(self).store@.next_id as u64,
                category: Category::Player,
                x: 0,
                y: 0,
            }],
            final(self).store@.next_id == old(self).store@.next_id + 1,
            final(self).start_menu == old(self).start_menu,
            final(self).result_menu == old(self).result_menu,
            final(self).wf(),
    {
        self.score.reset_to_zero();
        self.store.create(Category::Player, 0, 0);
        self.state = GameState::Playing;
        proof {
            assert(self.store@.entities =~= seq![Entity {
                id: old(self).store@.next_id as u64,
                category: Category::Player,
                x: 0,
                y: 0,
            }]);
            assert(count_cat(self.store@.entities, Category::Player) == 1) by {
                assert(crate::entity::count_cat_prefix(
                    self.store@.entities, Category::Player, 0) == 0);
            }
        }
    }

    /// Advances the simulation by one tick, the two spawn draws and
    /// the spawn position given by the caller.  On the Start and
    /// Result screens the draws are ignored: only the menus run.  In
    /// Playing the tick moves every entity, stages the spawns,
    /// resolves collisions over the moved snapshot, adds the scored
    /// points, and then applies the one requested transition at the
    /// boundary, purging the store when Playing is left.
    pub fn tick_with_draws(
        &mut self, inp: &InputState, dt_ms: u64,
        enemy_draw: i32, enemy_x: i64, shot_draw: i32,
    ) -> (out: TickOutcome)
        requires
            old(self).wf(),
            old(self).tick_ready(dt_ms),
            0 <= enemy_draw,
            enemy_draw < SPAWN_DRAW_BOUND,
            ENEMY_SPAWN_X_MIN <= enemy_x,
            enemy_x < ENEMY_SPAWN_X_MAX,
            0 <= shot_draw,
            shot_draw < SPAWN_DRAW_BOUND,
        ensures
            final(self).wf(),
            final(self).state == next_state(*old(self), *inp, dt_ms as int),
            final(self).score.value as int == next_score(*old(self), *inp, dt_ms as int),
            final(self).store@ == next_store(
                *old(self), *inp, dt_ms as int,
                enemy_draw as int, enemy_x as int, shot_draw as int,
            ),
            final(self).start_menu == next_start_menu(*old(self), *inp, dt_ms as int),
            final(self).result_menu == next_result_menu(*old(self), *inp, dt_ms as int),
            out.exit_requested == exit_requested(*old(self), *inp),
            out.enemy_shot_contact == contact_flag(*old(self), *inp, dt_ms as int),
    {
        let ghost g0 = *old(self);
        let ghost dt = dt_ms as int;
        let ghost d1 = enemy_draw as int;
        let ghost x = enemy_x as int;
        let ghost d2 = shot_draw as int;
        match self.state {
            GameState::Start => {
                self.start_menu = step_start_selection(self.start_menu, inp);
                let mut exit = false;
                if inp.press_confirm {
                    match self.start_menu {
                        StartMenu::Start => self.enter_playing(),
                        StartMenu::Exit => exit = true,
                    }
                }
                TickOutcome { exit_requested: exit, enemy_shot_contact: false }
            },
            GameState::Result => {
                self.result_menu = step_result_selection(self.result_menu, inp);
                let mut to_playing = inp.press_fire;
                let mut to_start = false;
                if inp.press_confirm {
                    match self.result_menu {
                        ResultMenu::Restart => {
                            to_playing = true;
                            to_start = false;
                        },
                        ResultMenu::BackToTitle => {
                            to_start = true;
                            to_playing = false;
                        },
                    }
                }
                if to_playing {
                    self.enter_playing();
                } else if to_start {
                    self.state = GameState::Start;
                    self.start_menu = StartMenu::Start;
                }
                TickOutcome { exit_requested: false, enemy_shot_contact: false }
            },
            GameState::Playing => {
                move_entities(&mut self.store.entities, inp, dt_ms);
                proof {
                    lemma_move_all_shape(g0.store@.entities, *inp, dt);
                    assert(self.store@.entities == playing_snapshot(g0, *inp, dt));
                }
                let base = self.store.next_id;
                let mut staged = stage_spawns(
                    &self.store.entities, inp, enemy_draw, enemy_x, shot_draw, base);
                let tally = resolve_collisions(&self.store.entities);
                let hits = tally.hits;
                let enemy_shot_contact = tally.enemy_shot_contact;
                let terminal = tally.terminal;
                proof {
                    lemma_spawn_reqs_props(playing_snapshot(g0, *inp, dt), *inp, d1, x, d2);
                    assert(staged@.len() == playing_reqs(g0, *inp, dt, d1, x, d2).len());
                }
                self.store.next_id = base + staged.len() as u64;
                self.store.entities = tally.survivors;
                self.store.entities.append(&mut staged);
                self.score.add_points(hits);
                if terminal {
                    self.store.entities = Vec::new();
                    self.state = GameState::Result;
                    self.result_menu = ResultMenu::Restart;
                }
                proof {
                    lemma_next_wf(g0, *inp, dt, d1, x, d2);
                    assert(self.store@.entities =~= next_store(g0, *inp, dt, d1, x, d2).entities);
                }
                TickOutcome { exit_requested: false, enemy_shot_contact }
            },
        }
    }

    /// Advances the simulation by one tick, drawing the tick's spawn
    /// chances from the process-wide generator.  Everything but the
    /// store is the same for every draw; the store is what some
    /// in-range draws make it.
    pub fn tick(&mut self, inp: &InputState, dt_ms: u64) -> (out: TickOutcome)
        requires
            old(self).wf(),
            old(self).tick_ready(dt_ms),
        ensures
            final(self).wf(),
            final(self).state == next_state(*old(self), *inp, dt_ms as int),
            final(self).score.value as int == next_score(*old(self), *inp, dt_ms as int),
            final(self).start_menu == next_start_menu(*old(self), *inp, dt_ms as int),
            final(self).result_menu == next_result_menu(*old(self), *inp, dt_ms as int),
            out.exit_requested == exit_requested(*old(self), *inp),
            out.enemy_shot_contact == contact_flag(*old(self), *inp, dt_ms as int),
            exists|d1: int, x: int, d2: int| {
                &&& 0 <= d1
                &&& d1 < SPAWN_DRAW_BOUND as int
                &&& ENEMY_SPAWN_X_MIN as int <= x
                &&& x < ENEMY_SPAWN_X_MAX as int
                &&& 0 <= d2
                &&& d2 < SPAWN_DRAW_BOUND as int
                &&& final(self).store@ == next_store(*old(self), *inp, dt_ms as int, d1, x, d2)
            },
    {
        let playing = matches!(self.state, GameState::Playing);
        let enemy_draw: i32 = if playing {
            draw_in_range(0, SPAWN_DRAW_BOUND as i64) as i32
        } else {
            1
        };
        let enemy_x: i64 = if playing {
            draw_in_range(ENEMY_SPAWN_X_MIN, ENEMY_SPAWN_X_MAX)
        } else {
            0
        };
        let shot_draw: i32 = if playing {
            draw_in_range(0, SPAWN_DRAW_BOUND as i64) as i32
        } else {
            1
        };
        let out = self.tick_with_draws(inp, dt_ms, enemy_draw, enemy_x, shot_draw);
        proof {
            let d1 = enemy_draw as int;
            let x = enemy_x as int;
            let d2 = shot_draw as int;
            assert({
                &&& 0 <= d1
                &&& d1 < SPAWN_DRAW_BOUND as int
                &&& ENEMY_SPAWN_X_MIN as int <= x
                &&& x < ENEMY_SPAWN_X_MAX as int
                &&& 0 <= d2
                &&& d2 < SPAWN_DRAW_BOUND as int
                &&& self.store@ == next_store(*old(self), *inp, dt_ms as int, d1, x, d2)
            });
        }
        out
    }

    /// Decides the tick preconditions, so that an unverified driver
    /// can test them before calling [`Game::tick`].
    #[verifier::rlimit(60)]
    pub fn can_tick(&self, dt_ms: u64) -> (r: bool)
        ensures
            r == (self.wf() && self.tick_ready(dt_ms)),
    {
        if dt_ms > DT_MAX_MS {
            return false;
        }
        let len = self.store.entities.len();
        if len > MAX_SCAN {
            return false;
        }
        if self.store.next_id > u64::MAX - 3 - len as u64 {
            return false;
        }
        let ghost s = self.store@.entities;
        let mut i: usize = 0;
        while i < len
            invariant
                len == s.len(),
                s == self.store@.entities,
                0 <= i <= len,
                forall|a: int| 0 <= a < i ==> entity_in_range(#[trigger] s[a]),
                forall|a: int| 0 <= a < i ==> (#[trigger] s[a]).id < self.store@.next_id,
                ids_adjacent_sorted(s, i as int),
            decreases len - i,
        {
            let e = self.store.entities[i];
            if e.x < -COORD_LIMIT || e.x > COORD_LIMIT || e.y < -COORD_LIMIT || e.y > COORD_LIMIT {
                proof {
                    assert(!entity_in_range(s[i as int]));
                }
                return false;
            }
            if e.id >= self.store.next_id {
                return false;
            }
            if i > 0 && self.store.entities[i - 1].id >= e.id {
                proof {
                    assert(!(s[i as int - 1].id < s[i as int].id));
                }
                return false;
            }
            i = i + 1;
        }
        proof {
            lemma_sorted_prefix_pairwise(s, len as int);
        }
        match self.state {
            GameState::Playing => {
                let n = self.store.count(Category::Player);
                n == 1
            },
            _ => len == 0,
        }
    }

    /// The current screen.
    pub fn current_state(&self) -> (s: GameState)
        ensures
            s == self.state,
    {
        self.state
    }

    /// The current score.
    pub fn current_score(&self) -> (v: u64)
        ensures
            v == self.score.value,
    {
        self.score.read()
    }

    /// The Start screen's highlighted option.
    pub fn start_selection(&self) -> (r: StartMenu)
        ensures
            r == self.start_menu,
    {
        self.start_menu
    }

    /// The Result screen's highlighted option.
    pub fn result_selection(&self) -> (r: ResultMenu)
        ensures
            r == self.result_menu,
    {
        self.result_menu
    }

    /// The live entities, for the presentation layer to draw.
    pub fn live_entities(&self) -> (r: &Vec<Entity>)
        ensures
            r@ == self.store@.entities,
    {
        &self.store.entities
    }
}

} // verus!
