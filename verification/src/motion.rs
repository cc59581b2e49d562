//! Per-tick motion: every entity advances by its category's constant
//! velocity times the elapsed tick time, clamped into the kept
//! coordinate range.

use vstd::prelude::*;

use crate::entity::{count_cat_prefix, entity_in_range, Category, Entity};
use crate::geom::{clamp_coord, clamp_to_range};
use crate::input::InputState;

verus! {

/// Longest tick the motion rules accept, in milliseconds; it keeps
/// every displacement product inside `i64`.
pub const DT_MAX_MS: u64 = 1_000_000;

/// Player speed while a directional key is held, in units per second.
pub const PLAYER_SPEED: i64 = 800;

/// Player shot speed toward the top of the screen, in units per second.
pub const PLAYER_SHOT_SPEED: i64 = 1000;

/// Enemy shot speed toward the bottom of the screen, in units per second.
pub const ENEMY_SHOT_SPEED: i64 = 500;

/// Enemy descent speed, in units per second.
pub const ENEMY_SPEED: i64 = 100;

/// Sum of the unit contributions of an opposing key pair: -1, 0 or 1.
pub open spec fn dir_step(pos: bool, neg: bool) -> int {
    (if pos { 1int } else { 0 }) - (if neg { 1int } else { 0 })
}

/// Horizontal velocity of a category, in units per second.  Only the
/// player moves horizontally, by the sum of the held direction keys;
/// held opposing keys cancel, and diagonals are not normalised.
pub open spec fn velocity_x(c: Category, inp: InputState) -> int {
    match c {
        Category::Player => PLAYER_SPEED as int * dir_step(inp.held_right, inp.held_left),
        _ => 0,
    }
}

/// Vertical velocity of a category, in units per second.
pub open spec fn velocity_y(c: Category, inp: InputState) -> int {
    match c {
        Category::Player => PLAYER_SPEED as int * dir_step(inp.held_up, inp.held_down),
        Category::PlayerShot => PLAYER_SHOT_SPEED as int,
        Category::EnemyShot => -(ENEMY_SHOT_SPEED as int),
        Category::Enemy => -(ENEMY_SPEED as int),
    }
}

/// One entity after a tick of `dt` milliseconds: velocity in units per
/// second times milliseconds gives the displacement in thousandths of
/// a unit, added to the position and clamped into the kept range.
pub open spec fn moved_entity(e: Entity, inp: InputState, dt: int) -> Entity {
    Entity {
        id: e.id,
        category: e.category,
        x: clamp_coord(e.x + velocity_x(e.category, inp) * dt) as i64,
        y: clamp_coord(e.y + velocity_y(e.category, inp) * dt) as i64,
    }
}

/// The whole sequence after a tick of `dt` milliseconds.
pub open spec fn move_all(s: Seq<Entity>, inp: InputState, dt: int) -> Seq<Entity> {
    Seq::new(s.len(), |i: int| moved_entity(s[i], inp, dt))
}

/// Motion keeps ids, categories and the category counts.
pub proof fn lemma_move_all_count(s: Seq<Entity>, inp: InputState, dt: int, c: Category, k: int)
    requires
        0 <= k <= s.len(),
    ensures
        count_cat_prefix(move_all(s, inp, dt), c, k) == count_cat_prefix(s, c, k),
    decreases k,
{
    if k > 0 {
        lemma_move_all_count(s, inp, dt, c, k - 1);
    }
}

/// Motion leaves every position in the kept range and touches neither
/// ids nor categories.
pub proof fn lemma_move_all_shape(s: Seq<Entity>, inp: InputState, dt: int)
    ensures
        move_all(s, inp, dt).len() == s.len(),
        forall|i: int| 0 <= i < s.len() ==> {
            &&& (#[trigger] move_all(s, inp, dt)[i]).id == s[i].id
            &&& move_all(s, inp, dt)[i].category == s[i].category
            &&& entity_in_range(move_all(s, inp, dt)[i])
        },
{
    assert forall|i: int| 0 <= i < s.len() implies {
        &&& (#[trigger] move_all(s, inp, dt)[i]).id == s[i].id
        &&& move_all(s, inp, dt)[i].category == s[i].category
        &&& entity_in_range(move_all(s, inp, dt)[i])
    } by {
        let cx = clamp_coord(s[i].x + velocity_x(s[i].category, inp) * dt);
        let cy = clamp_coord(s[i].y + velocity_y(s[i].category, inp) * dt);
        assert(-(crate::geom::COORD_LIMIT as int) <= cx <= crate::geom::COORD_LIMIT as int);
        assert(-(crate::geom::COORD_LIMIT as int) <= cy <= crate::geom::COORD_LIMIT as int);
    }
}

/// Signed velocity of a category along the horizontal axis.
fn velocity_x_exec(c: Category, inp: &InputState) -> (v: i64)
    ensures
        v as int == velocity_x(c, *inp),
{
    match c {
        Category::Player => {
            let mut v: i64 = 0;
            if inp.held_right {
                v = v + PLAYER_SPEED;
            }
            if inp.held_left {
                v = v - PLAYER_SPEED;
            }
            v
        },
        _ => 0,
    }
}

/// Signed velocity of a category along the vertical axis.
fn velocity_y_exec(c: Category, inp: &InputState) -> (v: i64)
    ensures
        v as int == velocity_y(c, *inp),
{
    match c {
        Category::Player => {
            let mut v: i64 = 0;
            if inp.held_up {
                v = v + PLAYER_SPEED;
            }
            if inp.held_down {
                v = v - PLAYER_SPEED;
            }
            v
        },
        Category::PlayerShot => PLAYER_SHOT_SPEED,
        Category::EnemyShot => -ENEMY_SHOT_SPEED,
        Category::Enemy => -ENEMY_SPEED,
    }
}

/// Advances every entity by one tick of `dt_ms` milliseconds.
pub fn move_entities(v: &mut Vec<Entity>, inp: &InputState, dt_ms: u64)
    requires
        dt_ms <= DT_MAX_MS,
        forall|i: int| 0 <= i < old(v)@.len() ==> entity_in_range(#[trigger] old(v)@[i]),
    ensures
        final(v)@ == move_all(old(v)@, *inp, dt_ms as int),
{
    let ghost s = v@;
    let len = v.len();
    let mut i: usize = 0;
    while i < len
        invariant
            len == s.len(),
            0 <= i <= len,
            v@.len() == s.len(),
            dt_ms <= DT_MAX_MS,
            forall|j: int| 0 <= j < s.len() ==> entity_in_range(#[trigger] s[j]),
            forall|j: int| i <= j < s.len() ==> v@[j] == s[j],
            forall|j: int| 0 <= j < i ==> v@[j] == moved_entity(s[j], *inp, dt_ms as int),
        decreases len - i,
    {
        let e = v[i];
        let vx = velocity_x_exec(e.category, inp);
        let vy = velocity_y_exec(e.category, inp);
        let dt = dt_ms as i64;
        proof {
            assert(-1000 <= vx as int <= 1000 && -1000 <= vy as int <= 1000);
            assert({
                &&& vx as int * dt as int <= 1_000_000_000
                &&& vx as int * dt as int >= -1_000_000_000
                &&& vy as int * dt as int <= 1_000_000_000
                &&& vy as int * dt as int >= -1_000_000_000
            }) by (nonlinear_arith)
                requires
                    -1000 <= vx as int <= 1000,
                    -1000 <= vy as int <= 1000,
                    0 <= dt as int <= 1_000_000,
            ;
        }
        let nx = clamp_to_range(e.x + vx * dt);
        let ny = clamp_to_range(e.y + vy * dt);
        v[i] = Entity { id: e.id, category: e.category, x: nx, y: ny };
        i = i + 1;
    }
    proof {
        assert(v@ =~= move_all(s, *inp, dt_ms as int));
    }
}

} // verus!
