//! The spawner: each Playing tick it may create one enemy, one player
//! shot and one shot per live enemy, all staged and applied at the
//! tick boundary.
//!
//! The two probabilistic decisions each draw a uniform integer in
//! [0, 100) and act only when the draw equals the sentinel value 0.
//! A spawn whose precondition fails (no player to shoot from, a draw
//! beside the sentinel) is silently skipped, never an error.

use vstd::prelude::*;

use crate::entity::{entity_in_range, first_idx, Category, Entity};
use crate::geom::in_coord_range;
use crate::input::InputState;
use crate::store::find_first_cat;

verus! {

/// The draw value on which the two probabilistic spawns act.
pub const SPAWN_SENTINEL: i32 = 0;

/// Exclusive upper bound of the two uniform spawn draws.
pub const SPAWN_DRAW_BOUND: i32 = 100;

/// Vertical centre of a fresh enemy: the top edge, 300 units up, in
/// thousandths of a unit.
pub const ENEMY_SPAWN_Y: i64 = 300_000;

/// Bounds of the uniform horizontal position of a fresh enemy:
/// [-300, 300) units, in thousandths of a unit.
pub const ENEMY_SPAWN_X_MIN: i64 = -300_000;
pub const ENEMY_SPAWN_X_MAX: i64 = 300_000;

/// One staged creation request: a category and a position.
pub ghost struct SpawnReq {
    pub category: Category,
    pub x: int,
    pub y: int,
}

/// The player-shot request: on the tick where the fire key is newly
/// pressed, one shot at the player's position.  Skipped silently when
/// no player is live.
pub open spec fn player_shot_reqs(s: Seq<Entity>, inp: InputState) -> Seq<SpawnReq> {
    if inp.press_fire && first_idx(s, Category::Player) >= 0 {
        seq![SpawnReq {
            category: Category::PlayerShot,
            x: s[first_idx(s, Category::Player)].x as int,
            y: s[first_idx(s, Category::Player)].y as int,
        }]
    } else {
        Seq::empty()
    }
}

/// The enemy request: when the draw hits the sentinel, one enemy at
/// the drawn horizontal position on the top edge.
pub open spec fn enemy_reqs(d: int, x: int) -> Seq<SpawnReq> {
    if d == SPAWN_SENTINEL as int {
        seq![SpawnReq { category: Category::Enemy, x: x, y: ENEMY_SPAWN_Y as int }]
    } else {
        Seq::empty()
    }
}

/// One enemy-shot request per enemy among the first `k` snapshot
/// entries, at the enemy's own position, in snapshot order.
pub open spec fn enemy_fire_reqs(s: Seq<Entity>, k: int) -> Seq<SpawnReq>
    decreases k,
{
    if k <= 0 {
        Seq::empty()
    } else if s[k - 1].category == Category::Enemy {
        enemy_fire_reqs(s, k - 1).push(SpawnReq {
            category: Category::EnemyShot,
            x: s[k - 1].x as int,
            y: s[k - 1].y as int,
        })
    } else {
        enemy_fire_reqs(s, k - 1)
    }
}

/// The enemy-shot requests: when the draw hits the sentinel, every
/// live enemy fires one shot at its own position — all of them on the
/// same tick, or none.
pub open spec fn enemy_shot_reqs(s: Seq<Entity>, d: int) -> Seq<SpawnReq> {
    if d == SPAWN_SENTINEL as int {
        enemy_fire_reqs(s, s.len() as int)
    } else {
        Seq::empty()
    }
}

/// Everything one Playing tick stages, in order: the player shot,
/// the fresh enemy, then the enemy shots.
pub open spec fn spawn_reqs(
    s: Seq<Entity>, inp: InputState, d1: int, x: int, d2: int,
) -> Seq<SpawnReq> {
    player_shot_reqs(s, inp) + enemy_reqs(d1, x) + enemy_shot_reqs(s, d2)
}

/// The entities a request sequence becomes when ids are handed out
/// from `base` in order.
pub open spec fn materialize(reqs: Seq<SpawnReq>, base: int) -> Seq<Entity> {
    Seq::new(reqs.len(), |i: int| Entity {
        id: (base + i) as u64,
        category: reqs[i].category,
        x: reqs[i].x as i64,
        y: reqs[i].y as i64,
    })
}

/// Materializing a concatenation splits at the join, the second part
/// starting where the first part's ids ended.
pub proof fn lemma_materialize_concat(r1: Seq<SpawnReq>, r2: Seq<SpawnReq>, base: int)
    ensures
        materialize(r1 + r2, base)
            == materialize(r1, base) + materialize(r2, base + r1.len()),
{
    assert(materialize(r1 + r2, base)
        =~= materialize(r1, base) + materialize(r2, base + r1.len()));
}

/// There are at most as many enemy-shot requests as snapshot entries.
pub proof fn lemma_enemy_fire_reqs_len(s: Seq<Entity>, k: int)
    requires
        0 <= k <= s.len(),
    ensures
        enemy_fire_reqs(s, k).len() <= k,
    decreases k,
{
    if k > 0 {
        lemma_enemy_fire_reqs_len(s, k - 1);
    }
}

/// Every request a snapshot in range produces carries a position in
/// range and never the Player category; and there are at most two
/// requests beyond the enemy shots.
pub proof fn lemma_spawn_reqs_props(
    s: Seq<Entity>, inp: InputState, d1: int, x: int, d2: int,
)
    requires
        forall|i: int| 0 <= i < s.len() ==> entity_in_range(#[trigger] s[i]),
        in_coord_range(x),
    ensures
        spawn_reqs(s, inp, d1, x, d2).len() <= s.len() + 2,
        forall|i: int| 0 <= i < spawn_reqs(s, inp, d1, x, d2).len() ==> {
            &&& in_coord_range((#[trigger] spawn_reqs(s, inp, d1, x, d2)[i]).x)
            &&& in_coord_range(spawn_reqs(s, inp, d1, x, d2)[i].y)
            &&& spawn_reqs(s, inp, d1, x, d2)[i].category != Category::Player
        },
{
    lemma_enemy_fire_reqs_len(s, s.len() as int);
    lemma_enemy_fire_reqs_props(s, s.len() as int);
    crate::entity::lemma_first_idx_from_props(s, Category::Player, 0);
}

proof fn lemma_enemy_fire_reqs_props(s: Seq<Entity>, k: int)
    requires
        0 <= k <= s.len(),
        forall|i: int| 0 <= i < s.len() ==> entity_in_range(#[trigger] s[i]),
    ensures
        forall|i: int| 0 <= i < enemy_fire_reqs(s, k).len() ==> {
            &&& in_coord_range((#[trigger] enemy_fire_reqs(s, k)[i]).x)
            &&& in_coord_range(enemy_fire_reqs(s, k)[i].y)
            &&& enemy_fire_reqs(s, k)[i].category == Category::EnemyShot
        },
    decreases k,
{
    if k > 0 {
        lemma_enemy_fire_reqs_props(s, k - 1);
    }
}

/// Builds the tick's staged entities from the snapshot, handing out
/// ids from `base` in order.
pub fn stage_spawns(
    snapshot: &Vec<Entity>, inp: &InputState, d1: i32, x: i64, d2: i32, base: u64,
) -> (staged: Vec<Entity>)
    requires
        forall|i: int| 0 <= i < snapshot@.len() ==> entity_in_range(#[trigger] snapshot@[i]),
        in_coord_range(x as int),
        base as int + snapshot@.len() + 2 <= u64::MAX as int,
    ensures
        staged@ == materialize(
            spawn_reqs(snapshot@, *inp, d1 as int, x as int, d2 as int), base as int),
{
    let ghost s = snapshot@;
    let ghost reqs = spawn_reqs(s, *inp, d1 as int, x as int, d2 as int);
    let ghost ps = player_shot_reqs(s, *inp);
    let ghost en = enemy_reqs(d1 as int, x as int);
    let ghost es = enemy_shot_reqs(s, d2 as int);

    let mut staged: Vec<Entity> = Vec::new();
    let mut id: u64 = base;

    // Player shot: edge-triggered fire at the player's position.
    if inp.press_fire {
        match find_first_cat(snapshot, Category::Player) {
            Some(pi) => {
                let p = snapshot[pi];
                staged.push(Entity { id, category: Category::PlayerShot, x: p.x, y: p.y });
                id = id + 1;
            },
            None => {},
        }
    }
    proof {
        assert(staged@ =~= materialize(ps, base as int));
    }

    // Enemy: sentinel draw puts one on the top edge.
    if d1 == SPAWN_SENTINEL {
        staged.push(Entity { id, category: Category::Enemy, x, y: ENEMY_SPAWN_Y });
        id = id + 1;
    }
    proof {
        lemma_materialize_concat(ps, en, base as int);
        assert(staged@ =~= materialize(ps + en, base as int));
    }

    // Enemy shots: on a sentinel draw every live enemy fires once.
    if d2 == SPAWN_SENTINEL {
        let len = snapshot.len();
        let mut i: usize = 0;
        while i < len
            invariant
                len == s.len(),
                0 <= i <= len,
                snapshot@ == s,
                forall|j: int| 0 <= j < s.len() ==> entity_in_range(#[trigger] s[j]),
                base as int + s.len() + 2 <= u64::MAX as int,
                staged@ == materialize(
                    ps + en + enemy_fire_reqs(s, i as int), base as int),
                id as int == base as int + staged@.len(),
                staged@.len() <= 2 + i,
            decreases len - i,
        {
            let e = snapshot[i];
            if matches!(e.category, Category::Enemy) {
                proof {
                    let head = ps + en + enemy_fire_reqs(s, i as int);
                    let q = SpawnReq {
                        category: Category::EnemyShot,
                        x: s[i as int].x as int,
                        y: s[i as int].y as int,
                    };
                    assert(ps + en + enemy_fire_reqs(s, i as int + 1) =~= head.push(q));
                    assert(materialize(head.push(q), base as int)
                        =~= materialize(head, base as int).push(Entity {
                            id: (base as int + head.len()) as u64,
                            category: q.category,
                            x: q.x as i64,
                            y: q.y as i64,
                        }));
                }
                staged.push(Entity { id, category: Category::EnemyShot, x: e.x, y: e.y });
                id = id + 1;
            }
            i = i + 1;
        }
        proof {
            assert(staged@ == materialize(reqs, base as int));
        }
    } else {
        proof {
            assert(ps + en + es =~= ps + en);
            assert(staged@ == materialize(reqs, base as int));
        }
    }
    staged
}

} // verus!
