//! Collision resolution: once per Playing tick the three category
//! pairings are scanned over the tick's snapshot of the store.
//! A player shot destroys every enemy it overlaps and each overlapping
//! pair scores one point; an enemy shot overlapping the player only
//! raises a detection signal; an enemy overlapping the player is the
//! terminal collision that ends the session.

use vstd::prelude::*;

use crate::entity::{
    count_cat, entities_collide, entities_overlap, entity_in_range,
    lemma_count_prefix_agree, Category, Entity,
};

verus! {

/// Largest snapshot the collision scan accepts; it keeps the score
/// delta (at most the square of the snapshot length) inside `u64`.
pub const MAX_SCAN: usize = 1_073_741_824;

/// An enemy of the snapshot that some player shot overlaps.
pub open spec fn is_destroyed(s: Seq<Entity>, e: Entity) -> bool {
    &&& e.category == Category::Enemy
    &&& exists|i: int|
        0 <= i < s.len() && (#[trigger] s[i]).category == Category::PlayerShot
            && entities_overlap(s[i], e)
}

/// How many of the first `k` snapshot entries are player shots that
/// overlap `e`.
pub open spec fn shot_hits_on(s: Seq<Entity>, e: Entity, k: int) -> int
    decreases k,
{
    if k <= 0 {
        0
    } else {
        shot_hits_on(s, e, k - 1)
            + if s[k - 1].category == Category::PlayerShot && entities_overlap(s[k - 1], e) {
                1int
            } else {
                0
            }
    }
}

/// Score delta of the scan, over the first `k` snapshot entries: one
/// point for every overlapping player-shot and enemy pair.
pub open spec fn total_hits_prefix(s: Seq<Entity>, k: int) -> int
    decreases k,
{
    if k <= 0 {
        0
    } else {
        total_hits_prefix(s, k - 1)
            + if s[k - 1].category == Category::Enemy {
                shot_hits_on(s, s[k - 1], s.len() as int)
            } else {
                0
            }
    }
}

/// Score delta of the whole scan.
pub open spec fn total_hits(s: Seq<Entity>) -> int {
    total_hits_prefix(s, s.len() as int)
}

/// The snapshot's entities that outlive the scan, in order: everything
/// but the enemies some player shot overlaps.
pub open spec fn survivors_prefix(s: Seq<Entity>, k: int) -> Seq<Entity>
    decreases k,
{
    if k <= 0 {
        Seq::empty()
    } else if is_destroyed(s, s[k - 1]) {
        survivors_prefix(s, k - 1)
    } else {
        survivors_prefix(s, k - 1).push(s[k - 1])
    }
}

/// Everything the scan keeps.
pub open spec fn survivors(s: Seq<Entity>) -> Seq<Entity> {
    survivors_prefix(s, s.len() as int)
}

/// Some entity of category `ca` overlaps some entity of category `cb`.
pub open spec fn any_overlap(s: Seq<Entity>, ca: Category, cb: Category) -> bool {
    exists|i: int, j: int|
        0 <= i < s.len() && 0 <= j < s.len()
            && s[i].category == ca && s[j].category == cb
            && entities_overlap(#[trigger] s[i], #[trigger] s[j])
}

/// What one scan of the snapshot produced.
pub struct CollisionTally {
    /// The snapshot minus the destroyed enemies.
    pub survivors: Vec<Entity>,
    /// One point per overlapping player-shot and enemy pair.
    pub hits: u64,
    /// An enemy shot overlapped the player: a detection signal with no
    /// further effect.
    pub enemy_shot_contact: bool,
    /// An enemy overlapped the player: the session-ending collision.
    pub terminal: bool,
}

/// The positive hit count on `e` is exactly the existence of an
/// overlapping player shot among the first `k` entries.
pub proof fn lemma_shot_hits_pos(s: Seq<Entity>, e: Entity, k: int)
    requires
        0 <= k <= s.len(),
    ensures
        shot_hits_on(s, e, k) >= 0,
        (shot_hits_on(s, e, k) > 0) <==> exists|i: int|
            0 <= i < k && (#[trigger] s[i]).category == Category::PlayerShot
                && entities_overlap(s[i], e),
    decreases k,
{
    if k > 0 {
        lemma_shot_hits_pos(s, e, k - 1);
    }
}

/// The hit count on `e` is at most `k`.
pub proof fn lemma_shot_hits_bound(s: Seq<Entity>, e: Entity, k: int)
    requires
        0 <= k <= s.len(),
    ensures
        0 <= shot_hits_on(s, e, k) <= k,
    decreases k,
{
    if k > 0 {
        lemma_shot_hits_bound(s, e, k - 1);
    }
}

/// The scanned score delta is at most `k` times the snapshot length.
pub proof fn lemma_total_hits_bound(s: Seq<Entity>, k: int)
    requires
        0 <= k <= s.len(),
    ensures
        0 <= total_hits_prefix(s, k),
        total_hits_prefix(s, k) <= k * s.len(),
    decreases k,
{
    if k > 0 {
        lemma_total_hits_bound(s, k - 1);
        lemma_shot_hits_bound(s, s[k - 1], s.len() as int);
        assert((k - 1) * s.len() + s.len() == k * s.len()) by (nonlinear_arith);
    }
}

/// Every survivor is a snapshot entity from below `k`, the survivors
/// keep the snapshot's id order, and no survivor is a destroyed enemy.
pub proof fn lemma_survivors_props(s: Seq<Entity>, k: int)
    requires
        0 <= k <= s.len(),
        forall|i: int, j: int| 0 <= i < j < s.len() ==> s[i].id < s[j].id,
    ensures
        forall|a: int| 0 <= a < survivors_prefix(s, k).len()
            ==> exists|i: int| 0 <= i < k && #[trigger] survivors_prefix(s, k)[a] == s[i],
        forall|a: int, b: int| 0 <= a < b < survivors_prefix(s, k).len()
            ==> survivors_prefix(s, k)[a].id < survivors_prefix(s, k)[b].id,
        forall|a: int| 0 <= a < survivors_prefix(s, k).len()
            ==> !is_destroyed(s, #[trigger] survivors_prefix(s, k)[a]),
    decreases k,
{
    if k > 0 {
        lemma_survivors_props(s, k - 1);
        let prev = survivors_prefix(s, k - 1);
        let cur = survivors_prefix(s, k);
        if !is_destroyed(s, s[k - 1]) {
            assert forall|a: int| 0 <= a < cur.len()
                implies exists|i: int| 0 <= i < k && #[trigger] cur[a] == s[i] by {
                if a < prev.len() {
                    let i = choose|i: int| 0 <= i < k - 1 && prev[a] == s[i];
                    assert(cur[a] == s[i]);
                } else {
                    assert(cur[a] == s[k - 1]);
                }
            }
            assert forall|a: int, b: int| 0 <= a < b < cur.len()
                implies cur[a].id < cur[b].id by {
                if b < prev.len() {
                } else {
                    let i = choose|i: int| 0 <= i < k - 1 && prev[a] == s[i];
                    assert(cur[a] == s[i]);
                }
            }
        }
    }
}

/// The survivors keep every entity of a category no shot destroys.
pub proof fn lemma_survivors_count(s: Seq<Entity>, k: int, c: Category)
    requires
        0 <= k <= s.len(),
        c != Category::Enemy,
    ensures
        count_cat(survivors_prefix(s, k), c) == crate::entity::count_cat_prefix(s, c, k),
    decreases k,
{
    if k > 0 {
        lemma_survivors_count(s, k - 1, c);
        let prev = survivors_prefix(s, k - 1);
        if !is_destroyed(s, s[k - 1]) {
            lemma_count_prefix_agree(prev.push(s[k - 1]), prev, c, prev.len() as int);
        }
    }
}

/// How many player shots in the snapshot overlap `e`.
fn count_hits_on(v: &Vec<Entity>, e: &Entity) -> (c: u64)
    requires
        v@.len() <= MAX_SCAN,
        forall|i: int| 0 <= i < v@.len() ==> entity_in_range(#[trigger] v@[i]),
        entity_in_range(*e),
    ensures
        c as int == shot_hits_on(v@, *e, v@.len() as int),
        c <= v@.len(),
{
    let len = v.len();
    let mut c: u64 = 0;
    let mut i: usize = 0;
    while i < len
        invariant
            len == v@.len(),
            len <= MAX_SCAN,
            0 <= i <= len,
            c <= i,
            forall|j: int| 0 <= j < v@.len() ==> entity_in_range(#[trigger] v@[j]),
            entity_in_range(*e),
            c as int == shot_hits_on(v@, *e, i as int),
        decreases len - i,
    {
        let s = v[i];
        if matches!(s.category, Category::PlayerShot) && entities_collide(&s, e) {
            c = c + 1;
        }
        i = i + 1;
    }
    c
}

/// Whether some entity of category `ca` overlaps some entity of
/// category `cb` in the snapshot.
fn scan_any_overlap(v: &Vec<Entity>, ca: Category, cb: Category) -> (r: bool)
    requires
        forall|i: int| 0 <= i < v@.len() ==> entity_in_range(#[trigger] v@[i]),
    ensures
        r == any_overlap(v@, ca, cb),
{
    let len = v.len();
    let mut i: usize = 0;
    while i < len
        invariant
            len == v@.len(),
            0 <= i <= len,
            forall|j: int| 0 <= j < v@.len() ==> entity_in_range(#[trigger] v@[j]),
            forall|a: int, b: int|
                0 <= a < i && 0 <= b < v@.len() && v@[a].category == ca
                    && v@[b].category == cb
                    ==> !entities_overlap(#[trigger] v@[a], #[trigger] v@[b]),
        decreases len - i,
    {
        let a = v[i];
        if a.category == ca {
            let mut j: usize = 0;
            while j < len
                invariant
                    len == v@.len(),
                    0 <= i < len,
                    0 <= j <= len,
                    a == v@[i as int],
                    a.category == ca,
                    forall|k: int| 0 <= k < v@.len() ==> entity_in_range(#[trigger] v@[k]),
                    forall|b: int|
                        0 <= b < j && v@[b].category == cb
                            ==> !entities_overlap(v@[i as int], #[trigger] v@[b]),
                decreases len - j,
            {
                let b = v[j];
                if b.category == cb && entities_collide(&a, &b) {
                    return true;
                }
                j = j + 1;
            }
        }
        i = i + 1;
    }
    false
}

/// Scans the tick's snapshot: counts the player-shot hits, drops the
/// destroyed enemies, and raises the two player-contact signals.  The
/// whole snapshot is scanned; no pairing short-circuits another.
pub fn resolve_collisions(v: &Vec<Entity>) -> (res: CollisionTally)
    requires
        v@.len() <= MAX_SCAN,
        forall|i: int| 0 <= i < v@.len() ==> entity_in_range(#[trigger] v@[i]),
    ensures
        res.survivors@ == survivors(v@),
        res.hits as int == total_hits(v@),
        res.enemy_shot_contact == any_overlap(v@, Category::EnemyShot, Category::Player),
        res.terminal == any_overlap(v@, Category::Enemy, Category::Player),
{
    let len = v.len();
    let mut kept: Vec<Entity> = Vec::new();
    let mut hits: u64 = 0;
    let mut i: usize = 0;
    while i < len
        invariant
            len == v@.len(),
            len <= MAX_SCAN,
            0 <= i <= len,
            forall|j: int| 0 <= j < v@.len() ==> entity_in_range(#[trigger] v@[j]),
            kept@ == survivors_prefix(v@, i as int),
            hits as int == total_hits_prefix(v@, i as int),
            hits as int <= i as int * len as int,
        decreases len - i,
    {
        let e = v[i];
        proof {
            assert(i as int * len as int + len as int == (i as int + 1) * len as int)
                by (nonlinear_arith);
            assert((i as int + 1) * len as int <= 0x1000_0000_0000_0000)
                by (nonlinear_arith)
                requires
                    0 <= i as int,
                    (i as int) < (len as int),
                    len as int <= 0x4000_0000,
            ;
        }
        if matches!(e.category, Category::Enemy) {
            let c = count_hits_on(v, &e);
            proof {
                lemma_shot_hits_pos(v@, e, len as int);
            }
            if c == 0 {
                kept.push(e);
            }
            hits = hits + c;
        } else {
            kept.push(e);
        }
        i = i + 1;
    }
    let enemy_shot_contact = scan_any_overlap(v, Category::EnemyShot, Category::Player);
    let terminal = scan_any_overlap(v, Category::Enemy, Category::Player);
    CollisionTally { survivors: kept, hits, enemy_shot_contact, terminal }
}

} // verus!
