//! Simulation entities: the four categories, their fixed bounding
//! boxes, and the spec-level counting and searching tools that the
//! store and the collision rules build on.

use vstd::prelude::*;

use crate::geom::{boxes_overlap, in_coord_range};

verus! {

/// The kind of a live simulation object.  Each category has a fixed
/// square bounding box and a fixed velocity rule.
#[derive(Clone, Copy, PartialEq, Eq, Structural, Debug)]
pub enum Category {
    Player,
    Enemy,
    PlayerShot,
    EnemyShot,
}

/// Edge length of a category's square bounding box, in thousandths of
/// a unit: 100 units for the player, 50 for an enemy, 10 for a shot.
pub open spec fn category_size(c: Category) -> int {
    match c {
        Category::Player => 100_000,
        Category::Enemy => 50_000,
        Category::PlayerShot => 10_000,
        Category::EnemyShot => 10_000,
    }
}

/// Edge length of a category's square bounding box.
pub fn size_of_category(c: Category) -> (s: i64)
    ensures
        s as int == category_size(c),
{
    match c {
        Category::Player => 100_000,
        Category::Enemy => 50_000,
        Category::PlayerShot => 10_000,
        Category::EnemyShot => 10_000,
    }
}

/// A live simulation object: a never-reused id, a category, and the
/// centre of its bounding box in thousandths of a unit.
#[derive(Clone, Copy, PartialEq, Eq, Structural, Debug)]
pub struct Entity {
    pub id: u64,
    pub category: Category,
    pub x: i64,
    pub y: i64,
}

/// The entity's position lies in the kept coordinate range.
pub open spec fn entity_in_range(e: Entity) -> bool {
    in_coord_range(e.x as int) && in_coord_range(e.y as int)
}

/// The bounding boxes of two entities share a point.
pub open spec fn entities_overlap(a: Entity, b: Entity) -> bool {
    boxes_overlap(
        a.x as int, a.y as int, category_size(a.category), category_size(a.category),
        b.x as int, b.y as int, category_size(b.category), category_size(b.category),
    )
}

/// Decides whether the bounding boxes of two entities share a point.
pub fn entities_collide(a: &Entity, b: &Entity) -> (r: bool)
    requires
        entity_in_range(*a),
        entity_in_range(*b),
    ensures
        r == entities_overlap(*a, *b),
{
    let sa = size_of_category(a.category);
    let sb = size_of_category(b.category);
    crate::geom::overlap(a.x, a.y, sa, sa, b.x, b.y, sb, sb)
}

/// How many of the first `k` entities have category `c`.
pub open spec fn count_cat_prefix(s: Seq<Entity>, c: Category, k: int) -> int
    decreases k,
{
    if k <= 0 {
        0
    } else {
        count_cat_prefix(s, c, k - 1) + if s[k - 1].category == c { 1int } else { 0 }
    }
}

/// How many entities of `s` have category `c`.
pub open spec fn count_cat(s: Seq<Entity>, c: Category) -> int {
    count_cat_prefix(s, c, s.len() as int)
}

/// A prefix count reads only the first `k` elements, so two sequences
/// that agree there have the same count.
pub proof fn lemma_count_prefix_agree(s: Seq<Entity>, t: Seq<Entity>, c: Category, k: int)
    requires
        0 <= k <= s.len(),
        k <= t.len(),
        forall|i: int| 0 <= i < k ==> s[i] == t[i],
    ensures
        count_cat_prefix(s, c, k) == count_cat_prefix(t, c, k),
    decreases k,
{
    if k > 0 {
        lemma_count_prefix_agree(s, t, c, k - 1);
    }
}

/// Counting over a concatenation splits into the two parts.
pub proof fn lemma_count_cat_concat(s: Seq<Entity>, t: Seq<Entity>, c: Category)
    ensures
        count_cat(s + t, c) == count_cat(s, c) + count_cat(t, c),
{
    lemma_count_concat_prefix(s, t, c, t.len() as int);
    lemma_count_prefix_agree(s + t, s, c, s.len() as int);
}

proof fn lemma_count_concat_prefix(s: Seq<Entity>, t: Seq<Entity>, c: Category, k: int)
    requires
        0 <= k <= t.len(),
    ensures
        count_cat_prefix(s + t, c, s.len() + k)
            == count_cat_prefix(s + t, c, s.len() as int) + count_cat_prefix(t, c, k),
    decreases k,
{
    if k > 0 {
        lemma_count_concat_prefix(s, t, c, k - 1);
        assert((s + t)[s.len() + k - 1] == t[k - 1]);
    }
}

/// The entities of category `c` among the first `k`, in order.
pub open spec fn cat_filter_prefix(s: Seq<Entity>, c: Category, k: int) -> Seq<Entity>
    decreases k,
{
    if k <= 0 {
        Seq::empty()
    } else if s[k - 1].category == c {
        cat_filter_prefix(s, c, k - 1).push(s[k - 1])
    } else {
        cat_filter_prefix(s, c, k - 1)
    }
}

/// The entities of category `c`, in order.
pub open spec fn cat_filter(s: Seq<Entity>, c: Category) -> Seq<Entity> {
    cat_filter_prefix(s, c, s.len() as int)
}

/// A prefix without the category counts zero.
pub proof fn lemma_count_prefix_absent(s: Seq<Entity>, c: Category, k: int)
    requires
        0 <= k <= s.len(),
        forall|i: int| 0 <= i < k ==> (#[trigger] s[i]).category != c,
    ensures
        count_cat_prefix(s, c, k) == 0,
    decreases k,
{
    if k > 0 {
        lemma_count_prefix_absent(s, c, k - 1);
    }
}

/// Each of the first `k` entities carries a larger id than the one
/// before it.
pub open spec fn ids_adjacent_sorted(s: Seq<Entity>, k: int) -> bool
    decreases k,
{
    k <= 1 || (s[k - 2].id < s[k - 1].id && ids_adjacent_sorted(s, k - 1))
}

/// Ids that grow from each entry to the next grow across any gap.
pub proof fn lemma_sorted_prefix_pairwise(s: Seq<Entity>, k: int)
    requires
        0 <= k <= s.len(),
        ids_adjacent_sorted(s, k),
    ensures
        forall|a: int, b: int|
            0 <= a < b < k ==> (#[trigger] s[a]).id < (#[trigger] s[b]).id,
    decreases k,
{
    if k > 1 {
        lemma_sorted_prefix_pairwise(s, k - 1);
        assert forall|a: int, b: int| 0 <= a < b < k
            implies (#[trigger] s[a]).id < (#[trigger] s[b]).id by {
            if b == k - 1 && a < k - 2 {
                assert(s[a].id < s[k - 2].id);
            }
        }
    }
}

/// Index of the first entity of category `c` at or after `k`, or -1.
pub open spec fn first_idx_from(s: Seq<Entity>, c: Category, k: int) -> int
    decreases s.len() - k,
{
    if k < 0 || k >= s.len() {
        -1
    } else if s[k].category == c {
        k
    } else {
        first_idx_from(s, c, k + 1)
    }
}

/// Index of the first entity of category `c` in `s`, or -1.
pub open spec fn first_idx(s: Seq<Entity>, c: Category) -> int {
    first_idx_from(s, c, 0)
}

/// What the first-index search returns: -1 exactly when no entity at
/// or after `k` has the category, else the least such index.
pub proof fn lemma_first_idx_from_props(s: Seq<Entity>, c: Category, k: int)
    requires
        0 <= k <= s.len(),
    ensures
        first_idx_from(s, c, k) == -1
            ==> forall|i: int| k <= i < s.len() ==> s[i].category != c,
        first_idx_from(s, c, k) != -1 ==> {
            &&& k <= first_idx_from(s, c, k) < s.len()
            &&& s[first_idx_from(s, c, k)].category == c
            &&& forall|i: int| k <= i < first_idx_from(s, c, k) ==> s[i].category != c
        },
    decreases s.len() - k,
{
    if k < s.len() && s[k].category != c {
        lemma_first_idx_from_props(s, c, k + 1);
    }
}

} // verus!
