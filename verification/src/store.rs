//! The entity store: every live simulation object, with creation and
//! removal.  Ids are handed out by a monotone counter and never
//! reused, so the stored sequence always carries strictly increasing
//! ids.

use vstd::prelude::*;

use crate::entity::{
    cat_filter, cat_filter_prefix,
    count_cat, count_cat_prefix, first_idx, first_idx_from, lemma_first_idx_from_props,
    Category, Entity, entity_in_range,
};
use crate::geom::in_coord_range;

verus! {

/// Mathematical model of a store: the live entities in creation
/// order, and the next id the counter would hand out.
pub ghost struct StoreModel {
    pub entities: Seq<Entity>,
    pub next_id: int,
}

/// Holds every live simulation object.
pub struct Store {
    pub entities: Vec<Entity>,
    pub next_id: u64,
}

impl View for Store {
    type V = StoreModel;

    open spec fn view(&self) -> StoreModel {
        StoreModel { entities: self.entities@, next_id: self.next_id as int }
    }
}

/// Ids strictly increase along the model's sequence, every id is
/// below the counter, and every position is in the kept range.
pub open spec fn model_wf(m: StoreModel) -> bool {
    &&& forall|i: int, j: int|
        0 <= i < j < m.entities.len() ==> m.entities[i].id < m.entities[j].id
    &&& forall|i: int| 0 <= i < m.entities.len() ==> m.entities[i].id < m.next_id
    &&& forall|i: int| 0 <= i < m.entities.len() ==> entity_in_range(#[trigger] m.entities[i])
    &&& 0 <= m.next_id <= u64::MAX
}

/// The sequence `s` with every entity of id `id` removed.
pub open spec fn remove_id_prefix(s: Seq<Entity>, id: u64, k: int) -> Seq<Entity>
    decreases k,
{
    if k <= 0 {
        Seq::empty()
    } else if s[k - 1].id == id {
        remove_id_prefix(s, id, k - 1)
    } else {
        remove_id_prefix(s, id, k - 1).push(s[k - 1])
    }
}

/// The store's sequence with every entity of id `id` removed.
pub open spec fn remove_id(s: Seq<Entity>, id: u64) -> Seq<Entity> {
    remove_id_prefix(s, id, s.len() as int)
}

/// Removal keeps a subsequence: every kept element was in the prefix,
/// in order, and exactly the elements of another id are kept.
proof fn lemma_remove_id_prefix_props(s: Seq<Entity>, id: u64, k: int)
    requires
        0 <= k <= s.len(),
    ensures
        forall|j: int| 0 <= j < remove_id_prefix(s, id, k).len()
            ==> (#[trigger] remove_id_prefix(s, id, k)[j]).id != id,
        forall|j: int| 0 <= j < remove_id_prefix(s, id, k).len()
            ==> exists|i: int|
                0 <= i < k && #[trigger] remove_id_prefix(s, id, k)[j] == s[i],
    decreases k,
{
    if k > 0 {
        lemma_remove_id_prefix_props(s, id, k - 1);
    }
}

impl Store {
    /// The store's invariant.
    pub open spec fn wf(&self) -> bool {
        model_wf(self@)
    }

    /// An empty store whose counter starts at zero.
    pub fn new() -> (s: Store)
        ensures
            s.wf(),
            s@.entities.len() == 0,
            s@.next_id == 0,
    {
        Store { entities: Vec::new(), next_id: 0 }
    }

    /// Creates an entity of the given category at the given position
    /// and returns its id, a value no earlier entity ever carried.
    pub fn create(&mut self, category: Category, x: i64, y: i64) -> (id: u64)
        requires
            old(self).wf(),
            old(self)@.next_id < u64::MAX,
            in_coord_range(x as int),
            in_coord_range(y as int),
        ensures
            final(self).wf(),
            id as int == old(self)@.next_id,
            final(self)@.entities
                == old(self)@.entities.push(Entity { id, category, x, y }),
            final(self)@.next_id == old(self)@.next_id + 1,
    {
        let id = self.next_id;
        self.entities.push(Entity { id, category, x, y });
        self.next_id = self.next_id + 1;
        id
    }

    /// Removes the entity that carries `id`, if it is live.
    pub fn destroy(&mut self, id: u64)
        requires
            old(self).wf(),
        ensures
            final(self).wf(),
            final(self)@.entities == remove_id(old(self)@.entities, id),
            final(self)@.next_id == old(self)@.next_id,
    {
        let ghost s = self.entities@;
        let mut kept: Vec<Entity> = Vec::new();
        let n = self.entities.len();
        let mut i: usize = 0;
        while i < n
            invariant
                n == s.len(),
                0 <= i <= n,
                self.entities@ == s,
                model_wf(StoreModel { entities: s, next_id: self@.next_id }),
                kept@ == remove_id_prefix(s, id, i as int),
                forall|a: int, b: int| 0 <= a < b < kept@.len()
                    ==> kept@[a].id < kept@[b].id,
                forall|j: int| 0 <= j < kept@.len()
                    ==> (#[trigger] kept@[j]).id < self@.next_id,
                forall|j: int| 0 <= j < kept@.len()
                    ==> entity_in_range(#[trigger] kept@[j]),
            decreases n - i,
        {
            proof {
                lemma_remove_id_prefix_props(s, id, i as int);
            }
            let e = self.entities[i];
            if e.id != id {
                kept.push(e);
            }
            i = i + 1;
        }
        self.entities = kept;
    }

    /// How many live entities have the given category.
    pub fn count(&self, c: Category) -> (n: usize)
        ensures
            n as int == count_cat(self@.entities, c),
    {
        let mut n: usize = 0;
        let len = self.entities.len();
        let mut i: usize = 0;
        while i < len
            invariant
                len == self@.entities.len(),
                0 <= i <= len,
                n <= i,
                n as int == count_cat_prefix(self@.entities, c, i as int),
            decreases len - i,
        {
            if self.entities[i].category == c {
                n = n + 1;
            }
            i = i + 1;
        }
        n
    }

    /// Removes every live entity at once, the bulk purge of the
    /// leaving-Playing lifecycle.  Ids are not reused: the counter
    /// keeps its value.
    pub fn clear(&mut self)
        requires
            old(self).wf(),
        ensures
            final(self).wf(),
            final(self)@.entities.len() == 0,
            final(self)@.next_id == old(self)@.next_id,
    {
        self.entities = Vec::new();
    }

    /// The live entities of one category, in creation order.
    pub fn of_category(&self, c: Category) -> (r: Vec<Entity>)
        ensures
            r@ == cat_filter(self@.entities, c),
    {
        let len = self.entities.len();
        let mut r: Vec<Entity> = Vec::new();
        let mut i: usize = 0;
        while i < len
            invariant
                len == self@.entities.len(),
                0 <= i <= len,
                r@ == cat_filter_prefix(self@.entities, c, i as int),
            decreases len - i,
        {
            let e = self.entities[i];
            if e.category == c {
                r.push(e);
            }
            i = i + 1;
        }
        r
    }

    /// Index of the first live entity of the given category.
    pub fn find_first(&self, c: Category) -> (r: Option<usize>)
        ensures
            match r {
                Some(i) => first_idx(self@.entities, c) == i as int
                    && i < self@.entities.len()
                    && self@.entities[i as int].category == c,
                None => first_idx(self@.entities, c) == -1,
            },
    {
        find_first_cat(&self.entities, c)
    }
}

/// Index of the first entity of the given category in a snapshot.
pub fn find_first_cat(v: &Vec<Entity>, c: Category) -> (r: Option<usize>)
    ensures
        match r {
            Some(i) => first_idx(v@, c) == i as int
                && i < v@.len()
                && v@[i as int].category == c,
            None => first_idx(v@, c) == -1,
        },
{
    let len = v.len();
    let mut i: usize = 0;
    while i < len
        invariant
            len == v@.len(),
            0 <= i <= len,
            first_idx(v@, c) == first_idx_from(v@, c, i as int),
        decreases len - i,
    {
        if v[i].category == c {
            return Some(i);
        }
        i = i + 1;
    }
    None
}

} // verus!
