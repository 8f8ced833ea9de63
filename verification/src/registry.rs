//! Id-keyed registries for scene and device resources.
//!
//! Every resource the renderer owns (materials, meshes, textures, mesh
//! instances, anchors, cameras, lights, programs) lives in a registry keyed
//! by a monotonically increasing id that is never reused.  Entries are kept
//! in registration order, so iterating a registry is deterministic.

use vstd::prelude::*;

use crate::assoc::{
    keyed_get, keyed_idx, lemma_keyed_get_idx, lemma_keyed_put_absent, lemma_keyed_put_get,
};

verus! {

/// A registry of values of type `T`, keyed by ids handed out by an internal
/// counter.  Ids increase strictly in registration order and are never
/// reused; entries stay in registration order.
pub struct Registry<T> {
    pub next_id: u64,
    pub entries: Vec<(u64, T)>,
}

impl<T> Registry<T> {
    /// The `(id, value)` pairs, in registration order.
    pub open spec fn view(self) -> Seq<(u64, T)> {
        self.entries@
    }

    /// The ids, in registration order.
    pub open spec fn ids(self) -> Seq<u64> {
        self.entries@.map_values(|e: (u64, T)| e.0)
    }

    /// The id the next registration will return.
    pub open spec fn spec_next_id(self) -> u64 {
        self.next_id
    }

    /// Ids are strictly increasing in registration order (hence unique), and
    /// all of them are below the counter.
    pub open spec fn wf(self) -> bool {
        &&& forall|i: int, j: int|
            0 <= i < j < self.entries@.len() ==> self.entries@[i].0 < self.entries@[j].0
        &&& forall|i: int| 0 <= i < self.entries@.len() ==> self.entries@[i].0 < self.next_id
    }

    /// The value registered under `id`, if any.
    pub open spec fn spec_get(self, id: u64) -> Option<T> {
        keyed_get(self.entries@, id)
    }

    /// Whether some value is registered under `id`.
    pub open spec fn spec_contains(self, id: u64) -> bool {
        self.spec_get(id) is Some
    }

    /// An empty registry whose first id will be `first_id`.
    pub fn new(first_id: u64) -> (r: Registry<T>)
        ensures
            r.wf(),
            r@ == Seq::<(u64, T)>::empty(),
            r.spec_next_id() == first_id,
    {
        Registry { next_id: first_id, entries: Vec::new() }
    }

    pub fn len(&self) -> (n: usize)
        ensures
            n == self@.len(),
    {
        self.entries.len()
    }

    /// The entry at position `i` in registration order.
    pub fn entry_at(&self, i: usize) -> (e: &(u64, T))
        requires
            i < self@.len(),
        ensures
            *e == self@[i as int],
    {
        &self.entries[i]
    }

    /// Stores `value` under a fresh id and returns that id.  The id is
    /// strictly greater than every id already present and was not present
    /// before, so registering N values yields N distinct, strictly
    /// increasing ids.
    pub fn register(&mut self, value: T) -> (id: u64)
        requires
            old(self).wf(),
            old(self).spec_next_id() < u64::MAX,
        ensures
            final(self).wf(),
            id == old(self).spec_next_id(),
            final(self).spec_next_id() == id + 1,
            final(self)@ == old(self)@.push((id, value)),
            !old(self).spec_contains(id),
            forall|i: int| 0 <= i < old(self)@.len() ==> old(self)@[i].0 < id,
            final(self).spec_get(id) == Some(value),
    {
        let id = self.next_id;
        proof {
            lemma_keyed_get_idx(self.entries@, id);
            lemma_keyed_put_absent(self.entries@, id, value);
            lemma_keyed_put_get(self.entries@, id, value);
        }
        self.next_id = id + 1;
        self.entries.push((id, value));
        id
    }

    /// The position of `id` in registration order, if present.
    pub fn find_index(&self, id: u64) -> (r: Option<usize>)
        ensures
            match r {
                Some(i) => {
                    &&& i < self@.len()
                    &&& i == keyed_idx(self@, id)
                    &&& self@[i as int].0 == id
                    &&& self.spec_get(id) == Some(self@[i as int].1)
                },
                None => self.spec_get(id) is None,
            },
    {
        let n = self.entries.len();
        let mut i: usize = 0;
        proof {
            assert(self.entries@.skip(0) =~= self.entries@);
        }
        while i < n
            invariant
                n == self.entries@.len(),
                i <= n,
                keyed_get(self.entries@, id) == keyed_get(self.entries@.skip(i as int), id),
                keyed_get(self.entries@.skip(i as int), id) is Some ==> keyed_idx(
                    self.entries@,
                    id,
                ) == i + keyed_idx(self.entries@.skip(i as int), id),
            decreases n - i,
        {
            proof {
                assert(self.entries@.skip(i as int)[0] == self.entries@[i as int]);
                assert(self.entries@.skip(i as int).skip(1) =~= self.entries@.skip(i + 1));
            }
            if self.entries[i].0 == id {
                return Some(i);
            }
            i += 1;
        }
        proof {
            assert(self.entries@.skip(n as int) =~= Seq::<(u64, T)>::empty());
        }
        None
    }

    /// A read-only lookup by id.
    pub fn get(&self, id: u64) -> (r: Option<&T>)
        ensures
            match r {
                Some(v) => self.spec_get(id) == Some(*v),
                None => self.spec_get(id) is None,
            },
    {
        match self.find_index(id) {
            Some(i) => Some(&self.entries[i].1),
            None => None,
        }
    }

    /// Whether some value is registered under `id`.
    pub fn contains(&self, id: u64) -> (r: bool)
        ensures
            r == self.spec_contains(id),
    {
        self.get(id).is_some()
    }

    /// A mutable lookup by id.  On a hit the entry keeps its id and position
    /// and takes whatever value the caller leaves behind the reference.
    pub fn get_mut(&mut self, id: u64) -> (r: Option<&mut T>)
        ensures
            match r {
                Some(m) => {
                    &&& old(self).spec_get(id) == Some(*m)
                    &&& final(self)@ == old(self)@.update(
                        keyed_idx(old(self)@, id),
                        (id, *final(m)),
                    )
                    &&& final(self).spec_next_id() == old(self).spec_next_id()
                },
                None => {
                    &&& old(self).spec_get(id) is None
                    &&& *final(self) == *old(self)
                },
            },
    {
        match self.find_index(id) {
            Some(i) => {
                let entry = &mut self.entries[i];
                Some(&mut entry.1)
            },
            None => None,
        }
    }
}

/// Law: in a well-formed registry the ids handed out so far are pairwise
/// distinct and strictly increasing in registration order.
pub proof fn lemma_registered_ids_strictly_increase<T>(r: Registry<T>)
    requires
        r.wf(),
    ensures
        forall|i: int, j: int| 0 <= i < j < r.ids().len() ==> r.ids()[i] < r.ids()[j],
        forall|i: int, j: int|
            0 <= i < r.ids().len() && 0 <= j < r.ids().len() && i != j ==> r.ids()[i] != r.ids()[j],
{
    assert(forall|i: int| 0 <= i < r.ids().len() ==> r.ids()[i] == r@[i].0);
}

} // verus!
