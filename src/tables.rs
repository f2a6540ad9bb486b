//! The indirection table between caller-visible entity ids and the
//! simulation's own entity handles, kept in both directions.
use vstd::prelude::*;
use std::collections::HashMap;

verus! {

broadcast use vstd::std_specs::hash::group_hash_axioms;

/// Entity ids mapped to handles and handles back to ids.
#[derive(Debug)]
pub struct EntityTable {
    by_id: HashMap<u32, u64>,
    by_handle: HashMap<u64, u32>,
}

impl View for EntityTable {
    type V = Map<u32, u64>;

    closed spec fn view(&self) -> Map<u32, u64> {
        self.by_id@
    }
}

impl EntityTable {
    /// Both directions hold the same pairs: no handle is mapped from two ids.
    pub closed spec fn wf(&self) -> bool {
        &&& forall|id: u32| #[trigger]
            self.by_id@.contains_key(id) ==> self.by_handle@.contains_key(self.by_id@[id])
                && self.by_handle@[self.by_id@[id]] == id
        &&& forall|h: u64| #[trigger]
            self.by_handle@.contains_key(h) ==> self.by_id@.contains_key(self.by_handle@[h])
                && self.by_id@[self.by_handle@[h]] == h
    }

    /// In a well-formed table no handle stands for two ids.
    pub proof fn lemma_injective(&self)
        requires
            self.wf(),
        ensures
            self@.is_injective(),
    {
    }

    pub fn new() -> (r: EntityTable)
        ensures
            r.wf(),
            r@ == Map::<u32, u64>::empty(),
    {
        EntityTable { by_id: HashMap::new(), by_handle: HashMap::new() }
    }

    pub fn contains_handle(&self, handle: u64) -> (r: bool)
        requires
            self.wf(),
        ensures
            r == self@.contains_value(handle),
    {
        let r = self.by_handle.contains_key(&handle);
        proof {
            if r {
                assert(self@.contains_key(self.by_handle@[handle]));
            }
        }
        r
    }

    /// Adds the pair `id` - `handle`, both new to the table.
    pub fn insert(&mut self, id: u32, handle: u64)
        requires
            old(self).wf(),
            !old(self)@.contains_key(id),
            !old(self)@.contains_value(handle),
        ensures
            final(self).wf(),
            final(self)@ == old(self)@.insert(id, handle),
    {
        proof {
            assert(!self.by_handle@.contains_key(handle)) by {
                if self.by_handle@.contains_key(handle) {
                    assert(self@.contains_key(self.by_handle@[handle]));
                }
            }
        }
        self.by_id.insert(id, handle);
        self.by_handle.insert(handle, id);
    }

    /// The handle of `id`, if the table has it.
    pub fn lookup_by_id(&self, id: u32) -> (r: Option<u64>)
        ensures
            r == (if self@.contains_key(id) {
                Some(self@[id])
            } else {
                None
            }),
    {
        match self.by_id.get(&id) {
            Some(h) => Some(*h),
            None => None,
        }
    }

    /// The id of `handle`, if the table has it.
    pub fn lookup_by_handle(&self, handle: u64) -> (r: Option<u32>)
        requires
            self.wf(),
        ensures
            match r {
                Some(id) => self@.contains_key(id) && self@[id] == handle,
                None => !self@.contains_value(handle),
            },
    {
        match self.by_handle.get(&handle) {
            Some(id) => Some(*id),
            None => None,
        }
    }

    /// Removes `id` and its handle, in both directions.
    pub fn remove(&mut self, id: u32) -> (r: Option<u64>)
        requires
            old(self).wf(),
        ensures
            final(self).wf(),
            final(self)@ == old(self)@.remove(id),
            r == (if old(self)@.contains_key(id) {
                Some(old(self)@[id])
            } else {
                None
            }),
    {
        match self.by_id.remove(&id) {
            Some(h) => {
                self.by_handle.remove(&h);
                Some(h)
            },
            None => None,
        }
    }
}

} // verus!
