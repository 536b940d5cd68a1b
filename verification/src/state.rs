//! The state record: the counter and the root of the persistent map.
//!
//! A record is a plain value. Writing the map gives the record a new root and
//! leaves the blocks under the old one in place, so a copy of the record taken
//! before a write still reads the map as it was.

use crate::error::ActorError;
use crate::store::{map_lookup, read_reply, BlockStore};
use cid::Cid;
use vstd::prelude::*;

verus! {

/// The state object.
#[derive(Clone, Copy, Debug)]
pub struct State {
    /// How many greetings have been given.
    pub count: u64,
    /// The root of the map.
    pub map: Cid,
}

impl State {
    /// What reading `key` gives in a store that holds `blocks`.
    pub open spec fn reads(self, blocks: Map<Cid, Seq<u8>>, key: u64) -> Result<Option<u64>, ActorError> {
        read_reply(map_lookup(blocks, self.map, key))
    }

    /// The root that a reply of `new` carries, or its error.
    pub open spec fn created_root(r: Result<State, ActorError>) -> Result<Cid, ActorError> {
        match r {
            Ok(state) => Ok(state.map),
            Err(e) => Err(e),
        }
    }

    /// The root that the record holds after a write that succeeded, or the
    /// error of one that failed.
    pub open spec fn written_root(self, r: Result<(), ActorError>) -> Result<Cid, ActorError> {
        match r {
            Ok(_) => Ok(self.map),
            Err(e) => Err(e),
        }
    }

    /// What `new` does: the store it leaves and the reply it gives.
    pub open spec fn new_post(pre: BlockStore, post: BlockStore, r: Result<State, ActorError>) -> bool {
        &&& BlockStore::new_map_post(pre, post, State::created_root(r))
        &&& r matches Ok(state) ==> state.count == 0
    }

    /// What `set_value` does: the record and the store it leaves, and the
    /// reply it gives.
    pub open spec fn set_value_post(
        self,
        pre: BlockStore,
        key: u64,
        value: u64,
        after: State,
        post: BlockStore,
        r: Result<(), ActorError>,
    ) -> bool {
        &&& BlockStore::set_post(pre, post, self.map, key, value, after.written_root(r))
        &&& after.count == self.count
        &&& r is Err ==> after == self
    }

    /// A record with a count of zero and a map without entries, which is
    /// written to `store`. The record is the same whatever the store held.
    /// The error of the outside call is mapped to `CreateState`; it does not
    /// come while memory suffices.
    pub fn new(store: &mut BlockStore) -> (r: Result<State, ActorError>)
        requires
            old(store).wf(),
        ensures
            State::new_post(*old(store), *final(store), r),
    {
        match store.new_map() {
            Ok(root) => Ok(State { count: 0, map: root }),
            Err(e) => Err(e),
        }
    }

    /// Adds one to the count. The map is not touched.
    pub fn increment(&mut self)
        requires
            old(self).count < u64::MAX,
        ensures
            final(self).count == old(self).count + 1,
            final(self).map == old(self).map,
    {
        self.count += 1;
    }

    /// The value that `key` is bound to, `None` where it is bound to none.
    /// Fails with `LoadMap` or `ReadMap` where the map cannot be read.
    pub fn get_value(&self, store: &BlockStore, key: u64) -> (r: Result<Option<u64>, ActorError>)
        ensures
            r == self.reads(store@, key),
    {
        store.get(&self.map, key)
    }

    /// Binds `key` to `value`, in place of what it was bound to before. Fails
    /// with `ModifyMap` where the map cannot be read; the record and the
    /// store are then as they were. Binding a key to the value it has leaves
    /// the record and the store as they were, too.
    pub fn set_value(&mut self, store: &mut BlockStore, key: u64, value: u64) -> (r: Result<
        (),
        ActorError,
    >)
        requires
            old(store).wf(),
        ensures
            old(self).set_value_post(*old(store), key, value, *final(self), *final(store), r),
    {
        match store.set(&self.map, key, value) {
            Ok(root) => {
                self.map = root;
                Ok(())
            },
            Err(e) => Err(e),
        }
    }
}

} // verus!
