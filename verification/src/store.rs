//! The persistent map: a trie of `u64` values under decimal keys, held in a
//! content-addressed block store and named by the identifier of its root.
//!
//! A map is never changed in place. Binding a key writes new nodes and gives a
//! new root; every earlier root goes on naming the map it named before.

use crate::error::ActorError;
use crate::text::{decimal, decimal_text, lemma_decimal_injective};
use crate::trie::{
    create, empty_store, insert, lookup, no_blocks, reads_kept, store_blocks, store_sound,
    trie_empty, trie_insert, trie_lookup, trie_successor, Block, Lookup, Written, HAMT_BIT_WIDTH,
};
use cid::Cid;
use fvm_ipld_blockstore::MemoryBlockstore;
use vstd::prelude::*;

verus! {

/// What `key` reads as in the map under `root`.
pub open spec fn map_lookup(blocks: Map<Cid, Seq<u8>>, root: Cid, key: u64) -> Lookup {
    trie_lookup(blocks, HAMT_BIT_WIDTH, root, decimal(key as nat))
}

/// The root node of a map without entries: its identifier, which is the root
/// of every such map, and its bytes.
pub open spec fn empty_map() -> Block {
    trie_empty(HAMT_BIT_WIDTH)
}

/// The root of the map that binds `key` to `value` and is else the map under
/// `root`. It is the same in every store.
pub open spec fn map_successor(root: Cid, key: u64, value: u64) -> Cid {
    trie_successor(HAMT_BIT_WIDTH, root, decimal(key as nat), value)
}

/// What binding `key` to `value` in the map under `root` comes to: whether it
/// succeeds, and what the store then holds.
pub open spec fn map_inserted(blocks: Map<Cid, Seq<u8>>, root: Cid, key: u64, value: u64) -> Written {
    trie_insert(blocks, HAMT_BIT_WIDTH, root, decimal(key as nat), value)
}

/// The reply of a read: absence is a value, an unreadable map is an error.
pub open spec fn read_reply(found: Lookup) -> Result<Option<u64>, ActorError> {
    match found {
        Lookup::NoRoot => Err(ActorError::LoadMap),
        Lookup::Broken => Err(ActorError::ReadMap),
        Lookup::Absent => Ok(None),
        Lookup::Found(value) => Ok(Some(value)),
    }
}

/// The reply of a write: the new root, or `error` where none came.
pub open spec fn write_reply(root: Option<Cid>, error: ActorError) -> Result<Cid, ActorError> {
    match root {
        Some(c) => Ok(c),
        None => Err(error),
    }
}

/// Every key that could be read under some root in `before` reads the same
/// under that root in `after`.
pub open spec fn keeps_reads(before: Map<Cid, Seq<u8>>, after: Map<Cid, Seq<u8>>) -> bool {
    forall|root: Cid, key: u64|
        (#[trigger] map_lookup(before, root, key)).readable() ==> map_lookup(after, root, key)
            == map_lookup(before, root, key)
}

/// Under `root` every key is absent.
pub open spec fn is_empty_map(blocks: Map<Cid, Seq<u8>>, root: Cid) -> bool {
    forall|key: u64| #[trigger] map_lookup(blocks, root, key) == Lookup::Absent
}

/// The map under `after` is the map under `before` with `key` bound to
/// `value`, as far as the map under `before` could be read.
pub open spec fn is_map_with(
    old_blocks: Map<Cid, Seq<u8>>,
    before: Cid,
    new_blocks: Map<Cid, Seq<u8>>,
    after: Cid,
    key: u64,
    value: u64,
) -> bool {
    &&& map_lookup(new_blocks, after, key) == Lookup::Found(value)
    &&& forall|other: u64|
        other != key && (#[trigger] map_lookup(old_blocks, before, other)).readable()
            ==> map_lookup(new_blocks, after, other) == map_lookup(old_blocks, before, other)
}

/// A content-addressed store of immutable blocks, held in memory.
///
/// Blocks enter it only through the writes of this module, each under the
/// identifier computed from its bytes, and none ever leaves.
pub struct BlockStore {
    blocks: MemoryBlockstore,
}

impl View for BlockStore {
    type V = Map<Cid, Seq<u8>>;

    /// The blocks of the store, each under its identifier.
    closed spec fn view(&self) -> Map<Cid, Seq<u8>> {
        store_blocks(self.blocks)
    }
}

impl BlockStore {
    /// Every block is held under the identifier computed from its bytes.
    pub closed spec fn wf(&self) -> bool {
        store_sound(self.blocks)
    }

    /// What `new_map` does: the store it leaves and the reply it gives.
    pub open spec fn new_map_post(pre: BlockStore, post: BlockStore, r: Result<Cid, ActorError>) -> bool {
        &&& post.wf()
        &&& r == Ok::<Cid, ActorError>(empty_map().id)
        &&& post@ == pre@.insert(empty_map().id, empty_map().bytes)
        &&& pre@.submap_of(post@)
        &&& keeps_reads(pre@, post@)
        &&& is_empty_map(post@, empty_map().id)
    }

    /// What `set` does: the store it leaves and the reply it gives.
    pub open spec fn set_post(
        pre: BlockStore,
        post: BlockStore,
        root: Cid,
        key: u64,
        value: u64,
        r: Result<Cid, ActorError>,
    ) -> bool {
        &&& post.wf()
        &&& post@ == map_inserted(pre@, root, key, value).blocks
        &&& r == write_reply(map_inserted(pre@, root, key, value).root, ActorError::ModifyMap)
        &&& r is Err ==> post@ == pre@
        &&& map_lookup(pre@, root, key) == Lookup::Found(value) ==> r == Ok::<Cid, ActorError>(root)
            && post@ == pre@
        &&& pre@.submap_of(post@)
        &&& keeps_reads(pre@, post@)
        &&& r matches Ok(after) ==> after == map_successor(root, key, value) && is_map_with(
            pre@,
            root,
            post@,
            after,
            key,
            value,
        )
    }

    /// A store without blocks.
    pub fn new() -> (store: BlockStore)
        ensures
            store.wf(),
            store@ == no_blocks(),
    {
        BlockStore { blocks: empty_store() }
    }

    /// Writes a map without entries and returns its root, which is the same
    /// in every store.
    ///
    /// The store gains the one block of that root and keeps every block it
    /// held; whatever could be read from it before reads the same afterwards.
    /// The error of the outside call is mapped to `CreateState`; it does not
    /// come while memory suffices.
    pub fn new_map(&mut self) -> (r: Result<Cid, ActorError>)
        requires
            old(self).wf(),
        ensures
            BlockStore::new_map_post(*old(self), *final(self), r),
    {
        let written = create(&mut self.blocks, HAMT_BIT_WIDTH);
        match written {
            Ok(root) => Ok(root),
            Err(_) => Err(ActorError::CreateState),
        }
    }

    /// Reads `key` in the map under `root`.
    ///
    /// An absent key is `Ok(None)`. A root that cannot be loaded is
    /// `LoadMap`, a node on the key's path that cannot be loaded is `ReadMap`.
    pub fn get(&self, root: &Cid, key: u64) -> (r: Result<Option<u64>, ActorError>)
        ensures
            r == read_reply(map_lookup(self@, *root, key)),
    {
        let text = decimal_text(key);
        match lookup(&self.blocks, HAMT_BIT_WIDTH, root, text.as_str()) {
            Err(_) => Err(ActorError::LoadMap),
            Ok(Err(_)) => Err(ActorError::ReadMap),
            Ok(Ok(value)) => Ok(value),
        }
    }

    /// Binds `key` to `value` in the map under `root` and returns the root of
    /// the map that results. The map under `root` stays as it is.
    ///
    /// Whether the write succeeds, and which blocks the store then holds, is
    /// fixed by the blocks it held, the root, the key and the value; the root
    /// that results is fixed by the root, the key and the value alone. The
    /// store keeps every block it held. A write that fails gives `ModifyMap`
    /// and has written nothing; a write of the value that the key already has
    /// gives the root back and writes nothing.
    pub fn set(&mut self, root: &Cid, key: u64, value: u64) -> (r: Result<Cid, ActorError>)
        requires
            old(self).wf(),
        ensures
            BlockStore::set_post(*old(self), *final(self), *root, key, value, r),
    {
        let text = decimal_text(key);
        let written = insert(&mut self.blocks, HAMT_BIT_WIDTH, root, text.as_str(), value);
        proof {
            assert forall|other: u64| other != key implies decimal(other as nat) != decimal(
                key as nat,
            ) by {
                if decimal(other as nat) == decimal(key as nat) {
                    lemma_decimal_injective(other as nat, key as nat);
                }
            }
        }
        match written {
            Ok(after) => Ok(after),
            Err(_) => Err(ActorError::ModifyMap),
        }
    }
}

} // verus!
