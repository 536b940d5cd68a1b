//! The boundary to the trie and block-store crates.
//!
//! Everything in this module is believed, not proved: the declarations of the
//! outside types, the names given to what the outside calls return, and the
//! contracts of the functions that make those calls.
//!
//! Two things are left out of what is stated here, as they are throughout the
//! library. Identifiers are taken to be free of collisions: no two blocks that
//! differ have the same one. And memory is taken to suffice: the one error of
//! the encoder that writes a node is a reservation of memory that failed.

use vstd::prelude::*;

verus! {

/// A content identifier. Opaque: two identifiers are compared, never read.
#[verifier::external_type_specification]
#[verifier::external_body]
pub struct ExCid<const S: usize>(cid::CidGeneric<S>);

/// The in-memory block store of `fvm_ipld_blockstore`.
#[verifier::external_type_specification]
#[verifier::external_body]
pub struct ExMemoryBlockstore(fvm_ipld_blockstore::MemoryBlockstore);

/// The error of the trie crate.
#[verifier::external_type_specification]
#[verifier::external_body]
pub struct ExTrieError(fvm_ipld_hamt::Error);

/// What reading one key of a trie comes to.
#[derive(Clone, Copy, PartialEq, Eq, Debug)]
pub enum Lookup {
    /// The root node could not be loaded from the store.
    NoRoot,
    /// The root was loaded, but a node on the key's path could not be.
    Broken,
    /// The key's path was walked to its end and holds no such key.
    Absent,
    /// The key is bound to this value.
    Found(u64),
}

impl Lookup {
    /// The key's path could be walked to its end.
    pub open spec fn readable(self) -> bool {
        self is Absent || self is Found
    }
}

/// The number of hash bits that one level of a trie consumes. Every trie that
/// this library reads or writes has this width.
pub const HAMT_BIT_WIDTH: u32 = 5;

/// One block: its identifier and its bytes.
pub struct Block {
    pub id: cid::Cid,
    pub bytes: Seq<u8>,
}

/// The outcome of binding a key: the root that was returned, if the call
/// succeeded, and the blocks that the store holds afterwards.
pub struct Written {
    pub root: Option<cid::Cid>,
    pub blocks: Map<cid::Cid, Seq<u8>>,
}

/// The blocks that a store holds, each under its identifier.
pub uninterp spec fn store_blocks(store: fvm_ipld_blockstore::MemoryBlockstore) -> Map<cid::Cid, Seq<u8>>;

/// Every block of the store is a node as `create` and `insert` write them, for
/// tries of width `HAMT_BIT_WIDTH`, and is held under the identifier that is
/// computed from its own bytes.
pub uninterp spec fn store_sound(store: fvm_ipld_blockstore::MemoryBlockstore) -> bool;

/// What `Hamt::load_with_bit_width` followed by `Hamt::get` comes to on these
/// blocks, for a trie of `u64` values under byte-string keys.
pub uninterp spec fn trie_lookup(
    blocks: Map<cid::Cid, Seq<u8>>,
    bit_width: u32,
    root: cid::Cid,
    key: Seq<char>,
) -> Lookup;

/// The root node of a trie without entries, as `Hamt::new_with_bit_width`
/// followed by `Hamt::flush` writes it: the same block in every store.
pub uninterp spec fn trie_empty(bit_width: u32) -> Block;

/// What `Hamt::load_with_bit_width`, `Hamt::set` and `Hamt::flush` in a row
/// come to on these blocks: whether they succeed, and what the store then
/// holds.
pub uninterp spec fn trie_insert(
    blocks: Map<cid::Cid, Seq<u8>>,
    bit_width: u32,
    root: cid::Cid,
    key: Seq<char>,
    value: u64,
) -> Written;

/// The root that `Hamt::flush` returns after `key` was bound to `value` in the
/// trie under `root`, where the store is sound and the call succeeds. It does
/// not depend on what else the store holds: the identifier of a node fixes its
/// bytes, and with them the identifiers of the nodes below it.
pub uninterp spec fn trie_successor(bit_width: u32, root: cid::Cid, key: Seq<char>, value: u64) -> cid::Cid;

/// The shape of what `lookup` returns, without the outside errors.
pub open spec fn lookup_of(
    r: Result<Result<Option<u64>, fvm_ipld_hamt::Error>, fvm_ipld_hamt::Error>,
) -> Lookup {
    match r {
        Err(_) => Lookup::NoRoot,
        Ok(Err(_)) => Lookup::Broken,
        Ok(Ok(None)) => Lookup::Absent,
        Ok(Ok(Some(v))) => Lookup::Found(v),
    }
}

/// The root that a writing call returned, without the outside error.
pub open spec fn root_of(r: Result<cid::Cid, fvm_ipld_hamt::Error>) -> Option<cid::Cid> {
    match r {
        Ok(c) => Some(c),
        Err(_) => None,
    }
}

/// Every key that could be read under some root of `before` reads the same
/// under that root in `after`.
pub open spec fn reads_kept(
    before: Map<cid::Cid, Seq<u8>>,
    after: Map<cid::Cid, Seq<u8>>,
    bit_width: u32,
) -> bool {
    forall|root: cid::Cid, key: Seq<char>|
        (#[trigger] trie_lookup(before, bit_width, root, key)).readable() ==> trie_lookup(
            after,
            bit_width,
            root,
            key,
        ) == trie_lookup(before, bit_width, root, key)
}

/// The blocks of a store that holds none.
pub open spec fn no_blocks() -> Map<cid::Cid, Seq<u8>> {
    Map::empty()
}

/// `MemoryBlockstore::new`: a store without blocks.
#[verifier::external_body]
pub(crate) fn empty_store() -> (store: fvm_ipld_blockstore::MemoryBlockstore)
    ensures
        store_blocks(store) == no_blocks(),
        store_sound(store),
{
    fvm_ipld_blockstore::MemoryBlockstore::new()
}

/// `Hamt::load_with_bit_width`, then `Hamt::get` under the key's bytes.
///
/// The outer error is that of the load, the inner one that of the read. The
/// store is only read, and which of the four outcomes comes is a function of
/// its blocks, the width, the root and the key.
#[verifier::external_body]
pub(crate) fn lookup(
    store: &fvm_ipld_blockstore::MemoryBlockstore,
    bit_width: u32,
    root: &cid::Cid,
    key: &str,
) -> (r: Result<Result<Option<u64>, fvm_ipld_hamt::Error>, fvm_ipld_hamt::Error>)
    requires
        bit_width == HAMT_BIT_WIDTH,
    ensures
        lookup_of(r) == trie_lookup(store_blocks(*store), bit_width, *root, key@),
{
    match fvm_ipld_hamt::Hamt::<&fvm_ipld_blockstore::MemoryBlockstore, u64>::load_with_bit_width(
        root,
        store,
        bit_width,
    ) {
        Ok(trie) => Ok(trie.get(&fvm_ipld_hamt::BytesKey::from(key)).map(|v| v.copied())),
        Err(e) => Err(e),
    }
}

/// `Hamt::new_with_bit_width`, then `Hamt::flush`: writes the root node of a
/// trie without entries and returns its identifier.
///
/// Believed of it: it succeeds, since this store takes every block; the block
/// it writes is the same in every store, and nothing else in the store
/// changes; a sound store stays sound, keeps every block it held and keeps
/// what could be read from it; and under the root that it returns every key
/// reads as absent.
#[verifier::external_body]
pub(crate) fn create(store: &mut fvm_ipld_blockstore::MemoryBlockstore, bit_width: u32) -> (r: Result<
    cid::Cid,
    fvm_ipld_hamt::Error,
>)
    requires
        bit_width == HAMT_BIT_WIDTH,
    ensures
        r is Ok,
        r matches Ok(c) ==> c == trie_empty(bit_width).id,
        store_blocks(*final(store)) == store_blocks(*old(store)).insert(
            trie_empty(bit_width).id,
            trie_empty(bit_width).bytes,
        ),
        store_sound(*old(store)) ==> store_sound(*final(store)),
        store_sound(*old(store)) ==> store_blocks(*old(store)).submap_of(
            store_blocks(*final(store)),
        ),
        store_sound(*old(store)) ==> reads_kept(
            store_blocks(*old(store)),
            store_blocks(*final(store)),
            bit_width,
        ),
        r matches Ok(c) ==> forall|key: Seq<char>| #[trigger]
            trie_lookup(store_blocks(*final(store)), bit_width, c, key) == Lookup::Absent,
{
    fvm_ipld_hamt::Hamt::<&fvm_ipld_blockstore::MemoryBlockstore, u64>::new_with_bit_width(
        &*store,
        bit_width,
    ).flush()
}

/// `Hamt::load_with_bit_width`, `Hamt::set` under the key's bytes, then
/// `Hamt::flush`: writes the nodes of a trie that binds the key to the value
/// and returns its root.
///
/// Believed of it:
/// - the outcome is a function of the blocks, the width, the root, the key and
///   the value;
/// - a call that fails has written nothing: the load and the change only
///   read, and this store takes every block;
/// - where the key already reads as the value, the call returns the root it
///   was given and writes nothing;
/// - a sound store stays sound, keeps every block it held and keeps what could
///   be read from it;
/// - in a sound store the root that is returned depends on the root, the key
///   and the value alone; under it the key reads as the value, and every other
///   key that could be read under the old root reads as it did there.
#[verifier::external_body]
pub(crate) fn insert(
    store: &mut fvm_ipld_blockstore::MemoryBlockstore,
    bit_width: u32,
    root: &cid::Cid,
    key: &str,
    value: u64,
) -> (r: Result<cid::Cid, fvm_ipld_hamt::Error>)
    requires
        bit_width == HAMT_BIT_WIDTH,
    ensures
        root_of(r) == trie_insert(store_blocks(*old(store)), bit_width, *root, key@, value).root,
        store_blocks(*final(store)) == trie_insert(
            store_blocks(*old(store)),
            bit_width,
            *root,
            key@,
            value,
        ).blocks,
        r is Err ==> store_blocks(*final(store)) == store_blocks(*old(store)),
        (trie_lookup(store_blocks(*old(store)), bit_width, *root, key@) == Lookup::Found(value))
            ==> (r is Ok && r->Ok_0 == *root && store_blocks(*final(store)) == store_blocks(
            *old(store),
        )),
        store_sound(*old(store)) ==> store_sound(*final(store)),
        store_sound(*old(store)) ==> store_blocks(*old(store)).submap_of(
            store_blocks(*final(store)),
        ),
        store_sound(*old(store)) ==> reads_kept(
            store_blocks(*old(store)),
            store_blocks(*final(store)),
            bit_width,
        ),
        store_sound(*old(store)) && r is Ok ==> r->Ok_0 == trie_successor(
            bit_width,
            *root,
            key@,
            value,
        ),
        store_sound(*old(store)) && r is Ok ==> trie_lookup(
            store_blocks(*final(store)),
            bit_width,
            r->Ok_0,
            key@,
        ) == Lookup::Found(value),
        store_sound(*old(store)) ==> (r matches Ok(c) ==> forall|other: Seq<char>|
            other != key@ && (#[trigger] trie_lookup(
                store_blocks(*old(store)),
                bit_width,
                *root,
                other,
            )).readable() ==> trie_lookup(store_blocks(*final(store)), bit_width, c, other)
                == trie_lookup(store_blocks(*old(store)), bit_width, *root, other)),
{
    let mut trie = fvm_ipld_hamt::Hamt::<
        &fvm_ipld_blockstore::MemoryBlockstore,
        u64,
    >::load_with_bit_width(root, &*store, bit_width)?;
    trie.set(fvm_ipld_hamt::BytesKey::from(key), value)?;
    trie.flush()
}

} // verus!
