//! The durable key-to-bytes map backing the proposal ledger.
//!
//! The map itself comes from the `ic_stable_structures` crate; this module
//! is the trusted boundary around it. Its contents are named by the
//! uninterpreted `byte_entries`, and each wrapper states over that name what
//! the crate's own source shows of the call it makes.

use vstd::prelude::*;
use ic_stable_structures::memory_manager::{MemoryId, MemoryManager};
use ic_stable_structures::memory_manager::VirtualMemory;
use ic_stable_structures::{DefaultMemoryImpl, StableBTreeMap};

verus! {

/// A durable ordered map from `u64` keys to byte strings, stored in an
/// `ic_stable_structures::StableBTreeMap`. Opaque to the verifier: all that
/// is known of it is stated by the wrappers below.
#[verifier::external_body]
pub struct ByteStore {
    map: StableBTreeMap<u64, Vec<u8>, VirtualMemory<DefaultMemoryImpl>>,
}

/// The entries the durable map currently holds.
pub uninterp spec fn byte_entries(s: ByteStore) -> Map<u64, Seq<u8>>;

/// Relies on MemoryManager::init and StableBTreeMap::init: initialising a
/// map over a newly created DefaultMemoryImpl (a fresh in-memory region on
/// this target) yields a map with no entries.
#[verifier::external_body]
pub(crate) fn byte_store_new() -> (r: ByteStore)
    ensures
        byte_entries(r) == (Map::<u64, Seq<u8>>::empty()),
{
    let manager = MemoryManager::init(DefaultMemoryImpl::default());
    let memory = manager.get(MemoryId::new(0));
    ByteStore { map: StableBTreeMap::init(memory) }
}

/// Relies on StableBTreeMap::get: returns a copy of the value stored under
/// the key, if any (a `Vec<u8>` value is stored and loaded verbatim).
#[verifier::external_body]
pub(crate) fn byte_store_get(s: &ByteStore, key: u64) -> (r: Option<Vec<u8>>)
    ensures
        r is Some <==> byte_entries(*s).dom().contains(key),
        r is Some ==> r.unwrap()@ == byte_entries(*s)[key],
{
    s.map.get(&key)
}

/// Relies on StableBTreeMap::insert: stores the value under the key and
/// returns the value previously stored there, if any.
#[verifier::external_body]
pub(crate) fn byte_store_insert(s: &mut ByteStore, key: u64, value: Vec<u8>) -> (r: Option<
    Vec<u8>,
>)
    ensures
        byte_entries(*final(s)) == byte_entries(*old(s)).insert(key, value@),
        r is Some <==> byte_entries(*old(s)).dom().contains(key),
        r is Some ==> r.unwrap()@ == byte_entries(*old(s))[key],
{
    s.map.insert(key, value)
}

/// Relies on StableBTreeMap::len: the number of entries in the map.
#[verifier::external_body]
pub(crate) fn byte_store_len(s: &ByteStore) -> (r: u64)
    ensures
        r as nat == byte_entries(*s).dom().len(),
{
    s.map.len()
}

} // verus!
