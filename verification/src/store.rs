//! The blob store as the handlers see it.
//!
//! The store itself is a relational table behind a pooled database driver;
//! the library never touches it. What the handlers rely on is its
//! semantics: a partial map from identifier to bytes that `put` extends and
//! `get` reads. The two outcome types carry what the driver reported back
//! into verified code.

use vstd::prelude::*;

verus! {

/// A put: the pair was durably recorded, or the attempt failed. The caller
/// guarantees a fresh identifier, so a duplicate-key failure is a fault
/// like any other.
pub enum PutOutcome {
    Stored,
    Fault,
}

/// A get: the exact bytes recorded under the identifier, their absence, or
/// a failure to ask.
pub enum GetOutcome {
    Found(Vec<u8>),
    Absent,
    Fault,
}

/// The store contents after recording `value` under `id`.
pub open spec fn store_put(s: Map<u128, Seq<u8>>, id: u128, value: Seq<u8>) -> Map<u128, Seq<u8>> {
    s.insert(id, value)
}

/// What a get of `id` returns from contents `s`.
pub open spec fn store_get(s: Map<u128, Seq<u8>>, id: u128) -> Option<Seq<u8>> {
    if s.dom().contains(id) {
        Some(s[id])
    } else {
        None
    }
}

/// Entries are write-once and never destroyed: recording a fresh entry
/// keeps every entry already present, byte for byte.
pub proof fn lemma_write_once(s: Map<u128, Seq<u8>>, id: u128, value: Seq<u8>, other: u128)
    requires
        s.dom().contains(other),
        other != id,
    ensures
        store_put(s, id, value).dom().contains(other),
        store_get(store_put(s, id, value), other) == store_get(s, other),
{
}

} // verus!
