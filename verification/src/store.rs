//! The durable key-value store, seen from this library: two flat keys, two
//! operations, and the ways in which a request can fail.

use vstd::prelude::*;

verus! {

/// Why a request to the durable store failed.
#[derive(Clone, Copy, Debug, PartialEq, Eq, Structural)]
pub enum StoreError {
    /// The store holds nothing under the key.
    NotFound,
    /// The store did not answer, or none is configured.
    Unreachable,
    /// The store refused or lost a write.
    WriteFailed,
}

/// The two entries of the replication slot.
#[derive(Clone, Copy, Debug, PartialEq, Eq, Structural)]
pub enum StoreKey {
    /// The snapshot itself.
    TowerFile,
    /// The snapshot's freshness record.
    TowerMetadata,
}

/// The flat name under which the store keeps an entry.
pub open spec fn key_name(key: StoreKey) -> Seq<char> {
    match key {
        StoreKey::TowerFile => "tower_file"@,
        StoreKey::TowerMetadata => "tower_metadata"@,
    }
}

impl StoreKey {
    /// The flat name under which the store keeps this entry.
    pub fn name(&self) -> (name: &'static str)
        ensures
            name@ == key_name(*self),
    {
        match self {
            StoreKey::TowerFile => "tower_file",
            StoreKey::TowerMetadata => "tower_metadata",
        }
    }
}

/// The two entries never share a name.
pub proof fn law_key_names_differ()
    ensures
        key_name(StoreKey::TowerFile) != key_name(StoreKey::TowerMetadata),
{
    reveal_strlit("tower_file");
    reveal_strlit("tower_metadata");
    assert(key_name(StoreKey::TowerFile).len() == 10);
    assert(key_name(StoreKey::TowerMetadata).len() == 14);
}

/// What the store holds: a value under some of the keys.
pub type StoreContents = Map<StoreKey, Seq<u8>>;

/// The store after a successful `put`: the value replaces what was under the
/// key, and the other entry stays as it was.
pub open spec fn after_put(contents: StoreContents, key: StoreKey, value: Seq<u8>) -> StoreContents {
    contents.insert(key, value)
}

/// The answer of a reachable store to `get`.
pub open spec fn answer_to_get(contents: StoreContents, key: StoreKey) -> Result<
    Seq<u8>,
    StoreError,
> {
    if contents.dom().contains(key) {
        Ok(contents[key])
    } else {
        Err(StoreError::NotFound)
    }
}

} // verus!
