//! The key-value store as the library sees it: text under text keys. The
//! library reads and writes nothing itself. It names the keys, decides what
//! is to be written, and leaves the reading and writing to its host.

use vstd::prelude::*;

verus! {

/// A value to be written under a key.
#[derive(Clone, Debug, PartialEq, Eq)]
pub struct StoreWrite {
    pub key: String,
    pub value: String,
}

impl View for StoreWrite {
    type V = (Seq<char>, Seq<char>);

    open spec fn view(&self) -> (Seq<char>, Seq<char>) {
        (self.key@, self.value@)
    }
}

/// The views of a list of writes.
pub open spec fn write_views(writes: Seq<StoreWrite>) -> Seq<(Seq<char>, Seq<char>)> {
    writes.map_values(|write: StoreWrite| write@)
}

/// What a store holds under `key`, if anything.
pub open spec fn store_get(store: Map<Seq<char>, Seq<char>>, key: Seq<char>) -> Option<Seq<char>> {
    if store.dom().contains(key) {
        Some(store[key])
    } else {
        None
    }
}

/// The store after the given writes, made one after the other. A later
/// write to a key replaces an earlier one.
pub open spec fn store_after(
    store: Map<Seq<char>, Seq<char>>,
    writes: Seq<(Seq<char>, Seq<char>)>,
) -> Map<Seq<char>, Seq<char>>
    decreases writes.len(),
{
    if writes.len() == 0 {
        store
    } else {
        store_after(store, writes.drop_last()).insert(writes.last().0, writes.last().1)
    }
}

} // verus!
