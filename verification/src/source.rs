//! Handles for discovered network video sources.

use vstd::prelude::*;

verus! {

/// One discoverable video source: a human-readable name plus an identifier.
///
/// The transport's own source value is opaque; the unverified shell keeps a
/// table of the sources it discovered and stands each in here by its index
/// `id`.  Selection compares sources by name alone; the name is immutable
/// once the handle is built.
#[derive(Debug)]
pub struct NdiSource {
    pub name: String,
    pub id: u64,
}

impl Clone for NdiSource {
    fn clone(&self) -> (other: Self)
        ensures
            other == *self,
    {
        NdiSource { name: self.name.clone(), id: self.id }
    }
}

/// Build the catalog entry for one discovered source, as the discovery loop
/// does for each source of a tick.
pub fn catalog_entry(name: String, id: u64) -> (source: NdiSource)
    ensures
        source.name == name,
        source.id == id,
{
    NdiSource { name, id }
}

/// Build one discovery tick's whole catalog: each discovered source, as an
/// (identifier, name) pair, becomes a handle, in the order the transport
/// reported them.
pub fn catalog_from(raw: Vec<(u64, String)>) -> (sources: Vec<NdiSource>)
    ensures
        sources@.len() == raw@.len(),
        forall|i: int|
            0 <= i < raw@.len() ==> (#[trigger] sources@[i]).name == raw@[i].1
                && sources@[i].id == raw@[i].0,
{
    let mut raw = raw;
    let ghost raw0 = raw@;
    let n = raw.len();
    let mut sources: Vec<NdiSource> = Vec::new();
    proof {
        assert(raw@ =~= raw0.skip(0));
    }
    for i in 0..n
        invariant
            n == raw0.len(),
            raw@ =~= raw0.skip(i as int),
            sources@.len() == i,
            forall|k: int|
                0 <= k < i ==> (#[trigger] sources@[k]).name == raw0[k].1
                    && sources@[k].id == raw0[k].0,
    {
        let (id, name) = raw.remove(0);
        proof {
            assert((id, name) == raw0[i as int]);
            assert(raw@ =~= raw0.skip(i as int + 1));
        }
        sources.push(catalog_entry(name, id));
    }
    sources
}

} // verus!
