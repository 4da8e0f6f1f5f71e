//! The deletion path: which identifiers a removal hands to the engine.

use vstd::prelude::*;

verus! {

/// The batch that removes the one document with the identifier `doc_id`.
/// Whether a document has that identifier plays no part: the engine passes
/// over identifiers that it does not know.
pub fn deletion_batch(doc_id: u64) -> (batch: Vec<u64>)
    ensures
        batch@ == seq![doc_id],
{
    let mut batch: Vec<u64> = Vec::new();
    batch.push(doc_id);
    assert(batch@ =~= seq![doc_id]);
    batch
}

} // verus!
