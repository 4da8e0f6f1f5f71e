//! What holds of ingestion and retrieval taken together.

use crate::document::DocumentView;
use crate::entry::EntryView;
use crate::ingest::entry_document;
use crate::query::{document_entry, limited, rehydrated};
use crate::schema::lemma_field_names_differ;
use vstd::prelude::*;

verus! {

/// Round trip of one entry: the document built for an entry reads back as
/// that same entry, in every field, whichever optional fields it has.
pub proof fn lemma_round_trip(entry: EntryView)
    ensures
        document_entry(entry_document(entry)) == entry,
{
    lemma_field_names_differ();
}

/// Entries stay apart: two entries that differ in any field have different
/// documents, so ingestion never folds two captures into one.
pub proof fn lemma_documents_tell_entries_apart(left: EntryView, right: EntryView)
    requires
        left != right,
    ensures
        entry_document(left) != entry_document(right),
{
    lemma_round_trip(left);
    lemma_round_trip(right);
}

/// Number of lookups that found a document.
pub open spec fn found_count(found: Seq<Option<DocumentView>>) -> nat {
    found.filter(|one: Option<DocumentView>| one is Some).len()
}

/// Every document that was found yields one entry, and nothing else does.
pub proof fn lemma_rehydrated_count(found: Seq<Option<DocumentView>>)
    ensures
        rehydrated(found).len() == found_count(found),
    decreases found.len(),
{
    reveal(Seq::filter);
    if found.len() > 0 {
        lemma_rehydrated_count(found.drop_last());
    }
}

/// The limit is respected: a search answers with as many entries as the
/// limit allows, or with one entry per document found where these are fewer.
/// With a limit of zero the answer is empty; where every lookup finds its
/// document, the count is the smaller of the limit and the number of hits.
pub proof fn lemma_limit_respected(found: Seq<Option<DocumentView>>, limit: nat)
    ensures
        limited(rehydrated(found), limit).len() == if limit <= found_count(found) {
            limit
        } else {
            found_count(found)
        },
        limit == 0 ==> limited(rehydrated(found), limit) == Seq::<EntryView>::empty(),
        (forall|i: int| 0 <= i < found.len() ==> (#[trigger] found[i]) is Some) ==> limited(
            rehydrated(found),
            limit,
        ).len() == if limit <= found.len() {
            limit
        } else {
            found.len()
        },
{
    lemma_rehydrated_count(found);
    if limit == 0 {
        assert(limited(rehydrated(found), limit) =~= Seq::<EntryView>::empty());
    }
    if forall|i: int| 0 <= i < found.len() ==> (#[trigger] found[i]) is Some {
        lemma_all_found(found);
    }
}

/// Where every lookup finds its document, as many documents are found as
/// there are lookups.
proof fn lemma_all_found(found: Seq<Option<DocumentView>>)
    requires
        forall|i: int| 0 <= i < found.len() ==> (#[trigger] found[i]) is Some,
    ensures
        found_count(found) == found.len(),
    decreases found.len(),
{
    reveal(Seq::filter);
    if found.len() > 0 {
        let front = found.drop_last();
        assert forall|i: int| 0 <= i < front.len() implies (#[trigger] front[i]) is Some by {
            assert(found[i] is Some);
        }
        lemma_all_found(front);
        assert(found[found.len() - 1] is Some);
    }
}

/// The entry of the document found at position `i` stands in the list of all
/// entries, behind the entries of the documents found before it.
proof fn lemma_rehydrated_position(found: Seq<Option<DocumentView>>, i: int)
    requires
        0 <= i < found.len(),
        found[i] is Some,
    ensures
        rehydrated(found.take(i)).len() < rehydrated(found).len(),
        rehydrated(found.take(i)).len() <= i,
        rehydrated(found)[rehydrated(found.take(i)).len() as int] == document_entry(
            found[i]->Some_0,
        ),
    decreases found.len(),
{
    let front = found.drop_last();
    crate::query::lemma_rehydrated_len(found.take(i));
    if i == found.len() - 1 {
        assert(found.take(i) =~= front);
    } else {
        lemma_rehydrated_position(front, i);
        assert(front.take(i) =~= found.take(i));
    }
}

/// An ingested entry comes back: where one of the first `limit` hits of a
/// search leads to the document that was built for an entry, the answer to
/// the search holds an entry equal to it in every field.
pub proof fn lemma_ingested_entry_is_returned(
    found: Seq<Option<DocumentView>>,
    i: int,
    entry: EntryView,
    limit: nat,
)
    requires
        0 <= i < found.len(),
        i < limit,
        found[i] == Some(entry_document(entry)),
    ensures
        limited(rehydrated(found), limit).contains(entry),
{
    lemma_round_trip(entry);
    lemma_rehydrated_position(found, i);
    let all = rehydrated(found);
    let position = rehydrated(found.take(i)).len() as int;
    assert(all[position] == entry);
    assert(limited(all, limit)[position] == entry);
}

} // verus!
