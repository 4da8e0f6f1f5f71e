//! The query path: what a search asks of the engine, and how the documents
//! behind its hits become entries again.

use crate::document::{Document, DocumentView, FieldValue, ValueView};
use crate::entry::{text_of, ClipboardEntry, EntryView};
use crate::schema::{APP, COLOR, CONTENT, ENTRY_TYPE, OCR_TEXT, TIMESTAMP};
use crate::tokens::{plain_query, plain_text};
use vstd::prelude::*;

verus! {

/// How the tokens of a query combine.
#[derive(Debug, Clone, Copy, PartialEq, Eq, Structural)]
pub enum MatchMode {
    /// A document matches only if it holds every token of the query.
    All,
    /// A document matches if it holds at least one token of the query.
    Any,
}

/// What one search hands to the engine.
#[derive(Debug, Clone, PartialEq, Eq)]
pub struct SearchRequest {
    /// The query in its plain form: ASCII letters and spaces only.
    pub query: String,
    /// How the query's tokens combine.
    pub match_mode: MatchMode,
    /// Number of leading hits to pass over.
    pub offset: usize,
    /// Largest number of hits to return.
    pub length: usize,
    /// Whether the engine also counts all matches beyond those it returns.
    pub count_total: bool,
    /// Whether documents that are not yet committed take part.
    pub include_uncommitted: bool,
}

/// The request for the best `limit` matches of `query`: every token must
/// match, ranking starts at the first hit, and only committed documents are
/// searched. The query goes out in its plain form, so that the engine cuts
/// it into the same tokens as it cuts documents, and none of the characters
/// by which the engine would switch to another way of matching reaches it.
pub fn search_request(query: &str, limit: usize) -> (request: SearchRequest)
    ensures
        request.query@ == plain_query(query@),
        request.match_mode == MatchMode::All,
        request.offset == 0,
        request.length == limit,
        request.count_total,
        !request.include_uncommitted,
{
    SearchRequest {
        query: plain_text(query),
        match_mode: MatchMode::All,
        offset: 0,
        length: limit,
        count_total: true,
        include_uncommitted: false,
    }
}

/// The text stored under `name`, if the record holds a string there.
pub open spec fn text_at(document: DocumentView, name: Seq<char>) -> Option<Seq<char>> {
    if document.contains_key(name) {
        match document[name] {
            ValueView::Text(text) => Some(text),
            _ => None,
        }
    } else {
        None
    }
}

/// The number stored under `name`, if the record holds an integer there.
pub open spec fn integer_at(document: DocumentView, name: Seq<char>) -> Option<int> {
    if document.contains_key(name) {
        match document[name] {
            ValueView::Integer(number) => Some(number),
            _ => None,
        }
    } else {
        None
    }
}

/// The text, or the empty text where there is none.
pub open spec fn text_or_empty(text: Option<Seq<char>>) -> Seq<char> {
    match text {
        Some(t) => t,
        None => Seq::empty(),
    }
}

/// The number, or zero where there is none.
pub open spec fn integer_or_zero(number: Option<int>) -> int {
    match number {
        Some(n) => n,
        None => 0,
    }
}

/// The entry that a stored document stands for. A required field that is
/// missing, or holds a value of another shape, reads as empty text or as
/// time zero; an optional field in that state reads as absent.
pub open spec fn document_entry(document: DocumentView) -> EntryView {
    EntryView {
        content: text_or_empty(text_at(document, CONTENT@)),
        entry_type: text_or_empty(text_at(document, ENTRY_TYPE@)),
        timestamp: integer_or_zero(integer_at(document, TIMESTAMP@)),
        app: text_at(document, APP@),
        ocr_text: text_at(document, OCR_TEXT@),
        color: text_at(document, COLOR@),
    }
}

/// Reads the text stored under `name`.
fn stored_text(document: &Document, name: &str) -> (text: Option<String>)
    ensures
        text_of(text) == text_at(document@, name@),
{
    match document.get(name) {
        Some(FieldValue::Text(text)) => Some(text.clone()),
        _ => None,
    }
}

/// Reads the number stored under `name`.
fn stored_integer(document: &Document, name: &str) -> (number: Option<i64>)
    ensures
        match number {
            Some(n) => integer_at(document@, name@) == Some(n as int),
            None => integer_at(document@, name@) is None,
        },
{
    match document.get(name) {
        Some(FieldValue::Integer(number)) => Some(*number),
        _ => None,
    }
}

/// Rebuilds the entry of a stored document from all of its fields, whether
/// or not they take part in matching.
pub fn entry_of_document(document: &Document) -> (entry: ClipboardEntry)
    ensures
        entry@ == document_entry(document@),
{
    let content = match stored_text(document, CONTENT) {
        Some(text) => text,
        None => String::new(),
    };
    let entry_type = match stored_text(document, ENTRY_TYPE) {
        Some(text) => text,
        None => String::new(),
    };
    let timestamp: i64 = match stored_integer(document, TIMESTAMP) {
        Some(number) => number,
        None => 0,
    };
    ClipboardEntry {
        content,
        entry_type,
        timestamp,
        app: stored_text(document, APP),
        ocr_text: stored_text(document, OCR_TEXT),
        color: stored_text(document, COLOR),
    }
}

/// The values of a list of entries, in the same order.
pub open spec fn entries_view(entries: Seq<ClipboardEntry>) -> Seq<EntryView> {
    entries.map_values(|entry: ClipboardEntry| entry@)
}

/// The value of the outcome of one lookup: a document, or nothing.
pub open spec fn lookup_view(found: Option<Document>) -> Option<DocumentView> {
    match found {
        Some(document) => Some(document@),
        None => None,
    }
}

/// The values of a list of lookup outcomes, in the same order.
pub open spec fn lookups_view(found: Seq<Option<Document>>) -> Seq<Option<DocumentView>> {
    found.map_values(|one: Option<Document>| lookup_view(one))
}

/// The entries of the documents that were found, in the order of the
/// lookups. A lookup that found nothing contributes no entry.
pub open spec fn rehydrated(found: Seq<Option<DocumentView>>) -> Seq<EntryView>
    decreases found.len(),
{
    if found.len() == 0 {
        Seq::empty()
    } else {
        let front = rehydrated(found.drop_last());
        match found.last() {
            Some(document) => front.push(document_entry(document)),
            None => front,
        }
    }
}

/// The first `limit` entries, or all of them where there are fewer.
pub open spec fn limited(entries: Seq<EntryView>, limit: nat) -> Seq<EntryView> {
    if entries.len() <= limit {
        entries
    } else {
        entries.take(limit as int)
    }
}

/// Adding an entry at the end changes the first `limit` entries only while
/// there is room.
pub proof fn lemma_limited_push(entries: Seq<EntryView>, entry: EntryView, limit: nat)
    ensures
        limited(entries.push(entry), limit) == if entries.len() < limit {
            limited(entries, limit).push(entry)
        } else {
            limited(entries, limit)
        },
{
    if entries.len() < limit {
    } else if entries.len() == limit {
        assert(entries.push(entry).take(limit as int) =~= entries);
    } else {
        assert(entries.push(entry).take(limit as int) =~= entries.take(limit as int));
    }
}

/// There are never more entries than lookups.
pub proof fn lemma_rehydrated_len(found: Seq<Option<DocumentView>>)
    ensures
        rehydrated(found).len() <= found.len(),
    decreases found.len(),
{
    if found.len() > 0 {
        lemma_rehydrated_len(found.drop_last());
    }
}

/// Answers a search from the outcomes of the lookups behind its hits: one
/// outcome per hit, in the order in which the engine ranked the hits, `None`
/// where the index handed out no document for a hit (it was deleted in the
/// meantime, say). The entries come in the order of the hits; a hit without
/// a document is passed over and the others still count; and the answer
/// never holds more than `limit` entries.
pub fn entries_of_documents(found: &Vec<Option<Document>>, limit: usize) -> (entries: Vec<
    ClipboardEntry,
>)
    ensures
        entries_view(entries@) == limited(rehydrated(lookups_view(found@)), limit as nat),
        entries.len() <= limit,
        entries.len() <= found.len(),
{
    let ghost all = lookups_view(found@);
    let mut entries: Vec<ClipboardEntry> = Vec::new();
    let mut i: usize = 0;
    while i < found.len()
        invariant
            i <= found.len(),
            all == lookups_view(found@),
            entries_view(entries@) == limited(rehydrated(all.take(i as int)), limit as nat),
        decreases found.len() - i,
    {
        proof {
            assert(all.take(i + 1).drop_last() =~= all.take(i as int));
        }
        if let Some(document) = &found[i] {
            let ghost before = entries_view(entries@);
            proof {
                lemma_limited_push(
                    rehydrated(all.take(i as int)),
                    document_entry(document@),
                    limit as nat,
                );
            }
            if entries.len() < limit {
                let entry = entry_of_document(document);
                entries.push(entry);
                assert(entries_view(entries@) =~= before.push(entry@));
            }
        }
        i += 1;
    }
    proof {
        assert(all.take(found.len() as int) =~= all);
        lemma_rehydrated_len(all);
        assert(entries_view(entries@).len() == entries.len());
    }
    entries
}

} // verus!
