//! Ingestion: from a captured entry to the document that is committed.

use crate::document::{Document, DocumentView, FieldValue, ValueView};
use crate::entry::{ClipboardEntry, EntryView};
use crate::schema::{
    clipboard_schema, conforms, lemma_field_names_differ, APP, COLOR, CONTENT, ENTRY_TYPE, OCR_TEXT,
    TIMESTAMP,
};
use vstd::prelude::*;

verus! {

/// The record with one more text field, or the same record where the text
/// is absent.
pub open spec fn with_optional_text(
    document: DocumentView,
    name: Seq<char>,
    text: Option<Seq<char>>,
) -> DocumentView {
    match text {
        Some(t) => document.insert(name, ValueView::Text(t)),
        None => document,
    }
}

/// The document of an entry: its text, category and capture time under
/// their field names, and each optional field only where the entry has it.
pub open spec fn entry_document(entry: EntryView) -> DocumentView {
    let required = Map::<Seq<char>, ValueView>::empty().insert(
        CONTENT@,
        ValueView::Text(entry.content),
    ).insert(ENTRY_TYPE@, ValueView::Text(entry.entry_type)).insert(
        TIMESTAMP@,
        ValueView::Integer(entry.timestamp),
    );
    with_optional_text(
        with_optional_text(with_optional_text(required, APP@, entry.app), OCR_TEXT@, entry.ocr_text),
        COLOR@,
        entry.color,
    )
}

/// The document of every entry is a record over the clipboard schema.
pub proof fn lemma_entry_document_conforms(entry: EntryView)
    ensures
        conforms(entry_document(entry), clipboard_schema()),
{
    lemma_field_names_differ();
    let document = entry_document(entry);
    let schema = clipboard_schema();
    assert forall|name: Seq<char>| #[trigger] document.contains_key(name) implies exists|i: int|
        0 <= i < schema.len() && (#[trigger] schema[i]).name == name && schema[i].stored
            && crate::schema::kind_admits(schema[i].kind, document[name]) by {
        if name == CONTENT@ {
            assert(schema[0].name == name);
        } else if name == ENTRY_TYPE@ {
            assert(schema[1].name == name);
        } else if name == TIMESTAMP@ {
            assert(schema[2].name == name);
        } else if name == APP@ {
            assert(schema[3].name == name);
        } else if name == OCR_TEXT@ {
            assert(schema[4].name == name);
        } else {
            assert(name == COLOR@);
            assert(schema[5].name == name);
        }
    }
}

/// Builds the one document that is committed for `entry`. Optional fields
/// that the entry lacks are left out of the document.
pub fn document_of_entry(entry: ClipboardEntry) -> (document: Document)
    ensures
        document@ == entry_document(entry@),
        conforms(document@, clipboard_schema()),
{
    let mut document = Document::new();
    document.insert(CONTENT.to_owned(), FieldValue::Text(entry.content));
    document.insert(ENTRY_TYPE.to_owned(), FieldValue::Text(entry.entry_type));
    document.insert(TIMESTAMP.to_owned(), FieldValue::Integer(entry.timestamp));
    if let Some(app) = entry.app {
        document.insert(APP.to_owned(), FieldValue::Text(app));
    }
    if let Some(ocr_text) = entry.ocr_text {
        document.insert(OCR_TEXT.to_owned(), FieldValue::Text(ocr_text));
    }
    if let Some(color) = entry.color {
        document.insert(COLOR.to_owned(), FieldValue::Text(color));
    }
    proof {
        lemma_entry_document_conforms(entry@);
    }
    document
}

/// What one ingestion hands to the engine.
#[derive(Debug)]
pub struct IngestRequest {
    /// The batch of documents to index.
    pub documents: Vec<Document>,
    /// Whether the engine commits the batch before the ingestion returns, so
    /// that it is on disk and seen by every search that follows.
    pub commit: bool,
}

/// The request that ingests `entry`: a batch of exactly one document, that
/// of the entry, committed at once. Nothing is looked up or merged: two
/// equal entries give two requests and so two documents.
pub fn ingest_request(entry: ClipboardEntry) -> (request: IngestRequest)
    ensures
        request.documents.len() == 1,
        request.documents[0]@ == entry_document(entry@),
        conforms(request.documents[0]@, clipboard_schema()),
        request.commit,
{
    let mut documents: Vec<Document> = Vec::new();
    documents.push(document_of_entry(entry));
    IngestRequest { documents, commit: true }
}

} // verus!
