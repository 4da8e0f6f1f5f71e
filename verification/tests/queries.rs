use clipboard_index::document::Document;
use clipboard_index::entry::ClipboardEntry;
use clipboard_index::ingest::document_of_entry;
use clipboard_index::delete::deletion_batch;
use clipboard_index::ingest::ingest_request;
use clipboard_index::query::{
    entries_of_documents, entry_of_document, search_request, MatchMode, SearchRequest,
};
use clipboard_index::tokens::plain_text;

fn entry(content: &str, timestamp: i64) -> ClipboardEntry {
    ClipboardEntry {
        content: content.to_string(),
        entry_type: "text".to_string(),
        timestamp,
        app: None,
        ocr_text: None,
        color: None,
    }
}

fn found(content: &str, timestamp: i64) -> Option<Document> {
    Some(document_of_entry(entry(content, timestamp)))
}

#[test]
fn search_request_is_conjunctive_from_the_first_hit() {
    assert_eq!(
        search_request("alpha beta", 10),
        SearchRequest {
            query: "alpha beta".to_string(),
            match_mode: MatchMode::All,
            offset: 0,
            length: 10,
            count_total: true,
            include_uncommitted: false,
        }
    );
}

#[test]
fn search_request_accepts_limit_zero_and_the_largest_limit() {
    assert_eq!(search_request("", 0).length, 0);
    assert_eq!(search_request("", 0).query, "");
    assert_eq!(search_request("x", usize::MAX).length, usize::MAX);
    assert_eq!(search_request("x", usize::MAX).offset, 0);
}

#[test]
fn entries_come_in_the_order_of_the_hits() {
    let documents = vec![found("one", 1), found("two", 2), found("three", 3)];
    assert_eq!(
        entries_of_documents(&documents, 10),
        vec![entry("one", 1), entry("two", 2), entry("three", 3)]
    );
}

#[test]
fn a_missing_document_is_passed_over() {
    let documents = vec![None, found("one", 1), None, None, found("two", 2), None];
    assert_eq!(entries_of_documents(&documents, 10), vec![entry("one", 1), entry("two", 2)]);
}

#[test]
fn the_limit_cuts_the_answer() {
    let documents = vec![found("one", 1), found("two", 2), found("three", 3)];
    assert_eq!(entries_of_documents(&documents, 2), vec![entry("one", 1), entry("two", 2)]);
    assert_eq!(entries_of_documents(&documents, 3).len(), 3);
    assert_eq!(entries_of_documents(&documents, 4).len(), 3);
}

#[test]
fn the_limit_counts_found_documents_only() {
    let documents = vec![None, found("one", 1), None, found("two", 2), found("three", 3)];
    assert_eq!(entries_of_documents(&documents, 2), vec![entry("one", 1), entry("two", 2)]);
}

#[test]
fn limit_zero_yields_nothing() {
    let documents = vec![found("one", 1), found("two", 2)];
    assert_eq!(entries_of_documents(&documents, 0), Vec::<ClipboardEntry>::new());
}

#[test]
fn no_hits_yield_nothing() {
    assert_eq!(entries_of_documents(&Vec::new(), 5), Vec::<ClipboardEntry>::new());
    assert_eq!(entries_of_documents(&vec![None, None], 5), Vec::<ClipboardEntry>::new());
}

#[test]
fn answer_length_is_the_smaller_of_limit_and_found() {
    let documents = vec![found("a", 1), None, found("b", 2), found("c", 3), None, found("d", 4)];
    for limit in 0..8usize {
        assert_eq!(entries_of_documents(&documents, limit).len(), limit.min(4));
    }
}

#[test]
fn an_ingested_entry_is_among_the_answers() {
    let wanted = ClipboardEntry {
        content: "needle in a stack".to_string(),
        entry_type: "html".to_string(),
        timestamp: 77,
        app: Some("browser".to_string()),
        ocr_text: None,
        color: Some("blue".to_string()),
    };
    let documents = vec![found("hay", 1), None, Some(document_of_entry(wanted.clone()))];
    assert!(entries_of_documents(&documents, 3).contains(&wanted));
}

#[test]
fn search_request_carries_the_plain_query() {
    let request = search_request("+alpha -beta \"gamma delta\"", 3);
    assert_eq!(request.query, " alpha  beta  gamma delta ");
    assert_eq!(request.match_mode, MatchMode::All);
    assert_eq!(request.length, 3);
}

#[test]
fn plain_text_keeps_letters_and_blanks_the_rest() {
    assert_eq!(plain_text("Hello, World!"), "Hello  World ");
    assert_eq!(plain_text("a+b-c\"d"), "a b c d");
    assert_eq!(plain_text("state-of-the-art"), "state of the art");
    assert_eq!(plain_text("abc123xyz"), "abc   xyz");
    assert_eq!(plain_text("tab\tnew\nline"), "tab new line");
}

#[test]
fn plain_text_keeps_the_case_of_letters() {
    assert_eq!(plain_text("AbCz AZaz"), "AbCz AZaz");
    assert_eq!(plain_text("@[`{"), "    ");
}

#[test]
fn plain_text_blanks_letters_beyond_ascii_one_for_one() {
    assert_eq!(plain_text("café 日本"), "caf    ");
    assert_eq!(plain_text("Ünïcode"), " n code");
    assert_eq!(plain_text("é").chars().count(), 1);
}

#[test]
fn plain_text_of_nothing_is_nothing() {
    assert_eq!(plain_text(""), "");
}

#[test]
fn plain_text_is_its_own_plain_form() {
    for query in ["", "alpha beta", "x-y+z", "\"quoted\"", "日本語", "  spaced  "] {
        let once = plain_text(query);
        assert_eq!(plain_text(&once), once);
        assert_eq!(once.chars().count(), query.chars().count());
    }
}

#[test]
fn ingest_request_is_one_committed_document() {
    let request = ingest_request(entry("one", 1));
    assert!(request.commit);
    assert_eq!(request.documents.len(), 1);
    assert_eq!(entry_of_document(&request.documents[0]), entry("one", 1));
}

#[test]
fn equal_entries_give_separate_requests() {
    let left = ingest_request(entry("same", 5));
    let right = ingest_request(entry("same", 5));
    assert_eq!(left.documents.len() + right.documents.len(), 2);
}

#[test]
fn deletion_batch_holds_the_one_identifier() {
    assert_eq!(deletion_batch(0), vec![0]);
    assert_eq!(deletion_batch(42), vec![42]);
    assert_eq!(deletion_batch(u64::MAX), vec![u64::MAX]);
}
