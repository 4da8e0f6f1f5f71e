//! The transport record of one captured clipboard item.

use vstd::prelude::*;

verus! {

/// One captured clipboard item as it travels between the capture side, the
/// index and the caller. It has no identity of its own: the index assigns an
/// identifier when the entry is ingested.
#[derive(Debug, Clone, PartialEq, Eq)]
pub struct ClipboardEntry {
    /// Free-form text of the item; may be empty.
    pub content: String,
    /// Short category of the item, such as `text`, `image` or `html`.
    pub entry_type: String,
    /// Capture time as a signed epoch value.
    pub timestamp: i64,
    /// Name of the application the item was copied from, if known.
    pub app: Option<String>,
    /// Text recognised in the item, if any.
    pub ocr_text: Option<String>,
    /// Colour tag of the item, if any.
    pub color: Option<String>,
}

/// Mathematical value of a [`ClipboardEntry`].
pub struct EntryView {
    pub content: Seq<char>,
    pub entry_type: Seq<char>,
    pub timestamp: int,
    pub app: Option<Seq<char>>,
    pub ocr_text: Option<Seq<char>>,
    pub color: Option<Seq<char>>,
}

/// The characters of an optional string.
pub open spec fn text_of(text: Option<String>) -> Option<Seq<char>> {
    match text {
        Some(t) => Some(t@),
        None => None,
    }
}

impl View for ClipboardEntry {
    type V = EntryView;

    open spec fn view(&self) -> EntryView {
        EntryView {
            content: self.content@,
            entry_type: self.entry_type@,
            timestamp: self.timestamp as int,
            app: text_of(self.app),
            ocr_text: text_of(self.ocr_text),
            color: text_of(self.color),
        }
    }
}

} // verus!
