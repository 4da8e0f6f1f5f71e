//! The fixed shape of every document in the index.

use crate::document::{DocumentView, ValueView};
use vstd::prelude::*;

verus! {

/// Name of the field that holds an entry's text.
pub const CONTENT: &'static str = "content";

/// Name of the field that holds an entry's category.
pub const ENTRY_TYPE: &'static str = "type";

/// Name of the field that holds an entry's capture time.
pub const TIMESTAMP: &'static str = "timestamp";

/// Name of the field that holds the source application.
pub const APP: &'static str = "app";

/// Name of the field that holds recognised text.
pub const OCR_TEXT: &'static str = "ocr_text";

/// Name of the field that holds the colour tag.
pub const COLOR: &'static str = "color";

/// The six field names differ from one another.
pub proof fn lemma_field_names_differ()
    ensures
        CONTENT@ != ENTRY_TYPE@,
        CONTENT@ != TIMESTAMP@,
        CONTENT@ != APP@,
        CONTENT@ != OCR_TEXT@,
        CONTENT@ != COLOR@,
        ENTRY_TYPE@ != TIMESTAMP@,
        ENTRY_TYPE@ != APP@,
        ENTRY_TYPE@ != OCR_TEXT@,
        ENTRY_TYPE@ != COLOR@,
        TIMESTAMP@ != APP@,
        TIMESTAMP@ != OCR_TEXT@,
        TIMESTAMP@ != COLOR@,
        APP@ != OCR_TEXT@,
        APP@ != COLOR@,
        OCR_TEXT@ != COLOR@,
{
    reveal_strlit("content");
    reveal_strlit("type");
    reveal_strlit("timestamp");
    reveal_strlit("app");
    reveal_strlit("ocr_text");
    reveal_strlit("color");
    assert(CONTENT@.len() == 7);
    assert(ENTRY_TYPE@.len() == 4);
    assert(TIMESTAMP@.len() == 9);
    assert(APP@.len() == 3);
    assert(OCR_TEXT@.len() == 8);
    assert(COLOR@.len() == 5);
}

/// How the index treats the values of a field.
#[derive(Debug, Clone, Copy, PartialEq, Eq, Structural)]
pub enum FieldKind {
    /// Free text.
    Text,
    /// A short categorical string.
    Keyword,
    /// A signed 64-bit time value.
    Timestamp,
}

/// Declaration of one field: its name, its kind, whether its value can be
/// read back from a stored document, and whether queries match against it.
#[derive(Debug, Clone, PartialEq, Eq)]
pub struct SchemaField {
    pub name: String,
    pub kind: FieldKind,
    pub stored: bool,
    pub indexed: bool,
}

/// Mathematical value of a [`SchemaField`].
pub struct SchemaFieldView {
    pub name: Seq<char>,
    pub kind: FieldKind,
    pub stored: bool,
    pub indexed: bool,
}

impl View for SchemaField {
    type V = SchemaFieldView;

    open spec fn view(&self) -> SchemaFieldView {
        SchemaFieldView {
            name: self.name@,
            kind: self.kind,
            stored: self.stored,
            indexed: self.indexed,
        }
    }
}

/// The declarations of a list of fields, in the same order.
pub open spec fn schema_view(schema: Seq<SchemaField>) -> Seq<SchemaFieldView> {
    schema.map_values(|field: SchemaField| field@)
}

/// The schema of the clipboard index: six fields, all of them stored, of
/// which only the text and the category take part in matching.
pub open spec fn clipboard_schema() -> Seq<SchemaFieldView> {
    seq![
        SchemaFieldView { name: CONTENT@, kind: FieldKind::Text, stored: true, indexed: true },
        SchemaFieldView { name: ENTRY_TYPE@, kind: FieldKind::Keyword, stored: true, indexed: true },
        SchemaFieldView {
            name: TIMESTAMP@,
            kind: FieldKind::Timestamp,
            stored: true,
            indexed: false,
        },
        SchemaFieldView { name: APP@, kind: FieldKind::Keyword, stored: true, indexed: false },
        SchemaFieldView { name: OCR_TEXT@, kind: FieldKind::Text, stored: true, indexed: false },
        SchemaFieldView { name: COLOR@, kind: FieldKind::Keyword, stored: true, indexed: false },
    ]
}

/// The shape of the clipboard schema: every field can be read back from a
/// stored document, no two fields share a name, and queries match against
/// the text and the category and against nothing else.
pub proof fn lemma_clipboard_schema_shape()
    ensures
        clipboard_schema().len() == 6,
        forall|i: int| 0 <= i < 6 ==> (#[trigger] clipboard_schema()[i]).stored,
        forall|i: int, j: int|
            0 <= i < j < 6 ==> (#[trigger] clipboard_schema()[i]).name != (
            #[trigger] clipboard_schema()[j]).name,
        forall|i: int|
            0 <= i < 6 ==> ((#[trigger] clipboard_schema()[i]).indexed <==> (clipboard_schema()[i].name
                == CONTENT@ || clipboard_schema()[i].name == ENTRY_TYPE@)),
{
    lemma_field_names_differ();
}

/// A value of this shape may stand in a field of this kind.
pub open spec fn kind_admits(kind: FieldKind, value: ValueView) -> bool {
    match kind {
        FieldKind::Text | FieldKind::Keyword => value is Text,
        FieldKind::Timestamp => value is Integer,
    }
}

/// The document is a record over the schema's fields: each of its names is
/// declared as a stored field, and each value has the shape that the
/// declaration asks for. Fields that the schema declares may be missing.
pub open spec fn conforms(document: DocumentView, schema: Seq<SchemaFieldView>) -> bool {
    forall|name: Seq<char>| #[trigger]
        document.contains_key(name) ==> exists|i: int|
            0 <= i < schema.len() && (#[trigger] schema[i]).name == name && schema[i].stored
                && kind_admits(schema[i].kind, document[name])
}

/// The field declarations that the index is created with.
pub fn field_schema() -> (schema: Vec<SchemaField>)
    ensures
        schema_view(schema@) == clipboard_schema(),
{
    let mut schema: Vec<SchemaField> = Vec::new();
    schema.push(
        SchemaField { name: CONTENT.to_owned(), kind: FieldKind::Text, stored: true, indexed: true },
    );
    schema.push(
        SchemaField {
            name: ENTRY_TYPE.to_owned(),
            kind: FieldKind::Keyword,
            stored: true,
            indexed: true,
        },
    );
    schema.push(
        SchemaField {
            name: TIMESTAMP.to_owned(),
            kind: FieldKind::Timestamp,
            stored: true,
            indexed: false,
        },
    );
    schema.push(
        SchemaField { name: APP.to_owned(), kind: FieldKind::Keyword, stored: true, indexed: false },
    );
    schema.push(
        SchemaField {
            name: OCR_TEXT.to_owned(),
            kind: FieldKind::Text,
            stored: true,
            indexed: false,
        },
    );
    schema.push(
        SchemaField {
            name: COLOR.to_owned(),
            kind: FieldKind::Keyword,
            stored: true,
            indexed: false,
        },
    );
    assert(schema_view(schema@) =~= clipboard_schema());
    schema
}

} // verus!
