//! Where the index lives on disk and how it is brought up.

use crate::schema::{clipboard_schema, field_schema, schema_view, SchemaField};
use vstd::prelude::*;

verus! {

/// Name of the directory, below the application's own, that holds the index.
pub const INDEX_FOLDER: &'static str = "clipboard_index";

/// Application identifier that names the index path unless another is given.
pub const DEFAULT_APP_IDENTIFIER: &'static str = "clipboard-history";

/// Name under which the engine knows the index.
pub const INDEX_NAME: &'static str = "clipboard";

/// Number of bits that fixes the index's segment count.
pub const SEGMENT_NUMBER_BITS: usize = 11;

/// The three parts of the index path, outermost first. The path is the
/// base directory, then the application identifier, then the index folder.
#[derive(Debug, Clone, PartialEq, Eq)]
pub struct IndexLocation {
    pub base_directory: String,
    pub app_identifier: String,
    pub folder: String,
}

/// Mathematical value of an [`IndexLocation`].
pub struct LocationView {
    pub base_directory: Seq<char>,
    pub app_identifier: Seq<char>,
    pub folder: Seq<char>,
}

impl View for IndexLocation {
    type V = LocationView;

    open spec fn view(&self) -> LocationView {
        LocationView {
            base_directory: self.base_directory@,
            app_identifier: self.app_identifier@,
            folder: self.folder@,
        }
    }
}

/// Why the index cannot be located. The failure is fatal: without a place
/// for the index the process does not go on.
#[derive(Debug, Clone, Copy, PartialEq, Eq, Structural)]
pub enum StartupError {
    /// Neither an override nor a per-user configuration directory is known.
    NoBaseDirectory,
}

impl StartupError {
    /// The failure in words.
    pub fn message(&self) -> (text: String)
        ensures
            text@ == "no base directory for the clipboard index"@,
    {
        "no base directory for the clipboard index".to_owned()
    }
}

/// The location that the given settings determine, if any: the override
/// where there is one, else the configuration directory, as base; the
/// identifier override, else the default identifier; and the index folder.
pub open spec fn resolved_location(
    base_override: Option<Seq<char>>,
    config_directory: Option<Seq<char>>,
    app_identifier_override: Option<Seq<char>>,
) -> Option<LocationView> {
    let app_identifier = match app_identifier_override {
        Some(identifier) => identifier,
        None => DEFAULT_APP_IDENTIFIER@,
    };
    match (base_override, config_directory) {
        (Some(base), _) => Some(
            LocationView { base_directory: base, app_identifier, folder: INDEX_FOLDER@ },
        ),
        (None, Some(base)) => Some(
            LocationView { base_directory: base, app_identifier, folder: INDEX_FOLDER@ },
        ),
        (None, None) => None,
    }
}

/// The characters of an optional string.
pub open spec fn setting_view(setting: Option<String>) -> Option<Seq<char>> {
    match setting {
        Some(text) => Some(text@),
        None => None,
    }
}

/// Resolves the index location from what the environment offers: an
/// explicit base directory, the platform's per-user configuration directory,
/// and an explicit application identifier, each of which may be missing.
/// Fails exactly when no base directory can be had.
pub fn index_location(
    base_override: Option<String>,
    config_directory: Option<String>,
    app_identifier_override: Option<String>,
) -> (location: Result<IndexLocation, StartupError>)
    ensures
        match location {
            Ok(place) => resolved_location(
                setting_view(base_override),
                setting_view(config_directory),
                setting_view(app_identifier_override),
            ) == Some(place@),
            Err(error) => error == StartupError::NoBaseDirectory && base_override is None
                && config_directory is None,
        },
{
    let base_directory = match base_override {
        Some(base) => base,
        None => match config_directory {
            Some(base) => base,
            None => {
                return Err(StartupError::NoBaseDirectory);
            },
        },
    };
    let app_identifier = match app_identifier_override {
        Some(identifier) => identifier,
        None => DEFAULT_APP_IDENTIFIER.to_owned(),
    };
    Ok(IndexLocation { base_directory, app_identifier, folder: INDEX_FOLDER.to_owned() })
}

/// How matches are scored.
#[derive(Debug, Clone, Copy, PartialEq, Eq, Structural)]
pub enum Ranking {
    /// Term frequency against inverse document frequency, normalised by
    /// field length.
    Bm25f,
    /// The same, with a bonus for query terms that stand close together.
    Bm25fProximity,
}

/// How text is cut into tokens.
#[derive(Debug, Clone, Copy, PartialEq, Eq, Structural)]
pub enum Tokenization {
    /// Runs of ASCII letters, in lower case.
    AsciiAlphabetic,
    /// Runs of letters and digits of any script, in lower case.
    UnicodeAlphanumeric,
}

/// Where the index is read from while searching.
#[derive(Debug, Clone, Copy, PartialEq, Eq, Structural)]
pub enum Access {
    /// Loaded into memory as a whole.
    Ram,
    /// Through memory-mapped files.
    Mmap,
}

/// Everything but the schema that a fresh index is created with.
#[derive(Debug, Clone, Copy, PartialEq, Eq, Structural)]
pub struct IndexSettings {
    pub ranking: Ranking,
    pub tokenization: Tokenization,
    /// Whether words are reduced to their stem.
    pub stemming: bool,
    /// Whether very common words are dropped from documents and queries.
    pub stopword_removal: bool,
    /// Whether pairs of very common words are indexed as one term.
    pub frequent_word_pairs: bool,
    pub access: Access,
    pub segment_number_bits: usize,
    /// Whether a copy of the schema is written beside the index.
    pub serialize_schema: bool,
}

/// The settings of the clipboard index.
pub open spec fn clipboard_settings() -> IndexSettings {
    IndexSettings {
        ranking: Ranking::Bm25f,
        tokenization: Tokenization::AsciiAlphabetic,
        stemming: false,
        stopword_removal: false,
        frequent_word_pairs: false,
        access: Access::Mmap,
        segment_number_bits: SEGMENT_NUMBER_BITS,
        serialize_schema: true,
    }
}

/// The settings that a fresh index is created with.
pub fn index_settings() -> (settings: IndexSettings)
    ensures
        settings == clipboard_settings(),
{
    IndexSettings {
        ranking: Ranking::Bm25f,
        tokenization: Tokenization::AsciiAlphabetic,
        stemming: false,
        stopword_removal: false,
        frequent_word_pairs: false,
        access: Access::Mmap,
        segment_number_bits: SEGMENT_NUMBER_BITS,
        serialize_schema: true,
    }
}

/// What the first access to the index has to do.
#[derive(Debug, Clone, PartialEq, Eq)]
pub enum AcquirePlan {
    /// An index is on disk: open it as it is, with the schema it was made
    /// with.
    Open,
    /// Nothing is on disk: create the index with these settings and fields.
    Create(IndexSettings, Vec<SchemaField>),
}

/// Decides between opening and creating: an index that exists is opened
/// unchanged, and only a missing one is created, with the clipboard
/// settings and the clipboard schema.
pub fn acquire_plan(index_exists: bool) -> (plan: AcquirePlan)
    ensures
        index_exists ==> plan is Open,
        !index_exists ==> plan is Create && plan->Create_0 == clipboard_settings() && schema_view(
            plan->Create_1@,
        ) == clipboard_schema(),
{
    if index_exists {
        AcquirePlan::Open
    } else {
        AcquirePlan::Create(index_settings(), field_schema())
    }
}

} // verus!
