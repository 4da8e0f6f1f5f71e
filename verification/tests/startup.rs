use clipboard_index::lifecycle::{
    acquire_plan, index_location, index_settings, Access, AcquirePlan, IndexLocation, IndexSettings,
    Ranking, StartupError, Tokenization, DEFAULT_APP_IDENTIFIER, INDEX_FOLDER, SEGMENT_NUMBER_BITS,
};
use clipboard_index::schema::field_schema;

fn some(text: &str) -> Option<String> {
    Some(text.to_string())
}

#[test]
fn location_prefers_the_override() {
    assert_eq!(
        index_location(some("/data"), some("/home/u/.config"), None),
        Ok(IndexLocation {
            base_directory: "/data".to_string(),
            app_identifier: "clipboard-history".to_string(),
            folder: "clipboard_index".to_string(),
        })
    );
}

#[test]
fn location_falls_back_to_the_configuration_directory() {
    assert_eq!(
        index_location(None, some("/home/u/.config"), some("com.example.clip")),
        Ok(IndexLocation {
            base_directory: "/home/u/.config".to_string(),
            app_identifier: "com.example.clip".to_string(),
            folder: "clipboard_index".to_string(),
        })
    );
}

#[test]
fn location_needs_a_base_directory() {
    assert_eq!(index_location(None, None, None), Err(StartupError::NoBaseDirectory));
    assert_eq!(index_location(None, None, some("x")), Err(StartupError::NoBaseDirectory));
}

#[test]
fn location_takes_overrides_as_they_are() {
    let location = index_location(some(""), None, some("")).unwrap();
    assert_eq!(location.base_directory, "");
    assert_eq!(location.app_identifier, "");
    assert_eq!(location.folder, INDEX_FOLDER);
}

#[test]
fn location_defaults() {
    let location = index_location(some("/d"), None, None).unwrap();
    assert_eq!(location.app_identifier, DEFAULT_APP_IDENTIFIER);
    assert_eq!(INDEX_FOLDER, "clipboard_index");
}

#[test]
fn startup_error_has_a_message() {
    assert_eq!(
        StartupError::NoBaseDirectory.message(),
        "no base directory for the clipboard index"
    );
}

#[test]
fn settings_of_a_fresh_index() {
    assert_eq!(
        index_settings(),
        IndexSettings {
            ranking: Ranking::Bm25f,
            tokenization: Tokenization::AsciiAlphabetic,
            stemming: false,
            stopword_removal: false,
            frequent_word_pairs: false,
            access: Access::Mmap,
            segment_number_bits: 11,
            serialize_schema: true,
        }
    );
    assert_eq!(SEGMENT_NUMBER_BITS, 11);
}

#[test]
fn an_existing_index_is_opened() {
    assert_eq!(acquire_plan(true), AcquirePlan::Open);
}

#[test]
fn a_missing_index_is_created_with_settings_and_schema() {
    assert_eq!(acquire_plan(false), AcquirePlan::Create(index_settings(), field_schema()));
}
