use base64::engine::general_purpose::STANDARD;
use base64::{DecodeError, Engine};
use clipboard_index::payload::{decoded_payload, file_payload, names_image, IMAGE_SUFFIX};

#[test]
fn image_paths_end_in_the_suffix() {
    assert_eq!(IMAGE_SUFFIX, ".png");
    assert!(names_image("shot.png"));
    assert!(names_image("/tmp/dir.d/a.png"));
    assert!(names_image(".png"));
    assert!(names_image("döner.png"));
}

#[test]
fn other_paths_are_no_image_paths() {
    assert!(!names_image(""));
    assert!(!names_image("png"));
    assert!(!names_image("a.PNG"));
    assert!(!names_image("a.png "));
    assert!(!names_image("a.png.txt"));
    assert!(!names_image("apng"));
    assert!(!names_image("a.pn"));
    assert!(!names_image("ä.jpg"));
}

#[test]
fn text_payload_is_the_text_in_bytes() {
    assert_eq!(file_payload("notes.txt", "héllo"), Ok("héllo".as_bytes().to_vec()));
    assert_eq!(file_payload("notes.txt", ""), Ok(Vec::new()));
}

#[test]
fn text_that_looks_like_base64_is_not_decoded_for_other_paths() {
    assert_eq!(file_payload("a.txt", "SGVsbG8="), Ok(b"SGVsbG8=".to_vec()));
}

#[test]
fn image_payload_is_decoded() {
    assert_eq!(file_payload("a.png", "SGVsbG8="), Ok(b"Hello".to_vec()));
    assert_eq!(file_payload("a.png", "AAECAwT/"), Ok(vec![0, 1, 2, 3, 4, 255]));
    assert_eq!(file_payload("a.png", ""), Ok(Vec::new()));
}

#[test]
fn image_payload_that_is_no_base64_is_refused() {
    assert_eq!(
        file_payload("a.png", "not base64!"),
        Err(STANDARD.decode("not base64!").unwrap_err().to_string())
    );
    assert!(file_payload("a.png", "SGVsbG8").is_err());
    assert!(file_payload("a.png", "SGVsbG8=\n").is_err());
}

#[test]
fn decoded_payload_passes_bytes_on() {
    assert_eq!(decoded_payload(Ok(vec![1, 2, 3])), Ok(vec![1, 2, 3]));
    assert_eq!(decoded_payload(Ok(Vec::new())), Ok(Vec::new()));
}

#[test]
fn decoded_payload_puts_the_failure_in_words() {
    assert_eq!(
        decoded_payload(Err(DecodeError::InvalidByte(3, 33))),
        Err("Invalid symbol 33, offset 3.".to_string())
    );
    assert_eq!(
        decoded_payload(Err(DecodeError::InvalidPadding)),
        Err("Invalid padding".to_string())
    );
}

#[test]
fn refused_image_payload_carries_the_decoder_error_in_words() {
    assert_eq!(file_payload("a.png", "!!"), Err("Invalid symbol 33, offset 0.".to_string()));
    assert_eq!(file_payload("dir/b.png", "SGVsbG8"), Err("Invalid padding".to_string()));
    assert_ne!(file_payload("a.png", "!!"), Err(String::new()));
}
