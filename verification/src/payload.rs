//! What is written to a file for a given path and text: the text itself,
//! or, for an image path, the bytes that the text encodes.

use base64::engine::general_purpose::STANDARD;
use base64::{DecodeError, Engine};
use vstd::prelude::*;
use vstd::string::*;

verus! {

/// Ending of a path whose file holds an image handed over as base64 text.
pub const IMAGE_SUFFIX: &'static str = ".png";

/// The text ends with the suffix.
pub open spec fn ends_with(text: Seq<char>, suffix: Seq<char>) -> bool {
    text.len() >= suffix.len() && text.subrange(text.len() - suffix.len(), text.len() as int)
        == suffix
}

/// The path names an image file.
pub open spec fn is_image_path(path: Seq<char>) -> bool {
    ends_with(path, IMAGE_SUFFIX@)
}

/// Tells whether the path names an image file.
pub fn names_image(path: &str) -> (image: bool)
    ensures
        image == is_image_path(path@),
{
    proof {
        reveal_strlit(".png");
    }
    let length: usize = path.unicode_len();
    if length < 4 {
        return false;
    }
    let start: usize = length - 4;
    let image = path.get_char(start) == '.' && path.get_char(start + 1) == 'p' && path.get_char(
        start + 2,
    ) == 'n' && path.get_char(start + 3) == 'g';
    proof {
        let tail = path@.subrange(path@.len() - 4, path@.len() as int);
        if image {
            assert(tail =~= IMAGE_SUFFIX@);
        } else {
            assert(tail[0] == path@[start as int]);
            assert(tail[1] == path@[start + 1]);
            assert(tail[2] == path@[start + 2]);
            assert(tail[3] == path@[start + 3]);
        }
    }
    image
}

/// A failure of the base64 decoder.
#[verifier::external_type_specification]
#[verifier::external_body]
pub struct ExDecodeError(DecodeError);

/// What the standard base64 decoder makes of a text: the bytes that the
/// text encodes (alphabet of RFC 4648 with `+` and `/`, canonical padding
/// required), or the decoder's error where the text is no such encoding.
pub uninterp spec fn base64_decoding(text: Seq<char>) -> Result<Seq<u8>, DecodeError>;

/// Calls `base64::Engine::decode` on the engine
/// `base64::engine::general_purpose::STANDARD`. The decoder reads nothing
/// but its input, so its outcome is the named decoding of the text: the
/// bytes where there is one, the error where there is none.
#[verifier::external_body]
fn decode_standard(text: &str) -> (decoded: Result<Vec<u8>, DecodeError>)
    ensures
        match decoded {
            Ok(bytes) => base64_decoding(text@) == Ok::<Seq<u8>, DecodeError>(bytes@),
            Err(error) => base64_decoding(text@) == Err::<Seq<u8>, DecodeError>(error),
        },
{
    STANDARD.decode(text)
}

/// The text is the error in words, as the error displays itself.
pub open spec fn words_of(error: DecodeError, text: String) -> bool {
    to_string_from_display_ensures::<DecodeError>(&error, text)
}

/// The payload after decoding: the decoded bytes, or the decoder's error in
/// words.
pub fn decoded_payload(decoded: Result<Vec<u8>, DecodeError>) -> (payload: Result<Vec<u8>, String>)
    ensures
        match decoded {
            Ok(bytes) => payload == Ok::<Vec<u8>, String>(bytes),
            Err(error) => payload is Err && words_of(error, payload->Err_0),
        },
{
    match decoded {
        Ok(bytes) => Ok(bytes),
        Err(error) => Err(error.to_string()),
    }
}

/// The bytes to write to the file at `path` for the text `data`. For an
/// image path the text is taken as base64 and decoded, and a text that does
/// not decode is refused with the decoder's error in words; for every other
/// path the bytes are the text's own.
pub fn file_payload(path: &str, data: &str) -> (payload: Result<Vec<u8>, String>)
    ensures
        match payload {
            Ok(bytes) => if is_image_path(path@) {
                base64_decoding(data@) == Ok::<Seq<u8>, DecodeError>(bytes@)
            } else {
                bytes@ == data.spec_bytes()
            },
            Err(message) => is_image_path(path@) && base64_decoding(data@) is Err && words_of(
                base64_decoding(data@)->Err_0,
                message,
            ),
        },
{
    if names_image(path) {
        decoded_payload(decode_standard(data))
    } else {
        Ok(data.as_bytes_vec())
    }
}

} // verus!
