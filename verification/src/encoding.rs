use base64::prelude::BASE64_STANDARD;
use base64::Engine;
use vstd::prelude::*;

verus! {

/// `base64::DecodeError`: why a text is no base64. Nothing is read from it
/// here but its words.
#[verifier::external_type_specification]
#[verifier::external_body]
pub struct ExDecodeError(base64::DecodeError);

/// The text that the standard base64 alphabet, with padding, writes the
/// bytes as.
pub uninterp spec fn base64_encoded(bytes: Seq<u8>) -> Seq<char>;

/// The bytes that a text stands for in the standard base64 alphabet with
/// padding, or `None` where the text is no such encoding.
pub uninterp spec fn base64_decoded(text: Seq<char>) -> Option<Seq<u8>>;

/// `Engine::encode` of `base64::prelude::BASE64_STANDARD`. The result is the
/// encoding of the bytes, and decoding it gives the bytes back. The call
/// panics only where the encoded length does not fit in `usize`, which no
/// vector reaches: it holds at most `isize::MAX` bytes.
#[verifier::external_body]
pub(crate) fn encode_base64(bytes: &Vec<u8>) -> (text: String)
    ensures
        text@ == base64_encoded(bytes@),
        base64_decoded(text@) == Some(bytes@),
{
    BASE64_STANDARD.encode(bytes)
}

/// `Engine::decode` of `base64::prelude::BASE64_STANDARD`. It gives the bytes
/// that the text stands for, and an error exactly where the text stands for
/// none.
#[verifier::external_body]
pub(crate) fn decode_base64(text: &str) -> (result: Result<Vec<u8>, base64::DecodeError>)
    ensures
        match result {
            Ok(bytes) => base64_decoded(text@) == Some(bytes@),
            Err(_) => base64_decoded(text@) is None,
        },
{
    BASE64_STANDARD.decode(text)
}

/// `to_string` of a `base64::DecodeError`: the decoder's words for what is
/// wrong with a text. Nothing is claimed of them.
#[verifier::external_body]
pub(crate) fn decode_error_text(error: &base64::DecodeError) -> (text: String) {
    error.to_string()
}


/// `std::string::FromUtf8Error`: why bytes are no UTF-8. Nothing is read
/// from it here but its words.
#[verifier::external_type_specification]
#[verifier::external_body]
pub struct ExFromUtf8Error(std::string::FromUtf8Error);

/// `String::from_utf8`. It gives the text that the bytes encode, and an
/// error exactly where the bytes are no UTF-8.
#[verifier::external_body]
pub(crate) fn text_of_utf8(bytes: Vec<u8>) -> (result: Result<String, std::string::FromUtf8Error>)
    ensures
        match result {
            Ok(text) => vstd::utf8::valid_utf8(bytes@) && text@ == vstd::utf8::decode_utf8(bytes@),
            Err(_) => !vstd::utf8::valid_utf8(bytes@),
        },
{
    String::from_utf8(bytes)
}

/// `to_string` of a `std::string::FromUtf8Error`: the words for what is wrong
/// with the bytes. Nothing is claimed of them.
#[verifier::external_body]
pub(crate) fn utf8_error_text(error: &std::string::FromUtf8Error) -> (text: String) {
    error.to_string()
}

} // verus!
