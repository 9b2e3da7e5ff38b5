//! The calls into other crates and into parts of std that vstd does not
//! describe. Each item here is trusted: its contract restates what the called
//! function's source or documentation shows, and nothing proves it.
use crate::encoding::{base64_encode, json_quote, posix_quote};
use vstd::prelude::*;

verus! {

/// `base64_turbo::STANDARD.encode`: standard RFC 4648 Base64 with `=`
/// padding. The contract claims the output is exactly that encoding of the
/// input bytes, as the crate's documentation and `STANDARD` configuration show.
#[verifier::external_body]
pub(crate) fn base64_standard_encode(bytes: &[u8]) -> (text: String)
    ensures
        text@ == base64_encode(bytes@),
{
    base64_turbo::STANDARD.encode(bytes)
}

/// `shell_words::quote`: leaves a word without special characters as it is,
/// otherwise wraps it in single quotes and writes each `'` as `'\''`. The
/// contract claims exactly that, as the function's source shows.
#[verifier::external_body]
pub(crate) fn shell_words_quote(value: &str) -> (quoted: String)
    ensures
        quoted@ == posix_quote(value@),
{
    shell_words::quote(value).into_owned()
}

/// `std::str::from_utf8`: succeeds exactly when the bytes are valid UTF-8,
/// and then yields the characters they encode. The contract claims that, as
/// the function's documentation states.
#[verifier::external_body]
pub(crate) fn utf8_decode(bytes: &[u8]) -> (text: Option<String>)
    ensures
        text is Some <==> vstd::utf8::valid_utf8(bytes@),
        text matches Some(t) ==> t@ == vstd::utf8::decode_utf8(bytes@),
{
    std::str::from_utf8(bytes).ok().map(str::to_owned)
}

/// `nanoid::format` with nanoid's default random source: an identifier of
/// `size` characters, each drawn from `alphabet`. The result depends on
/// chance; the contract claims only its length and that every character
/// comes from the alphabet, as the function's source shows. The source
/// asserts that the alphabet has at most 255 characters and, for an alphabet
/// whose length is not a power of two, loops until the identifier's byte
/// length equals `size`, which the `requires` keeps finite.
#[verifier::external_body]
pub(crate) fn random_identifier(alphabet: &Vec<char>, size: usize) -> (id: String)
    requires
        0 < alphabet.len() <= 255,
        0 < size <= 1024,
        forall|i: int| 0 <= i < alphabet.len() ==> (#[trigger] alphabet@[i] as u32) < 128,
    ensures
        id@.len() == size,
        forall|i: int| 0 <= i < id@.len() ==> alphabet@.contains(#[trigger] id@[i]),
{
    nanoid::format(nanoid::rngs::default, alphabet.as_slice(), size)
}

/// `std::path::MAIN_SEPARATOR`: the character that separates the parts of
/// a path on the host this program was built for. It depends on that host,
/// so nothing is claimed of it.
#[verifier::external_body]
pub(crate) fn main_separator() -> char {
    std::path::MAIN_SEPARATOR
}

/// The error type of `sonic_rs`.
#[verifier::external_type_specification]
#[verifier::external_body]
pub struct ExJsonError(sonic_rs::Error);

/// `sonic_rs::to_string` on a string: the JSON string literal of the text.
/// The contract claims the literal exactly, as the crate's escape table
/// shows (`"` and `\` behind a backslash, `\b \t \n \f \r` for those
/// control characters, `\u00XX` in lower-case hexadecimal for the others,
/// every other character unchanged), and success, since the serializer
/// writes into a `Vec` whose writer never reports an error.
#[verifier::external_body]
pub(crate) fn json_string(value: &str) -> (encoded: Result<String, sonic_rs::Error>)
    ensures
        encoded is Ok,
        encoded matches Ok(text) ==> text@ == json_quote(value@),
{
    sonic_rs::to_string(value)
}

} // verus!
