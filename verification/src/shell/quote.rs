//! Quoting of values and paths so that each shell reads them back literally.
use crate::encoding::{
    base64_decode, base64_encode, is_base64_char, lemma_base64_alphabet, lemma_base64_round_trip,
    posix_quote, utf8_text,
};
use vstd::utf8::{decode_utf8, encode_utf8};
use crate::error::ShellError;
use crate::outside::{base64_standard_encode, shell_words_quote, utf8_decode};
use vstd::prelude::*;

verus! {

/// Opening text of a PowerShell expression that decodes a Base64 UTF-8 value.
pub const POWERSHELL_DECODE_PREFIX: &'static str = "([Text.Encoding]::UTF8.GetString([Convert]::FromBase64String('";

/// Closing text of the PowerShell decoding expression.
pub const POWERSHELL_DECODE_SUFFIX: &'static str = "')))";

/// Opening text of a Nushell expression that decodes a Base64 UTF-8 value.
pub const NUSHELL_DECODE_PREFIX: &'static str = "('";

/// Closing text of the Nushell decoding expression.
pub const NUSHELL_DECODE_SUFFIX: &'static str = "' | decode base64 | decode)";

/// The PowerShell expression whose value is `value`.
pub open spec fn powershell_literal(value: Seq<char>) -> Seq<char> {
    POWERSHELL_DECODE_PREFIX@ + base64_encode(vstd::utf8::encode_utf8(value))
        + POWERSHELL_DECODE_SUFFIX@
}

/// The Nushell expression whose value is `value`.
pub open spec fn nushell_literal(value: Seq<char>) -> Seq<char> {
    NUSHELL_DECODE_PREFIX@ + base64_encode(vstd::utf8::encode_utf8(value)) + NUSHELL_DECODE_SUFFIX@
}

/// `r` is the text `expected` when there is one, and the non-UTF-8 path error
/// when there is none.
pub open spec fn text_result(r: Result<String, ShellError>, expected: Option<Seq<char>>) -> bool {
    match expected {
        Some(t) => r matches Ok(s) && s@ == t,
        None => r matches Err(e) && e == ShellError::NonUtf8Path,
    }
}

/// The text of a path, given by the bytes of its native encoding.
pub fn native_path(path: &[u8]) -> (r: Result<String, ShellError>)
    ensures
        text_result(r, utf8_text(path@)),
{
    match utf8_decode(path) {
        Some(text) => Ok(text),
        None => Err(ShellError::NonUtf8Path),
    }
}

/// A PowerShell expression that evaluates to the path's text.
pub fn powershell_path(path: &[u8]) -> (r: Result<String, ShellError>)
    ensures
        text_result(
            r,
            match utf8_text(path@) {
                Some(t) => Some(powershell_literal(t)),
                None => None,
            },
        ),
{
    let text = native_path(path)?;
    Ok(powershell_string(&text))
}

/// A PowerShell expression that evaluates to `value`: its UTF-8 bytes in
/// Base64, decoded by the shell.
pub fn powershell_string(value: &str) -> (quoted: String)
    ensures
        quoted@ == powershell_literal(value@),
{
    let encoded = base64_standard_encode(value.as_bytes());
    let mut quoted = String::from_str(POWERSHELL_DECODE_PREFIX);
    quoted.append(encoded.as_str());
    quoted.append(POWERSHELL_DECODE_SUFFIX);
    quoted
}

/// A Nushell expression that evaluates to the path's text.
pub fn nushell_path(path: &[u8]) -> (r: Result<String, ShellError>)
    ensures
        text_result(
            r,
            match utf8_text(path@) {
                Some(t) => Some(nushell_literal(t)),
                None => None,
            },
        ),
{
    let text = native_path(path)?;
    Ok(nushell_string(&text))
}

/// A Nushell expression that evaluates to `value`: its UTF-8 bytes in
/// Base64, decoded by the shell.
pub fn nushell_string(value: &str) -> (quoted: String)
    ensures
        quoted@ == nushell_literal(value@),
{
    let encoded = base64_standard_encode(value.as_bytes());
    let mut quoted = String::from_str(NUSHELL_DECODE_PREFIX);
    quoted.append(encoded.as_str());
    quoted.append(NUSHELL_DECODE_SUFFIX);
    quoted
}

/// `value` as one POSIX shell word, quoted only where needed.
pub fn posix_string(value: &str) -> (quoted: String)
    ensures
        quoted@ == posix_quote(value@),
{
    shell_words_quote(value)
}

/// The payload between the delimiters of a PowerShell or Nushell literal is
/// Base64 text, so it holds no `'` and cannot close the quoted string early.
pub proof fn lemma_literal_payload_has_no_quote(value: Seq<char>)
    ensures
        forall|i: int|
            0 <= i < base64_encode(vstd::utf8::encode_utf8(value)).len() ==> #[trigger] base64_encode(
                vstd::utf8::encode_utf8(value),
            )[i] != '\'',
{
    let payload = base64_encode(vstd::utf8::encode_utf8(value));
    lemma_base64_alphabet(vstd::utf8::encode_utf8(value));
    assert forall|i: int| 0 <= i < payload.len() implies #[trigger] payload[i] != '\'' by {
        assert(is_base64_char(payload[i]));
    }
}

/// PowerShell and Nushell read back the value of its literal: the Base64
/// payload between the literal's fixed parts decodes, as UTF-8, to the value.
pub proof fn lemma_literal_round_trip(value: Seq<char>)
    ensures
        powershell_literal(value) == POWERSHELL_DECODE_PREFIX@ + base64_encode(encode_utf8(value))
            + POWERSHELL_DECODE_SUFFIX@,
        nushell_literal(value) == NUSHELL_DECODE_PREFIX@ + base64_encode(encode_utf8(value))
            + NUSHELL_DECODE_SUFFIX@,
        decode_utf8(base64_decode(base64_encode(encode_utf8(value)))) == value,
{
    lemma_base64_round_trip(encode_utf8(value));
    vstd::utf8::encode_utf8_decode_utf8(value);
}

/// The value PowerShell reads from a decoding expression: the Base64
/// payload between its fixed parts, decoded as UTF-8.
pub open spec fn powershell_value(w: Seq<char>) -> Seq<char> {
    decode_utf8(
        base64_decode(w.subrange(POWERSHELL_DECODE_PREFIX@.len() as int, w.len() - POWERSHELL_DECODE_SUFFIX@.len())),
    )
}

/// The value Nushell reads from a decoding expression: the Base64 payload
/// between its fixed parts, decoded as UTF-8.
pub open spec fn nushell_value(w: Seq<char>) -> Seq<char> {
    decode_utf8(base64_decode(w.subrange(NUSHELL_DECODE_PREFIX@.len() as int, w.len() - NUSHELL_DECODE_SUFFIX@.len())))
}

/// PowerShell and Nushell read each literal back as the value it was made
/// from.
pub proof fn lemma_literal_values(value: Seq<char>)
    ensures
        powershell_value(powershell_literal(value)) == value,
        nushell_value(nushell_literal(value)) == value,
{
    lemma_literal_round_trip(value);
    let payload = base64_encode(encode_utf8(value));
    let p = powershell_literal(value);
    assert(p.subrange(POWERSHELL_DECODE_PREFIX@.len() as int, p.len() - POWERSHELL_DECODE_SUFFIX@.len()) =~= payload);
    let n = nushell_literal(value);
    assert(n.subrange(NUSHELL_DECODE_PREFIX@.len() as int, n.len() - NUSHELL_DECODE_SUFFIX@.len()) =~= payload);
}

/// `value` in double quotes, as Windows CMD reads a path argument.
pub open spec fn cmd_quote(value: Seq<char>) -> Seq<char> {
    seq!['"'] + value + seq!['"']
}

/// `value` in double quotes for Windows CMD.
pub fn cmd_string(value: &str) -> (quoted: String)
    ensures
        quoted@ == cmd_quote(value@),
{
    proof {
        reveal_strlit("\"");
    }
    let mut quoted = String::from_str("\"");
    quoted.append(value);
    quoted.append("\"");
    quoted
}

/// The path's text as one POSIX shell word.
pub fn posix_path(path: &[u8]) -> (r: Result<String, ShellError>)
    ensures
        text_result(
            r,
            match utf8_text(path@) {
                Some(t) => Some(posix_quote(t)),
                None => None,
            },
        ),
{
    let text = native_path(path)?;
    Ok(posix_string(&text))
}

/// The path's text in double quotes for Windows CMD.
pub fn cmd_path(path: &[u8]) -> (r: Result<String, ShellError>)
    ensures
        text_result(
            r,
            match utf8_text(path@) {
                Some(t) => Some(cmd_quote(t)),
                None => None,
            },
        ),
{
    let text = native_path(path)?;
    Ok(cmd_string(&text))
}

} // verus!
