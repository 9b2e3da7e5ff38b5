//! Paths and quoting for POSIX shells: a path is written as its native text,
//! quoted so that the shell reads it back literally.
use crate::encoding::{posix_quote, utf8_text};
use crate::error::ShellError;
use crate::shell::quote::{native_path, posix_string, text_result};
use vstd::prelude::*;

verus! {

/// The native text of a path, for a POSIX shell.
pub fn sh_path(path: &[u8]) -> (text: Result<String, ShellError>)
    ensures
        text_result(text, utf8_text(path@)),
{
    native_path(path)
}

/// `value` quoted for a POSIX shell.
pub fn sh_quote(value: &str) -> (quoted: String)
    ensures
        quoted@ == posix_quote(value@),
{
    posix_string(value)
}

} // verus!
