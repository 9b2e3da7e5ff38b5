//! PowerShell, as first driven: its startup arguments, the line that runs a
//! recorded command, keyboard input with line feeds made into CR LF, and the
//! initialization script.
use crate::chars::string_texts;
use crate::contract::POWERSHELL_COMMAND_FUNCTION;
use crate::encoding::utf8_text;
use crate::error::ShellError;
use crate::shell::drivers::powershell as driver;
use crate::shell::drivers::StartupContext;
use crate::shell::quote::{lemma_literal_values, powershell_literal, powershell_path, powershell_string, powershell_value};
use crate::shell::wrappers::variables::{marker_rendering, namespace_suffix, outcome_matches};
use vstd::prelude::*;

verus! {

/// The PowerShell initialization script for the working directory `cwd` and
/// the ready file `ready_file`.
pub fn initialization_script(cwd: &[u8], ready_file: &[u8]) -> (script: Result<String, ShellError>)
    ensures
        exists|suffix: Seq<char>|
            namespace_suffix(suffix) && #[trigger] outcome_matches(
                script,
                driver::initialization_script_result(
                    marker_rendering(crate::shell::wrappers::pwsh::wrapper_template(), suffix),
                    cwd@,
                    ready_file@,
                ),
            ),
{
    // The script does not depend on the startup directory.
    driver::initialization_script(&StartupContext { cwd, startup_directory: cwd, ready_file })
}

/// The arguments that start PowerShell in `cwd` with the ready file
/// `ready_file`.
pub fn startup_args(cwd: &[u8], ready_file: &[u8]) -> (args: Result<Vec<String>, ShellError>)
    ensures
        exists|suffix: Seq<char>|
            namespace_suffix(suffix) && #[trigger] arguments_outcome(
                args,
                driver::initialization_script_result(
                    marker_rendering(crate::shell::wrappers::pwsh::wrapper_template(), suffix),
                    cwd@,
                    ready_file@,
                ),
            ),
{
    let init = initialization_script(cwd, ready_file);
    let ghost suffix = choose|suffix: Seq<char>|
        namespace_suffix(suffix) && outcome_matches(
            init,
            driver::initialization_script_result(
                marker_rendering(crate::shell::wrappers::pwsh::wrapper_template(), suffix),
                cwd@,
                ready_file@,
            ),
        );
    let r = match init {
        Err(e) => Err(e),
        Ok(init) => {
            let args = vec![
                String::from_str("-NoLogo"),
                String::from_str("-NoProfile"),
                String::from_str("-NoExit"),
                String::from_str("-ExecutionPolicy"),
                String::from_str("Bypass"),
                String::from_str("-EncodedCommand"),
                driver::encode_command(init.as_str()),
            ];
            assert(string_texts(args@) =~= driver::startup_arguments(init@));
            Ok(args)
        },
    };
    assert(namespace_suffix(suffix) && arguments_outcome(
        r,
        driver::initialization_script_result(
            marker_rendering(crate::shell::wrappers::pwsh::wrapper_template(), suffix),
            cwd@,
            ready_file@,
        ),
    ));
    r
}

/// `args` are the startup arguments for the initialization script `init`, or
/// the error that building the script met.
pub open spec fn arguments_outcome(args: Result<Vec<String>, ShellError>, init: Result<Seq<char>, ShellError>) -> bool {
    match init {
        Ok(t) => args matches Ok(v) && string_texts(v@) == driver::startup_arguments(t),
        Err(e) => args matches Err(x) && x == e,
    }
}

pub const INVOCATION_0: &'static str = " -CommandId ";
pub const INVOCATION_1: &'static str = " -Directory ";
pub const INVOCATION_2: &'static str = " -WorkingDirectory ";
pub const INVOCATION_3: &'static str = "\r\n";

/// The text of a PowerShell invocation line, from its parts.
pub open spec fn invocation_text(directory: Seq<char>, cwd: Seq<char>, id: Seq<char>) -> Seq<char> {
    POWERSHELL_COMMAND_FUNCTION@ + INVOCATION_0@ + id + INVOCATION_1@ + directory + INVOCATION_2@ + cwd + INVOCATION_3@
}

/// The outcome of building a PowerShell invocation line: its text, or the first error met.
pub open spec fn invocation_result(directory: Seq<u8>, cwd: Seq<u8>, command_id: Seq<char>) -> Result<Seq<char>, ShellError> {
    match (utf8_text(directory), utf8_text(cwd)) {
        (Some(t_directory), Some(t_cwd)) => Ok(invocation_text(powershell_literal(t_directory), powershell_literal(t_cwd), powershell_literal(command_id))),
        _ => Err(ShellError::NonUtf8Path),
    }
}

/// The invocation line calls the PowerShell command runner with the command
/// id, the command directory and the working directory as its
/// `-CommandId`, `-Directory` and `-WorkingDirectory` arguments, each an
/// expression whose value PowerShell reads back as that text, and ends with
/// CR LF; it is built exactly when both paths are UTF-8.
pub proof fn lemma_invocation_reads_back(directory: Seq<u8>, cwd: Seq<u8>, command_id: Seq<char>)
    ensures
        invocation_result(directory, cwd, command_id) is Ok <==> (utf8_text(directory) is Some && utf8_text(cwd) is Some),
        invocation_result(directory, cwd, command_id) matches Ok(line) ==> exists|id_word: Seq<char>, directory_word: Seq<char>, cwd_word: Seq<char>|
            #![trigger powershell_value(id_word), powershell_value(directory_word), powershell_value(cwd_word)]
            line == POWERSHELL_COMMAND_FUNCTION@ + " -CommandId "@ + id_word + " -Directory "@ + directory_word + " -WorkingDirectory "@
                + cwd_word + "\r\n"@
                && powershell_value(id_word) == command_id
                && powershell_value(directory_word) == utf8_text(directory)->0
                && powershell_value(cwd_word) == utf8_text(cwd)->0,
{
    if let (Some(d), Some(c)) = (utf8_text(directory), utf8_text(cwd)) {
        lemma_literal_values(command_id);
        lemma_literal_values(d);
        lemma_literal_values(c);
        assert(powershell_value(powershell_literal(command_id)) == command_id);
        assert(powershell_value(powershell_literal(d)) == d);
        assert(powershell_value(powershell_literal(c)) == c);
    }
}

/// The line that runs the command `command_id` recorded in `directory` from the working directory `cwd`, ended by CR LF.
pub fn invocation(command_id: &str, directory: &[u8], cwd: &[u8]) -> (script: Result<String, ShellError>)
    ensures
        outcome_matches(script, invocation_result(directory@, cwd@, command_id@)),
{
    let directory_text = match powershell_path(directory) {
        Ok(x) => x,
        Err(e) => {
            let r: Result<String, ShellError> = Err(e);
            assert(outcome_matches(r, invocation_result(directory@, cwd@, command_id@)));
            return r;
        },
    };
    let cwd_text = match powershell_path(cwd) {
        Ok(x) => x,
        Err(e) => {
            let r: Result<String, ShellError> = Err(e);
            assert(outcome_matches(r, invocation_result(directory@, cwd@, command_id@)));
            return r;
        },
    };
    let quoted_id = powershell_string(command_id);
    let mut text = String::from_str(POWERSHELL_COMMAND_FUNCTION);
    text.append(INVOCATION_0);
    text.append(quoted_id.as_str());
    text.append(INVOCATION_1);
    text.append(directory_text.as_str());
    text.append(INVOCATION_2);
    text.append(cwd_text.as_str());
    text.append(INVOCATION_3);
    let r: Result<String, ShellError> = Ok(text);
    assert(outcome_matches(r, invocation_result(directory@, cwd@, command_id@)));
    r
}

/// Keyboard bytes for PowerShell: a line feed not preceded by a carriage
/// return gets one in front of it. `previous` is the byte before `bytes`.
pub open spec fn crlf_keys(bytes: Seq<u8>, previous: Option<u8>) -> Seq<u8>
    decreases bytes.len(),
{
    if bytes.len() == 0 {
        seq![]
    } else {
        let b = bytes[0];
        let keys = if b == 10 && previous != Some(13u8) {
            seq![13u8, 10u8]
        } else {
            seq![b]
        };
        keys + crlf_keys(bytes.drop_first(), Some(b))
    }
}

/// Keyboard input for PowerShell, with each lone line feed sent as CR LF.
pub fn keyboard_bytes(bytes: &[u8]) -> (keys: Vec<u8>)
    ensures
        keys@ == crlf_keys(bytes@, None),
{
    let mut normalized: Vec<u8> = Vec::new();
    let mut previous: Option<u8> = None;
    let mut i: usize = 0;
    assert(bytes@.skip(0) == bytes@);
    assert(normalized@ + crlf_keys(bytes@, None) =~= crlf_keys(bytes@, None));
    while i < bytes.len()
        invariant
            i <= bytes.len(),
            previous == driver::byte_before(bytes@, i as int),
            crlf_keys(bytes@, None) == normalized@ + crlf_keys(bytes@.skip(i as int), previous),
        decreases bytes.len() - i,
    {
        let byte = bytes[i];
        let ghost before = normalized@;
        assert(bytes@.skip(i as int)[0] == byte);
        assert(bytes@.skip(i as int).drop_first() == bytes@.skip(i + 1));
        if byte == 10 && previous != Some(13u8) {
            normalized.push(13);
        }
        normalized.push(byte);
        assert(before + crlf_keys(bytes@.skip(i as int), previous) =~= normalized@ + crlf_keys(
            bytes@.skip(i + 1),
            Some(byte),
        ));
        previous = Some(byte);
        i = i + 1;
    }
    assert(bytes@.skip(i as int).len() == 0);
    assert(normalized@ + crlf_keys(bytes@.skip(i as int), previous) =~= normalized@);
    normalized
}

/// In PowerShell keyboard input every line feed comes right after a carriage
/// return (or, at the start, after a carriage return sent before).
pub proof fn lemma_crlf_keys_line_feeds(bytes: Seq<u8>, previous: Option<u8>)
    ensures
        forall|i: int|
            0 <= i < crlf_keys(bytes, previous).len() && #[trigger] crlf_keys(bytes, previous)[i] == 10
                ==> (if i == 0 {
                previous == Some(13u8)
            } else {
                crlf_keys(bytes, previous)[i - 1] == 13
            }),
    decreases bytes.len(),
{
    if bytes.len() > 0 {
        let b = bytes[0];
        lemma_crlf_keys_line_feeds(bytes.drop_first(), Some(b));
        let keys = if b == 10 && previous != Some(13u8) {
            seq![13u8, 10u8]
        } else {
            seq![b]
        };
        let rest = crlf_keys(bytes.drop_first(), Some(b));
        let out = crlf_keys(bytes, previous);
        assert(out == keys + rest);
        assert(keys.last() == b);
        assert forall|i: int| 0 <= i < out.len() && #[trigger] out[i] == 10 implies (if i == 0 {
            previous == Some(13u8)
        } else {
            out[i - 1] == 13
        }) by {
            if i >= keys.len() {
                let j = i - keys.len();
                assert(out[i] == rest[j]);
                if j > 0 {
                    assert(out[i - 1] == rest[j - 1]);
                } else {
                    assert(out[i - 1] == keys.last());
                }
            }
        }
    }
}

/// Sending PowerShell keyboard input through the conversion again changes
/// nothing.
pub proof fn lemma_crlf_keys_idempotent(bytes: Seq<u8>, previous: Option<u8>)
    ensures
        crlf_keys(crlf_keys(bytes, previous), previous) == crlf_keys(bytes, previous),
    decreases bytes.len(),
{
    if bytes.len() > 0 {
        let b = bytes[0];
        let rest = crlf_keys(bytes.drop_first(), Some(b));
        lemma_crlf_keys_idempotent(bytes.drop_first(), Some(b));
        if b == 10 && previous != Some(13u8) {
            let out = seq![13u8, 10u8] + rest;
            assert(out[0] == 13);
            assert(out.drop_first() == seq![10u8] + rest);
            assert((seq![10u8] + rest)[0] == 10);
            assert((seq![10u8] + rest).drop_first() == rest);
            assert(crlf_keys(seq![10u8] + rest, Some(13u8)) == seq![10u8] + crlf_keys(rest, Some(10u8)));
            assert(crlf_keys(out, previous) == seq![13u8] + crlf_keys(out.drop_first(), Some(13u8)));
        } else {
            let out = seq![b] + rest;
            assert(out[0] == b);
            assert(out.drop_first() == rest);
        }
    }
}

/// Input without line feeds is sent unchanged.
pub proof fn lemma_crlf_keys_plain(bytes: Seq<u8>, previous: Option<u8>)
    requires
        forall|i: int| 0 <= i < bytes.len() ==> bytes[i] != 10,
    ensures
        crlf_keys(bytes, previous) == bytes,
    decreases bytes.len(),
{
    if bytes.len() > 0 {
        assert(bytes[0] != 10);
        lemma_crlf_keys_plain(bytes.drop_first(), Some(bytes[0]));
        assert(bytes == seq![bytes[0]] + bytes.drop_first());
    }
}

} // verus!
