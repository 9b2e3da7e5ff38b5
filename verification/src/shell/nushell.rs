//! Nushell, as first driven: its startup arguments, the line that runs a
//! recorded command, and the initialization script.
use crate::chars::string_texts;
use crate::contract::POSIX_COMMAND_FUNCTION;
use crate::encoding::utf8_text;
use crate::error::ShellError;
use crate::host::host_uses_windows_conventions;
use crate::shell::drivers::nushell as driver;
use crate::shell::drivers::StartupContext;
use crate::shell::quote::{lemma_literal_values, nushell_literal, nushell_path, nushell_string, nushell_value};
use crate::shell::wrappers::variables::{marker_rendering, namespace_suffix, outcome_matches};
use vstd::prelude::*;

verus! {

/// The Nushell initialization script for the working directory `cwd` and the
/// ready file `ready_file`.
pub fn initialization_script(cwd: &[u8], ready_file: &[u8]) -> (script: Result<String, ShellError>)
    ensures
        exists|suffix: Seq<char>|
            namespace_suffix(suffix) && #[trigger] outcome_matches(
                script,
                driver::initialization_script_result(
                    marker_rendering(crate::shell::wrappers::nu::wrapper_template(), suffix),
                    cwd@,
                    ready_file@,
                ),
            ),
{
    // The script does not depend on the startup directory.
    driver::initialization_script(&StartupContext { cwd, startup_directory: cwd, ready_file })
}

/// The arguments that start Nushell in `cwd` with the ready file
/// `ready_file`.
pub fn startup_args(cwd: &[u8], ready_file: &[u8]) -> (args: Result<Vec<String>, ShellError>)
    ensures
        exists|suffix: Seq<char>|
            namespace_suffix(suffix) && #[trigger] arguments_outcome(
                args,
                driver::initialization_script_result(
                    marker_rendering(crate::shell::wrappers::nu::wrapper_template(), suffix),
                    cwd@,
                    ready_file@,
                ),
            ),
{
    let init = initialization_script(cwd, ready_file);
    let ghost suffix = choose|suffix: Seq<char>|
        namespace_suffix(suffix) && outcome_matches(
            init,
            driver::initialization_script_result(
                marker_rendering(crate::shell::wrappers::nu::wrapper_template(), suffix),
                cwd@,
                ready_file@,
            ),
        );
    let r = match init {
        Err(e) => Err(e),
        Ok(init) => {
            let args = vec![
                String::from_str("--no-config-file"),
                String::from_str("--no-history"),
                String::from_str("--execute"),
                init,
            ];
            assert(string_texts(args@) =~= driver::startup_arguments(args@[3]@));
            Ok(args)
        },
    };
    assert(namespace_suffix(suffix) && arguments_outcome(
        r,
        driver::initialization_script_result(
            marker_rendering(crate::shell::wrappers::nu::wrapper_template(), suffix),
            cwd@,
            ready_file@,
        ),
    ));
    r
}

/// `args` are the startup arguments for the initialization script `init`, or
/// the error that building the script met.
pub open spec fn arguments_outcome(args: Result<Vec<String>, ShellError>, init: Result<Seq<char>, ShellError>) -> bool {
    match init {
        Ok(t) => args matches Ok(v) && string_texts(v@) == driver::startup_arguments(t),
        Err(e) => args matches Err(x) && x == e,
    }
}

/// The line ending of a Windows host when `windows` holds, of other hosts
/// otherwise.
pub open spec fn line_ending_text(windows: bool) -> Seq<char> {
    if windows {
        "\r\n"@
    } else {
        "\n"@
    }
}

/// The line ending that ends an invocation on a Windows host when `windows`
/// holds, on other hosts otherwise.
pub fn invocation_line_ending_on(windows: bool) -> (ending: &'static str)
    ensures
        ending@ == line_ending_text(windows),
{
    if windows {
        "\r\n"
    } else {
        "\n"
    }
}

/// The line ending that ends an invocation on this host.
pub fn invocation_line_ending() -> (ending: &'static str)
    ensures
        exists|windows: bool| ending@ == line_ending_text(windows),
{
    invocation_line_ending_on(host_uses_windows_conventions())
}

pub const INVOCATION_0: &'static str = " ";
pub const INVOCATION_1: &'static str = " ";
pub const INVOCATION_2: &'static str = " ";

/// The text of a Nushell invocation line, from its parts.
pub open spec fn invocation_on_text(directory: Seq<char>, cwd: Seq<char>, id: Seq<char>, ending: Seq<char>) -> Seq<char> {
    POSIX_COMMAND_FUNCTION@ + INVOCATION_0@ + id + INVOCATION_1@ + directory + INVOCATION_2@ + cwd + ending
}

/// The outcome of building a Nushell invocation line: its text, or the first error met.
pub open spec fn invocation_on_result(directory: Seq<u8>, cwd: Seq<u8>, command_id: Seq<char>, windows: bool) -> Result<Seq<char>, ShellError> {
    match (utf8_text(directory), utf8_text(cwd)) {
        (Some(t_directory), Some(t_cwd)) => Ok(invocation_on_text(nushell_literal(t_directory), nushell_literal(t_cwd), nushell_literal(command_id), line_ending_text(windows))),
        _ => Err(ShellError::NonUtf8Path),
    }
}

/// The invocation line calls the command runner with three arguments,
/// separated by single spaces, that Nushell reads back as the command id,
/// the command directory's text and the working directory's text, in that
/// order, and ends with the host's line ending; it is built exactly when
/// both paths are UTF-8.
pub proof fn lemma_invocation_reads_back(directory: Seq<u8>, cwd: Seq<u8>, command_id: Seq<char>, windows: bool)
    ensures
        invocation_on_result(directory, cwd, command_id, windows) is Ok <==> (utf8_text(directory) is Some && utf8_text(cwd) is Some),
        invocation_on_result(directory, cwd, command_id, windows) matches Ok(line) ==> exists|id_word: Seq<char>, directory_word: Seq<char>, cwd_word: Seq<char>|
            #![trigger nushell_value(id_word), nushell_value(directory_word), nushell_value(cwd_word)]
            line == POSIX_COMMAND_FUNCTION@ + " "@ + id_word + " "@ + directory_word + " "@ + cwd_word + (if windows {
                "\r\n"@
            } else {
                "\n"@
            })
                && nushell_value(id_word) == command_id
                && nushell_value(directory_word) == utf8_text(directory)->0
                && nushell_value(cwd_word) == utf8_text(cwd)->0,
{
    if let (Some(d), Some(c)) = (utf8_text(directory), utf8_text(cwd)) {
        lemma_literal_values(command_id);
        lemma_literal_values(d);
        lemma_literal_values(c);
        assert(nushell_value(nushell_literal(command_id)) == command_id);
        assert(nushell_value(nushell_literal(d)) == d);
        assert(nushell_value(nushell_literal(c)) == c);
    }
}

/// The line that runs the command `command_id` recorded in `directory` from the working directory `cwd`, ended by the line ending of a Windows host when `windows` holds and of other hosts otherwise.
pub fn invocation_on(command_id: &str, directory: &[u8], cwd: &[u8], windows: bool) -> (script: Result<String, ShellError>)
    ensures
        outcome_matches(script, invocation_on_result(directory@, cwd@, command_id@, windows)),
{
    let directory_text = match nushell_path(directory) {
        Ok(x) => x,
        Err(e) => {
            let r: Result<String, ShellError> = Err(e);
            assert(outcome_matches(r, invocation_on_result(directory@, cwd@, command_id@, windows)));
            return r;
        },
    };
    let cwd_text = match nushell_path(cwd) {
        Ok(x) => x,
        Err(e) => {
            let r: Result<String, ShellError> = Err(e);
            assert(outcome_matches(r, invocation_on_result(directory@, cwd@, command_id@, windows)));
            return r;
        },
    };
    let quoted_id = nushell_string(command_id);
    let ending = invocation_line_ending_on(windows);
    let mut text = String::from_str(POSIX_COMMAND_FUNCTION);
    text.append(INVOCATION_0);
    text.append(quoted_id.as_str());
    text.append(INVOCATION_1);
    text.append(directory_text.as_str());
    text.append(INVOCATION_2);
    text.append(cwd_text.as_str());
    text.append(ending);
    let r: Result<String, ShellError> = Ok(text);
    assert(outcome_matches(r, invocation_on_result(directory@, cwd@, command_id@, windows)));
    r
}

/// The line that runs the command `command_id` recorded in `directory` from
/// the working directory `cwd`, ended by this host's line ending.
pub fn invocation(command_id: &str, directory: &[u8], cwd: &[u8]) -> (line: Result<String, ShellError>)
    ensures
        exists|windows: bool| outcome_matches(line, invocation_on_result(directory@, cwd@, command_id@, windows)),
{
    let windows = host_uses_windows_conventions();
    invocation_on(command_id, directory, cwd, windows)
}

} // verus!
