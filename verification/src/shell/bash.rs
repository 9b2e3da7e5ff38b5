//! Bash, as first driven: the initialization script, how Bash is started,
//! and the line that runs a recorded command.
use crate::contract::POSIX_COMMAND_FUNCTION;
use crate::encoding::{lemma_posix_quote_round_trip, posix_quote, posix_word_unquoted, utf8_text};
use crate::error::ShellError;
use crate::shell::drivers::unix_shell;
use crate::shell::drivers::{plan_outcome, StartupContext, StartupPlan};
use crate::shell::quote::{posix_path, posix_string};
use crate::shell::wrappers::posix_startup::{bash_wrapper, bash_wrapper_template};
use crate::shell::wrappers::variables::{marker_rendering, namespace_suffix, outcome_matches};
use vstd::prelude::*;

verus! {

/// The Bash initialization script made with the outcome of rendering the
/// wrapper.
pub open spec fn script_result(wrapper: Result<Seq<char>, ShellError>, cwd: Seq<u8>, ready: Seq<u8>) -> Result<Seq<char>, ShellError> {
    match wrapper {
        Err(e) => Err(e),
        Ok(w) => unix_shell::initialization_script_result(cwd, ready, "bash"@, w, ">"@),
    }
}

/// The Bash initialization script for the working directory `cwd` and the
/// ready file `ready_file`.
pub fn initialization_script(cwd: &[u8], ready_file: &[u8]) -> (script: Result<String, ShellError>)
    ensures
        exists|suffix: Seq<char>|
            namespace_suffix(suffix) && #[trigger] outcome_matches(
                script,
                script_result(marker_rendering(bash_wrapper_template(), suffix), cwd@, ready_file@),
            ),
{
    let wrapper = bash_wrapper();
    let ghost suffix = choose|suffix: Seq<char>|
        namespace_suffix(suffix) && outcome_matches(wrapper, marker_rendering(bash_wrapper_template(), suffix));
    // The script does not depend on the startup directory.
    let context = StartupContext { cwd, startup_directory: cwd, ready_file };
    let r = match wrapper {
        Err(e) => Err(e),
        Ok(w) => unix_shell::initialization_script(&context, "bash", w.as_str(), ">"),
    };
    assert(namespace_suffix(suffix) && outcome_matches(
        r,
        script_result(marker_rendering(bash_wrapper_template(), suffix), cwd@, ready_file@),
    ));
    r
}

/// How to start Bash in `cwd` with the ready file `ready_file`, its
/// initialization script written to `init_path` (the session root joined
/// with the Bash initialization file).
pub fn startup_args(cwd: &[u8], ready_file: &[u8], init_path: &[u8]) -> (plan: Result<StartupPlan, ShellError>)
    ensures
        exists|suffix: Seq<char>|
            namespace_suffix(suffix) && #[trigger] plan_outcome(
                plan,
                unix_shell::bash_startup_result(marker_rendering(bash_wrapper_template(), suffix), cwd@, ready_file@, init_path@),
            ),
{
    // Bash's startup does not depend on the startup directory.
    let context = StartupContext { cwd, startup_directory: init_path, ready_file };
    unix_shell::bash_startup(&context, init_path)
}

pub const INVOCATION_0: &'static str = " ";
pub const INVOCATION_1: &'static str = " ";
pub const INVOCATION_2: &'static str = " ";
pub const INVOCATION_3: &'static str = "\n";

/// The text of an invocation line, from its parts.
pub open spec fn invocation_text(directory: Seq<char>, cwd: Seq<char>, id: Seq<char>) -> Seq<char> {
    POSIX_COMMAND_FUNCTION@ + INVOCATION_0@ + id + INVOCATION_1@ + directory + INVOCATION_2@ + cwd + INVOCATION_3@
}

/// The outcome of building an invocation line: its text, or the first error met.
pub open spec fn invocation_result(directory: Seq<u8>, cwd: Seq<u8>, command_id: Seq<char>) -> Result<Seq<char>, ShellError> {
    match (utf8_text(directory), utf8_text(cwd)) {
        (Some(t_directory), Some(t_cwd)) => Ok(invocation_text(posix_quote(t_directory), posix_quote(t_cwd), posix_quote(command_id))),
        _ => Err(ShellError::NonUtf8Path),
    }
}

/// The invocation line calls the command runner with three words, separated
/// by single spaces and ended by LF, that a POSIX shell reads back as the
/// command id, the command directory's text and the working directory's
/// text, in that order; it is built exactly when both paths are UTF-8.
pub proof fn lemma_invocation_reads_back(directory: Seq<u8>, cwd: Seq<u8>, command_id: Seq<char>)
    ensures
        invocation_result(directory, cwd, command_id) is Ok <==> (utf8_text(directory) is Some && utf8_text(cwd) is Some),
        invocation_result(directory, cwd, command_id) matches Ok(line) ==> exists|id_word: Seq<char>, directory_word: Seq<char>, cwd_word: Seq<char>|
            #![trigger posix_word_unquoted(id_word), posix_word_unquoted(directory_word), posix_word_unquoted(cwd_word)]
            line == POSIX_COMMAND_FUNCTION@ + " "@ + id_word + " "@ + directory_word + " "@ + cwd_word + "\n"@
                && posix_word_unquoted(id_word) == command_id
                && posix_word_unquoted(directory_word) == utf8_text(directory)->0
                && posix_word_unquoted(cwd_word) == utf8_text(cwd)->0,
{
    if let (Some(d), Some(c)) = (utf8_text(directory), utf8_text(cwd)) {
        lemma_posix_quote_round_trip(command_id);
        lemma_posix_quote_round_trip(d);
        lemma_posix_quote_round_trip(c);
        assert(posix_word_unquoted(posix_quote(command_id)) == command_id);
        assert(posix_word_unquoted(posix_quote(d)) == d);
        assert(posix_word_unquoted(posix_quote(c)) == c);
    }
}

/// The line that runs the command `command_id` recorded in `directory` from the working directory `cwd`, ended by LF.
pub fn invocation(command_id: &str, directory: &[u8], cwd: &[u8]) -> (script: Result<String, ShellError>)
    ensures
        outcome_matches(script, invocation_result(directory@, cwd@, command_id@)),
{
    let directory_text = match posix_path(directory) {
        Ok(x) => x,
        Err(e) => {
            let r: Result<String, ShellError> = Err(e);
            assert(outcome_matches(r, invocation_result(directory@, cwd@, command_id@)));
            return r;
        },
    };
    let cwd_text = match posix_path(cwd) {
        Ok(x) => x,
        Err(e) => {
            let r: Result<String, ShellError> = Err(e);
            assert(outcome_matches(r, invocation_result(directory@, cwd@, command_id@)));
            return r;
        },
    };
    let quoted_id = posix_string(command_id);
    let mut text = String::from_str(POSIX_COMMAND_FUNCTION);
    text.append(INVOCATION_0);
    text.append(quoted_id.as_str());
    text.append(INVOCATION_1);
    text.append(directory_text.as_str());
    text.append(INVOCATION_2);
    text.append(cwd_text.as_str());
    text.append(INVOCATION_3);
    let r: Result<String, ShellError> = Ok(text);
    assert(outcome_matches(r, invocation_result(directory@, cwd@, command_id@)));
    r
}

} // verus!
