//! Zsh, as first driven: the initialization script that the configuration
//! file `.zshrc` holds (its paths written with forward slashes), and the line
//! that runs a recorded command (its paths in their native text).
use crate::contract::POSIX_COMMAND_FUNCTION;
use crate::encoding::{
    escape_single_quotes, lemma_escape_single_quotes_concat, lemma_posix_quote_round_trip, lemma_single_quoted_round_trip,
    posix_quote, posix_word_unquoted,
    single_quoted, utf8_text,
};
use crate::error::ShellError;
use crate::shell::drivers::unix_shell::ZSH_INIT_FILE;
use crate::shell::drivers::{plan_outcome, DriverStartup, PlanTexts, StartupFile, StartupPlan};
use crate::shell::generated::posix::{zsh_wrapper, zsh_wrapper_text};
use crate::shell::quote::{native_path, posix_path, posix_string, text_result};
use crate::shell::shims::CURRENT_SHELL_ENV;
use crate::shell::wrappers::variables::outcome_matches;
use crate::chars::string_texts;
use vstd::prelude::*;

verus! {

/// `t` with every backslash turned into a forward slash.
pub open spec fn forward_slashes(t: Seq<char>) -> Seq<char> {
    t.map_values(|c: char| if c == '\\' { '/' } else { c })
}

/// The text of a path in the Zsh initialization script: its native text
/// with forward slashes.
pub fn sh_path(path: &[u8]) -> (text: Result<String, ShellError>)
    ensures
        text_result(
            text,
            match utf8_text(path@) {
                Some(t) => Some(forward_slashes(t)),
                None => None,
            },
        ),
{
    let native = match native_path(path) {
        Ok(t) => t,
        Err(e) => return Err(e),
    };
    let chars = crate::chars::chars_of(native.as_str());
    let mut out: Vec<char> = Vec::new();
    let mut i: usize = 0;
    while i < chars.len()
        invariant
            i <= chars.len(),
            chars@ == native@,
            out@ == forward_slashes(chars@.take(i as int)),
        decreases chars.len() - i,
    {
        let c = chars[i];
        if c == '\\' {
            out.push('/');
        } else {
            out.push(c);
        }
        i = i + 1;
        assert(forward_slashes(chars@.take(i as int)) =~= forward_slashes(chars@.take(i - 1)).push(
            if c == '\\' { '/' } else { c },
        ));
    }
    assert(chars@.take(chars.len() as int) == chars@);
    Ok(crate::chars::string_of(&out))
}

/// `value` in single quotes for Zsh, each `'` written as `'\''`.
pub fn sh_quote(value: &str) -> (quoted: String)
    ensures
        quoted@ == single_quoted(value@),
{
    let chars = crate::chars::chars_of(value);
    let mut out: Vec<char> = vec!['\''];
    let mut i: usize = 0;
    while i < chars.len()
        invariant
            i <= chars.len(),
            out@ == seq!['\''] + escape_single_quotes(chars@.take(i as int)),
        decreases chars.len() - i,
    {
        let c = chars[i];
        let ghost before = out@;
        if c == '\'' {
            out.push('\'');
            out.push('\\');
            out.push('\'');
            out.push('\'');
        } else {
            out.push(c);
        }
        proof {
            assert(chars@.take(i + 1) == chars@.take(i as int) + seq![c]);
            lemma_escape_single_quotes_concat(chars@.take(i as int), seq![c]);
            assert(seq![c].drop_first() =~= Seq::<char>::empty());
            assert(escape_single_quotes(Seq::<char>::empty()) =~= Seq::<char>::empty());
        }
        i = i + 1;
        assert(out@ =~= seq!['\''] + escape_single_quotes(chars@.take(i as int)));
    }
    out.push('\'');
    assert(chars@.take(chars.len() as int) == chars@);
    assert(out@ =~= single_quoted(value@));
    crate::chars::string_of(&out)
}

/// A path quoted for Zsh, written with forward slashes.
fn quoted_sh_path(path: &[u8]) -> (quoted: Result<String, ShellError>)
    ensures
        text_result(
            quoted,
            match utf8_text(path@) {
                Some(t) => Some(single_quoted(forward_slashes(t))),
                None => None,
            },
        ),
{
    match sh_path(path) {
        Ok(t) => Ok(sh_quote(t.as_str())),
        Err(e) => Err(e),
    }
}

pub const INIT_0: &'static str = "export ";
pub const INIT_1: &'static str = "=zsh\n";
pub const INIT_2: &'static str = "\ncd ";
pub const INIT_3: &'static str = "\n: >| ";
pub const INIT_4: &'static str = "\n";

/// The text of the Zsh initialization script, from its parts.
pub open spec fn initialization_script_text(cwd: Seq<char>, ready: Seq<char>, wrapper: Seq<char>) -> Seq<char> {
    INIT_0@ + CURRENT_SHELL_ENV@ + INIT_1@ + wrapper + INIT_2@ + cwd + INIT_3@ + ready + INIT_4@
}

/// The outcome of building the Zsh initialization script: its text, or the first error met.
pub open spec fn initialization_script_result(cwd: Seq<u8>, ready: Seq<u8>) -> Result<Seq<char>, ShellError> {
    match (utf8_text(cwd), utf8_text(ready)) {
        (Some(t_cwd), Some(t_ready)) => Ok(initialization_script_text(single_quoted(forward_slashes(t_cwd)), single_quoted(forward_slashes(t_ready)), zsh_wrapper_text())),
        _ => Err(ShellError::NonUtf8Path),
    }
}

/// The Zsh initialization script records the current shell, defines the
/// wrapper, enters the directory given by a word that Zsh reads back as the
/// working directory's text with forward slashes, and creates the ready file
/// named by a word read back as the ready file's text with forward slashes;
/// it is built exactly when both paths are UTF-8.
pub proof fn lemma_initialization_script_reads_back(cwd: Seq<u8>, ready: Seq<u8>)
    ensures
        initialization_script_result(cwd, ready) is Ok <==> (utf8_text(cwd) is Some && utf8_text(ready) is Some),
        initialization_script_result(cwd, ready) matches Ok(script) ==> exists|cwd_word: Seq<char>, ready_word: Seq<char>|
            #![trigger posix_word_unquoted(cwd_word), posix_word_unquoted(ready_word)]
            script == "export FUNCTERM_CURRENT_SHELL=zsh\n"@ + zsh_wrapper_text() + "\ncd "@ + cwd_word + "\n: >| "@ + ready_word + "\n"@
                && posix_word_unquoted(cwd_word) == forward_slashes(utf8_text(cwd)->0)
                && posix_word_unquoted(ready_word) == forward_slashes(utf8_text(ready)->0),
{
    if let (Some(c), Some(r)) = (utf8_text(cwd), utf8_text(ready)) {
        reveal_strlit("export ");
        reveal_strlit("FUNCTERM_CURRENT_SHELL");
        reveal_strlit("=zsh\n");
        reveal_strlit("export FUNCTERM_CURRENT_SHELL=zsh\n");
        assert("export FUNCTERM_CURRENT_SHELL=zsh\n"@ =~= INIT_0@ + CURRENT_SHELL_ENV@ + INIT_1@);
        lemma_single_quoted_round_trip(forward_slashes(c));
        lemma_single_quoted_round_trip(forward_slashes(r));
        assert(posix_word_unquoted(single_quoted(forward_slashes(c))) == forward_slashes(c));
        assert(posix_word_unquoted(single_quoted(forward_slashes(r))) == forward_slashes(r));
    }
}

/// Zsh is pointed at the session root, in its native text, as its
/// configuration directory, and starts interactive.
pub proof fn lemma_startup_configuration_directory(cwd: Seq<u8>, session_root: Seq<u8>, ready: Seq<u8>)
    ensures
        startup_result(cwd, session_root, ready) matches Ok(plan) ==> plan.1 == seq!["-i"@] && plan.2 == seq![
            ("ZDOTDIR"@, utf8_text(session_root)->0),
        ],
{
}

/// The Zsh initialization script: it records the current shell, defines the wrapper, enters the working directory and creates the ready file, both written with forward slashes.
pub fn initialization_script(cwd: &[u8], ready_file: &[u8]) -> (script: Result<String, ShellError>)
    ensures
        outcome_matches(script, initialization_script_result(cwd@, ready_file@)),
{
    let cwd_text = match quoted_sh_path(cwd) {
        Ok(x) => x,
        Err(e) => {
            let r: Result<String, ShellError> = Err(e);
            assert(outcome_matches(r, initialization_script_result(cwd@, ready_file@)));
            return r;
        },
    };
    let ready_text = match quoted_sh_path(ready_file) {
        Ok(x) => x,
        Err(e) => {
            let r: Result<String, ShellError> = Err(e);
            assert(outcome_matches(r, initialization_script_result(cwd@, ready_file@)));
            return r;
        },
    };
    let wrapper = zsh_wrapper();
    let mut text = String::from_str(INIT_0);
    text.append(CURRENT_SHELL_ENV);
    text.append(INIT_1);
    text.append(wrapper.as_str());
    text.append(INIT_2);
    text.append(cwd_text.as_str());
    text.append(INIT_3);
    text.append(ready_text.as_str());
    text.append(INIT_4);
    let r: Result<String, ShellError> = Ok(text);
    assert(outcome_matches(r, initialization_script_result(cwd@, ready_file@)));
    r
}

pub const INVOCATION_0: &'static str = " ";
pub const INVOCATION_1: &'static str = " ";
pub const INVOCATION_2: &'static str = " ";
pub const INVOCATION_3: &'static str = "\n";

/// The text of an invocation line, from its parts.
pub open spec fn invocation_text(directory: Seq<char>, cwd: Seq<char>, id: Seq<char>) -> Seq<char> {
    POSIX_COMMAND_FUNCTION@ + INVOCATION_0@ + id + INVOCATION_1@ + directory + INVOCATION_2@ + cwd + INVOCATION_3@
}

/// The outcome of building an invocation line: its text, or the first error met.
pub open spec fn invocation_result(directory: Seq<u8>, cwd: Seq<u8>, command_id: Seq<char>) -> Result<Seq<char>, ShellError> {
    match (utf8_text(directory), utf8_text(cwd)) {
        (Some(t_directory), Some(t_cwd)) => Ok(invocation_text(posix_quote(t_directory), posix_quote(t_cwd), posix_quote(command_id))),
        _ => Err(ShellError::NonUtf8Path),
    }
}

/// The invocation line calls the command runner with three words, separated
/// by single spaces and ended by LF, that a POSIX shell reads back as the
/// command id, the command directory's text and the working directory's
/// text, in that order; it is built exactly when both paths are UTF-8.
pub proof fn lemma_invocation_reads_back(directory: Seq<u8>, cwd: Seq<u8>, command_id: Seq<char>)
    ensures
        invocation_result(directory, cwd, command_id) is Ok <==> (utf8_text(directory) is Some && utf8_text(cwd) is Some),
        invocation_result(directory, cwd, command_id) matches Ok(line) ==> exists|id_word: Seq<char>, directory_word: Seq<char>, cwd_word: Seq<char>|
            #![trigger posix_word_unquoted(id_word), posix_word_unquoted(directory_word), posix_word_unquoted(cwd_word)]
            line == POSIX_COMMAND_FUNCTION@ + " "@ + id_word + " "@ + directory_word + " "@ + cwd_word + "\n"@
                && posix_word_unquoted(id_word) == command_id
                && posix_word_unquoted(directory_word) == utf8_text(directory)->0
                && posix_word_unquoted(cwd_word) == utf8_text(cwd)->0,
{
    if let (Some(d), Some(c)) = (utf8_text(directory), utf8_text(cwd)) {
        lemma_posix_quote_round_trip(command_id);
        lemma_posix_quote_round_trip(d);
        lemma_posix_quote_round_trip(c);
        assert(posix_word_unquoted(posix_quote(command_id)) == command_id);
        assert(posix_word_unquoted(posix_quote(d)) == d);
        assert(posix_word_unquoted(posix_quote(c)) == c);
    }
}

/// The line that runs the command `command_id` recorded in `directory` from
/// the working directory `cwd`, each quoted for a POSIX shell over its native
/// text, ended by LF.
pub fn invocation(command_id: &str, directory: &[u8], cwd: &[u8]) -> (script: Result<String, ShellError>)
    ensures
        outcome_matches(script, invocation_result(directory@, cwd@, command_id@)),
{
    let directory_text = match posix_path(directory) {
        Ok(x) => x,
        Err(e) => {
            let r: Result<String, ShellError> = Err(e);
            assert(outcome_matches(r, invocation_result(directory@, cwd@, command_id@)));
            return r;
        },
    };
    let cwd_text = match posix_path(cwd) {
        Ok(x) => x,
        Err(e) => {
            let r: Result<String, ShellError> = Err(e);
            assert(outcome_matches(r, invocation_result(directory@, cwd@, command_id@)));
            return r;
        },
    };
    let quoted_id = posix_string(command_id);
    let mut text = String::from_str(POSIX_COMMAND_FUNCTION);
    text.append(INVOCATION_0);
    text.append(quoted_id.as_str());
    text.append(INVOCATION_1);
    text.append(directory_text.as_str());
    text.append(INVOCATION_2);
    text.append(cwd_text.as_str());
    text.append(INVOCATION_3);
    let r: Result<String, ShellError> = Ok(text);
    assert(outcome_matches(r, invocation_result(directory@, cwd@, command_id@)));
    r
}

/// The plan for starting Zsh: write the initialization script as its
/// configuration file, then start Zsh interactively with the session root,
/// in its native text, as its configuration directory.
pub open spec fn startup_result(cwd: Seq<u8>, session_root: Seq<u8>, ready: Seq<u8>) -> Result<PlanTexts, ShellError> {
    match initialization_script_result(cwd, ready) {
        Err(e) => Err(e),
        Ok(script) => match utf8_text(session_root) {
            None => Err(ShellError::NonUtf8Path),
            Some(root) => Ok((seq![(ZSH_INIT_FILE@, script)], seq!["-i"@], seq![("ZDOTDIR"@, root)])),
        },
    }
}

/// How to start Zsh in `cwd`, with its configuration in `session_root` and
/// the ready file `ready_file`.
pub fn startup(cwd: &[u8], session_root: &[u8], ready_file: &[u8]) -> (plan: Result<StartupPlan, ShellError>)
    ensures
        plan_outcome(plan, startup_result(cwd@, session_root@, ready_file@)),
{
    let script = match initialization_script(cwd, ready_file) {
        Ok(s) => s,
        Err(e) => return Err(e),
    };
    let root = match native_path(session_root) {
        Ok(r) => r,
        Err(e) => return Err(e),
    };
    let ghost texts = (script@, root@);
    let files = vec![StartupFile { name: ZSH_INIT_FILE, contents: script }];
    let args = vec![String::from_str("-i")];
    let env = vec![(String::from_str("ZDOTDIR"), root)];
    let plan = StartupPlan { files, startup: DriverStartup { args, env } };
    assert(crate::shell::drivers::file_texts(plan.files@) =~= seq![(ZSH_INIT_FILE@, texts.0)]);
    assert(crate::shell::drivers::pair_texts(plan.startup.env@) =~= seq![("ZDOTDIR"@, texts.1)]);
    assert(string_texts(plan.startup.args@) =~= seq!["-i"@]);
    Ok(plan)
}

} // verus!
