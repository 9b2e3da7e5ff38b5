//! Bun: the arguments that start its REPL, and how it is started with a
//! bootstrap script.
pub mod bootstrap;

use super::{plan_outcome, DriverStartup, PlanTexts, StartupContext, StartupFile, StartupPlan};
use crate::chars::{ends_with, holds_text, lemma_holds_text_concat, lemma_no_straddle, string_texts, text_equals};
use crate::encoding::{json_quote, lemma_json_quote_shape, utf8_text};
use crate::error::ShellError;
use crate::outside::json_string;
use crate::shell::quote::native_path;
use crate::shell::wrappers::variables::{
    lemma_render_concat, lemma_render_without_markers, marker_rendering, namespace_suffix, outcome_matches, render_markers,
    some_suffix, MARKER_START,
};
use vstd::prelude::*;

verus! {

/// The bootstrap script, in the startup directory.
pub const SCRIPT_FILE: &'static str = "bun_repl.mjs";

/// Bun runs its REPL when its only argument is `repl` or `--interactive`.
pub open spec fn repl_arguments(arguments: Seq<Option<String>>) -> bool {
    &&& arguments.len() == 1
    &&& arguments[0] matches Some(a) && (a@ == "repl"@ || a@ == "--interactive"@)
}

/// Whether Bun started with `arguments` runs its REPL.
pub fn interactive_arguments(arguments: &Vec<Option<String>>) -> (interactive: bool)
    ensures
        interactive == repl_arguments(arguments@),
        interactive == (arguments@.len() == 1 && (arguments@[0] matches Some(a) && (a@ == "repl"@ || a@ == "--interactive"@))),
{
    if arguments.len() != 1 {
        return false;
    }
    match &arguments[0] {
        Some(argument) => text_equals(argument.as_str(), "repl") || text_equals(argument.as_str(), "--interactive"),
        None => false,
    }
}

/// The JSON string literal of a path's text, or the non-UTF-8 path error.
pub open spec fn json_path_result(path: Seq<u8>) -> Result<Seq<char>, ShellError> {
    match utf8_text(path) {
        Some(t) => Ok(json_quote(t)),
        None => Err(ShellError::NonUtf8Path),
    }
}

/// A path's text as a JavaScript string literal, written as JSON.
pub fn json_path(path: &[u8]) -> (literal: Result<String, ShellError>)
    ensures
        outcome_matches(literal, json_path_result(path@)),
{
    let text = match native_path(path) {
        Ok(t) => t,
        Err(e) => return Err(e),
    };
    match json_string(text.as_str()) {
        Ok(literal) => Ok(literal),
        Err(_) => Err(ShellError::JsonEncoding),
    }
}

/// The Bun bootstrap for the working directory `cwd` and the ready file
/// `ready`, its variables rendered with `suffix`.
pub open spec fn bootstrap_result(cwd: Seq<u8>, ready: Seq<u8>, suffix: Seq<char>) -> Result<Seq<char>, ShellError> {
    match (utf8_text(cwd), utf8_text(ready)) {
        (Some(c), Some(r)) => marker_rendering(bootstrap::bootstrap_template(json_quote(c), json_quote(r)), suffix),
        _ => Err(ShellError::NonUtf8Path),
    }
}

/// The Bun bootstrap ends by creating the ready file: whatever the working
/// directory, its last line writes the empty text to the path written as the
/// JSON literal of the ready file's text. (Rendering would change that
/// literal only where it holds a variable marker itself.)
pub proof fn lemma_bootstrap_writes_ready_file(cwd: Seq<u8>, ready: Seq<u8>, suffix: Seq<char>)
    requires
        utf8_text(ready) matches Some(r) ==> !holds_text(json_quote(r), MARKER_START@),
    ensures
        bootstrap_result(cwd, ready, suffix) matches Ok(script) ==> ends_with(
            script,
            json_quote(utf8_text(ready)->0) + ", \"\");\n"@,
        ),
{
    if let (Some(c), Some(r)) = (utf8_text(cwd), utf8_text(ready)) {
        reveal_strlit(", \"\");\n");
        reveal_strlit("@VAR_");
        let close = ", \"\");\n"@;
        let literal = json_quote(r);
        lemma_json_quote_shape(r);
        let head = bootstrap::bootstrap_head(json_quote(c));
        assert(!holds_text(close, MARKER_START@)) by {
            if holds_text(close, MARKER_START@) {
                let i = choose|i: int| 0 <= i && i + 5 <= close.len() && #[trigger] close.subrange(i, i + 5) == MARKER_START@;
                assert(close.subrange(i, i + 5)[0] == close[i]);
            }
        }
        lemma_no_straddle(literal, close, MARKER_START@);
        lemma_holds_text_concat(literal, close, MARKER_START@);
        let tail = literal + close;
        assert forall|i: int| 0 <= i && i + MARKER_START@.len() <= tail.len() implies #[trigger] tail.subrange(
            i,
            i + MARKER_START@.len(),
        ) != MARKER_START@ by {}
        lemma_render_without_markers(tail, MARKER_START@, suffix);
        lemma_no_straddle(head, tail, MARKER_START@);
        lemma_render_concat(head, tail, MARKER_START@, suffix);
        assert(bootstrap::bootstrap_template(json_quote(c), literal) =~= head + tail);
        if let Ok(script) = bootstrap_result(cwd, ready, suffix) {
            let x = render_markers(head, MARKER_START@, suffix)->0;
            assert(script == x + tail);
            assert(script.skip(script.len() - tail.len()) =~= tail);
        }
    }
}

/// The plan for starting Bun: write the bootstrap, then start Bun on the
/// bootstrap file `script_path`.
pub open spec fn startup_result(script: Result<Seq<char>, ShellError>, script_path: Seq<u8>) -> Result<PlanTexts, ShellError> {
    match script {
        Err(e) => Err(e),
        Ok(s) => match utf8_text(script_path) {
            None => Err(ShellError::NonUtf8Path),
            Some(p) => Ok((seq![(SCRIPT_FILE@, s)], seq![p], seq![])),
        },
    }
}

/// How to start Bun for `context`, with its bootstrap at `script_path` (the
/// startup directory joined with `SCRIPT_FILE`).
pub fn startup(context: &StartupContext, script_path: &[u8]) -> (plan: Result<StartupPlan, ShellError>)
    ensures
        exists|suffix: Seq<char>|
            namespace_suffix(suffix) && #[trigger] plan_outcome(
                plan,
                startup_result(bootstrap_result(context.cwd@, context.ready_file@, suffix), script_path@),
            ),
{
    let cwd = match json_path(context.cwd) {
        Ok(c) => c,
        Err(e) => {
            let r: Result<StartupPlan, ShellError> = Err(e);
            let ghost suffix = some_suffix();
            assert(namespace_suffix(suffix) && plan_outcome(r, startup_result(bootstrap_result(context.cwd@, context.ready_file@, suffix), script_path@)));
            return r;
        },
    };
    let ready = match json_path(context.ready_file) {
        Ok(c) => c,
        Err(e) => {
            let r: Result<StartupPlan, ShellError> = Err(e);
            let ghost suffix = some_suffix();
            assert(namespace_suffix(suffix) && plan_outcome(r, startup_result(bootstrap_result(context.cwd@, context.ready_file@, suffix), script_path@)));
            return r;
        },
    };
    let script = bootstrap::script(cwd.as_str(), ready.as_str());
    let ghost suffix = choose|suffix: Seq<char>|
        namespace_suffix(suffix) && outcome_matches(script, marker_rendering(bootstrap::bootstrap_template(cwd@, ready@), suffix));
    let r = match script {
        Err(e) => Err(e),
        Ok(s) => match native_path(script_path) {
            Err(e) => Err(e),
            Ok(path) => {
                let ghost contents = s@;
                let files = vec![StartupFile { name: SCRIPT_FILE, contents: s }];
                let args = vec![path];
                let plan = StartupPlan { files, startup: DriverStartup { args, env: Vec::new() } };
                assert(super::file_texts(plan.files@) =~= seq![(SCRIPT_FILE@, contents)]);
                assert(super::pair_texts(plan.startup.env@) =~= seq![]);
                assert(string_texts(plan.startup.args@) =~= seq![plan.startup.args@[0]@]);
                Ok(plan)
            },
        },
    };
    assert(namespace_suffix(suffix) && plan_outcome(r, startup_result(bootstrap_result(context.cwd@, context.ready_file@, suffix), script_path@)));
    r
}

} // verus!
