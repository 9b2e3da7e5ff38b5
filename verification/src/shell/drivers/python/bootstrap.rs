//! The Python bootstrap: a REPL that enters the working directory, watches the
//! session's dispatch file, runs each dispatched command with its output
//! captured and the protected environment kept, publishes the command's
//! record, and writes the ready file.
use crate::chars::{
    ends_with, holds_text, lemma_holds_text_concat, lemma_holds_text_end, lemma_holds_text_grows, lemma_no_straddle, lemma_replace_all_absent,
    lemma_replace_all_concat, replace_all, replace_text, straddles,
};
use crate::contract::{
    COMMAND_DIRECTORY_ENV, COMMAND_FILE, COMMAND_ID_ENV, COMMAND_INPUT_DIRECTORY,
    COMMAND_OUTPUT_DIRECTORY, COMMAND_WORKING_DIRECTORY_FILE, DISPATCH_FILE, DONE_FILE,
    HELPER_EXECUTABLE_ENV, SESSION_COMMANDS_DIRECTORY, SESSION_STATE_DIRECTORY, STDERR_FILE,
    STDOUT_FILE,
};
use crate::encoding::{json_quote, lemma_json_quote_shape, utf8_text};
use crate::error::ShellError;
use crate::outside::json_string;
use crate::shell::drivers::StartupContext;
use crate::shell::quote::native_path;
use crate::shell::wrappers::variables::{
    lemma_render_concat, lemma_render_without_markers, marker_rendering, namespace_suffix, outcome_matches,
    quoted_protected_environment_names, quoted_protected_environment_names_text, render_in_new_namespace, some_suffix,
    MARKER_START,
};
use vstd::prelude::*;

verus! {

pub const BOOTSTRAP_0: &'static str = r"import ast as @VAR_ast@
	import contextlib as @VAR_contextlib@
	import os as @VAR_os@
	import pathlib as @VAR_pathlib@
	import subprocess as @VAR_subprocess@
	import time as @VAR_time@
	@VAR_os@.chdir(";
pub const BOOTSTRAP_1: &'static str = r#")
	@VAR_os@.environ["FUNCTERM_CURRENT_SHELL"] = "python"

	def @VAR_helper@(*@VAR_arguments@):
	    @VAR_helper_executable@ = @VAR_os@.environ[""#;
pub const BOOTSTRAP_2: &'static str = r#""]
	    @VAR_subprocess@.run([@VAR_helper_executable@, *@VAR_arguments@], check=True)

	def @VAR_prepend_shim@():
	    @VAR_shim@ = @VAR_os@.environ["FUNCTERM_SHIM_DIR"]
	    @VAR_path@ = @VAR_os@.environ.get("PATH", "")
	    @VAR_entries@ = [@VAR_entry@ for @VAR_entry@ in @VAR_path@.split(@VAR_os@.pathsep) if @VAR_entry@ and @VAR_entry@ != @VAR_shim@]
	    @VAR_os@.environ["PATH"] = @VAR_os@.pathsep.join([@VAR_shim@, *@VAR_entries@])

	def @VAR_execute@(@VAR_source@, @VAR_namespace@):
	    @VAR_tree@ = @VAR_ast@.parse(@VAR_source@, "<functerm>", "exec")
	    exec(compile(@VAR_ast@.Interactive(@VAR_tree@.body), "<functerm>", "single"), @VAR_namespace@, @VAR_namespace@)

	def _functerm_dispatch():
	    @VAR_root@ = @VAR_pathlib@.Path(@VAR_os@.environ["FUNCTERM_SESSION_ROOT"])
	    @VAR_dispatch@ = @VAR_root@ / ""#;
pub const BOOTSTRAP_3: &'static str = r#"" / ""#;
pub const BOOTSTRAP_4: &'static str = r#""
	    @VAR_command_id@ = @VAR_dispatch@.read_text(encoding="utf-8")
	    @VAR_dispatch@.unlink()
	    @VAR_directory@ = @VAR_root@ / ""#;
pub const BOOTSTRAP_5: &'static str = r#"" / @VAR_command_id@
	    @VAR_input_directory@ = @VAR_directory@ / ""#;
pub const BOOTSTRAP_6: &'static str = r#""
	    @VAR_output_directory@ = @VAR_directory@ / ""#;
pub const BOOTSTRAP_7: &'static str = r#""
	    @VAR_source@ = (@VAR_input_directory@ / ""#;
pub const BOOTSTRAP_8: &'static str = r#"").read_text(encoding="utf-8")
	    @VAR_working_directory@ = (@VAR_input_directory@ / ""#;
pub const BOOTSTRAP_9: &'static str = r#"").read_text(encoding="utf-8")
	    "#;
/// The declaration of the file that receives a command's standard output, up to the file's name.
pub const STDOUT_DECLARATION: &'static str = r#"@VAR_stdout_file@ = @VAR_output_directory@ / ""#;
pub const BOOTSTRAP_10: &'static str = r#""
	    @VAR_stderr_file@ = @VAR_output_directory@ / ""#;
pub const BOOTSTRAP_11: &'static str = r#""
	    @VAR_done_file@ = @VAR_directory@ / "state" / ""#;
pub const BOOTSTRAP_12: &'static str = r#""
	    @VAR_previous_id@ = @VAR_os@.environ.get(""#;
pub const BOOTSTRAP_13: &'static str = r#"")
	    @VAR_previous_directory@ = @VAR_os@.environ.get(""#;
pub const BOOTSTRAP_14: &'static str = r#"")
	    @VAR_protected_environment@ = dict(@VAR_os@.environ)
	    @VAR_os@.environ[""#;
pub const BOOTSTRAP_15: &'static str = r#""] = @VAR_command_id@
	    @VAR_os@.environ[""#;
pub const BOOTSTRAP_16: &'static str = r#""] = str(@VAR_directory@)
	    @VAR_exit_code@ = 0
	    @VAR_started@ = @VAR_time@.perf_counter()
	    try:
	        @VAR_helper@("internal-ensure-shims", "--directory", @VAR_os@.environ["FUNCTERM_SHIM_DIR"])
	        @VAR_prepend_shim@()
	        @VAR_os@.chdir(@VAR_working_directory@)
	        @VAR_helper@("internal-write-start", "--command-id", @VAR_command_id@, "--directory", str(@VAR_directory@))
	        with @VAR_stdout_file@.open("w", encoding="utf-8") as @VAR_stdout@:
	            with @VAR_stderr_file@.open("w", encoding="utf-8") as @VAR_stderr@:
	                with @VAR_contextlib@.redirect_stdout(@VAR_stdout@), @VAR_contextlib@.redirect_stderr(@VAR_stderr@):
	                    try:
	                        @VAR_execute@(@VAR_source@, globals())
	                    except SystemExit as @VAR_system_exit@:
	                        @VAR_system_exit_code@ = @VAR_system_exit@.code
	                        if @VAR_system_exit_code@ is None:
	                            @VAR_exit_code@ = 0
	                        elif isinstance(@VAR_system_exit_code@, int):
	                            @VAR_exit_code@ = @VAR_system_exit_code@
	                        else:
	                            @VAR_exit_code@ = 1
	                        raise
	                    except BaseException:
	                        @VAR_exit_code@ = 1
	                        import traceback as @VAR_traceback@
	                        @VAR_traceback@.print_exc()
	        print(@VAR_stdout_file@.read_text(encoding="utf-8"), end="")
	        print(@VAR_stderr_file@.read_text(encoding="utf-8"), end="", file=__import__("sys").stderr)
	    finally:
	        @VAR_environment_was_cleared@ = not @VAR_os@.environ
	        for @VAR_name@, @VAR_value@ in @VAR_protected_environment@.items():
	            if @VAR_environment_was_cleared@ or @VAR_name@.upper() in {@PYTHON_PROTECTED_ENVIRONMENT@}:
	                @VAR_os@.environ[@VAR_name@] = @VAR_value@
	        if not @VAR_done_file@.exists():
	            @VAR_elapsed@ = max(1, round((@VAR_time@.perf_counter() - @VAR_started@) * 1000))
	            @VAR_helper@(
	                "internal-write-done",
	                "--command-id", @VAR_command_id@,
	                "--exit-code", str(@VAR_exit_code@),
	                "--time-consumption", f"{@VAR_elapsed@}ms",
	                "--cwd", @VAR_os@.getcwd(),
	                "--directory", str(@VAR_directory@),
	            )
	        if @VAR_previous_id@ is None:
	            @VAR_os@.environ.pop(""#;
pub const BOOTSTRAP_17: &'static str = r#"", None)
	        else:
	            @VAR_os@.environ[""#;
pub const BOOTSTRAP_18: &'static str = r#""] = @VAR_previous_id@
	        if @VAR_previous_directory@ is None:
	            @VAR_os@.environ.pop(""#;
pub const BOOTSTRAP_19: &'static str = r#"", None)
	        else:
	            @VAR_os@.environ[""#;
pub const BOOTSTRAP_20: &'static str = r#""] = @VAR_previous_directory@
	@VAR_pathlib@.Path("#;
pub const BOOTSTRAP_21: &'static str = ").touch()\n\t";

/// The Python bootstrap as first written out, for the JSON literals `cwd`
/// and `ready`.
pub open spec fn bootstrap_text(cwd: Seq<char>, ready: Seq<char>) -> Seq<char> {
    bootstrap_head(cwd) + ready + BOOTSTRAP_21@
}

/// The Python bootstrap as first written out, up to the JSON literal of the
/// ready file.
pub open spec fn bootstrap_head(cwd: Seq<char>) -> Seq<char> {
    BOOTSTRAP_0@ + cwd + BOOTSTRAP_1@ + HELPER_EXECUTABLE_ENV@ + BOOTSTRAP_2@ + SESSION_STATE_DIRECTORY@ + BOOTSTRAP_3@ + DISPATCH_FILE@ + BOOTSTRAP_4@ + SESSION_COMMANDS_DIRECTORY@ + BOOTSTRAP_5@ + COMMAND_INPUT_DIRECTORY@ + BOOTSTRAP_6@ + COMMAND_OUTPUT_DIRECTORY@ + BOOTSTRAP_7@ + COMMAND_FILE@ + BOOTSTRAP_8@ + COMMAND_WORKING_DIRECTORY_FILE@ + BOOTSTRAP_9@ + STDOUT_DECLARATION@ + STDOUT_FILE@ + BOOTSTRAP_10@ + STDERR_FILE@ + BOOTSTRAP_11@ + DONE_FILE@ + BOOTSTRAP_12@ + COMMAND_ID_ENV@ + BOOTSTRAP_13@ + COMMAND_DIRECTORY_ENV@ + BOOTSTRAP_14@ + COMMAND_ID_ENV@ + BOOTSTRAP_15@ + COMMAND_DIRECTORY_ENV@ + BOOTSTRAP_16@ + COMMAND_ID_ENV@ + BOOTSTRAP_17@ + COMMAND_ID_ENV@ + BOOTSTRAP_18@ + COMMAND_DIRECTORY_ENV@ + BOOTSTRAP_19@ + COMMAND_DIRECTORY_ENV@ + BOOTSTRAP_20@
}

/// The Python bootstrap as first written out, for the JSON literals `cwd`
/// and `ready`.
fn bootstrap(cwd: &str, ready: &str) -> (text: String)
    ensures
        text@ == bootstrap_text(cwd@, ready@),
{
    let mut text = String::from_str(BOOTSTRAP_0);
    text.append(cwd);
    text.append(BOOTSTRAP_1);
    text.append(HELPER_EXECUTABLE_ENV);
    text.append(BOOTSTRAP_2);
    text.append(SESSION_STATE_DIRECTORY);
    text.append(BOOTSTRAP_3);
    text.append(DISPATCH_FILE);
    text.append(BOOTSTRAP_4);
    text.append(SESSION_COMMANDS_DIRECTORY);
    text.append(BOOTSTRAP_5);
    text.append(COMMAND_INPUT_DIRECTORY);
    text.append(BOOTSTRAP_6);
    text.append(COMMAND_OUTPUT_DIRECTORY);
    text.append(BOOTSTRAP_7);
    text.append(COMMAND_FILE);
    text.append(BOOTSTRAP_8);
    text.append(COMMAND_WORKING_DIRECTORY_FILE);
    text.append(BOOTSTRAP_9);
    text.append(STDOUT_DECLARATION);
    text.append(STDOUT_FILE);
    text.append(BOOTSTRAP_10);
    text.append(STDERR_FILE);
    text.append(BOOTSTRAP_11);
    text.append(DONE_FILE);
    text.append(BOOTSTRAP_12);
    text.append(COMMAND_ID_ENV);
    text.append(BOOTSTRAP_13);
    text.append(COMMAND_DIRECTORY_ENV);
    text.append(BOOTSTRAP_14);
    text.append(COMMAND_ID_ENV);
    text.append(BOOTSTRAP_15);
    text.append(COMMAND_DIRECTORY_ENV);
    text.append(BOOTSTRAP_16);
    text.append(COMMAND_ID_ENV);
    text.append(BOOTSTRAP_17);
    text.append(COMMAND_ID_ENV);
    text.append(BOOTSTRAP_18);
    text.append(COMMAND_DIRECTORY_ENV);
    text.append(BOOTSTRAP_19);
    text.append(COMMAND_DIRECTORY_ENV);
    text.append(BOOTSTRAP_20);
    text.append(ready);
    text.append(BOOTSTRAP_21);
    text
}

/// The Python bootstrap before its variable markers are rendered: its text
/// with the tab that opens each line removed and the protected environment
/// names filled in.
pub open spec fn bootstrap_template(cwd: Seq<char>, ready: Seq<char>) -> Seq<char> {
    replace_all(
        replace_all(bootstrap_text(cwd, ready), "\n\t"@, "\n"@),
        "@PYTHON_PROTECTED_ENVIRONMENT@"@,
        quoted_protected_environment_names_text(),
    )
}

/// The Python bootstrap for `context`, its variables rendered with `suffix`.
pub open spec fn script_result(cwd: Seq<u8>, ready: Seq<u8>, suffix: Seq<char>) -> Result<Seq<char>, ShellError> {
    match (utf8_text(cwd), utf8_text(ready)) {
        (Some(c), Some(r)) => marker_rendering(bootstrap_template(json_quote(c), json_quote(r)), suffix),
        _ => Err(ShellError::NonUtf8Path),
    }
}

/// In the Python bootstrap, the file that receives a command's standard
/// output is `STDOUT_FILE` in the command's output directory and the one that
/// receives its standard error is `STDERR_FILE` there.
pub proof fn lemma_bootstrap_output_files(cwd: Seq<char>, ready: Seq<char>)
    ensures
        holds_text(bootstrap_text(cwd, ready), "@VAR_stdout_file@ = @VAR_output_directory@ / \""@ + STDOUT_FILE@ + "\"\n\t    @VAR_stderr_file@ = @VAR_output_directory@ / \""@ + STDERR_FILE@),
{
    lemma_holds_text_grows();
    assert forall|x: Seq<char>| #[trigger] holds_text(((((x + STDOUT_DECLARATION@) + STDOUT_FILE@) + BOOTSTRAP_10@) + STDERR_FILE@), "@VAR_stdout_file@ = @VAR_output_directory@ / \""@ + STDOUT_FILE@ + "\"\n\t    @VAR_stderr_file@ = @VAR_output_directory@ / \""@ + STDERR_FILE@) by {
        assert(((((x + STDOUT_DECLARATION@) + STDOUT_FILE@) + BOOTSTRAP_10@) + STDERR_FILE@) =~= x + ("@VAR_stdout_file@ = @VAR_output_directory@ / \""@ + STDOUT_FILE@ + "\"\n\t    @VAR_stderr_file@ = @VAR_output_directory@ / \""@ + STDERR_FILE@));
        lemma_holds_text_end(x, "@VAR_stdout_file@ = @VAR_output_directory@ / \""@ + STDOUT_FILE@ + "\"\n\t    @VAR_stderr_file@ = @VAR_output_directory@ / \""@ + STDERR_FILE@);
    }
    assert(holds_text(bootstrap_text(cwd, ready), "@VAR_stdout_file@ = @VAR_output_directory@ / \""@ + STDOUT_FILE@ + "\"\n\t    @VAR_stderr_file@ = @VAR_output_directory@ / \""@ + STDERR_FILE@));
}

/// The last line of the Python bootstrap, the touch of the JSON literal
/// `literal`, survives removing the tabs, filling in the protected names and
/// rendering the markers, whatever comes before it.
proof fn lemma_touch_line_survives(head: Seq<char>, literal: Seq<char>, suffix: Seq<char>)
    requires
        literal.len() > 0,
        literal[0] == '"',
        forall|i: int| 0 <= i < literal.len() ==> #[trigger] literal[i] != '\n',
        !holds_text(literal, MARKER_START@),
        !holds_text(literal, "@PYTHON_PROTECTED_ENVIRONMENT@"@),
    ensures
        marker_rendering(
            replace_all(
                replace_all(head + literal + BOOTSTRAP_21@, "\n\t"@, "\n"@),
                "@PYTHON_PROTECTED_ENVIRONMENT@"@,
                quoted_protected_environment_names_text(),
            ),
            suffix,
        ) matches Ok(script) ==> ends_with(script, literal + ").touch()\n"@),
{
    let line_break = "\n\t"@;
    let placeholder = "@PYTHON_PROTECTED_ENVIRONMENT@"@;
    let names = quoted_protected_environment_names_text();
    reveal_strlit("\n\t");
    reveal_strlit("\n");
    reveal_strlit(").touch()");
    reveal_strlit(").touch()\n");
    reveal_strlit(").touch()\n\t");
    reveal_strlit("@PYTHON_PROTECTED_ENVIRONMENT@");
    reveal_strlit("@VAR_");
    let touch = ").touch()"@;
    let close = ").touch()\n"@;
    assert(BOOTSTRAP_21@ =~= touch + line_break);
    assert(close =~= touch + "\n"@);
    // Removing the tab that opens each line.
    assert(!holds_text(literal, line_break)) by {
        if holds_text(literal, line_break) {
            let i = choose|i: int| 0 <= i && i + 2 <= literal.len() && #[trigger] literal.subrange(i, i + 2) == line_break;
            assert(literal.subrange(i, i + 2)[0] == literal[i]);
        }
    }
    lemma_replace_all_absent(literal, line_break, "\n"@);
    assert(!holds_text(touch, line_break)) by {
        if holds_text(touch, line_break) {
            let i = choose|i: int| 0 <= i && i + 2 <= touch.len() && #[trigger] touch.subrange(i, i + 2) == line_break;
            assert(touch.subrange(i, i + 2)[0] == touch[i]);
        }
    }
    lemma_replace_all_absent(touch, line_break, "\n"@);
    assert(!straddles(touch, line_break, line_break)) by {
        if straddles(touch, line_break, line_break) {
            let i = choose|i: int|
                0 <= i < touch.len() && touch.len() < i + 2 <= touch.len() + 2 && #[trigger] (touch + line_break).subrange(i, i + 2)
                    == line_break;
            assert((touch + line_break).subrange(i, i + 2)[0] == touch[8]);
        }
    }
    lemma_replace_all_concat(touch, line_break, line_break, "\n"@);
    assert(line_break.take(2) =~= line_break);
    assert(line_break.skip(2) =~= Seq::<char>::empty());
    assert(replace_all(Seq::<char>::empty(), line_break, "\n"@) == Seq::<char>::empty());
    assert(replace_all(line_break, line_break, "\n"@) == "\n"@ + replace_all(line_break.skip(2), line_break, "\n"@));
    assert(replace_all(line_break, line_break, "\n"@) =~= "\n"@);
    lemma_no_straddle(literal, BOOTSTRAP_21@, line_break);
    lemma_replace_all_concat(literal, BOOTSTRAP_21@, line_break, "\n"@);
    lemma_no_straddle(head, literal + BOOTSTRAP_21@, line_break);
    lemma_replace_all_concat(head, literal + BOOTSTRAP_21@, line_break, "\n"@);
    assert(head + literal + BOOTSTRAP_21@ =~= head + (literal + BOOTSTRAP_21@));
    let untabbed_head = replace_all(head, line_break, "\n"@);
    assert(replace_all(head + literal + BOOTSTRAP_21@, line_break, "\n"@) =~= untabbed_head + (literal + close));
    // Filling in the protected names.
    assert(!holds_text(close, placeholder)) by {
        if holds_text(close, placeholder) {
            let i = choose|i: int| 0 <= i && i + 30 <= close.len() && #[trigger] close.subrange(i, i + 30) == placeholder;
        }
    }
    lemma_replace_all_absent(close, placeholder, names);
    lemma_replace_all_absent(literal, placeholder, names);
    lemma_no_straddle(literal, close, placeholder);
    lemma_replace_all_concat(literal, close, placeholder, names);
    lemma_no_straddle(untabbed_head, literal + close, placeholder);
    lemma_replace_all_concat(untabbed_head, literal + close, placeholder, names);
    let filled_head = replace_all(untabbed_head, placeholder, names);
    // Rendering the variable markers.
    assert(!holds_text(close, MARKER_START@)) by {
        if holds_text(close, MARKER_START@) {
            let i = choose|i: int| 0 <= i && i + 5 <= close.len() && #[trigger] close.subrange(i, i + 5) == MARKER_START@;
            assert(close.subrange(i, i + 5)[0] == close[i]);
        }
    }
    lemma_no_straddle(literal, close, MARKER_START@);
    lemma_holds_text_concat(literal, close, MARKER_START@);
    let tail = literal + close;
    assert forall|i: int| 0 <= i && i + MARKER_START@.len() <= tail.len() implies #[trigger] tail.subrange(
        i,
        i + MARKER_START@.len(),
    ) != MARKER_START@ by {}
    lemma_render_without_markers(tail, MARKER_START@, suffix);
    lemma_no_straddle(filled_head, tail, MARKER_START@);
    lemma_render_concat(filled_head, tail, MARKER_START@, suffix);
    let template = replace_all(
        replace_all(head + literal + BOOTSTRAP_21@, line_break, "\n"@),
        placeholder,
        names,
    );
    assert(template =~= filled_head + tail);
    if let Ok(script) = marker_rendering(template, suffix) {
        let x = crate::shell::wrappers::variables::render_markers(filled_head, MARKER_START@, suffix)->0;
        assert(script == x + tail);
        assert(script.skip(script.len() - tail.len()) =~= tail);
    }
}

/// The Python bootstrap ends by creating the ready file: whatever the working
/// directory, its last line touches the path written as the JSON literal of
/// the ready file's text. (Rendering would change that literal only where it
/// holds a variable marker or the protected-names placeholder itself.)
pub proof fn lemma_bootstrap_touches_ready_file(cwd: Seq<u8>, ready: Seq<u8>, suffix: Seq<char>)
    requires
        utf8_text(ready) matches Some(r) ==> !holds_text(json_quote(r), MARKER_START@) && !holds_text(
            json_quote(r),
            "@PYTHON_PROTECTED_ENVIRONMENT@"@,
        ),
    ensures
        script_result(cwd, ready, suffix) matches Ok(script) ==> ends_with(
            script,
            json_quote(utf8_text(ready)->0) + ").touch()\n"@,
        ),
{
    if let (Some(c), Some(r)) = (utf8_text(cwd), utf8_text(ready)) {
        lemma_json_quote_shape(r);
        lemma_touch_line_survives(bootstrap_head(json_quote(c)), json_quote(r), suffix);
    }
}

/// The Python bootstrap for `context`, with its variables in a fresh
/// namespace.
pub fn script(context: &StartupContext) -> (script: Result<String, ShellError>)
    ensures
        exists|suffix: Seq<char>|
            namespace_suffix(suffix) && #[trigger] outcome_matches(script, script_result(context.cwd@, context.ready_file@, suffix)),
{
    let cwd = match python_string(context.cwd) {
        Ok(c) => c,
        Err(e) => {
            let r: Result<String, ShellError> = Err(e);
            assert(namespace_suffix(some_suffix()) && outcome_matches(r, script_result(context.cwd@, context.ready_file@, some_suffix())));
            return r;
        },
    };
    let ready = match python_string(context.ready_file) {
        Ok(c) => c,
        Err(e) => {
            let r: Result<String, ShellError> = Err(e);
            assert(namespace_suffix(some_suffix()) && outcome_matches(r, script_result(context.cwd@, context.ready_file@, some_suffix())));
            return r;
        },
    };
    proof {
        reveal_strlit("\n\t");
        reveal_strlit("\n");
        reveal_strlit("@PYTHON_PROTECTED_ENVIRONMENT@");
    }
    let text = bootstrap(cwd.as_str(), ready.as_str());
    let untabbed = replace_text(text.as_str(), "\n\t", "\n");
    let names = quoted_protected_environment_names();
    let protected = replace_text(untabbed.as_str(), "@PYTHON_PROTECTED_ENVIRONMENT@", names.as_str());
    let r = render_in_new_namespace(protected.as_str());
    let ghost suffix = choose|suffix: Seq<char>|
        namespace_suffix(suffix) && outcome_matches(r, marker_rendering(protected@, suffix));
    assert(protected@ == bootstrap_template(cwd@, ready@));
    assert(namespace_suffix(suffix) && outcome_matches(r, script_result(context.cwd@, context.ready_file@, suffix)));
    r
}

/// A path's text as a Python string literal, written as JSON.
pub fn python_string(path: &[u8]) -> (literal: Result<String, ShellError>)
    ensures
        outcome_matches(
            literal,
            match utf8_text(path@) {
                Some(t) => Ok(json_quote(t)),
                None => Err(ShellError::NonUtf8Path),
            },
        ),
{
    let text = match native_path(path) {
        Ok(t) => t,
        Err(e) => return Err(e),
    };
    match json_string(text.as_str()) {
        Ok(literal) => Ok(literal),
        Err(_) => Err(ShellError::JsonEncoding),
    }
}

} // verus!
