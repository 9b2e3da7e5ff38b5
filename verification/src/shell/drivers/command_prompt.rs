//! The Command Prompt: the arguments that keep it interactive, its
//! initialization script, and how it is started.
use super::{each_lowered_in, lemma_lowered_among_three, all_among, all_texts, lowered_among, lowered_texts, plan_outcome, DriverStartup, PlanTexts, StartupContext, StartupFile, StartupPlan};
use crate::chars::{static_texts, string_texts};
use crate::encoding::utf8_text;
use crate::error::ShellError;
use crate::shell::quote::{cmd_path, cmd_quote, native_path};
use crate::shell::shims::CURRENT_SHELL_ENV;
use crate::shell::wrappers::batch;
use crate::shell::wrappers::template::{cmd_dispatcher, cmd_dispatcher_template};
use crate::shell::wrappers::variables::{marker_rendering, namespace_suffix, outcome_matches};
use vstd::prelude::*;

verus! {

/// The batch command runner, in the startup directory.
pub const RUNNER_FILE: &'static str = "cmd_run.bat";

/// The batch dispatcher `f`, in the startup directory.
pub const DISPATCHER_FILE: &'static str = "f.cmd";

/// The Command Prompt initialization script, in the startup directory.
pub const INIT_FILE: &'static str = "cmd_init.bat";

/// The switches that keep the Command Prompt interactive, in lower case.
pub open spec fn interactive_switches() -> Seq<Seq<char>> {
    seq!["/d"@, "/q"@, "/k"@]
}

/// Whether the Command Prompt started with `arguments` stays interactive:
/// each argument is, in lower case, `/d`, `/q` or `/k`.
pub fn interactive_arguments(arguments: &Vec<Option<String>>) -> (interactive: bool)
    ensures
        interactive == (all_texts(arguments@) && all_among(lowered_texts(arguments@), interactive_switches())),
        interactive == each_lowered_in(arguments@, "/d"@, "/q"@, "/k"@),
{
    proof {
        lemma_lowered_among_three(arguments@, "/d"@, "/q"@, "/k"@);
    }
    let allowed: Vec<&'static str> = vec!["/d", "/q", "/k"];
    assert(static_texts(allowed@) =~= interactive_switches());
    lowered_among(arguments, &allowed)
}

/// The plan for starting the Command Prompt: write the command runner, the
/// dispatcher and the initialization script, then start it without AutoRun
/// commands or echo, running the initialization script found at `init_path`.
pub open spec fn startup_result(
    runner: Result<Seq<char>, ShellError>,
    dispatcher: Result<Seq<char>, ShellError>,
    cwd: Seq<u8>,
    ready: Seq<u8>,
    init_path: Seq<u8>,
) -> Result<PlanTexts, ShellError> {
    match runner {
        Err(e) => Err(e),
        Ok(run) => match dispatcher {
            Err(e) => Err(e),
            Ok(d) => match initialization_script_result(cwd, ready) {
                Err(e) => Err(e),
                Ok(init) => match utf8_text(init_path) {
                    None => Err(ShellError::NonUtf8Path),
                    Some(p) => Ok(
                        (
                            seq![(RUNNER_FILE@, run), (DISPATCHER_FILE@, d), (INIT_FILE@, init)],
                            seq!["/D"@, "/Q"@, "/K"@, "call "@ + p],
                            seq![],
                        ),
                    ),
                },
            },
        },
    }
}

/// How to start the Command Prompt for `context`, with the initialization
/// script at `init_path` (the startup directory joined with `INIT_FILE`).
pub fn startup(context: &StartupContext, init_path: &[u8]) -> (plan: Result<StartupPlan, ShellError>)
    ensures
        exists|runner_suffix: Seq<char>, dispatcher_suffix: Seq<char>|
            namespace_suffix(runner_suffix) && namespace_suffix(dispatcher_suffix) && #[trigger] plan_outcome(
                plan,
                startup_result(
                    marker_rendering(batch::wrapper_template(), runner_suffix),
                    marker_rendering(cmd_dispatcher_template(), dispatcher_suffix),
                    context.cwd@,
                    context.ready_file@,
                    init_path@,
                ),
            ),
{
    let runner = batch::wrapper();
    let ghost s1 = choose|suffix: Seq<char>|
        namespace_suffix(suffix) && outcome_matches(runner, marker_rendering(batch::wrapper_template(), suffix));
    let dispatcher = cmd_dispatcher();
    let ghost s2 = choose|suffix: Seq<char>|
        namespace_suffix(suffix) && outcome_matches(dispatcher, marker_rendering(cmd_dispatcher_template(), suffix));
    let ghost expected = startup_result(
        marker_rendering(batch::wrapper_template(), s1),
        marker_rendering(cmd_dispatcher_template(), s2),
        context.cwd@,
        context.ready_file@,
        init_path@,
    );
    let r = match runner {
        Err(e) => Err(e),
        Ok(run) => match dispatcher {
            Err(e) => Err(e),
            Ok(d) => files_plan(context, run, d, init_path),
        },
    };
    assert(namespace_suffix(s1) && namespace_suffix(s2) && plan_outcome(r, expected));
    r
}

fn files_plan(context: &StartupContext, runner: String, dispatcher: String, init_path: &[u8]) -> (plan: Result<StartupPlan, ShellError>)
    ensures
        plan_outcome(plan, startup_result(Ok(runner@), Ok(dispatcher@), context.cwd@, context.ready_file@, init_path@)),
{
    let init = match initialization_script(context) {
        Ok(s) => s,
        Err(e) => return Err(e),
    };
    let path = match native_path(init_path) {
        Ok(p) => p,
        Err(e) => return Err(e),
    };
    let mut call = String::from_str("call ");
    call.append(path.as_str());
    let args = vec![String::from_str("/D"), String::from_str("/Q"), String::from_str("/K"), call];
    let ghost texts = (runner@, dispatcher@, init@);
    let files = vec![
        StartupFile { name: RUNNER_FILE, contents: runner },
        StartupFile { name: DISPATCHER_FILE, contents: dispatcher },
        StartupFile { name: INIT_FILE, contents: init },
    ];
    let plan = StartupPlan { files, startup: DriverStartup { args, env: Vec::new() } };
    assert(super::file_texts(plan.files@) =~= seq![(RUNNER_FILE@, texts.0), (DISPATCHER_FILE@, texts.1), (INIT_FILE@, texts.2)]);
    assert(super::pair_texts(plan.startup.env@) =~= seq![]);
    assert(string_texts(plan.startup.args@) =~= seq!["/D"@, "/Q"@, "/K"@, plan.startup.args@[3]@]);
    Ok(plan)
}

pub const CMD_0: &'static str = "@echo off\r\nset ";
pub const CMD_1: &'static str = "=cmd\r\nset \"PATH=%FUNCTERM_SESSION_ROOT%\\startup;%PATH%\"\r\ndoskey /listsize=0 >nul 2>nul\r\ncd /d ";
pub const CMD_2: &'static str = "\r\ntype nul > ";
pub const CMD_3: &'static str = "\r\n";

/// The text of the Command Prompt initialization script, from its parts.
pub open spec fn initialization_script_text(cwd: Seq<char>, ready: Seq<char>) -> Seq<char> {
    CMD_0@ + CURRENT_SHELL_ENV@ + CMD_1@ + cwd + CMD_2@ + ready + CMD_3@
}

/// The outcome of building the Command Prompt initialization script: its text, or the first error met.
pub open spec fn initialization_script_result(cwd: Seq<u8>, ready: Seq<u8>) -> Result<Seq<char>, ShellError> {
    match (utf8_text(cwd), utf8_text(ready)) {
        (Some(t_cwd), Some(t_ready)) => Ok(initialization_script_text(cmd_quote(t_cwd), cmd_quote(t_ready))),
        _ => Err(ShellError::NonUtf8Path),
    }
}

/// The Command Prompt initialization script records the current shell, puts
/// the startup directory first on the path, turns off command history,
/// enters the working directory and creates the ready file, each path
/// written in double quotes around its text.
pub proof fn lemma_initialization_script_paths(cwd: Seq<u8>, ready: Seq<u8>)
    ensures
        initialization_script_result(cwd, ready) is Ok <==> (utf8_text(cwd) is Some && utf8_text(ready) is Some),
        initialization_script_result(cwd, ready) matches Ok(script) ==> exists|cwd_word: Seq<char>, ready_word: Seq<char>|
            #![trigger cwd_word.subrange(1, cwd_word.len() - 1), ready_word.subrange(1, ready_word.len() - 1)]
            script == "@echo off\r\nset FUNCTERM_CURRENT_SHELL=cmd\r\nset \"PATH=%FUNCTERM_SESSION_ROOT%\\startup;%PATH%\"\r\ndoskey /listsize=0 >nul 2>nul\r\ncd /d "@
                + cwd_word + "\r\ntype nul > "@ + ready_word + "\r\n"@
                && cwd_word.len() >= 2 && cwd_word[0] == '"' && cwd_word.last() == '"'
                && ready_word.len() >= 2 && ready_word[0] == '"' && ready_word.last() == '"'
                && cwd_word.subrange(1, cwd_word.len() - 1) == utf8_text(cwd)->0
                && ready_word.subrange(1, ready_word.len() - 1) == utf8_text(ready)->0,
{
    if let (Some(c), Some(r)) = (utf8_text(cwd), utf8_text(ready)) {
        reveal_strlit("@echo off\r\nset ");
        reveal_strlit("FUNCTERM_CURRENT_SHELL");
        reveal_strlit("=cmd\r\nset \"PATH=%FUNCTERM_SESSION_ROOT%\\startup;%PATH%\"\r\ndoskey /listsize=0 >nul 2>nul\r\ncd /d ");
        reveal_strlit("@echo off\r\nset FUNCTERM_CURRENT_SHELL=cmd\r\nset \"PATH=%FUNCTERM_SESSION_ROOT%\\startup;%PATH%\"\r\ndoskey /listsize=0 >nul 2>nul\r\ncd /d ");
        assert("@echo off\r\nset FUNCTERM_CURRENT_SHELL=cmd\r\nset \"PATH=%FUNCTERM_SESSION_ROOT%\\startup;%PATH%\"\r\ndoskey /listsize=0 >nul 2>nul\r\ncd /d "@
            =~= CMD_0@ + CURRENT_SHELL_ENV@ + CMD_1@);
        assert(cmd_quote(c).subrange(1, cmd_quote(c).len() - 1) =~= c);
        assert(cmd_quote(r).subrange(1, cmd_quote(r).len() - 1) =~= r);
    }
}

/// The Command Prompt initialization script: it records the current shell, puts the startup directory first on the path, turns off command history, enters the working directory and creates the ready file.
pub fn initialization_script(context: &StartupContext) -> (script: Result<String, ShellError>)
    ensures
        outcome_matches(script, initialization_script_result(context.cwd@, context.ready_file@)),
{
    let cwd_text = match cmd_path(context.cwd) {
        Ok(x) => x,
        Err(e) => {
            let r: Result<String, ShellError> = Err(e);
            assert(outcome_matches(r, initialization_script_result(context.cwd@, context.ready_file@)));
            return r;
        },
    };
    let ready_text = match cmd_path(context.ready_file) {
        Ok(x) => x,
        Err(e) => {
            let r: Result<String, ShellError> = Err(e);
            assert(outcome_matches(r, initialization_script_result(context.cwd@, context.ready_file@)));
            return r;
        },
    };
    let mut text = String::from_str(CMD_0);
    text.append(CURRENT_SHELL_ENV);
    text.append(CMD_1);
    text.append(cwd_text.as_str());
    text.append(CMD_2);
    text.append(ready_text.as_str());
    text.append(CMD_3);
    let r: Result<String, ShellError> = Ok(text);
    assert(outcome_matches(r, initialization_script_result(context.cwd@, context.ready_file@)));
    r
}

} // verus!
