//! Nushell: its startup arguments, the arguments that keep it interactive,
//! and its initialization script.
use super::{each_lowered_in, lemma_lowered_among_three, arguments_only, all_texts, lowered_among, lowered_texts, all_among, plan_outcome, DriverStartup, PlanTexts, StartupContext, StartupPlan};
use crate::chars::{static_texts, string_texts};
use crate::encoding::utf8_text;
use crate::error::ShellError;
use crate::shell::quote::{lemma_literal_values, nushell_literal, nushell_path, nushell_value};
use crate::shell::shims::CURRENT_SHELL_ENV;
use crate::shell::wrappers::variables::{marker_rendering, namespace_suffix, outcome_matches};
use vstd::prelude::*;

verus! {

/// The switches that keep Nushell interactive, in lower case.
pub open spec fn interactive_switches() -> Seq<Seq<char>> {
    seq!["--login"@, "--no-config-file"@, "--no-history"@]
}

/// Whether Nushell started with `arguments` stays interactive: each argument
/// is, in lower case, one of its interactive switches.
pub fn interactive_arguments(arguments: &Vec<Option<String>>) -> (interactive: bool)
    ensures
        interactive == (all_texts(arguments@) && all_among(lowered_texts(arguments@), interactive_switches())),
        interactive == each_lowered_in(arguments@, "--login"@, "--no-config-file"@, "--no-history"@),
{
    proof {
        lemma_lowered_among_three(arguments@, "--login"@, "--no-config-file"@, "--no-history"@);
    }
    let allowed: Vec<&'static str> = vec!["--login", "--no-config-file", "--no-history"];
    assert(static_texts(allowed@) =~= interactive_switches());
    lowered_among(arguments, &allowed)
}

/// The arguments that start Nushell without configuration or history and run
/// the initialization script `init`.
pub open spec fn startup_arguments(init: Seq<char>) -> Seq<Seq<char>> {
    seq!["--no-config-file"@, "--no-history"@, "--execute"@, init]
}

/// The plan for starting Nushell from the outcome of its initialization script.
pub open spec fn startup_result(init: Result<Seq<char>, ShellError>) -> Result<PlanTexts, ShellError> {
    arguments_only(
        match init {
            Ok(t) => Ok(startup_arguments(t)),
            Err(e) => Err(e),
        },
    )
}

/// How to start Nushell for `context`.
pub fn startup(context: &StartupContext) -> (plan: Result<StartupPlan, ShellError>)
    ensures
        exists|suffix: Seq<char>|
            namespace_suffix(suffix) && #[trigger] plan_outcome(
                plan,
                startup_result(
                    initialization_script_result(
                        marker_rendering(crate::shell::wrappers::nu::wrapper_template(), suffix),
                        context.cwd@,
                        context.ready_file@,
                    ),
                ),
            ),
{
    let init = initialization_script(context);
    let ghost suffix = choose|suffix: Seq<char>|
        namespace_suffix(suffix) && outcome_matches(
            init,
            initialization_script_result(
                marker_rendering(crate::shell::wrappers::nu::wrapper_template(), suffix),
                context.cwd@,
                context.ready_file@,
            ),
        );
    let r = match init {
        Err(e) => Err(e),
        Ok(init) => {
            let args = vec![
                String::from_str("--no-config-file"),
                String::from_str("--no-history"),
                String::from_str("--execute"),
                init,
            ];
            let startup = DriverStartup { args, env: Vec::new() };
            let plan = StartupPlan { files: Vec::new(), startup };
            assert(super::file_texts(plan.files@) =~= seq![]);
            assert(super::pair_texts(plan.startup.env@) =~= seq![]);
            assert(string_texts(plan.startup.args@) =~= startup_arguments(plan.startup.args@[3]@));
            Ok(plan)
        },
    };
    assert(namespace_suffix(suffix) && plan_outcome(
        r,
        startup_result(
            initialization_script_result(
                marker_rendering(crate::shell::wrappers::nu::wrapper_template(), suffix),
                context.cwd@,
                context.ready_file@,
            ),
        ),
    ));
    r
}

pub const NUSHELL_0: &'static str = "$env.";
pub const NUSHELL_1: &'static str = " = 'nu'\n";
pub const NUSHELL_2: &'static str = "\ncd ";
pub const NUSHELL_3: &'static str = "\n'' | save --force --raw ";
pub const NUSHELL_4: &'static str = "\n";

/// The text of the Nushell initialization script, from its parts.
pub open spec fn initialization_script_text(wrapper: Seq<char>, cwd: Seq<char>, ready: Seq<char>) -> Seq<char> {
    NUSHELL_0@ + CURRENT_SHELL_ENV@ + NUSHELL_1@ + wrapper + NUSHELL_2@ + cwd + NUSHELL_3@ + ready + NUSHELL_4@
}

/// The outcome of building the Nushell initialization script: its text, or the first error met.
pub open spec fn initialization_script_result(wrapper: Result<Seq<char>, ShellError>, cwd: Seq<u8>, ready: Seq<u8>) -> Result<Seq<char>, ShellError> {
    match wrapper {
        Err(e) => Err(e),
        Ok(w) => match (utf8_text(cwd), utf8_text(ready)) {
                (Some(t_cwd), Some(t_ready)) => Ok(initialization_script_text(w, nushell_literal(t_cwd), nushell_literal(t_ready))),
                _ => Err(ShellError::NonUtf8Path),
            },
    }
}

/// The Nushell initialization script records the current shell, defines
/// the wrapper, enters the directory given by an expression that Nushell
/// reads back as the working directory's text, and writes the ready file
/// named by an expression read back as the ready file's text.
pub proof fn lemma_initialization_script_reads_back(wrapper: Result<Seq<char>, ShellError>, cwd: Seq<u8>, ready: Seq<u8>)
    ensures
        initialization_script_result(wrapper, cwd, ready) matches Ok(script) ==> exists|cwd_word: Seq<char>, ready_word: Seq<char>|
            #![trigger nushell_value(cwd_word), nushell_value(ready_word)]
            script == "$env.FUNCTERM_CURRENT_SHELL = 'nu'\n"@ + wrapper->Ok_0 + "\ncd "@ + cwd_word + "\n'' | save --force --raw "@
                + ready_word + "\n"@
                && nushell_value(cwd_word) == utf8_text(cwd)->0
                && nushell_value(ready_word) == utf8_text(ready)->0,
{
    if let (Ok(w), Some(c), Some(r)) = (wrapper, utf8_text(cwd), utf8_text(ready)) {
        reveal_strlit("$env.");
        reveal_strlit("FUNCTERM_CURRENT_SHELL");
        reveal_strlit(" = 'nu'\n");
        reveal_strlit("$env.FUNCTERM_CURRENT_SHELL = 'nu'\n");
        assert("$env.FUNCTERM_CURRENT_SHELL = 'nu'\n"@ =~= NUSHELL_0@ + CURRENT_SHELL_ENV@ + NUSHELL_1@);
        lemma_literal_values(c);
        lemma_literal_values(r);
        let script = initialization_script_text(w, nushell_literal(c), nushell_literal(r));
        assert(script =~= "$env.FUNCTERM_CURRENT_SHELL = 'nu'\n"@ + w + "\ncd "@ + nushell_literal(c)
            + "\n'' | save --force --raw "@ + nushell_literal(r) + "\n"@);
        assert(nushell_value(nushell_literal(c)) == c);
        assert(nushell_value(nushell_literal(r)) == r);
    }
}

/// The Nushell initialization script: it records the current shell, defines the wrapper, enters the working directory and writes the ready file.
pub fn initialization_script(context: &StartupContext) -> (script: Result<String, ShellError>)
    ensures
        exists|suffix: Seq<char>| namespace_suffix(suffix) && #[trigger] outcome_matches(script, initialization_script_result(marker_rendering(crate::shell::wrappers::nu::wrapper_template(), suffix), context.cwd@, context.ready_file@)),
{
    let wrapper = crate::shell::wrappers::nu::wrapper();
    let ghost suffix = choose|suffix: Seq<char>| namespace_suffix(suffix) && outcome_matches(wrapper, marker_rendering(crate::shell::wrappers::nu::wrapper_template(), suffix));
    let wrapper_text = match wrapper {
        Ok(w) => w,
        Err(e) => {
            let r: Result<String, ShellError> = Err(e);
            assert(namespace_suffix(suffix) && outcome_matches(r, initialization_script_result(marker_rendering(crate::shell::wrappers::nu::wrapper_template(), suffix), context.cwd@, context.ready_file@)));
            return r;
        },
    };
    let cwd_text = match nushell_path(context.cwd) {
        Ok(x) => x,
        Err(e) => {
            let r: Result<String, ShellError> = Err(e);
            assert(namespace_suffix(suffix) && outcome_matches(r, initialization_script_result(marker_rendering(crate::shell::wrappers::nu::wrapper_template(), suffix), context.cwd@, context.ready_file@)));
            return r;
        },
    };
    let ready_text = match nushell_path(context.ready_file) {
        Ok(x) => x,
        Err(e) => {
            let r: Result<String, ShellError> = Err(e);
            assert(namespace_suffix(suffix) && outcome_matches(r, initialization_script_result(marker_rendering(crate::shell::wrappers::nu::wrapper_template(), suffix), context.cwd@, context.ready_file@)));
            return r;
        },
    };
    let mut text = String::from_str(NUSHELL_0);
    text.append(CURRENT_SHELL_ENV);
    text.append(NUSHELL_1);
    text.append(wrapper_text.as_str());
    text.append(NUSHELL_2);
    text.append(cwd_text.as_str());
    text.append(NUSHELL_3);
    text.append(ready_text.as_str());
    text.append(NUSHELL_4);
    let r: Result<String, ShellError> = Ok(text);
    assert(namespace_suffix(suffix) && outcome_matches(r, initialization_script_result(marker_rendering(crate::shell::wrappers::nu::wrapper_template(), suffix), context.cwd@, context.ready_file@)));
    r
}

} // verus!
