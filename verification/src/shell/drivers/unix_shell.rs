//! Bash and Zsh: the arguments that keep them interactive, their
//! initialization script, and how each is started.
use super::{each_lowered_in, lemma_lowered_among_three, all_among, all_texts, lowered_among, lowered_texts, plan_outcome, DriverStartup, PlanTexts, StartupContext, StartupFile, StartupPlan};
use crate::chars::{static_texts, string_texts};
use crate::encoding::{lemma_posix_quote_round_trip, posix_quote, posix_word_unquoted, utf8_text};
use crate::error::ShellError;
use crate::shell::quote::{native_path, posix_path};
use crate::shell::shims::CURRENT_SHELL_ENV;
use crate::shell::wrappers::posix_startup::{bash_wrapper, bash_wrapper_template, zsh_wrapper, zsh_wrapper_template};
use crate::shell::wrappers::variables::{marker_rendering, namespace_suffix, outcome_matches};
use vstd::prelude::*;

verus! {

/// The Bash initialization file, in the startup directory.
pub const BASH_INIT_FILE: &'static str = "bash_init.sh";

/// The Zsh initialization file, in the startup directory that Zsh is pointed
/// at as its configuration directory.
pub const ZSH_INIT_FILE: &'static str = ".zshrc";

/// The switches that keep Bash and Zsh interactive, in lower case.
pub open spec fn interactive_switches() -> Seq<Seq<char>> {
    seq!["-i"@, "-l"@, "--login"@]
}

/// Whether Bash or Zsh started with `arguments` stays interactive: each
/// argument is, in lower case, `-i`, `-l` or `--login`.
pub fn interactive_arguments(arguments: &Vec<Option<String>>) -> (interactive: bool)
    ensures
        interactive == (all_texts(arguments@) && all_among(lowered_texts(arguments@), interactive_switches())),
        interactive == each_lowered_in(arguments@, "-i"@, "-l"@, "--login"@),
{
    let allowed: Vec<&'static str> = vec!["-i", "-l", "--login"];
    assert(static_texts(allowed@) =~= interactive_switches());
    let r = lowered_among(arguments, &allowed);
    proof {
        lemma_lowered_among_three(arguments@, "-i"@, "-l"@, "--login"@);
    }
    r
}

/// The plan for starting Bash: write the initialization script made with
/// `wrapper`, then start Bash without profile, reading that script as its
/// startup file `init_path`.
pub open spec fn bash_startup_result(
    wrapper: Result<Seq<char>, ShellError>,
    cwd: Seq<u8>,
    ready: Seq<u8>,
    init_path: Seq<u8>,
) -> Result<PlanTexts, ShellError> {
    match wrapper {
        Err(e) => Err(e),
        Ok(w) => match initialization_script_result(cwd, ready, "bash"@, w, ">"@) {
            Err(e) => Err(e),
            Ok(script) => match utf8_text(init_path) {
                None => Err(ShellError::NonUtf8Path),
                Some(p) => Ok(
                    (
                        seq![(BASH_INIT_FILE@, script)],
                        seq!["--noprofile"@, "--rcfile"@, p, "-i"@],
                        seq![],
                    ),
                ),
            },
        },
    }
}

/// Bash starts without profile, reading the initialization script written
/// to `bash_init.sh` from `init_path` as its startup file, interactive and
/// with no variable of its own; Zsh starts interactive with the startup
/// directory, in its native text, as its configuration directory, where the
/// initialization script is written as `.zshrc`.
pub proof fn lemma_startup_arguments(
    wrapper: Result<Seq<char>, ShellError>,
    cwd: Seq<u8>,
    ready: Seq<u8>,
    init_path: Seq<u8>,
    startup_directory: Seq<u8>,
)
    ensures
        bash_startup_result(wrapper, cwd, ready, init_path) matches Ok(plan) ==> plan.0.len() == 1 && plan.0[0].0
            == "bash_init.sh"@ && plan.1 == seq!["--noprofile"@, "--rcfile"@, utf8_text(init_path)->0, "-i"@] && plan.2
            == Seq::<(Seq<char>, Seq<char>)>::empty(),
        zsh_startup_result(wrapper, cwd, ready, startup_directory) matches Ok(plan) ==> plan.0.len() == 1 && plan.0[0].0
            == ".zshrc"@ && plan.1 == seq!["-i"@] && plan.2 == seq![("ZDOTDIR"@, utf8_text(startup_directory)->0)],
{
}

/// How to start Bash for `context`, with the initialization file at
/// `init_path` (the startup directory joined with `BASH_INIT_FILE`).
pub fn bash_startup(context: &StartupContext, init_path: &[u8]) -> (plan: Result<StartupPlan, ShellError>)
    ensures
        exists|suffix: Seq<char>|
            namespace_suffix(suffix) && #[trigger] plan_outcome(
                plan,
                bash_startup_result(marker_rendering(bash_wrapper_template(), suffix), context.cwd@, context.ready_file@, init_path@),
            ),
{
    let wrapper = bash_wrapper();
    let ghost suffix = choose|suffix: Seq<char>|
        namespace_suffix(suffix) && outcome_matches(wrapper, marker_rendering(bash_wrapper_template(), suffix));
    let r = match wrapper {
        Err(e) => Err(e),
        Ok(w) => bash_plan(context, w.as_str(), init_path),
    };
    assert(namespace_suffix(suffix) && plan_outcome(
        r,
        bash_startup_result(marker_rendering(bash_wrapper_template(), suffix), context.cwd@, context.ready_file@, init_path@),
    ));
    r
}

fn bash_plan(context: &StartupContext, wrapper: &str, init_path: &[u8]) -> (plan: Result<StartupPlan, ShellError>)
    ensures
        plan_outcome(plan, bash_startup_result(Ok(wrapper@), context.cwd@, context.ready_file@, init_path@)),
{
    let script = match initialization_script(context, "bash", wrapper, ">") {
        Ok(s) => s,
        Err(e) => return Err(e),
    };
    let path = match native_path(init_path) {
        Ok(p) => p,
        Err(e) => return Err(e),
    };
    let args = vec![String::from_str("--noprofile"), String::from_str("--rcfile"), path, String::from_str("-i")];
    let files = vec![StartupFile { name: BASH_INIT_FILE, contents: script }];
    let plan = StartupPlan { files, startup: DriverStartup { args, env: Vec::new() } };
    assert(super::file_texts(plan.files@) =~= seq![(BASH_INIT_FILE@, plan.files@[0].contents@)]);
    assert(super::pair_texts(plan.startup.env@) =~= seq![]);
    assert(string_texts(plan.startup.args@) =~= seq!["--noprofile"@, "--rcfile"@, plan.startup.args@[2]@, "-i"@]);
    Ok(plan)
}

/// The plan for starting Zsh: write the initialization script made with
/// `wrapper` as its configuration file, then start Zsh interactively with the
/// startup directory as its configuration directory.
pub open spec fn zsh_startup_result(
    wrapper: Result<Seq<char>, ShellError>,
    cwd: Seq<u8>,
    ready: Seq<u8>,
    startup_directory: Seq<u8>,
) -> Result<PlanTexts, ShellError> {
    match wrapper {
        Err(e) => Err(e),
        Ok(w) => match initialization_script_result(cwd, ready, "zsh"@, w, ">|"@) {
            Err(e) => Err(e),
            Ok(script) => match utf8_text(startup_directory) {
                None => Err(ShellError::NonUtf8Path),
                Some(d) => Ok((seq![(ZSH_INIT_FILE@, script)], seq!["-i"@], seq![("ZDOTDIR"@, d)])),
            },
        },
    }
}

/// How to start Zsh for `context`.
pub fn zsh_startup(context: &StartupContext) -> (plan: Result<StartupPlan, ShellError>)
    ensures
        exists|suffix: Seq<char>|
            namespace_suffix(suffix) && #[trigger] plan_outcome(
                plan,
                zsh_startup_result(marker_rendering(zsh_wrapper_template(), suffix), context.cwd@, context.ready_file@, context.startup_directory@),
            ),
{
    let wrapper = zsh_wrapper();
    let ghost suffix = choose|suffix: Seq<char>|
        namespace_suffix(suffix) && outcome_matches(wrapper, marker_rendering(zsh_wrapper_template(), suffix));
    let r = match wrapper {
        Err(e) => Err(e),
        Ok(w) => zsh_plan(context, w.as_str()),
    };
    assert(namespace_suffix(suffix) && plan_outcome(
        r,
        zsh_startup_result(marker_rendering(zsh_wrapper_template(), suffix), context.cwd@, context.ready_file@, context.startup_directory@),
    ));
    r
}

fn zsh_plan(context: &StartupContext, wrapper: &str) -> (plan: Result<StartupPlan, ShellError>)
    ensures
        plan_outcome(plan, zsh_startup_result(Ok(wrapper@), context.cwd@, context.ready_file@, context.startup_directory@)),
{
    let script = match initialization_script(context, "zsh", wrapper, ">|") {
        Ok(s) => s,
        Err(e) => return Err(e),
    };
    let directory = match native_path(context.startup_directory) {
        Ok(p) => p,
        Err(e) => return Err(e),
    };
    let args = vec![String::from_str("-i")];
    let env = vec![(String::from_str("ZDOTDIR"), directory)];
    let files = vec![StartupFile { name: ZSH_INIT_FILE, contents: script }];
    let plan = StartupPlan { files, startup: DriverStartup { args, env } };
    assert(super::file_texts(plan.files@) =~= seq![(ZSH_INIT_FILE@, plan.files@[0].contents@)]);
    assert(super::pair_texts(plan.startup.env@) =~= seq![("ZDOTDIR"@, plan.startup.env@[0].1@)]);
    assert(string_texts(plan.startup.args@) =~= seq!["-i"@]);
    Ok(plan)
}

pub const UNIX_0: &'static str = "export ";
pub const UNIX_1: &'static str = "=";
pub const UNIX_2: &'static str = "\n";
pub const UNIX_3: &'static str = "\nfuncterm_cwd=$(functerm_posix_path ";
pub const UNIX_4: &'static str = r") || exit 1
functerm_ready_file=$(functerm_posix_path ";
pub const UNIX_5: &'static str = r#") || exit 1
cd "$functerm_cwd"
: "#;
pub const UNIX_6: &'static str = r#" "$functerm_ready_file"
"#;

/// The text of a POSIX shell initialization script, from its parts.
pub open spec fn initialization_script_text(cwd: Seq<char>, ready: Seq<char>, shell: Seq<char>, wrapper: Seq<char>, overwrite: Seq<char>) -> Seq<char> {
    UNIX_0@ + CURRENT_SHELL_ENV@ + UNIX_1@ + shell + UNIX_2@ + wrapper + UNIX_3@ + cwd + UNIX_4@ + ready + UNIX_5@ + overwrite + UNIX_6@
}

/// The outcome of building a POSIX shell initialization script: its text, or the first error met.
pub open spec fn initialization_script_result(cwd: Seq<u8>, ready: Seq<u8>, shell: Seq<char>, wrapper: Seq<char>, overwrite: Seq<char>) -> Result<Seq<char>, ShellError> {
    match (utf8_text(cwd), utf8_text(ready)) {
        (Some(t_cwd), Some(t_ready)) => Ok(initialization_script_text(posix_quote(t_cwd), posix_quote(t_ready), shell, wrapper, overwrite)),
        _ => Err(ShellError::NonUtf8Path),
    }
}

/// The initialization script records the current shell, defines the
/// wrapper, then converts two words to the shell's own paths: the one on the
/// working-directory line, which a POSIX shell reads back as the working
/// directory's text, and the one on the ready-file line, read back as the
/// ready file's text; it then enters the one and creates the other. It is
/// built exactly when both paths are UTF-8.
pub proof fn lemma_initialization_script_reads_back(
    cwd: Seq<u8>,
    ready: Seq<u8>,
    shell: Seq<char>,
    wrapper: Seq<char>,
    overwrite: Seq<char>,
)
    ensures
        initialization_script_result(cwd, ready, shell, wrapper, overwrite) is Ok <==> (utf8_text(cwd) is Some && utf8_text(ready) is Some),
        initialization_script_result(cwd, ready, shell, wrapper, overwrite) matches Ok(script) ==> exists|cwd_word: Seq<char>, ready_word: Seq<char>|
            #![trigger posix_word_unquoted(cwd_word), posix_word_unquoted(ready_word)]
            script == "export FUNCTERM_CURRENT_SHELL="@ + shell + "\n"@ + wrapper + "\nfuncterm_cwd=$(functerm_posix_path "@ + cwd_word
                + ") || exit 1\nfuncterm_ready_file=$(functerm_posix_path "@ + ready_word
                + ") || exit 1\ncd \"$functerm_cwd\"\n: "@ + overwrite + " \"$functerm_ready_file\"\n"@
                && posix_word_unquoted(cwd_word) == utf8_text(cwd)->0
                && posix_word_unquoted(ready_word) == utf8_text(ready)->0,
{
    if let (Some(c), Some(r)) = (utf8_text(cwd), utf8_text(ready)) {
        reveal_strlit("export ");
        reveal_strlit("FUNCTERM_CURRENT_SHELL");
        reveal_strlit("=");
        reveal_strlit("export FUNCTERM_CURRENT_SHELL=");
        lemma_posix_quote_round_trip(c);
        lemma_posix_quote_round_trip(r);
        assert("export FUNCTERM_CURRENT_SHELL="@ =~= UNIX_0@ + CURRENT_SHELL_ENV@ + UNIX_1@);
        let script = initialization_script_text(posix_quote(c), posix_quote(r), shell, wrapper, overwrite);
        assert(script =~= "export FUNCTERM_CURRENT_SHELL="@ + shell + "\n"@ + wrapper + "\nfuncterm_cwd=$(functerm_posix_path "@
            + posix_quote(c) + ") || exit 1\nfuncterm_ready_file=$(functerm_posix_path "@ + posix_quote(r)
            + ") || exit 1\ncd \"$functerm_cwd\"\n: "@ + overwrite + " \"$functerm_ready_file\"\n"@);
        assert(posix_word_unquoted(posix_quote(c)) == c);
        assert(posix_word_unquoted(posix_quote(r)) == r);
    }
}

/// The initialization script of the POSIX shell `shell`: it records the current shell, defines `wrapper`, converts the working directory and the ready file to the shell's own paths, enters the one and creates the other with the redirection `overwrite`.
pub fn initialization_script(context: &StartupContext, shell: &str, wrapper: &str, overwrite: &str) -> (script: Result<String, ShellError>)
    ensures
        outcome_matches(script, initialization_script_result(context.cwd@, context.ready_file@, shell@, wrapper@, overwrite@)),
{
    let cwd_text = match posix_path(context.cwd) {
        Ok(x) => x,
        Err(e) => {
            let r: Result<String, ShellError> = Err(e);
            assert(outcome_matches(r, initialization_script_result(context.cwd@, context.ready_file@, shell@, wrapper@, overwrite@)));
            return r;
        },
    };
    let ready_text = match posix_path(context.ready_file) {
        Ok(x) => x,
        Err(e) => {
            let r: Result<String, ShellError> = Err(e);
            assert(outcome_matches(r, initialization_script_result(context.cwd@, context.ready_file@, shell@, wrapper@, overwrite@)));
            return r;
        },
    };
    let mut text = String::from_str(UNIX_0);
    text.append(CURRENT_SHELL_ENV);
    text.append(UNIX_1);
    text.append(shell);
    text.append(UNIX_2);
    text.append(wrapper);
    text.append(UNIX_3);
    text.append(cwd_text.as_str());
    text.append(UNIX_4);
    text.append(ready_text.as_str());
    text.append(UNIX_5);
    text.append(overwrite);
    text.append(UNIX_6);
    let r: Result<String, ShellError> = Ok(text);
    assert(outcome_matches(r, initialization_script_result(context.cwd@, context.ready_file@, shell@, wrapper@, overwrite@)));
    r
}

} // verus!
