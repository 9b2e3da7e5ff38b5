//! Python: the arguments that keep its REPL interactive, and how it is
//! started with a bootstrap script.
pub mod bootstrap;

use super::{plan_outcome, DriverStartup, PlanTexts, StartupContext, StartupFile, StartupPlan};
use crate::chars::{static_texts, string_texts};
use crate::encoding::utf8_text;
use crate::error::ShellError;
use crate::shell::quote::native_path;
use crate::shell::wrappers::variables::{namespace_suffix, outcome_matches};
use vstd::prelude::*;

verus! {

/// The bootstrap script, in the startup directory.
pub const SCRIPT_FILE: &'static str = "python_repl.py";

/// The switches that keep Python interactive: `-i`, `-u` and `-q`, in that
/// case.
pub open spec fn interactive_switches() -> Seq<Seq<char>> {
    seq!["-i"@, "-u"@, "-q"@]
}

/// Every argument has a text that is one of Python's interactive switches.
pub open spec fn switches_only(arguments: Seq<Option<String>>) -> bool {
    forall|i: int| 0 <= i < arguments.len() ==> (#[trigger] arguments[i] matches Some(a) && interactive_switches().contains(a@))
}

/// Whether Python started with `arguments` stays interactive.
pub fn interactive_arguments(arguments: &Vec<Option<String>>) -> (interactive: bool)
    ensures
        interactive == switches_only(arguments@),
        interactive == forall|i: int|
            0 <= i < arguments@.len() ==> (#[trigger] arguments@[i] matches Some(a) && set!["-i"@, "-u"@, "-q"@].contains(a@)),
{
    proof {
        let listed = interactive_switches();
        let switches = set!["-i"@, "-u"@, "-q"@];
        assert forall|v: Seq<char>| listed.contains(v) <==> switches.contains(v) by {
            if listed.contains(v) {
                let k = choose|k: int| 0 <= k < 3 && listed[k] == v;
                assert(k == 0 || k == 1 || k == 2);
            }
            if switches.contains(v) {
                if v == "-i"@ {
                    assert(listed[0] == v);
                } else if v == "-u"@ {
                    assert(listed[1] == v);
                } else {
                    assert(listed[2] == v);
                }
            }
        }
    }
    let allowed: Vec<&'static str> = vec!["-i", "-u", "-q"];
    assert(static_texts(allowed@) =~= interactive_switches());
    let mut i: usize = 0;
    while i < arguments.len()
        invariant
            i <= arguments.len(),
            static_texts(allowed@) == interactive_switches(),
            forall|k: int| 0 <= k < i ==> (#[trigger] arguments@[k] matches Some(a) && interactive_switches().contains(a@)),
        decreases arguments.len() - i,
    {
        match &arguments[i] {
            Some(argument) => {
                if !super::is_among(argument.as_str(), &allowed) {
                    return false;
                }
            },
            None => {
                return false;
            },
        }
        i = i + 1;
    }
    true
}

/// The plan for starting Python: write the bootstrap, then start Python
/// interactive and unbuffered on the bootstrap file `script_path`.
pub open spec fn startup_result(script: Result<Seq<char>, ShellError>, script_path: Seq<u8>) -> Result<PlanTexts, ShellError> {
    match script {
        Err(e) => Err(e),
        Ok(s) => match utf8_text(script_path) {
            None => Err(ShellError::NonUtf8Path),
            Some(p) => Ok((seq![(SCRIPT_FILE@, s)], seq!["-i"@, "-u"@, p], seq![])),
        },
    }
}

/// How to start Python for `context`, with its bootstrap at `script_path`
/// (the startup directory joined with `SCRIPT_FILE`).
pub fn startup(context: &StartupContext, script_path: &[u8]) -> (plan: Result<StartupPlan, ShellError>)
    ensures
        exists|suffix: Seq<char>|
            namespace_suffix(suffix) && #[trigger] plan_outcome(
                plan,
                startup_result(bootstrap::script_result(context.cwd@, context.ready_file@, suffix), script_path@),
            ),
{
    let script = bootstrap::script(context);
    let ghost suffix = choose|suffix: Seq<char>|
        namespace_suffix(suffix) && outcome_matches(script, bootstrap::script_result(context.cwd@, context.ready_file@, suffix));
    let r = match script {
        Err(e) => Err(e),
        Ok(s) => match native_path(script_path) {
            Err(e) => Err(e),
            Ok(path) => {
                let ghost contents = s@;
                let files = vec![StartupFile { name: SCRIPT_FILE, contents: s }];
                let args = vec![String::from_str("-i"), String::from_str("-u"), path];
                let plan = StartupPlan { files, startup: DriverStartup { args, env: Vec::new() } };
                assert(super::file_texts(plan.files@) =~= seq![(SCRIPT_FILE@, contents)]);
                assert(super::pair_texts(plan.startup.env@) =~= seq![]);
                assert(string_texts(plan.startup.args@) =~= seq!["-i"@, "-u"@, plan.startup.args@[2]@]);
                Ok(plan)
            },
        },
    };
    assert(namespace_suffix(suffix) && plan_outcome(r, startup_result(bootstrap::script_result(context.cwd@, context.ready_file@, suffix), script_path@)));
    r
}

} // verus!
