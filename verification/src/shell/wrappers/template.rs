//! Filling in wrapper templates: the placeholders `@NAME@` that stand for the
//! command-record contract, and the dispatcher `f` that each shell defines.
use super::variables::{render_in_new_namespace, rendered_in_some_namespace};
use crate::chars::replace_text;
use crate::chars::replace_all;
use crate::contract::{
    COMMAND_DIRECTORY_ENV, COMMAND_FILE, COMMAND_ID_ENV, COMMAND_INPUT_DIRECTORY,
    COMMAND_OUTPUT_DIRECTORY, COMMAND_POWERSHELL_SCRIPT_FILE, COMMAND_SCRIPT_FILE,
    COMMAND_STATE_DIRECTORY, COMMAND_WORKING_DIRECTORY_FILE, DISPATCH_FILE, DONE_FILE,
    HELPER_EXECUTABLE_ENV, POSIX_COMMAND_FUNCTION, POWERSHELL_COMMAND_FUNCTION,
    SESSION_COMMANDS_DIRECTORY, SESSION_STATE_DIRECTORY, STDERR_FILE, STDOUT_FILE,
};
use crate::error::ShellError;
use crate::shell::shims::SESSION_ROOT_ENV;
use vstd::prelude::*;

verus! {

/// The texts of placeholder and value pairs.
pub open spec fn pairs_view(pairs: Seq<(&str, &str)>) -> Seq<(Seq<char>, Seq<char>)> {
    pairs.map_values(|p: (&str, &str)| (p.0@, p.1@))
}

/// `t` with each pair's placeholder replaced by its value, pair after pair.
pub open spec fn replace_pairs(t: Seq<char>, pairs: Seq<(Seq<char>, Seq<char>)>) -> Seq<char>
    decreases pairs.len(),
{
    if pairs.len() == 0 {
        t
    } else {
        replace_pairs(replace_all(t, pairs[0].0, pairs[0].1), pairs.drop_first())
    }
}

/// Every placeholder of the pairs is non-empty.
pub open spec fn placeholders_nonempty(pairs: Seq<(Seq<char>, Seq<char>)>) -> bool {
    forall|i: int| 0 <= i < pairs.len() ==> (#[trigger] pairs[i]).0.len() > 0
}

/// `text` with each pair's placeholder replaced by its value, pair after pair.
pub(crate) fn substitute(template: &str, pairs: &Vec<(&str, &str)>) -> (text: String)
    requires
        placeholders_nonempty(pairs_view(pairs@)),
    ensures
        text@ == replace_pairs(template@, pairs_view(pairs@)),
{
    let ghost all = pairs_view(pairs@);
    let mut text = String::from_str(template);
    let mut i: usize = 0;
    assert(all.skip(0) == all);
    while i < pairs.len()
        invariant
            i <= pairs.len(),
            all == pairs_view(pairs@),
            placeholders_nonempty(all),
            replace_pairs(template@, all) == replace_pairs(text@, all.skip(i as int)),
        decreases pairs.len() - i,
    {
        let (placeholder, value) = pairs[i];
        assert(all[i as int] == (placeholder@, value@));
        assert(all[i as int].0.len() > 0);
        assert(all.skip(i as int)[0] == all[i as int]);
        assert(all.skip(i as int).drop_first() == all.skip(i + 1));
        text = replace_text(text.as_str(), placeholder, value);
        i = i + 1;
    }
    assert(all.skip(i as int).len() == 0);
    text
}

/// The placeholders shared by every wrapper template and their values.
pub open spec fn common_pairs_text() -> Seq<(Seq<char>, Seq<char>)> {
    seq![
        ("@COMMAND_DIR_ENV@"@, COMMAND_DIRECTORY_ENV@),
        ("@COMMAND_ID_ENV@"@, COMMAND_ID_ENV@),
        ("@INPUT_DIR@"@, COMMAND_INPUT_DIRECTORY@),
        ("@DONE@"@, DONE_FILE@),
        ("@HELPER_ENV@"@, HELPER_EXECUTABLE_ENV@),
        ("@OUTPUT_DIR@"@, COMMAND_OUTPUT_DIRECTORY@),
        ("@STATE_DIR@"@, COMMAND_STATE_DIRECTORY@),
        ("@STDERR@"@, STDERR_FILE@),
        ("@STDOUT@"@, STDOUT_FILE@),
    ]
}

/// The placeholders shared by every wrapper template and their values.
pub fn common_pairs() -> (pairs: Vec<(&'static str, &'static str)>)
    ensures
        pairs_view(pairs@) == common_pairs_text(),
        placeholders_nonempty(pairs_view(pairs@)),
{
    let pairs = vec![
        ("@COMMAND_DIR_ENV@", COMMAND_DIRECTORY_ENV),
        ("@COMMAND_ID_ENV@", COMMAND_ID_ENV),
        ("@INPUT_DIR@", COMMAND_INPUT_DIRECTORY),
        ("@DONE@", DONE_FILE),
        ("@HELPER_ENV@", HELPER_EXECUTABLE_ENV),
        ("@OUTPUT_DIR@", COMMAND_OUTPUT_DIRECTORY),
        ("@STATE_DIR@", COMMAND_STATE_DIRECTORY),
        ("@STDERR@", STDERR_FILE),
        ("@STDOUT@", STDOUT_FILE),
    ];
    proof {
        reveal_strlit("@COMMAND_DIR_ENV@");
        reveal_strlit("@COMMAND_ID_ENV@");
        reveal_strlit("@INPUT_DIR@");
        reveal_strlit("@DONE@");
        reveal_strlit("@HELPER_ENV@");
        reveal_strlit("@OUTPUT_DIR@");
        reveal_strlit("@STATE_DIR@");
        reveal_strlit("@STDERR@");
        reveal_strlit("@STDOUT@");
    }
    assert(pairs_view(pairs@) =~= common_pairs_text());
    pairs
}

/// Each shared placeholder of the wrapper templates stands for the contract
/// name it is named after: the standard output file for `@STDOUT@`, the
/// standard error file for `@STDERR@`, and so on, one value for each.
pub proof fn lemma_common_placeholders()
    ensures
        common_pairs_text().contains(("@STDOUT@"@, STDOUT_FILE@)),
        common_pairs_text().contains(("@STDERR@"@, STDERR_FILE@)),
        common_pairs_text().contains(("@OUTPUT_DIR@"@, COMMAND_OUTPUT_DIRECTORY@)),
        common_pairs_text().contains(("@INPUT_DIR@"@, COMMAND_INPUT_DIRECTORY@)),
        common_pairs_text().contains(("@STATE_DIR@"@, COMMAND_STATE_DIRECTORY@)),
        common_pairs_text().contains(("@DONE@"@, DONE_FILE@)),
        common_pairs_text().contains(("@COMMAND_ID_ENV@"@, COMMAND_ID_ENV@)),
        common_pairs_text().contains(("@COMMAND_DIR_ENV@"@, COMMAND_DIRECTORY_ENV@)),
        common_pairs_text().contains(("@HELPER_ENV@"@, HELPER_EXECUTABLE_ENV@)),
        forall|i: int, j: int|
            0 <= i < j < common_pairs_text().len() ==> #[trigger] common_pairs_text()[i].0 != #[trigger] common_pairs_text()[j].0,
{
    reveal_strlit("@COMMAND_DIR_ENV@");
    reveal_strlit("@COMMAND_ID_ENV@");
    reveal_strlit("@INPUT_DIR@");
    reveal_strlit("@DONE@");
    reveal_strlit("@HELPER_ENV@");
    reveal_strlit("@OUTPUT_DIR@");
    reveal_strlit("@STATE_DIR@");
    reveal_strlit("@STDERR@");
    reveal_strlit("@STDOUT@");
    let pairs = common_pairs_text();
    assert(pairs[8] == ("@STDOUT@"@, STDOUT_FILE@));
    assert(pairs[7] == ("@STDERR@"@, STDERR_FILE@));
    assert(pairs[6] == ("@STATE_DIR@"@, COMMAND_STATE_DIRECTORY@));
    assert(pairs[5] == ("@OUTPUT_DIR@"@, COMMAND_OUTPUT_DIRECTORY@));
    assert(pairs[4] == ("@HELPER_ENV@"@, HELPER_EXECUTABLE_ENV@));
    assert(pairs[3] == ("@DONE@"@, DONE_FILE@));
    assert(pairs[2] == ("@INPUT_DIR@"@, COMMAND_INPUT_DIRECTORY@));
    assert(pairs[1] == ("@COMMAND_ID_ENV@"@, COMMAND_ID_ENV@));
    assert(pairs[0] == ("@COMMAND_DIR_ENV@"@, COMMAND_DIRECTORY_ENV@));
    assert forall|i: int, j: int| 0 <= i < j < pairs.len() implies #[trigger] pairs[i].0 != #[trigger] pairs[j].0 by {
        let a = pairs[i].0;
        let b = pairs[j].0;
        if a == b {
            assert(a.len() == b.len());
            assert(a[1] == b[1]);
            assert(a[2] == b[2]);
            assert(a[4] == b[4]);
            assert(a[9] == b[9]);
        }
    }
}

/// A template with the shared placeholders filled in and then `extra`.
pub open spec fn render_text(t: Seq<char>, extra: Seq<(Seq<char>, Seq<char>)>) -> Seq<char> {
    replace_pairs(replace_pairs(t, common_pairs_text()), extra)
}

/// The template with the shared placeholders filled in, then the `extra` ones.
pub(crate) fn render(template: &str, extra: &Vec<(&str, &str)>) -> (text: String)
    requires
        placeholders_nonempty(pairs_view(extra@)),
    ensures
        text@ == render_text(template@, pairs_view(extra@)),
{
    let common = common_pairs();
    let text = substitute(template, &common);
    substitute(text.as_str(), extra)
}

/// The placeholders of a command function template and their values.
pub open spec fn command_function_pairs(function_name: Seq<char>) -> Seq<(Seq<char>, Seq<char>)> {
    seq![("@FUNCTION@"@, function_name), ("@COMMAND@"@, COMMAND_FILE@)]
}

/// A command function template filled in, with `function_name` as the
/// function's name.
pub fn render_command_function(template: &str, function_name: &str) -> (text: String)
    ensures
        text@ == render_text(template@, command_function_pairs(function_name@)),
{
    let extra = vec![("@FUNCTION@", function_name), ("@COMMAND@", COMMAND_FILE)];
    proof {
        reveal_strlit("@FUNCTION@");
        reveal_strlit("@COMMAND@");
    }
    assert(pairs_view(extra@) =~= command_function_pairs(function_name@));
    render(template, &extra)
}

/// The placeholder of a batch script template and its value.
pub open spec fn script_pairs() -> Seq<(Seq<char>, Seq<char>)> {
    seq![("@SCRIPT@"@, COMMAND_SCRIPT_FILE@)]
}

/// A batch script template filled in.
pub fn render_script(template: &str) -> (text: String)
    ensures
        text@ == render_text(template@, script_pairs()),
{
    let extra = vec![("@SCRIPT@", COMMAND_SCRIPT_FILE)];
    proof {
        reveal_strlit("@SCRIPT@");
    }
    assert(pairs_view(extra@) =~= script_pairs());
    render(template, &extra)
}

/// The placeholders of a PowerShell template and their values.
pub open spec fn powershell_pairs() -> Seq<(Seq<char>, Seq<char>)> {
    seq![("@COMMAND@"@, COMMAND_FILE@), ("@SCRIPT@"@, COMMAND_POWERSHELL_SCRIPT_FILE@)]
}

/// A PowerShell template filled in.
pub fn render_powershell(template: &str) -> (text: String)
    ensures
        text@ == render_text(template@, powershell_pairs()),
{
    let extra = vec![("@COMMAND@", COMMAND_FILE), ("@SCRIPT@", COMMAND_POWERSHELL_SCRIPT_FILE)];
    proof {
        reveal_strlit("@COMMAND@");
        reveal_strlit("@SCRIPT@");
    }
    assert(pairs_view(extra@) =~= powershell_pairs());
    render(template, &extra)
}

/// The placeholders of the batch dispatcher and their values.
pub open spec fn cmd_dispatcher_pairs() -> Seq<(Seq<char>, Seq<char>)> {
    seq![
        ("@DISPATCH@"@, DISPATCH_FILE@),
        ("@SESSION_COMMANDS@"@, SESSION_COMMANDS_DIRECTORY@),
        ("@SESSION_STATE@"@, SESSION_STATE_DIRECTORY@),
        ("@WORKING_DIRECTORY@"@, COMMAND_WORKING_DIRECTORY_FILE@),
    ]
}

/// The batch dispatcher before its variable markers are rendered.
pub open spec fn cmd_dispatcher_template() -> Seq<char> {
    render_text(CMD_DISPATCHER@, cmd_dispatcher_pairs())
}

/// The batch dispatcher `f.cmd`, with its variables in a fresh namespace.
pub fn cmd_dispatcher() -> (text: Result<String, ShellError>)
    ensures
        rendered_in_some_namespace(text, cmd_dispatcher_template()),
{
    let extra = vec![
        ("@DISPATCH@", DISPATCH_FILE),
        ("@SESSION_COMMANDS@", SESSION_COMMANDS_DIRECTORY),
        ("@SESSION_STATE@", SESSION_STATE_DIRECTORY),
        ("@WORKING_DIRECTORY@", COMMAND_WORKING_DIRECTORY_FILE),
    ];
    proof {
        reveal_strlit("@DISPATCH@");
        reveal_strlit("@SESSION_COMMANDS@");
        reveal_strlit("@SESSION_STATE@");
        reveal_strlit("@WORKING_DIRECTORY@");
    }
    assert(pairs_view(extra@) =~= cmd_dispatcher_pairs());
    let rendered = render(CMD_DISPATCHER, &extra);
    render_in_new_namespace(rendered.as_str())
}

pub const TEMPLATE_0: &'static str = r"function f {
    $@VAR_dispatchFile@ = Join-Path $env:";
pub const TEMPLATE_1: &'static str = " '";
pub const TEMPLATE_2: &'static str = r"\";
pub const TEMPLATE_3: &'static str = r"'
    $@VAR_commandId@ = [IO.File]::ReadAllText($@VAR_dispatchFile@, [Text.Encoding]::UTF8)
    [IO.File]::Delete($@VAR_dispatchFile@)
    $@VAR_directory@ = Join-Path $env:";
pub const TEMPLATE_4: &'static str = " ('";
pub const TEMPLATE_5: &'static str = r"\' + $@VAR_commandId@)
    $@VAR_workingDirectoryFile@ = Join-Path $@VAR_directory@ '";
pub const TEMPLATE_6: &'static str = r"\";
pub const TEMPLATE_7: &'static str = r"'
    $@VAR_workingDirectory@ = [IO.File]::ReadAllText($@VAR_workingDirectoryFile@, [Text.Encoding]::UTF8)
    ";
pub const TEMPLATE_8: &'static str = r" -@VAR_CommandId@ $@VAR_commandId@ -@VAR_Directory@ $@VAR_directory@ -@VAR_WorkingDirectory@ $@VAR_workingDirectory@
}";
pub const TEMPLATE_9: &'static str = r#"f() {
    local @VAR_dispatch_file@="${"#;
pub const TEMPLATE_10: &'static str = "}/";
pub const TEMPLATE_11: &'static str = "/";
pub const TEMPLATE_12: &'static str = r#""
    local @VAR_command_id@
    @VAR_command_id@="$(cat "$@VAR_dispatch_file@")" || return 1
    rm -f -- "$@VAR_dispatch_file@" || return 1
    local @VAR_native_directory@="${"#;
pub const TEMPLATE_13: &'static str = "}/";
pub const TEMPLATE_14: &'static str = r#"/$@VAR_command_id@"
    local @VAR_working_directory_file@="$@VAR_native_directory@/"#;
pub const TEMPLATE_15: &'static str = "/";
pub const TEMPLATE_16: &'static str = r#""
    local @VAR_working_directory@
    @VAR_working_directory@="$(cat "$@VAR_working_directory_file@")" || return 1
    "#;
pub const TEMPLATE_17: &'static str = r#" "$@VAR_command_id@" "$@VAR_native_directory@" "$@VAR_working_directory@"
}"#;
pub const TEMPLATE_18: &'static str = r"def --env f [] {
    let @VAR_dispatch_file@ = ($env.";
pub const TEMPLATE_19: &'static str = " | path join '";
pub const TEMPLATE_20: &'static str = "' '";
pub const TEMPLATE_21: &'static str = r"')
    let @VAR_command_id@ = (open --raw $@VAR_dispatch_file@)
    rm --force $@VAR_dispatch_file@
    let @VAR_directory@ = ($env.";
pub const TEMPLATE_22: &'static str = " | path join '";
pub const TEMPLATE_23: &'static str = r"' $@VAR_command_id@)
    let @VAR_working_directory@ = (open --raw ($@VAR_directory@ | path join '";
pub const TEMPLATE_24: &'static str = "' '";
pub const TEMPLATE_25: &'static str = "'))\n    ";
pub const TEMPLATE_26: &'static str = r" $@VAR_command_id@ $@VAR_directory@ $@VAR_working_directory@
}";
/// The batch dispatcher `f.cmd`, before its placeholders and variable markers are filled in.
pub const CMD_DISPATCHER: &'static str = r#"@echo off
set "@VAR_dispatch_file@=%FUNCTERM_SESSION_ROOT%\@SESSION_STATE@\@DISPATCH@"
set /p "@VAR_command_id@="<"%@VAR_dispatch_file@%" || exit /b 1
del /q "%@VAR_dispatch_file@%" || exit /b 1
set "@VAR_directory@=%FUNCTERM_SESSION_ROOT%\@SESSION_COMMANDS@\%@VAR_command_id@%"
set /p "@VAR_working_directory@="<"%@VAR_directory@%\@INPUT_DIR@\@WORKING_DIRECTORY@" || exit /b 1
call "%FUNCTERM_SESSION_ROOT%\startup\cmd_run.bat" "%@VAR_command_id@%" "%@VAR_directory@%" "%@VAR_working_directory@%"
exit /b %ERRORLEVEL%
"#;

/// PowerShell lines that copy the variables, functions and aliases a command defined into the global scope.
pub const POWERSHELL_STATE_PROMOTION: &'static str = r"        foreach ($@VAR_variable@ in Get-Variable -Scope Local) {
            if (
                $@VAR_variable@.Name -notin $@VAR_existingVariables@ -and
                $@VAR_variable@.Options -notmatch 'ReadOnly|Constant'
            ) {
                Set-Variable -Scope Global -Name $@VAR_variable@.Name -Value $@VAR_variable@.Value
            }
        }
        foreach ($@VAR_function@ in Get-ChildItem Function:) {
            if (
                -not $@VAR_existingFunctions@.ContainsKey($@VAR_function@.Name) -or
                $@VAR_existingFunctions@[$@VAR_function@.Name] -ne $@VAR_function@.ScriptBlock.ToString()
            ) {
                Set-Item -LiteralPath ('Function:\global:' + $@VAR_function@.Name) -Value $@VAR_function@.ScriptBlock
            }
        }
        foreach ($@VAR_alias@ in Get-ChildItem Alias:) {
            if (
                -not $@VAR_existingAliases@.ContainsKey($@VAR_alias@.Name) -or
                $@VAR_existingAliases@[$@VAR_alias@.Name] -ne $@VAR_alias@.Definition
            ) {
                Set-Alias -Scope Global -Name $@VAR_alias@.Name -Value $@VAR_alias@.Definition
            }
        }";


/// The PowerShell function `f`: it takes the dispatched command identifier from the session state, reads the command's working directory and runs it.
pub open spec fn powershell_dispatcher_text() -> Seq<char> {
    TEMPLATE_0@ + SESSION_ROOT_ENV@ + TEMPLATE_1@ + SESSION_STATE_DIRECTORY@ + TEMPLATE_2@ + DISPATCH_FILE@ + TEMPLATE_3@ + SESSION_ROOT_ENV@ + TEMPLATE_4@ + SESSION_COMMANDS_DIRECTORY@ + TEMPLATE_5@ + COMMAND_INPUT_DIRECTORY@ + TEMPLATE_6@ + COMMAND_WORKING_DIRECTORY_FILE@ + TEMPLATE_7@ + POWERSHELL_COMMAND_FUNCTION@ + TEMPLATE_8@
}

/// The PowerShell function `f`: it takes the dispatched command identifier from the session state, reads the command's working directory and runs it.
pub fn powershell_dispatcher() -> (text: String)
    ensures
        text@ == powershell_dispatcher_text(),
{
    let mut text = String::from_str(TEMPLATE_0);
    text.append(SESSION_ROOT_ENV);
    text.append(TEMPLATE_1);
    text.append(SESSION_STATE_DIRECTORY);
    text.append(TEMPLATE_2);
    text.append(DISPATCH_FILE);
    text.append(TEMPLATE_3);
    text.append(SESSION_ROOT_ENV);
    text.append(TEMPLATE_4);
    text.append(SESSION_COMMANDS_DIRECTORY);
    text.append(TEMPLATE_5);
    text.append(COMMAND_INPUT_DIRECTORY);
    text.append(TEMPLATE_6);
    text.append(COMMAND_WORKING_DIRECTORY_FILE);
    text.append(TEMPLATE_7);
    text.append(POWERSHELL_COMMAND_FUNCTION);
    text.append(TEMPLATE_8);
    text
}

/// The POSIX shell function `f`: it takes the dispatched command identifier from the session state, reads the command's working directory and runs it.
pub open spec fn posix_dispatcher_text() -> Seq<char> {
    TEMPLATE_9@ + SESSION_ROOT_ENV@ + TEMPLATE_10@ + SESSION_STATE_DIRECTORY@ + TEMPLATE_11@ + DISPATCH_FILE@ + TEMPLATE_12@ + SESSION_ROOT_ENV@ + TEMPLATE_13@ + SESSION_COMMANDS_DIRECTORY@ + TEMPLATE_14@ + COMMAND_INPUT_DIRECTORY@ + TEMPLATE_15@ + COMMAND_WORKING_DIRECTORY_FILE@ + TEMPLATE_16@ + POSIX_COMMAND_FUNCTION@ + TEMPLATE_17@
}

/// The POSIX shell function `f`: it takes the dispatched command identifier from the session state, reads the command's working directory and runs it.
pub fn posix_dispatcher() -> (text: String)
    ensures
        text@ == posix_dispatcher_text(),
{
    let mut text = String::from_str(TEMPLATE_9);
    text.append(SESSION_ROOT_ENV);
    text.append(TEMPLATE_10);
    text.append(SESSION_STATE_DIRECTORY);
    text.append(TEMPLATE_11);
    text.append(DISPATCH_FILE);
    text.append(TEMPLATE_12);
    text.append(SESSION_ROOT_ENV);
    text.append(TEMPLATE_13);
    text.append(SESSION_COMMANDS_DIRECTORY);
    text.append(TEMPLATE_14);
    text.append(COMMAND_INPUT_DIRECTORY);
    text.append(TEMPLATE_15);
    text.append(COMMAND_WORKING_DIRECTORY_FILE);
    text.append(TEMPLATE_16);
    text.append(POSIX_COMMAND_FUNCTION);
    text.append(TEMPLATE_17);
    text
}

/// The Nushell command `f`: it takes the dispatched command identifier from the session state, reads the command's working directory and runs it.
pub open spec fn nushell_dispatcher_text() -> Seq<char> {
    TEMPLATE_18@ + SESSION_ROOT_ENV@ + TEMPLATE_19@ + SESSION_STATE_DIRECTORY@ + TEMPLATE_20@ + DISPATCH_FILE@ + TEMPLATE_21@ + SESSION_ROOT_ENV@ + TEMPLATE_22@ + SESSION_COMMANDS_DIRECTORY@ + TEMPLATE_23@ + COMMAND_INPUT_DIRECTORY@ + TEMPLATE_24@ + COMMAND_WORKING_DIRECTORY_FILE@ + TEMPLATE_25@ + POSIX_COMMAND_FUNCTION@ + TEMPLATE_26@
}

/// The Nushell command `f`: it takes the dispatched command identifier from the session state, reads the command's working directory and runs it.
pub fn nushell_dispatcher() -> (text: String)
    ensures
        text@ == nushell_dispatcher_text(),
{
    let mut text = String::from_str(TEMPLATE_18);
    text.append(SESSION_ROOT_ENV);
    text.append(TEMPLATE_19);
    text.append(SESSION_STATE_DIRECTORY);
    text.append(TEMPLATE_20);
    text.append(DISPATCH_FILE);
    text.append(TEMPLATE_21);
    text.append(SESSION_ROOT_ENV);
    text.append(TEMPLATE_22);
    text.append(SESSION_COMMANDS_DIRECTORY);
    text.append(TEMPLATE_23);
    text.append(COMMAND_INPUT_DIRECTORY);
    text.append(TEMPLATE_24);
    text.append(COMMAND_WORKING_DIRECTORY_FILE);
    text.append(TEMPLATE_25);
    text.append(POSIX_COMMAND_FUNCTION);
    text.append(TEMPLATE_26);
    text
}
} // verus!
