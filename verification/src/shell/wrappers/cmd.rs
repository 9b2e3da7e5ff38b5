//! The batch command runner of the first wrapper generation, which reads the
//! command script and the done record from the record directory itself.
use crate::shell::wrappers::template::{pairs_view, replace_pairs, substitute};
use crate::contract::{
    COMMAND_DIRECTORY_ENV, COMMAND_ID_ENV, COMMAND_SCRIPT_FILE, DONE_FILE, HELPER_EXECUTABLE_ENV,
    STARTED_FILE, STDERR_FILE, STDOUT_FILE,
};
use vstd::prelude::*;

verus! {

/// The wrapper text, before its placeholders are filled in.
pub const TEMPLATE: &'static str = r#"@echo off
setlocal DisableDelayedExpansion
set "command_id=%~1"
set "directory=%~2"
set "working_directory=%~3"
if not exist "%directory%" mkdir "%directory%" || exit /b 1
set "stdout_file=%directory%\@STDOUT@"
set "stderr_file=%directory%\@STDERR@"
set "started_file=%directory%\@STARTED@"
set "script_file=%directory%\@SCRIPT@"
set "done_file=%directory%\@DONE@"
set "had_previous_command_id="
set "had_previous_command_directory="
if defined @COMMAND_ID_ENV@ set "had_previous_command_id=1"
if defined @COMMAND_DIR_ENV@ set "had_previous_command_directory=1"
set "previous_command_id=%@COMMAND_ID_ENV@%"
set "previous_command_directory=%@COMMAND_DIR_ENV@%"
set "@COMMAND_ID_ENV@=%command_id%"
set "@COMMAND_DIR_ENV@=%directory%"
if not "%FUNCTERM_SHIM_DIR%"=="" (
    if "%@HELPER_ENV@%"=="" (
        echo @HELPER_ENV@ is not set 1>&2
        call :publish_done 1
        call :restore_command_environment
        exit /b 1
    )
    "%@HELPER_ENV@%" internal-ensure-shims --directory "%FUNCTERM_SHIM_DIR%"
    if errorlevel 1 (
        call :publish_done 1
        call :restore_command_environment
        exit /b 1
    )
)
call :prepend_shim_path
cd /d "%working_directory%"
if errorlevel 1 (
    call :publish_done 1
    call :restore_command_environment
    exit /b 1
)
type nul > "%started_file%"
call "%script_file%" > "%stdout_file%" 2> "%stderr_file%"
set "exit_code=%ERRORLEVEL%"
if exist "%stdout_file%" type "%stdout_file%"
if exist "%stderr_file%" type "%stderr_file%" 1>&2
if not exist "%directory%" mkdir "%directory%" || exit /b 1
call :publish_done %exit_code%
if errorlevel 1 (
    call :restore_command_environment
    exit /b 1
)
call :restore_command_environment
exit /b %exit_code%
:prepend_shim_path
if "%FUNCTERM_SHIM_DIR%"=="" exit /b 0
set "PATH=%FUNCTERM_SHIM_DIR%;%PATH%"
exit /b 0
:publish_done
if exist "%done_file%" exit /b 0
if "%@HELPER_ENV@%"=="" (
    echo @HELPER_ENV@ is not set 1>&2
    exit /b 1
)
"%@HELPER_ENV@%" internal-write-done --command-id "%command_id%" --exit-code "%~1" --cwd "%CD%" --directory "%directory%"
exit /b %ERRORLEVEL%
:restore_command_environment
if defined had_previous_command_id (
    set "@COMMAND_ID_ENV@=%previous_command_id%"
) else (
    set "@COMMAND_ID_ENV@="
)
if defined had_previous_command_directory (
    set "@COMMAND_DIR_ENV@=%previous_command_directory%"
) else (
    set "@COMMAND_DIR_ENV@="
)
exit /b 0
"#;

/// In this wrapper, `@STDOUT@` stands for the standard output file and
/// `@STDERR@` for the standard error file, and no placeholder is given two
/// values.
pub proof fn lemma_output_placeholders()
    ensures
        wrapper_pairs().contains(("@STDOUT@"@, STDOUT_FILE@)),
        wrapper_pairs().contains(("@STDERR@"@, STDERR_FILE@)),
        forall|i: int, j: int|
            0 <= i < j < wrapper_pairs().len() ==> #[trigger] wrapper_pairs()[i].0 != #[trigger] wrapper_pairs()[j].0,
{
    reveal_strlit("@COMMAND_DIR_ENV@");
    reveal_strlit("@COMMAND_ID_ENV@");
    reveal_strlit("@DONE@");
    reveal_strlit("@HELPER_ENV@");
    reveal_strlit("@SCRIPT@");
    reveal_strlit("@STARTED@");
    reveal_strlit("@DONE_TEMP@");
    reveal_strlit("@FUNCTION@");
    reveal_strlit("@PAYLOAD@");
    reveal_strlit("@STDERR@");
    reveal_strlit("@STDOUT@");
    let pairs = wrapper_pairs();
    assert(pairs[7] == ("@STDOUT@"@, STDOUT_FILE@));
    assert(pairs[5] == ("@STDERR@"@, STDERR_FILE@));
    assert forall|i: int, j: int| 0 <= i < j < pairs.len() implies #[trigger] pairs[i].0 != #[trigger] pairs[j].0 by {
        let a = pairs[i].0;
        let b = pairs[j].0;
        if a == b {
            assert(a.len() == b.len());
            assert(a[1] == b[1]);
            assert(a[2] == b[2]);
            assert(a[3] == b[3]);
            assert(a[4] == b[4]);
            assert(a[6] == b[6]);
        }
    }
}

/// The placeholders of the template and their values.
pub open spec fn wrapper_pairs() -> Seq<(Seq<char>, Seq<char>)> {
    seq![
        ("@COMMAND_DIR_ENV@"@, COMMAND_DIRECTORY_ENV@),
        ("@COMMAND_ID_ENV@"@, COMMAND_ID_ENV@),
        ("@DONE@"@, DONE_FILE@),
        ("@HELPER_ENV@"@, HELPER_EXECUTABLE_ENV@),
        ("@SCRIPT@"@, COMMAND_SCRIPT_FILE@),
        ("@STDERR@"@, STDERR_FILE@),
        ("@STARTED@"@, STARTED_FILE@),
        ("@STDOUT@"@, STDOUT_FILE@),
    ]
}

/// The batch command runner with its placeholders filled in.
pub open spec fn wrapper_text() -> Seq<char> {
    replace_pairs(TEMPLATE@, wrapper_pairs())
}

/// The batch command runner with its placeholders filled in.
pub fn wrapper() -> (text: String)
    ensures
        text@ == wrapper_text(),
{
    let pairs = vec![
        ("@COMMAND_DIR_ENV@", COMMAND_DIRECTORY_ENV),
        ("@COMMAND_ID_ENV@", COMMAND_ID_ENV),
        ("@DONE@", DONE_FILE),
        ("@HELPER_ENV@", HELPER_EXECUTABLE_ENV),
        ("@SCRIPT@", COMMAND_SCRIPT_FILE),
        ("@STDERR@", STDERR_FILE),
        ("@STARTED@", STARTED_FILE),
        ("@STDOUT@", STDOUT_FILE),
    ];
    proof {
        reveal_strlit("@COMMAND_DIR_ENV@");
        reveal_strlit("@COMMAND_ID_ENV@");
        reveal_strlit("@DONE@");
        reveal_strlit("@HELPER_ENV@");
        reveal_strlit("@SCRIPT@");
        reveal_strlit("@STDERR@");
        reveal_strlit("@STARTED@");
        reveal_strlit("@STDOUT@");
    }
    assert(pairs_view(pairs@) =~= wrapper_pairs());
    substitute(TEMPLATE, &pairs)
}

} // verus!
