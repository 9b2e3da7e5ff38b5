//! Publishing that a command started, and the PowerShell shim helpers.
use crate::contract::HELPER_EXECUTABLE_ENV;
use crate::shell::generated::posix_dialect::{PosixDialect, emulate_text};
use vstd::prelude::*;

verus! {

/// The PowerShell function that publishes a command's start through the helper.
pub const POWERSHELL: &'static str = r"function Publish-FuncTermStart {
	    param(
	        [Parameter(Mandatory = $true)][string]$@VAR_CommandId@,
	        [Parameter(Mandatory = $true)][string]$@VAR_Directory@
	    )
    if ([string]::IsNullOrEmpty($env:@HELPER_ENV@)) {
        throw '@HELPER_ENV@ is not set'
    }
	    $@VAR_startInfo@ = [Diagnostics.ProcessStartInfo]::new($env:@HELPER_ENV@)
	    $@VAR_startInfo@.UseShellExecute = $false
	    $@VAR_startInfo@.ArgumentList.Add('internal-write-start')
	    $@VAR_startInfo@.ArgumentList.Add('--command-id')
	    $@VAR_startInfo@.ArgumentList.Add($@VAR_CommandId@)
	    $@VAR_startInfo@.ArgumentList.Add('--directory')
	    $@VAR_startInfo@.ArgumentList.Add($@VAR_Directory@)
	    $@VAR_startProcess@ = $null
	    try {
	        $@VAR_startProcess@ = [Diagnostics.Process]::Start($@VAR_startInfo@)
	        if ($null -eq $@VAR_startProcess@) {
	            throw 'command start helper did not start a process'
	        }
	        $@VAR_startProcess@.WaitForExit()
	        if ($@VAR_startProcess@.ExitCode -ne 0) {
	            throw ('command start helper failed with exit code {0}' -f $@VAR_startProcess@.ExitCode)
	        }
	    }
	    finally {
	        if ($null -ne $@VAR_startProcess@) {
	            $@VAR_startProcess@.Dispose()
	        }
    }
}";

/// The PowerShell functions that put the shim directory first on `PATH` and
/// make sure the shims exist.
pub const POWERSHELL_SHIMS: &'static str = r"function Set-FuncTermShimPath {
    if ([string]::IsNullOrEmpty($env:FUNCTERM_SHIM_DIR)) {
        return
    }
	    $@VAR_separator@ = [string][IO.Path]::PathSeparator
	    $@VAR_entries@ = $env:PATH -split [Regex]::Escape($@VAR_separator@)
	    $@VAR_remaining@ = $@VAR_entries@ | Where-Object {
	        -not [string]::Equals($_, $env:FUNCTERM_SHIM_DIR, [StringComparison]::OrdinalIgnoreCase)
	    }
	    $env:PATH = (@($env:FUNCTERM_SHIM_DIR) + @($@VAR_remaining@)) -join $@VAR_separator@
}
Set-FuncTermShimPath
function Ensure-FuncTermShims {
    if ([string]::IsNullOrEmpty($env:FUNCTERM_SHIM_DIR)) {
        return
    }
    if ([string]::IsNullOrEmpty($env:@HELPER_ENV@)) {
        throw '@HELPER_ENV@ is not set'
    }
	    $shimStart = [Diagnostics.ProcessStartInfo]::new($env:@HELPER_ENV@)
	    $shimStart.UseShellExecute = $false
	    $shimStart.RedirectStandardOutput = $true
	    $shimStart.RedirectStandardError = $true
	    $shimStart.ArgumentList.Add('internal-ensure-shims')
	    $shimStart.ArgumentList.Add('--directory')
	    $shimStart.ArgumentList.Add($env:FUNCTERM_SHIM_DIR)
	    try {
	        $shimProcess = [Diagnostics.Process]::Start($shimStart)
    }
    catch {
        throw ('failed to start FuncTerm shell shim helper (helper: {0}; shim directory: {1}): {2}' -f $env:@HELPER_ENV@, $env:FUNCTERM_SHIM_DIR, $_.Exception.Message)
    }
	    if ($null -eq $shimProcess) {
        throw ('FuncTerm shell shim helper did not start a process (helper: {0}; shim directory: {1})' -f $env:@HELPER_ENV@, $env:FUNCTERM_SHIM_DIR)
	    }
	    try {
	        $@VAR_shimStdoutRead@ = $shimProcess.StandardOutput.ReadToEndAsync()
	        $@VAR_shimStderrRead@ = $shimProcess.StandardError.ReadToEndAsync()
	        $shimProcess.WaitForExit()
	        $@VAR_shimStdout@ = $@VAR_shimStdoutRead@.GetAwaiter().GetResult().Trim()
	        $@VAR_shimStderr@ = $@VAR_shimStderrRead@.GetAwaiter().GetResult().Trim()
	        $shimExitCode = $shimProcess.ExitCode
    }
    catch {
        throw ('failed while waiting for FuncTerm shell shim helper (helper: {0}; shim directory: {1}): {2}' -f $env:@HELPER_ENV@, $env:FUNCTERM_SHIM_DIR, $_.Exception.Message)
	    }
	    finally {
	        $shimProcess.Dispose()
	    }
	    if ($shimExitCode -ne 0) {
	        $@VAR_shimDetails@ = @()
	        if (-not [string]::IsNullOrEmpty($@VAR_shimStderr@)) {
	            $@VAR_shimDetails@ += 'stderr: ' + $@VAR_shimStderr@
	        }
	        if (-not [string]::IsNullOrEmpty($@VAR_shimStdout@)) {
	            $@VAR_shimDetails@ += 'stdout: ' + $@VAR_shimStdout@
	        }
	        if ($@VAR_shimDetails@.Count -eq 0) {
	            $@VAR_shimDetails@ += 'no stdout or stderr output'
	        }
	        throw ('failed to ensure FuncTerm shell shims (helper: {0}; shim directory: {1}; exit code {2}): {3}' -f $env:@HELPER_ENV@, $env:FUNCTERM_SHIM_DIR, $shimExitCode, ($@VAR_shimDetails@ -join [Environment]::NewLine))
    }
}";

pub const START_0: &'static str = "functerm_publish_start() {\n";
pub const START_1: &'static str = r#"    local @VAR_command_id@="$1"
	    local @VAR_native_directory@="$2"
	    local @VAR_helper@="${"#;
pub const START_2: &'static str = r#"-}"
	    if [ -z "$@VAR_helper@" ]; then
	        printf '%s is not set\n' ""#;
pub const START_3: &'static str = r#"" >&2
	        return 1
	    fi
	    @VAR_helper@="$(functerm_posix_path "$@VAR_helper@")" || return 1
	    "$@VAR_helper@" internal-write-start \
	        --command-id "$@VAR_command_id@" \
	        --directory "$@VAR_native_directory@"
	}"#;

/// The POSIX function `functerm_publish_start`, written for `dialect`.
pub open spec fn publish_start_text(dialect: PosixDialect) -> Seq<char> {
    START_0@ + emulate_text(dialect) + START_1@ + HELPER_EXECUTABLE_ENV@ + START_2@ + HELPER_EXECUTABLE_ENV@ + START_3@
}

/// The POSIX function `functerm_publish_start`, written for `dialect`.
pub fn posix(dialect: PosixDialect) -> (text: String)
    ensures
        text@ == publish_start_text(dialect),
{
    let mut text = String::from_str(START_0);
    text.append(dialect.emulate());
    text.append(START_1);
    text.append(HELPER_EXECUTABLE_ENV);
    text.append(START_2);
    text.append(HELPER_EXECUTABLE_ENV);
    text.append(START_3);
    text
}

} // verus!
