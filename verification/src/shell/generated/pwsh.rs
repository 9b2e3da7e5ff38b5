//! The PowerShell wrapper of the first generation, which decodes the command
//! from a Base64 payload file and writes the done record itself.
use crate::shell::wrappers::template::{pairs_view, replace_pairs, substitute};
use crate::contract::{
    COMMAND_DIRECTORY_ENV, COMMAND_ID_ENV, COMMAND_PAYLOAD_FILE, DONE_FILE, DONE_TEMP_FILE,
    POWERSHELL_COMMAND_FUNCTION, STDERR_FILE, STDOUT_FILE,
};
use vstd::prelude::*;

verus! {

/// The wrapper text, before its placeholders are filled in.
pub const TEMPLATE: &'static str = r"function Set-FuncTermShimPath {
    if ([string]::IsNullOrEmpty($env:FUNCTERM_SHIM_DIR)) {
        return
    }
    $separator = [string][IO.Path]::PathSeparator
    $entries = $env:PATH -split [Regex]::Escape($separator)
    $remaining = $entries | Where-Object {
        -not [string]::Equals($_, $env:FUNCTERM_SHIM_DIR, [StringComparison]::OrdinalIgnoreCase)
    }
    $env:PATH = (@($env:FUNCTERM_SHIM_DIR) + @($remaining)) -join $separator
}
Set-FuncTermShimPath

if (Get-Command Set-PSReadLineOption -ErrorAction SilentlyContinue) {
    Set-PSReadLineOption -HistorySaveStyle SaveNothing
    $setPsReadLineOption = Get-Command Set-PSReadLineOption
    if ($setPsReadLineOption.Parameters.ContainsKey('AddToHistoryHandler')) {
        Set-PSReadLineOption -AddToHistoryHandler {
            param([string] $line)
            return $false
        }
    }
}
Clear-History

function @FUNCTION@ {
    param(
        [Parameter(Mandatory = $true)][string]$CommandId,
        [Parameter(Mandatory = $true)][string]$Directory,
        [Parameter(Mandatory = $true)][string]$WorkingDirectory
    )
    New-Item -ItemType Directory -Force -Path $Directory | Out-Null
    $stdoutFile = Join-Path $Directory '@STDOUT@'
    $stderrFile = Join-Path $Directory '@STDERR@'
    $payloadFile = Join-Path $Directory '@PAYLOAD@'
    $doneFile = Join-Path $Directory '@DONE@'
    $doneTempFile = Join-Path $Directory '@DONE_TEMP@'
    $previousCommandId = $env:@COMMAND_ID_ENV@
    $previousCommandDirectory = $env:@COMMAND_DIR_ENV@
    $env:@COMMAND_ID_ENV@ = $CommandId
    $env:@COMMAND_DIR_ENV@ = $Directory
    Set-Content -LiteralPath $stdoutFile -Value '' -NoNewline -Encoding utf8
    Set-Content -LiteralPath $stderrFile -Value '' -NoNewline -Encoding utf8
    try {
        Set-Location -LiteralPath $WorkingDirectory
        $global:LASTEXITCODE = $null
        $Payload = Get-Content -LiteralPath $payloadFile -Raw -Encoding utf8
        $script = [Text.Encoding]::UTF8.GetString([Convert]::FromBase64String($Payload))
        & ([scriptblock]::Create($script)) 2> $stderrFile | Tee-Object -FilePath $stdoutFile
        if ($null -ne $global:LASTEXITCODE) {
            $exitCode = [int]$global:LASTEXITCODE
        }
        elseif ($?) {
            $exitCode = 0
        }
        else {
            $exitCode = 1
        }
        if ((Test-Path -LiteralPath $stderrFile) -and ((Get-Item -LiteralPath $stderrFile).Length -gt 0)) {
            Get-Content -LiteralPath $stderrFile | ForEach-Object { [Console]::Error.WriteLine($_) }
        }
    }
    catch {
        $_ | Out-File -LiteralPath $stderrFile -Append -Encoding utf8
        [Console]::Error.WriteLine($_)
        $exitCode = 1
    }
    $done = @{
        command_id   = $CommandId
        exit_code    = $exitCode
        cwd          = (Get-Location).Path
        completed_at = (Get-Date).ToUniversalTime().ToString('o')
    } | ConvertTo-Json -Compress
    Set-Content -LiteralPath $doneTempFile -Value $done -Encoding utf8
    Move-Item -LiteralPath $doneTempFile -Destination $doneFile -Force
    if ($null -eq $previousCommandId) {
        Remove-Item Env:@COMMAND_ID_ENV@ -ErrorAction SilentlyContinue
    }
    else {
        $env:@COMMAND_ID_ENV@ = $previousCommandId
    }
    if ($null -eq $previousCommandDirectory) {
        Remove-Item Env:@COMMAND_DIR_ENV@ -ErrorAction SilentlyContinue
    }
    else {
        $env:@COMMAND_DIR_ENV@ = $previousCommandDirectory
    }
}
";

/// In this wrapper, `@STDOUT@` stands for the standard output file and
/// `@STDERR@` for the standard error file, and no placeholder is given two
/// values.
pub proof fn lemma_output_placeholders()
    ensures
        wrapper_pairs().contains(("@STDOUT@"@, STDOUT_FILE@)),
        wrapper_pairs().contains(("@STDERR@"@, STDERR_FILE@)),
        forall|i: int, j: int|
            0 <= i < j < wrapper_pairs().len() ==> #[trigger] wrapper_pairs()[i].0 != #[trigger] wrapper_pairs()[j].0,
{
    reveal_strlit("@COMMAND_DIR_ENV@");
    reveal_strlit("@COMMAND_ID_ENV@");
    reveal_strlit("@DONE@");
    reveal_strlit("@HELPER_ENV@");
    reveal_strlit("@SCRIPT@");
    reveal_strlit("@STARTED@");
    reveal_strlit("@DONE_TEMP@");
    reveal_strlit("@FUNCTION@");
    reveal_strlit("@PAYLOAD@");
    reveal_strlit("@STDERR@");
    reveal_strlit("@STDOUT@");
    let pairs = wrapper_pairs();
    assert(pairs[7] == ("@STDOUT@"@, STDOUT_FILE@));
    assert(pairs[6] == ("@STDERR@"@, STDERR_FILE@));
    assert forall|i: int, j: int| 0 <= i < j < pairs.len() implies #[trigger] pairs[i].0 != #[trigger] pairs[j].0 by {
        let a = pairs[i].0;
        let b = pairs[j].0;
        if a == b {
            assert(a.len() == b.len());
            assert(a[1] == b[1]);
            assert(a[2] == b[2]);
            assert(a[3] == b[3]);
            assert(a[4] == b[4]);
            assert(a[6] == b[6]);
        }
    }
}

/// The placeholders of the template and their values.
pub open spec fn wrapper_pairs() -> Seq<(Seq<char>, Seq<char>)> {
    seq![
        ("@COMMAND_DIR_ENV@"@, COMMAND_DIRECTORY_ENV@),
        ("@COMMAND_ID_ENV@"@, COMMAND_ID_ENV@),
        ("@DONE@"@, DONE_FILE@),
        ("@DONE_TEMP@"@, DONE_TEMP_FILE@),
        ("@FUNCTION@"@, POWERSHELL_COMMAND_FUNCTION@),
        ("@PAYLOAD@"@, COMMAND_PAYLOAD_FILE@),
        ("@STDERR@"@, STDERR_FILE@),
        ("@STDOUT@"@, STDOUT_FILE@),
    ]
}

/// The PowerShell wrapper with its placeholders filled in.
pub open spec fn wrapper_text() -> Seq<char> {
    replace_pairs(TEMPLATE@, wrapper_pairs())
}

/// The PowerShell wrapper with its placeholders filled in.
pub fn wrapper() -> (text: String)
    ensures
        text@ == wrapper_text(),
{
    let pairs = vec![
        ("@COMMAND_DIR_ENV@", COMMAND_DIRECTORY_ENV),
        ("@COMMAND_ID_ENV@", COMMAND_ID_ENV),
        ("@DONE@", DONE_FILE),
        ("@DONE_TEMP@", DONE_TEMP_FILE),
        ("@FUNCTION@", POWERSHELL_COMMAND_FUNCTION),
        ("@PAYLOAD@", COMMAND_PAYLOAD_FILE),
        ("@STDERR@", STDERR_FILE),
        ("@STDOUT@", STDOUT_FILE),
    ];
    proof {
        reveal_strlit("@COMMAND_DIR_ENV@");
        reveal_strlit("@COMMAND_ID_ENV@");
        reveal_strlit("@DONE@");
        reveal_strlit("@DONE_TEMP@");
        reveal_strlit("@FUNCTION@");
        reveal_strlit("@PAYLOAD@");
        reveal_strlit("@STDERR@");
        reveal_strlit("@STDOUT@");
    }
    assert(pairs_view(pairs@) =~= wrapper_pairs());
    substitute(TEMPLATE, &pairs)
}

} // verus!
