//! Names shared between the controlling process and the shell wrappers: the
//! layout of a command's record directory, the environment variables that
//! carry a running command's identity, and the functions the wrappers define.
use vstd::prelude::*;

verus! {

/// The POSIX and Nushell function that runs one dispatched command.
pub const POSIX_COMMAND_FUNCTION: &'static str = "functerm_run_command";

/// The PowerShell function that runs one dispatched command.
pub const POWERSHELL_COMMAND_FUNCTION: &'static str = "Invoke-FuncTermCommand";

/// The short command typed into a shell to run the dispatched command.
pub const DISPATCHER_COMMAND: &'static str = "f";

/// Environment variable holding the identifier of the running command.
pub const COMMAND_ID_ENV: &'static str = "FUNCTERM_COMMAND_ID";

/// Environment variable holding the record directory of the running command.
pub const COMMAND_DIRECTORY_ENV: &'static str = "FUNCTERM_COMMAND_DIRECTORY";

/// Environment variable holding the helper executable that publishes records.
pub const HELPER_EXECUTABLE_ENV: &'static str = "FUNCTERM_HELPER_EXECUTABLE";

/// Sub-directory of a command record holding what the command reads.
pub const COMMAND_INPUT_DIRECTORY: &'static str = "input";

/// Sub-directory of a command record holding what the command printed.
pub const COMMAND_OUTPUT_DIRECTORY: &'static str = "output";

/// Sub-directory of a command record holding its progress markers.
pub const COMMAND_STATE_DIRECTORY: &'static str = "state";

/// File receiving the command's standard output.
pub const STDOUT_FILE: &'static str = "stdout.txt";

/// File receiving the command's standard error.
pub const STDERR_FILE: &'static str = "stderr.txt";

/// File published once the command has completed.
pub const DONE_FILE: &'static str = "done.json";

/// File written first and then renamed to the done file.
pub const DONE_TEMP_FILE: &'static str = "done.json.tmp";

/// File whose presence marks that the command started.
pub const STARTED_FILE: &'static str = "started";

/// File holding the command text.
pub const COMMAND_FILE: &'static str = "command.txt";

/// File holding the command as a batch script.
pub const COMMAND_SCRIPT_FILE: &'static str = "command.bat";

/// File holding the command as a PowerShell script.
pub const COMMAND_POWERSHELL_SCRIPT_FILE: &'static str = "command.ps1";

/// File holding the command text in Base64.
pub const COMMAND_PAYLOAD_FILE: &'static str = "payload.b64";

/// File holding the directory the command runs in.
pub const COMMAND_WORKING_DIRECTORY_FILE: &'static str = "cwd.txt";

/// File in the session state directory naming the command to dispatch.
pub const DISPATCH_FILE: &'static str = "dispatch.txt";

/// Sub-directory of a session holding the command records.
pub const SESSION_COMMANDS_DIRECTORY: &'static str = "commands";

/// Sub-directory of a session holding its state.
pub const SESSION_STATE_DIRECTORY: &'static str = "state";

} // verus!
