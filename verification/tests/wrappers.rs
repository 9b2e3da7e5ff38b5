use functerm::contract::{
    COMMAND_DIRECTORY_ENV, COMMAND_ID_ENV, COMMAND_INPUT_DIRECTORY, COMMAND_OUTPUT_DIRECTORY,
    COMMAND_STATE_DIRECTORY, COMMAND_WORKING_DIRECTORY_FILE, DISPATCH_FILE, DONE_FILE,
    HELPER_EXECUTABLE_ENV, SESSION_COMMANDS_DIRECTORY, STDERR_FILE, STDOUT_FILE,
};
use functerm::shell::wrappers::posix_startup::{bash_wrapper, zsh_wrapper};
use functerm::shell::wrappers::template::cmd_dispatcher;
use functerm::shell::wrappers::{batch, nu, pwsh};

#[test]
fn every_wrapper_uses_the_command_record_contract() {
    for (name, wrapper) in [
        ("cmd", batch::wrapper().unwrap()),
        ("nushell", nu::wrapper().unwrap()),
        ("bash", bash_wrapper().unwrap()),
        ("zsh", zsh_wrapper().unwrap()),
        ("powershell", pwsh::wrapper().unwrap()),
    ] {
        for required in [
            COMMAND_INPUT_DIRECTORY,
            COMMAND_OUTPUT_DIRECTORY,
            COMMAND_STATE_DIRECTORY,
            STDOUT_FILE,
            STDERR_FILE,
            DONE_FILE,
            COMMAND_ID_ENV,
            COMMAND_DIRECTORY_ENV,
            HELPER_EXECUTABLE_ENV,
            "internal-ensure-shims",
            "internal-write-start",
            "internal-write-done",
        ] {
            assert!(
                wrapper.contains(required),
                "{name} wrapper is missing command contract value {required}"
            );
        }
    }
}

#[test]
fn every_wrapper_defines_the_short_dispatcher() {
    for (name, wrapper) in [
        ("cmd", cmd_dispatcher().unwrap()),
        ("nushell", nu::wrapper().unwrap()),
        ("bash", bash_wrapper().unwrap()),
        ("zsh", zsh_wrapper().unwrap()),
        ("powershell", pwsh::wrapper().unwrap()),
    ] {
        for required in [
            DISPATCH_FILE,
            COMMAND_WORKING_DIRECTORY_FILE,
            SESSION_COMMANDS_DIRECTORY,
        ] {
            assert!(
                wrapper.contains(required),
                "{name} dispatcher is missing command contract value {required}"
            );
        }
    }
}

#[test]
fn nushell_wrapper_persists_serializable_state() {
    let wrapper = nu::wrapper().unwrap();
    for required in [
        "nushell-env.nuon",
        "nushell-config.nuon",
        "nushell-declarations.nu",
        "to nuon",
        "load-env",
        "view source",
    ] {
        assert!(wrapper.contains(required));
    }
}

#[test]
fn powershell_wrapper_captures_helper_failures_and_promotes_user_state() {
    let wrapper = pwsh::wrapper().unwrap();
    for required in [
        "$shimStart.RedirectStandardOutput = $true",
        "$shimStart.RedirectStandardError = $true",
        "$shimExitCode = $shimProcess.ExitCode",
        "Set-Variable -Scope Global",
        "Function:\\global:",
        "Set-Alias -Scope Global",
    ] {
        assert!(wrapper.contains(required));
    }
}
