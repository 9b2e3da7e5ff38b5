use functerm::shell::choice::ShellChoice;
use functerm::shell::drivers::powershell;
use functerm::shell::drivers::{invocation, InvocationTerminator, ShellInvocation, StartupContext};

#[test]
fn invocation_rejects_embedded_line_breaks() {
    for line in ["command\nnext", "command\rnext"] {
        let result = ShellInvocation::new(line.to_owned(), InvocationTerminator::CarriageReturn);
        assert!(
            result.is_err(),
            "invocation line with a line break should be rejected"
        );
    }
}

#[test]
fn invocation_uses_windows_line_ending() {
    let bytes = invocation(ShellChoice::Cmd).unwrap().unwrap().into_bytes();
    assert_eq!(bytes, b"f\r\n");
}

#[test]
fn invocation_uses_platform_line_ending() {
    let bytes = invocation(ShellChoice::NuShell)
        .unwrap()
        .unwrap()
        .into_bytes();
    if std::path::MAIN_SEPARATOR == '\\' {
        assert_eq!(bytes, b"f\r\n");
    } else {
        assert_eq!(bytes, b"f\n");
    }
}

#[test]
fn powershell_initialization_sets_literal_location() {
    let script = powershell::initialization_script(&StartupContext {
        cwd: b"F:\\dir with ' quote",
        startup_directory: b"F:\\session\\startup",
        ready_file: b"F:\\ready'file",
    })
    .unwrap();
    assert!(script.contains("function f"));
    assert!(script.contains("Set-Location -LiteralPath ([Text.Encoding]::UTF8.GetString"));
    assert!(script.contains("Set-Content -LiteralPath ([Text.Encoding]::UTF8.GetString"));
}

#[test]
fn initialization_sets_literal_location() {
    let script = functerm::shell::powershell::initialization_script(
        b"F:\\dir with ' quote",
        b"F:\\ready'file",
    )
    .unwrap();
    assert!(script.contains("Invoke-FuncTermCommand"));
    assert!(script.contains("Set-Location -LiteralPath ([Text.Encoding]::UTF8.GetString"));
    assert!(script.contains("Set-Content -LiteralPath ([Text.Encoding]::UTF8.GetString"));
}

#[test]
fn invocation_is_short_dispatcher() {
    let invocation = invocation(ShellChoice::PowerShell).unwrap().unwrap();
    let bytes = invocation.into_bytes();
    assert_eq!(bytes, b"f\r");
}

#[test]
fn keyboard_input_encodes_each_line_break_as_one_enter() {
    assert_eq!(
        powershell::keyboard_bytes(b"exit\n").as_slice(),
        b"exit\r".as_slice()
    );
    assert_eq!(
        powershell::keyboard_bytes(b"exit\r\n").as_slice(),
        b"exit\r".as_slice()
    );
}

#[test]
fn invocation_uses_line_feed() {
    for choice in [ShellChoice::Bash, ShellChoice::Zsh] {
        let bytes = invocation(choice).unwrap().unwrap().into_bytes();
        assert_eq!(bytes, b"f\n");
    }
}
