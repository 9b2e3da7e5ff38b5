use functerm::error::ShellError;
use functerm::shell::choice::{from_shim_name, ShellChoice};
use functerm::shell::drivers::{
    command_script, entry_file_name, interactive_arguments, keyboard_bytes, startup,
    InvocationTerminator, ShellInvocation, StartupContext,
};
use functerm::shell::wrappers::variables::VariableNamespace;

fn context() -> StartupContext<'static> {
    StartupContext {
        cwd: b"/home/user/project",
        startup_directory: b"/tmp/session/startup",
        ready_file: b"/tmp/session/startup/ready",
    }
}

fn args(values: &[&str]) -> Vec<Option<String>> {
    values.iter().map(|value| Some((*value).to_owned())).collect()
}

#[test]
fn powershell_starts_with_an_encoded_initialization_script() {
    let plan = startup(ShellChoice::PowerShell, &context(), b"").unwrap();
    assert!(plan.files.is_empty());
    assert!(plan.startup.env.is_empty());
    assert_eq!(
        plan.startup.args[..6],
        ["-NoLogo", "-NoProfile", "-NoExit", "-ExecutionPolicy", "Bypass", "-EncodedCommand"]
    );
    let bytes = base64_turbo::STANDARD.decode(&plan.startup.args[6]).unwrap();
    let words = bytes
        .chunks_exact(2)
        .map(|chunk| u16::from(chunk[0]) | (u16::from(chunk[1]) << 8_u32))
        .collect::<Vec<_>>();
    let script = String::from_utf16(&words).unwrap();
    assert!(script.starts_with("$env:FUNCTERM_CURRENT_SHELL = 'powershell'\n"));
    assert!(script.contains("function f"));
}

#[test]
fn nushell_runs_its_initialization_script() {
    let plan = startup(ShellChoice::NuShell, &context(), b"").unwrap();
    assert!(plan.files.is_empty());
    assert_eq!(plan.startup.args[..3], ["--no-config-file", "--no-history", "--execute"]);
    assert!(plan.startup.args[3].starts_with("$env.FUNCTERM_CURRENT_SHELL = 'nu'\n"));
    assert!(plan.startup.args[3].ends_with("' | decode base64 | decode)\n"));
}

#[test]
fn bash_reads_its_initialization_file() {
    let plan = startup(ShellChoice::Bash, &context(), b"/tmp/session/startup/bash_init.sh").unwrap();
    assert_eq!(entry_file_name(ShellChoice::Bash), Some("bash_init.sh"));
    assert_eq!(plan.files.len(), 1);
    assert_eq!(plan.files[0].name, "bash_init.sh");
    assert!(plan.files[0].contents.starts_with("export FUNCTERM_CURRENT_SHELL=bash\n"));
    assert!(plan.files[0]
        .contents
        .contains("functerm_cwd=$(functerm_posix_path /home/user/project)"));
    assert!(plan.files[0].contents.ends_with(": > \"$functerm_ready_file\"\n"));
    assert_eq!(
        plan.startup.args,
        ["--noprofile", "--rcfile", "/tmp/session/startup/bash_init.sh", "-i"]
    );
}

#[test]
fn zsh_is_pointed_at_the_startup_directory() {
    let plan = startup(ShellChoice::Zsh, &context(), b"").unwrap();
    assert_eq!(plan.files[0].name, ".zshrc");
    assert!(plan.files[0].contents.ends_with(": >| \"$functerm_ready_file\"\n"));
    assert_eq!(plan.startup.args, ["-i"]);
    assert_eq!(
        plan.startup.env,
        [("ZDOTDIR".to_owned(), "/tmp/session/startup".to_owned())]
    );
}

#[test]
fn command_prompt_writes_its_batch_files() {
    let windows = StartupContext {
        cwd: b"C:\\work dir",
        startup_directory: b"C:\\session\\startup",
        ready_file: b"C:\\session\\startup\\ready",
    };
    let plan = startup(ShellChoice::Cmd, &windows, b"C:\\session\\startup\\cmd_init.bat").unwrap();
    let names = plan.files.iter().map(|file| file.name).collect::<Vec<_>>();
    assert_eq!(names, ["cmd_run.bat", "f.cmd", "cmd_init.bat"]);
    assert!(plan.files[2].contents.starts_with("@echo off\r\nset FUNCTERM_CURRENT_SHELL=cmd\r\n"));
    assert!(plan.files[2].contents.contains("cd /d \"C:\\work dir\"\r\n"));
    assert_eq!(
        plan.startup.args,
        ["/D", "/Q", "/K", "call C:\\session\\startup\\cmd_init.bat"]
    );
}

#[test]
fn bun_and_python_run_a_bootstrap_script() {
    let plan = startup(ShellChoice::Bun, &context(), b"/tmp/session/startup/bun_repl.mjs").unwrap();
    assert_eq!(plan.files[0].name, "bun_repl.mjs");
    assert!(plan.files[0].contents.contains("process.chdir(\"/home/user/project\");"));
    assert!(plan.files[0].contents.contains("writeFileSync_"));
    assert!(!plan.files[0].contents.contains("@VAR_"));
    assert_eq!(plan.startup.args, ["/tmp/session/startup/bun_repl.mjs"]);

    let plan = startup(ShellChoice::Python, &context(), b"/tmp/session/startup/python_repl.py").unwrap();
    let script = &plan.files[0].contents;
    assert_eq!(plan.files[0].name, "python_repl.py");
    assert!(script.contains(".chdir(\"/home/user/project\")\n"));
    assert!(!script.contains("\n\t"));
    assert!(!script.contains("@PYTHON_PROTECTED_ENVIRONMENT@"));
    assert!(script.contains("\"FUNCTERM_SHIM_DIR\""));
    assert_eq!(plan.startup.args, ["-i", "-u", "/tmp/session/startup/python_repl.py"]);
}

#[test]
fn paths_that_are_not_unicode_are_refused() {
    let broken = StartupContext {
        cwd: b"/home/\xff",
        startup_directory: b"/tmp",
        ready_file: b"/tmp/ready",
    };
    for choice in ShellChoice::all() {
        assert!(matches!(
            startup(choice, &broken, b"/tmp/init"),
            Err(ShellError::NonUtf8Path)
        ));
    }
    assert!(matches!(
        startup(ShellChoice::Bash, &context(), b"/tmp/\xfe"),
        Err(ShellError::NonUtf8Path)
    ));
}

#[test]
fn each_shell_keeps_its_own_interactive_switches() {
    assert!(interactive_arguments(ShellChoice::NuShell, &args(&["--LOGIN", "--no-history"])));
    assert!(!interactive_arguments(ShellChoice::NuShell, &args(&["-c", "ls"])));
    assert!(interactive_arguments(ShellChoice::Cmd, &args(&["/D", "/k"])));
    assert!(!interactive_arguments(ShellChoice::Cmd, &args(&["/c"])));
    assert!(interactive_arguments(ShellChoice::Bun, &args(&["repl"])));
    assert!(!interactive_arguments(ShellChoice::Bun, &args(&["repl", "x"])));
    assert!(!interactive_arguments(ShellChoice::Bun, &Vec::new()));
    assert!(interactive_arguments(ShellChoice::Python, &args(&["-i", "-q"])));
    assert!(!interactive_arguments(ShellChoice::Python, &args(&["-I"])));
    assert!(interactive_arguments(
        ShellChoice::PowerShell,
        &args(&["-NoLogo", "-executionPolicy", "Bypass", "-NoExit"])
    ));
    assert!(!interactive_arguments(ShellChoice::PowerShell, &args(&["-Command", "ls"])));
}

#[test]
fn only_powershell_rewrites_commands_and_keys() {
    assert_eq!(
        command_script(ShellChoice::PowerShell, "ls"),
        "$script:FuncTermCommandScript = [scriptblock]::Create(([Text.Encoding]::UTF8.GetString([Convert]::FromBase64String('bHM='))))"
    );
    assert_eq!(command_script(ShellChoice::Bash, "ls"), "ls");
    assert_eq!(keyboard_bytes(ShellChoice::Bash, b"a\r\nb\n"), b"a\r\nb\n".to_vec());
    assert_eq!(keyboard_bytes(ShellChoice::PowerShell, b"a\r\nb\n"), b"a\rb\r".to_vec());
}

#[test]
fn shells_are_found_by_shim_and_canonical_names() {
    assert_eq!(from_shim_name("PWSH.EXE"), Some(ShellChoice::PowerShell));
    assert_eq!(from_shim_name("pypy3"), Some(ShellChoice::Python));
    assert_eq!(from_shim_name("fish"), None);
    assert_eq!(ShellChoice::from_canonical_name("nu"), Ok(ShellChoice::NuShell));
    assert_eq!(ShellChoice::from_canonical_name("fish"), Err(ShellError::UnknownShell));
    assert_eq!(ShellChoice::Cmd.display_name(), "Windows CMD");
    for shell in ShellChoice::all() {
        for name in shell.shim_executable_names() {
            assert_eq!(from_shim_name(name), Some(shell));
        }
    }
}

#[test]
fn variable_markers_get_one_namespace_and_bad_markers_are_refused() {
    let namespace = VariableNamespace::new();
    let text = namespace.render("x=@VAR_a@; y=@VAR_b_2@");
    let suffix = &text["x=a_".len().."x=a_".len() + 12];
    assert!(suffix.chars().all(|c| c.is_ascii_digit() || c.is_ascii_lowercase()));
    assert_eq!(text, format!("x=a_{suffix}; y=b_2_{suffix}"));
    assert_eq!(namespace.render("no markers"), "no markers");
    assert_eq!(namespace.try_render("no markers").unwrap(), "no markers");
    assert_eq!(namespace.try_render("@VAR_open"), Err(ShellError::MalformedVariableMarker));
    assert_eq!(namespace.try_render("@VAR_1a@"), Err(ShellError::MalformedVariableMarker));
    assert_eq!(namespace.try_render("@VAR_@"), Err(ShellError::MalformedVariableMarker));
    assert_eq!(namespace.try_render("@VAR_a-b@"), Err(ShellError::MalformedVariableMarker));
}

#[test]
fn invocation_lines_hold_no_line_break() {
    let result = ShellInvocation::new("a\nb".to_owned(), InvocationTerminator::LineFeed);
    assert!(matches!(result, Err(ShellError::LineBreakInInvocation)));
    let bytes = ShellInvocation::new("run".to_owned(), InvocationTerminator::CarriageReturnLineFeed)
        .unwrap()
        .into_bytes();
    assert_eq!(bytes, b"run\r\n");
    assert!(functerm::shell::drivers::invocation(ShellChoice::Bun).unwrap().is_none());
}
