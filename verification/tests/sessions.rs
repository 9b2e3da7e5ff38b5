use functerm::error::ShellError;
use functerm::shell::choice::ShellChoice;
use functerm::shell::shims::{
    environment, is_managed_name, parse_active_shell, path_equals, prepend_path, variable_value,
    SHIM_DIR_ENV,
};
use functerm::shell::executable::candidate_step;
use functerm::shim::{
    after_rename, early_done, early_done_record, exit_code, runs_interactive, wait_step,
    ActiveShellGuard, PublishStep, ReadyWatch, WaitStep, WatchAction, WatchEvent,
};

fn pair(name: &str, value: &[u8]) -> (Vec<u8>, Vec<u8>) {
    (name.as_bytes().to_vec(), value.to_vec())
}

fn value_of<'a>(env: &'a [(Vec<u8>, Vec<u8>)], name: &str) -> Option<&'a [u8]> {
    env.iter()
        .find(|item| item.0 == name.as_bytes())
        .map(|item| item.1.as_slice())
}

#[test]
fn environment_replaces_inherited_shim_path_and_internal_state() {
    let old_shim = b"/work/old-shims".to_vec();
    let new_shim = b"/work/new-shims".to_vec();
    let tool_dir = b"/work/tools".to_vec();
    let inherited_path = vec![old_shim.clone(), tool_dir.clone()];
    let entries = prepend_path(&new_shim, Some(&inherited_path), Some(&old_shim), false);
    assert_eq!(entries, vec![new_shim.clone(), tool_dir.clone()]);

    let inherited = vec![
        pair("PATH", b"/work/old-shims:/work/tools"),
        pair(SHIM_DIR_ENV, &old_shim),
        pair("FUNCTERM_SESSION_ROOT", b"stale-session"),
        pair("UNMANAGED_MARKER", b"kept"),
    ];
    let env = environment(
        &inherited,
        b"/work/new-shims:/work/tools",
        &new_shim,
        b"/work/session",
        b"/work/session/state/active-shell.txt",
        b"/usr/bin/functerm",
        ShellChoice::PowerShell,
        &vec![None, Some(b"/bin/bash".to_vec()), None, None, None, None, None],
        false,
    );
    assert_eq!(value_of(&env, "PATH"), Some(b"/work/new-shims:/work/tools".as_slice()));
    assert!(env
        .iter()
        .any(|item| item.0 == b"UNMANAGED_MARKER" && item.1 == b"kept"));
    assert!(env
        .iter()
        .any(|item| item.0 == b"FUNCTERM_SESSION_ROOT" && item.1 == b"/work/session"));
    assert!(!env.iter().any(|item| item.1 == b"stale-session"));
    assert_eq!(value_of(&env, "FUNCTERM_CURRENT_SHELL"), Some(b"powershell".as_slice()));
    assert_eq!(value_of(&env, "FUNCTERM_REAL_BASH"), Some(b"/bin/bash".as_slice()));
    assert_eq!(env.iter().filter(|item| item.0 == b"PATH").count(), 1);
}

#[test]
fn environment_does_not_create_shim_directory() {
    let root = std::path::Path::new("functerm-shim-environment-check");
    let session_root = root.join("session");
    let shim_dir = root.join("shims");
    let env = environment(
        &Vec::new(),
        shim_dir.as_os_str().as_encoded_bytes(),
        shim_dir.as_os_str().as_encoded_bytes(),
        session_root.as_os_str().as_encoded_bytes(),
        b"active-shell.txt",
        b"functerm",
        ShellChoice::PowerShell,
        &vec![None; 7],
        false,
    );
    assert!(!shim_dir.exists());
    assert!(env.iter().any(|item| item.0 == b"FUNCTERM_SHIM_DIR"));
}

#[test]
fn inherited_managed_names_follow_the_host_case_rules() {
    assert!(is_managed_name(b"PATH", false));
    assert!(!is_managed_name(b"Path", false));
    assert!(is_managed_name(b"Path", true));
    assert!(is_managed_name(b"funcTerm_real_zsh", true));
    assert!(!is_managed_name(b"HOME", true));
    let inherited = vec![pair("Path", b"C:\\old"), pair("HOME", b"C:\\home")];
    let env = environment(
        &inherited,
        b"C:\\new",
        b"C:\\shims",
        b"C:\\session",
        b"C:\\session\\state\\active-shell.txt",
        b"C:\\functerm.exe",
        ShellChoice::Cmd,
        &vec![None; 7],
        true,
    );
    assert_eq!(env[0], pair("HOME", b"C:\\home"));
    assert!(!env.iter().any(|item| item.0 == b"Path"));
}

#[test]
fn path_entries_compare_without_case_on_windows() {
    assert!(path_equals(b"C:\\Shims", b"c:\\shims", true));
    assert!(!path_equals(b"/Shims", b"/shims", false));
    let inherited_path = vec![b"C:\\OLD".to_vec(), b"C:\\tools".to_vec(), b"c:\\old".to_vec()];
    let entries = prepend_path(b"C:\\new", Some(&inherited_path), Some(b"C:\\old"), true);
    assert_eq!(entries, vec![b"C:\\new".to_vec(), b"C:\\tools".to_vec()]);
    assert_eq!(prepend_path(b"/new", None, None, false), vec![b"/new".to_vec()]);
}

#[test]
fn variable_lookup_finds_the_first_matching_name() {
    let variables = vec![pair("A", b"1"), pair("path", b"x"), pair("PATH", b"y")];
    assert_eq!(variable_value(&variables, "PATH", false), Some(b"y".to_vec()));
    assert_eq!(variable_value(&variables, "PATH", true), Some(b"x".to_vec()));
    assert_eq!(variable_value(&variables, "B", true), None);
}

#[test]
fn active_shell_file_names_a_shell() {
    assert_eq!(parse_active_shell("  nu\n"), Ok(ShellChoice::NuShell));
    assert_eq!(parse_active_shell("powershell"), Ok(ShellChoice::PowerShell));
    assert_eq!(parse_active_shell("\u{3000}python\t"), Ok(ShellChoice::Python));
    assert_eq!(parse_active_shell("fish"), Err(ShellError::UnknownShell));
    assert_eq!(parse_active_shell("Bash"), Err(ShellError::UnknownShell));
}

#[test]
fn shim_runs_interactive_without_arguments_or_with_interactive_switches() {
    assert!(runs_interactive(ShellChoice::Bash, &Vec::new()));
    assert!(runs_interactive(ShellChoice::Bash, &vec![Some("-L".to_owned())]));
    assert!(!runs_interactive(
        ShellChoice::Bash,
        &vec![Some("-c".to_owned()), Some("ls".to_owned())]
    ));
    assert!(runs_interactive(
        ShellChoice::PowerShell,
        &vec![Some("-ExecutionPolicy".to_owned()), Some("Bypass".to_owned())]
    ));
    assert!(!runs_interactive(ShellChoice::PowerShell, &vec![Some("-ExecutionPolicy".to_owned())]));
    assert!(!runs_interactive(ShellChoice::Zsh, &vec![None]));
}

#[test]
fn exit_code_defaults_to_one_without_a_code() {
    assert_eq!(exit_code(Some(3)), 3);
    assert_eq!(exit_code(None), 1);
}

#[test]
fn early_done_record_is_compact_json() {
    assert_eq!(
        early_done("id-1", "C:\\work \"x\"").unwrap(),
        "{\"command_id\":\"id-1\",\"exit_code\":0,\"cwd\":\"C:\\\\work \\\"x\\\"\"}"
    );
    assert_eq!(
        early_done("a\nb", "\u{1}").unwrap(),
        "{\"command_id\":\"a\\nb\",\"exit_code\":0,\"cwd\":\"\\u0001\"}"
    );
}

#[test]
fn early_done_publication_steps() {
    assert_eq!(after_rename(true, false), PublishStep::Published);
    assert_eq!(after_rename(true, true), PublishStep::Published);
    assert_eq!(after_rename(false, true), PublishStep::RemoveTemporary);
    assert_eq!(after_rename(false, false), PublishStep::Fail);
}

#[test]
fn ready_handler_runs_once_when_the_ready_file_appears() {
    let mut watch = ReadyWatch::new();
    assert_eq!(watch.on_event(WatchEvent::Changed, false), WatchAction::KeepWaiting);
    assert_eq!(watch.on_event(WatchEvent::Changed, true), WatchAction::RunReadyHandler);
    assert_eq!(watch.on_event(WatchEvent::Changed, true), WatchAction::KeepWaiting);
    assert_eq!(watch.on_event(WatchEvent::WatchFailed, true), WatchAction::FailWatcher);
    assert_eq!(watch.on_event(WatchEvent::ShellExited, true), WatchAction::Finish);
}

#[test]
fn active_shell_is_restored_only_after_activation() {
    let mut guard = ActiveShellGuard::new(ShellChoice::Bash);
    assert_eq!(guard.shell_to_restore(), None);
    guard.activate();
    assert_eq!(guard.shell_to_restore(), Some(ShellChoice::Bash));
}

#[test]
fn candidate_steps_stop_at_the_first_found_executable() {
    let mut errors = Vec::new();
    assert_eq!(candidate_step("pwsh", Err("not found".to_owned()), &mut errors), None);
    assert_eq!(errors, ["pwsh: not found"]);
    assert_eq!(
        candidate_step("powershell", Ok(b"/bin/powershell".to_vec()), &mut errors),
        Some(b"/bin/powershell".to_vec())
    );
    assert_eq!(errors, ["pwsh: not found"]);
}

#[test]
fn early_done_record_is_owed_only_for_an_unfinished_command() {
    assert_eq!(early_done_record(false, Some("id"), false, "/w"), Ok(None));
    assert_eq!(early_done_record(true, None, false, "/w"), Ok(None));
    assert_eq!(early_done_record(true, Some("id"), true, "/w"), Ok(None));
    assert_eq!(
        early_done_record(true, Some("id"), false, "/w"),
        Ok(Some("{\"command_id\":\"id\",\"exit_code\":0,\"cwd\":\"/w\"}".to_owned()))
    );
}

#[test]
fn wait_outcome_follows_each_action() {
    assert_eq!(wait_step(WatchAction::RunReadyHandler, true), WaitStep::Continue);
    assert_eq!(wait_step(WatchAction::RunReadyHandler, false), WaitStep::HandlerFailed);
    assert_eq!(wait_step(WatchAction::KeepWaiting, false), WaitStep::Continue);
    assert_eq!(wait_step(WatchAction::FailWatcher, true), WaitStep::WatcherFailed);
    assert_eq!(wait_step(WatchAction::Finish, true), WaitStep::Exited);
}

#[test]
fn each_real_executable_is_named_once() {
    let exes = vec![Some(b"/p".to_vec()), None, None, Some(b"/z".to_vec()), None, None, None];
    let env = environment(
        &vec![pair("FUNCTERM_REAL_ZSH", b"/old")],
        b"",
        b"/s",
        b"/r",
        b"/a",
        b"/h",
        ShellChoice::Zsh,
        &exes,
        false,
    );
    let names = env.iter().map(|item| item.0.clone()).collect::<Vec<_>>();
    assert_eq!(names.iter().filter(|n| n.as_slice() == b"FUNCTERM_REAL_ZSH").count(), 1);
    assert_eq!(&names[names.len() - 2..], [b"FUNCTERM_REAL_POWERSHELL".to_vec(), b"FUNCTERM_REAL_ZSH".to_vec()]);
}

#[test]
fn each_session_variable_occurs_once_without_command_variables() {
    let inherited = vec![
        pair("functerm_helper_executable", b"C:\\stale.exe"),
        pair("FUNCTERM_COMMAND_ID", b"old-command"),
        pair("FuncTerm_Command_Directory", b"C:\\old"),
        pair("TEMP", b"C:\\temp"),
        pair("functerm_current_shell", b"bash"),
    ];
    let env = environment(
        &inherited,
        b"C:\\shims;C:\\tools",
        b"C:\\shims",
        b"C:\\session",
        b"C:\\session\\state\\active-shell.txt",
        b"C:\\functerm.exe",
        ShellChoice::PowerShell,
        &vec![None, None, Some(b"C:\\nu.exe".to_vec()), None, None, None, None],
        true,
    );
    let session = [
        ("PATH", b"C:\\shims;C:\\tools".as_slice()),
        ("FUNCTERM_SHIM_DIR", b"C:\\shims".as_slice()),
        ("FUNCTERM_SESSION_ROOT", b"C:\\session".as_slice()),
        ("FUNCTERM_ACTIVE_SHELL_FILE", b"C:\\session\\state\\active-shell.txt".as_slice()),
        ("FUNCTERM_HELPER_EXECUTABLE", b"C:\\functerm.exe".as_slice()),
        ("FUNCTERM_CURRENT_SHELL", b"powershell".as_slice()),
    ];
    assert_eq!(env[0], pair("TEMP", b"C:\\temp"));
    for (t, (name, value)) in session.iter().enumerate() {
        let matching: Vec<usize> = (0..env.len())
            .filter(|&i| env[i].0.eq_ignore_ascii_case(name.as_bytes()))
            .collect();
        assert_eq!(matching, vec![1 + t]);
        assert_eq!(env[1 + t].1, value.to_vec());
    }
    for name in ["FUNCTERM_COMMAND_ID", "FUNCTERM_COMMAND_DIRECTORY"] {
        assert!(!env.iter().any(|item| item.0.eq_ignore_ascii_case(name.as_bytes())));
    }
    assert_eq!(env.len(), 8);
}
