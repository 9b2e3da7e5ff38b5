use functerm::shell::{bash, nushell, posix, powershell, quote, zsh};

#[test]
fn initialization_converts_native_paths_in_bash() {
    let script = bash::initialization_script(b"F:\\dir\\child", b"F:\\ready").unwrap();
    assert!(script.contains("functerm_posix_path 'F:\\dir\\child'"));
    assert!(script.contains("cd \"$functerm_cwd\""));
}

#[test]
fn invocation_sends_native_paths_for_bash_wrapper_conversion() {
    let converted = bash::invocation("command", b"F:\\dir\\child", b"F:\\cwd").unwrap();
    assert!(!converted.contains("printf ok"));
    assert!(converted.contains("'F:\\dir\\child'"));
}

#[test]
fn nushell_quotes_single_quotes_for_nushell() {
    let quoted = quote::nushell_string("a'b");
    assert_eq!(quoted, "('YSdi' | decode base64 | decode)");
}

#[test]
fn nushell_initialization_defines_function_and_cwd() {
    let script =
        nushell::initialization_script(b"F:\\dir with ' quote", b"F:\\ready'file").unwrap();
    assert!(script.contains("def functerm_run_command"));
    assert!(script.contains("cd ('RjpcZGlyIHdpdGggJyBxdW90ZQ==' | decode base64 | decode)"));
    assert!(
        script.contains("save --force --raw ('RjpccmVhZHknZmlsZQ==' | decode base64 | decode)")
    );
}

#[test]
fn nushell_invocation_references_payload_file_by_directory() {
    let line = nushell::invocation("command", b"F:\\dir with ' quote", b"F:\\cwd").unwrap();
    assert_eq!(line.matches("Y29tbWFuZA==").count(), 1);
    assert!(line.contains("RjpcZGlyIHdpdGggJyBxdW90ZQ=="));
}

#[test]
fn preserves_native_path_text_for_posix_shells() {
    let converted = posix::sh_path(b"F:\\dir\\child").unwrap();
    assert_eq!(converted, "F:\\dir\\child");
}

#[test]
fn posix_quotes_single_quotes_for_posix_shells() {
    let quoted = posix::sh_quote("a'b");
    assert_eq!(quoted, "'a'\\''b'");
}

#[test]
fn powershell_quotes_literal_paths_for_powershell() {
    let quoted = quote::powershell_path(b"F:\\dir with ' quote").unwrap();
    assert!(quoted.contains("FromBase64String"));
}

#[test]
fn powershell_invocation_references_payload_file_by_directory() {
    let line = powershell::invocation("command", b"F:\\dir with ' quote", b"F:\\cwd").unwrap();
    assert!(!line.contains("-Payload"));
    assert!(line.contains("-Directory ([Text.Encoding]::UTF8.GetString"));
}

#[test]
fn encoded_command_round_trips_as_utf16() {
    let encoded = functerm::shell::drivers::powershell::encode_command("Write-Output '中文'");
    let bytes = base64_turbo::STANDARD.decode(encoded).unwrap();
    let chunks = bytes.chunks_exact(2);
    assert!(chunks.remainder().is_empty());
    let words = chunks
        .map(|chunk| {
            let [low, high]: [u8; 2] = chunk.try_into().unwrap();
            u16::from(low) | (u16::from(high) << 8_u32)
        })
        .collect::<Vec<_>>();
    let decoded = String::from_utf16(&words).unwrap();
    assert_eq!(decoded, "Write-Output '中文'");
}

#[test]
fn keyboard_input_submits_lone_line_feeds_as_enter() {
    assert_eq!(
        powershell::keyboard_bytes(b"exit\n").as_slice(),
        b"exit\r\n".as_slice()
    );
    assert_eq!(
        powershell::keyboard_bytes(b"exit\r\n").as_slice(),
        b"exit\r\n".as_slice()
    );
}

#[test]
fn quote_quotes_literal_paths_for_powershell() {
    let quoted = quote::powershell_path(b"F:\\dir with ' quote").unwrap();
    assert_eq!(
        quoted,
        "([Text.Encoding]::UTF8.GetString([Convert]::FromBase64String('RjpcZGlyIHdpdGggJyBxdW90ZQ==')))"
    );
}

#[test]
fn quote_quotes_single_quotes_for_posix_shells() {
    let quoted = quote::posix_string("a'b");
    assert_eq!(quoted, "'a'\\''b'");
}

#[test]
fn quote_quotes_single_quotes_for_nushell() {
    let quoted = quote::nushell_string("a'b");
    assert_eq!(quoted, "('YSdi' | decode base64 | decode)");
}

#[test]
fn startup_uses_zdotdir_to_load_generated_zshrc() {
    let root = b"C:\\Temp\\functerm-zsh-startup-test\\4242";
    let startup = zsh::startup(b"F:\\cwd", root, b"C:\\Temp\\functerm-zsh-startup-test\\4242\\startup.ready").unwrap();
    let args: Vec<String> = startup.startup.args.clone();
    assert_eq!(args, ["-i"]);
    assert_eq!(
        startup.startup.env,
        [("ZDOTDIR".to_owned(), posix::sh_path(root).unwrap())]
    );
    assert_eq!(startup.startup.env[0].1, "C:\\Temp\\functerm-zsh-startup-test\\4242");
    assert_eq!(startup.files.len(), 1);
    assert_eq!(startup.files[0].name, ".zshrc");
}

#[test]
fn zsh_initialization_defines_function_and_cwd() {
    let script = zsh::initialization_script(b"F:\\dir with ' quote", b"F:\\ready").unwrap();
    assert!(script.contains("functerm_run_command()"));
    assert!(script.contains("cd 'F:/dir with '\\'' quote'"));
    assert!(script.contains(": >| 'F:/ready'"));
}

#[test]
fn zsh_invocation_passes_native_paths_quoted_only_when_needed() {
    let line = zsh::invocation("cmd-1", b"F:\\dir\\child", b"/tmp/cwd").unwrap();
    assert_eq!(line, "functerm_run_command cmd-1 'F:\\dir\\child' /tmp/cwd\n");
    let quoted = zsh::invocation("it's", b"/a b", b"/c").unwrap();
    assert_eq!(quoted, "functerm_run_command 'it'\\''s' '/a b' /c\n");
}
