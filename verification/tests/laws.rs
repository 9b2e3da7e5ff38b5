use functerm::shell::drivers::powershell::keyboard_bytes as enter_keys;
use functerm::shell::powershell::keyboard_bytes as crlf_keys;
use functerm::shell::quote::{nushell_string, posix_string, powershell_string};
use functerm::shell::shims::prepend_path;
use functerm::shim::{ReadyWatch, WatchAction, WatchEvent};

#[test]
fn keyboard_conversion_is_idempotent() {
    for input in [&b"exit\n"[..], b"a\r\nb\nc\r", b"\n\n", b"plain"] {
        let once = crlf_keys(input);
        assert_eq!(crlf_keys(&once), once);
    }
    assert_eq!(crlf_keys(b"\n\n"), b"\r\n\r\n".to_vec());
}

#[test]
fn enter_keys_never_send_a_line_feed() {
    for input in [&b"exit\n"[..], b"a\r\nb\nc\r", b"\n\n"] {
        assert!(!enter_keys(input).contains(&b'\n'));
    }
    assert_eq!(enter_keys(b"plain"), b"plain".to_vec());
    assert_eq!(enter_keys(b"\n\r\n\n"), b"\r\r\r".to_vec());
}

#[test]
fn quoted_literals_carry_no_single_quote() {
    for value in ["a'b", "'''", "F:\\dir with ' quote"] {
        let payload = powershell_string(value);
        let inner = &payload["([Text.Encoding]::UTF8.GetString([Convert]::FromBase64String('".len()
            ..payload.len() - "')))".len()];
        assert!(!inner.contains('\''));
        let nu = nushell_string(value);
        assert!(!nu["('".len()..nu.len() - "' | decode base64 | decode)".len()].contains('\''));
    }
}

#[test]
fn posix_quoting_reads_back_the_value() {
    assert_eq!(posix_string("plain"), "plain");
    assert_eq!(posix_string(""), "''");
    assert_eq!(posix_string("it's"), "'it'\\''s'");
    assert_eq!(posix_string("a b"), "'a b'");
}

#[test]
fn new_shims_replace_the_old_ones_on_the_search_path() {
    let inherited = vec![b"/old".to_vec(), b"/bin".to_vec(), b"/old".to_vec(), b"/usr/bin".to_vec()];
    let entries = prepend_path(b"/new", Some(&inherited), Some(b"/old"), false);
    assert_eq!(entries[0], b"/new".to_vec());
    assert!(!entries[1..].iter().any(|entry| entry == b"/old"));
    assert_eq!(entries, vec![b"/new".to_vec(), b"/bin".to_vec(), b"/usr/bin".to_vec()]);
}

#[test]
fn ready_handler_runs_at_most_once() {
    let mut watch = ReadyWatch::new();
    let mut runs = 0;
    for (event, exists) in [
        (WatchEvent::Changed, true),
        (WatchEvent::Changed, true),
        (WatchEvent::Changed, false),
        (WatchEvent::Changed, true),
    ] {
        if watch.on_event(event, exists) == WatchAction::RunReadyHandler {
            runs += 1;
        }
    }
    assert_eq!(runs, 1);
}

#[test]
fn literal_payload_decodes_to_the_value() {
    for value in ["a'b", "中文 \"x\"", ""] {
        let literal = powershell_string(value);
        let payload = &literal["([Text.Encoding]::UTF8.GetString([Convert]::FromBase64String('".len()
            ..literal.len() - "')))".len()];
        let bytes = base64_turbo::STANDARD.decode(payload).unwrap();
        assert_eq!(String::from_utf8(bytes).unwrap(), value);
    }
}
