//! The Bash and Zsh wrappers of the second generation: native paths are
//! converted with `functerm_posix_path`, the command is read from a Base64
//! payload file and the done record is written by the wrapper itself.
use super::posix_startup::{
    path_function, path_function_text, shim_path_function, shim_path_function_text,
};
use crate::contract::{
    COMMAND_DIRECTORY_ENV, COMMAND_ID_ENV, COMMAND_PAYLOAD_FILE, DONE_FILE, DONE_TEMP_FILE,
    POSIX_COMMAND_FUNCTION, STARTED_FILE, STDERR_FILE, STDOUT_FILE,
};
use crate::shell::generated::posix_dialect::{
    PosixDialect, cd_text, emulate_text, mkdir_text, move_done_text, previous_flags_text,
    test_arg_text, write_done_temp_text,
};
use crate::chars::{holds_text, lemma_holds_text_end, lemma_holds_text_grows};
use vstd::prelude::*;

verus! {

pub const POSIX_0: &'static str = r"set +o history
unset HISTFILE
export HISTSIZE=0
export HISTFILESIZE=0
history -c
";
pub const POSIX_1: &'static str = "\n";
pub const POSIX_2: &'static str = "\n";
pub const POSIX_3: &'static str = "\n";
pub const POSIX_4: &'static str = r"unset HISTFILE
HISTSIZE=0
SAVEHIST=0
setopt no_append_history
setopt no_share_history
setopt no_inc_append_history
fc -p /dev/null 0 0 2> /dev/null || true
unset HISTFILE
";
pub const POSIX_5: &'static str = "\n";
pub const POSIX_6: &'static str = "\n";
pub const POSIX_7: &'static str = "\n";
pub const POSIX_8: &'static str = "() {\n";
pub const POSIX_9: &'static str = r#"    local command_id="$1"
    local directory="$2"
    local working_directory="$3"
    directory="$(functerm_posix_path "$directory")" || return 1
    working_directory="$(functerm_posix_path "$working_directory")" || return 1
    "#;
pub const POSIX_10: &'static str = r#" "$directory" || return 1
    "#;
/// The declaration of the file that receives a command's standard output, up to the file's name.
pub const STDOUT_DECLARATION: &'static str = r#"local stdout_file="$directory/"#;
pub const POSIX_11: &'static str = r#""
    local stderr_file="$directory/"#;
pub const POSIX_12: &'static str = r#""
    local started_file="$directory/"#;
pub const POSIX_13: &'static str = r#""
    local payload_file="$directory/"#;
pub const POSIX_14: &'static str = r#""
    local done_file="$directory/"#;
pub const POSIX_15: &'static str = r#""
    local done_temp_file="$directory/"#;
pub const POSIX_16: &'static str = r#""
    local previous_command_id="${"#;
pub const POSIX_17: &'static str = r#"-}"
    local previous_command_directory="${"#;
pub const POSIX_18: &'static str = r#"-}"
"#;
pub const POSIX_19: &'static str = "\n    export ";
pub const POSIX_20: &'static str = r#"="$command_id"
    export "#;
pub const POSIX_21: &'static str = r#"="$directory"
    functerm_prepend_shim_path || return 1
    local script
    if ! script="$(functerm_decode_payload_file "$payload_file" "$stderr_file")"; then
        local cwd_json
        cwd_json="$(functerm_json_string "$PWD")"
        functerm_publish_done "$command_id" 1 "$cwd_json" "$done_file" "$done_temp_file"
        cat "$stderr_file" >&2
        functerm_restore_command_environment \
            "$had_previous_command_id" "$previous_command_id" \
            "$had_previous_command_directory" "$previous_command_directory"
        return 1
    fi
    rm -f -- "$payload_file" || return 1
    if ! "#;
pub const POSIX_22: &'static str = r#" "$working_directory"; then
        local cwd_json
        cwd_json="$(functerm_json_string "$PWD")"
        functerm_publish_done "$command_id" 1 "$cwd_json" "$done_file" "$done_temp_file"
        functerm_restore_command_environment \
            "$had_previous_command_id" "$previous_command_id" \
            "$had_previous_command_directory" "$previous_command_directory"
        return 1
    fi
    : "#;
pub const POSIX_23: &'static str = r#" "$started_file"
    "#;
/// The line that runs the command's script with its standard output and standard error sent to their files.
pub const OUTPUT_REDIRECTION: &'static str = r#"{ eval "$script"; } > "$stdout_file" 2> "$stderr_file""#;
pub const POSIX_23_TAIL: &'static str = r#"
    local exit_code=$?
    cat "$stdout_file"
    cat "$stderr_file" >&2
    local cwd_json
    cwd_json="$(functerm_json_string "$PWD")"
    "#;
pub const POSIX_24: &'static str = r#" "$directory" || return 1
    functerm_publish_done "$command_id" "$exit_code" "$cwd_json" "$done_file" "$done_temp_file"
    functerm_restore_command_environment \
        "$had_previous_command_id" "$previous_command_id" \
        "$had_previous_command_directory" "$previous_command_directory"
    return "$exit_code"
}
functerm_restore_command_environment() {
"#;
pub const POSIX_25: &'static str = "    if ";
pub const POSIX_26: &'static str = "; then\n        export ";
pub const POSIX_27: &'static str = r#"="$2"
    else
        unset "#;
pub const POSIX_28: &'static str = "\n    fi\n    if ";
pub const POSIX_29: &'static str = "; then\n        export ";
pub const POSIX_30: &'static str = r#"="$4"
    else
        unset "#;
pub const POSIX_31: &'static str = "\n    fi\n}\nfuncterm_json_string() {\n";
pub const POSIX_32: &'static str = r#"    local value="$1"
    value="${value//\\/\\\\}"
    value="${value//\"/\\\"}"
    value="${value//$'\b'/\\b}"
    value="${value//$'\t'/\\t}"
    value="${value//$'\n'/\\n}"
    value="${value//$'\f'/\\f}"
    value="${value//$'\r'/\\r}"
    printf '"%s"' "$value"
}
functerm_decode_payload_file() {
"#;
pub const POSIX_33: &'static str = r#"    local payload_file="$1"
    local stderr_file="$2"
    if base64 --decode < "$payload_file" 2> "$stderr_file"; then
        return 0
    fi
    base64 -D < "$payload_file" 2> "$stderr_file"
}
functerm_publish_done() {
"#;
pub const POSIX_34: &'static str = r#"    local command_id="$1"
    local exit_code="$2"
    local cwd_json="$3"
    local done_file="$4"
    local done_temp_file="$5"
    if [ -e "$done_file" ]; then
        return 0
    fi
    printf '{"command_id":"%s","exit_code":%s,"cwd":%s,"completed_at":"%s"}\n' \
        "$command_id" "$exit_code" "$cwd_json" "$(date -u +%Y-%m-%dT%H:%M:%SZ)" "#;
pub const POSIX_35: &'static str = r#" "$done_temp_file"
    "#;
pub const POSIX_36: &'static str = "\n}";

/// The Bash wrapper: history off, the shim path helper and the command runner.
pub open spec fn bash_wrapper_text() -> Seq<char> {
    POSIX_0@ + path_function_text(false) + POSIX_1@ + shim_path_function_text(false) + POSIX_2@ + command_function_text(PosixDialect::Bash) + POSIX_3@
}

/// The Bash wrapper: history off, the shim path helper and the command runner.
pub fn bash_wrapper() -> (text: String)
    ensures
        text@ == bash_wrapper_text(),
{
    let path = path_function(false);
    let shim_path = shim_path_function(false);
    let command = command_function(PosixDialect::Bash);
    let mut text = String::from_str(POSIX_0);
    text.append(path.as_str());
    text.append(POSIX_1);
    text.append(shim_path.as_str());
    text.append(POSIX_2);
    text.append(command.as_str());
    text.append(POSIX_3);
    text
}

/// The Zsh wrapper: history off, the shim path helper and the command runner.
pub open spec fn zsh_wrapper_text() -> Seq<char> {
    POSIX_4@ + path_function_text(true) + POSIX_5@ + shim_path_function_text(true) + POSIX_6@ + command_function_text(PosixDialect::Zsh) + POSIX_7@
}

/// The Zsh wrapper: history off, the shim path helper and the command runner.
pub fn zsh_wrapper() -> (text: String)
    ensures
        text@ == zsh_wrapper_text(),
{
    let path = path_function(true);
    let shim_path = shim_path_function(true);
    let command = command_function(PosixDialect::Zsh);
    let mut text = String::from_str(POSIX_4);
    text.append(path.as_str());
    text.append(POSIX_5);
    text.append(shim_path.as_str());
    text.append(POSIX_6);
    text.append(command.as_str());
    text.append(POSIX_7);
    text
}

/// In the command runner, the file that receives a command's standard
/// output is `STDOUT_FILE` in the command directory and the one that
/// receives its standard error is `STDERR_FILE` there; the command's script
/// runs with its standard output sent to the first and its standard error to
/// the second.
pub proof fn lemma_command_output_files(dialect: PosixDialect)
    ensures
        holds_text(command_function_text(dialect), "local stdout_file=\"$directory/"@ + STDOUT_FILE@ + "\"\n    local stderr_file=\"$directory/"@ + STDERR_FILE@),
        holds_text(command_function_text(dialect), "{ eval \"$script\"; } > \"$stdout_file\" 2> \"$stderr_file\""@),
{
    lemma_holds_text_grows();
    assert forall|x: Seq<char>| #[trigger] holds_text(((((x + STDOUT_DECLARATION@) + STDOUT_FILE@) + POSIX_11@) + STDERR_FILE@), "local stdout_file=\"$directory/"@ + STDOUT_FILE@ + "\"\n    local stderr_file=\"$directory/"@ + STDERR_FILE@) by {
        assert(((((x + STDOUT_DECLARATION@) + STDOUT_FILE@) + POSIX_11@) + STDERR_FILE@) =~= x + ("local stdout_file=\"$directory/"@ + STDOUT_FILE@ + "\"\n    local stderr_file=\"$directory/"@ + STDERR_FILE@));
        lemma_holds_text_end(x, "local stdout_file=\"$directory/"@ + STDOUT_FILE@ + "\"\n    local stderr_file=\"$directory/"@ + STDERR_FILE@);
    }
    assert(holds_text(command_function_text(dialect), "local stdout_file=\"$directory/"@ + STDOUT_FILE@ + "\"\n    local stderr_file=\"$directory/"@ + STDERR_FILE@));
    assert forall|x: Seq<char>| #[trigger] holds_text((x + OUTPUT_REDIRECTION@), "{ eval \"$script\"; } > \"$stdout_file\" 2> \"$stderr_file\""@) by {
        assert((x + OUTPUT_REDIRECTION@) =~= x + ("{ eval \"$script\"; } > \"$stdout_file\" 2> \"$stderr_file\""@));
        lemma_holds_text_end(x, "{ eval \"$script\"; } > \"$stdout_file\" 2> \"$stderr_file\""@);
    }
    assert(holds_text(command_function_text(dialect), "{ eval \"$script\"; } > \"$stdout_file\" 2> \"$stderr_file\""@));
}

/// The command runner `functerm_run_command` of the second generation, with its helper functions, written for `dialect`.
pub open spec fn command_function_text(dialect: PosixDialect) -> Seq<char> {
    POSIX_COMMAND_FUNCTION@ + POSIX_8@ + emulate_text(dialect) + POSIX_9@ + mkdir_text(dialect) + POSIX_10@ + STDOUT_DECLARATION@ + STDOUT_FILE@ + POSIX_11@ + STDERR_FILE@ + POSIX_12@ + STARTED_FILE@ + POSIX_13@ + COMMAND_PAYLOAD_FILE@ + POSIX_14@ + DONE_FILE@ + POSIX_15@ + DONE_TEMP_FILE@ + POSIX_16@ + COMMAND_ID_ENV@ + POSIX_17@ + COMMAND_DIRECTORY_ENV@ + POSIX_18@ + previous_flags_text(dialect) + POSIX_19@ + COMMAND_ID_ENV@ + POSIX_20@ + COMMAND_DIRECTORY_ENV@ + POSIX_21@ + cd_text(dialect) + POSIX_22@ + write_done_temp_text(dialect) + POSIX_23@ + OUTPUT_REDIRECTION@ + POSIX_23_TAIL@ + mkdir_text(dialect) + POSIX_24@ + emulate_text(dialect) + POSIX_25@ + test_arg_text(dialect, "1"@) + POSIX_26@ + COMMAND_ID_ENV@ + POSIX_27@ + COMMAND_ID_ENV@ + POSIX_28@ + test_arg_text(dialect, "3"@) + POSIX_29@ + COMMAND_DIRECTORY_ENV@ + POSIX_30@ + COMMAND_DIRECTORY_ENV@ + POSIX_31@ + emulate_text(dialect) + POSIX_32@ + emulate_text(dialect) + POSIX_33@ + emulate_text(dialect) + POSIX_34@ + write_done_temp_text(dialect) + POSIX_35@ + move_done_text(dialect) + POSIX_36@
}

/// The command runner `functerm_run_command` of the second generation, with its helper functions, written for `dialect`.
pub fn command_function(dialect: PosixDialect) -> (text: String)
    ensures
        text@ == command_function_text(dialect),
{
    let previous_flags = dialect.previous_flags();
    let test_one = dialect.test_arg("1");
    let test_three = dialect.test_arg("3");
    let mut text = String::from_str(POSIX_COMMAND_FUNCTION);
    text.append(POSIX_8);
    text.append(dialect.emulate());
    text.append(POSIX_9);
    text.append(dialect.mkdir());
    text.append(POSIX_10);
    text.append(STDOUT_DECLARATION);
    text.append(STDOUT_FILE);
    text.append(POSIX_11);
    text.append(STDERR_FILE);
    text.append(POSIX_12);
    text.append(STARTED_FILE);
    text.append(POSIX_13);
    text.append(COMMAND_PAYLOAD_FILE);
    text.append(POSIX_14);
    text.append(DONE_FILE);
    text.append(POSIX_15);
    text.append(DONE_TEMP_FILE);
    text.append(POSIX_16);
    text.append(COMMAND_ID_ENV);
    text.append(POSIX_17);
    text.append(COMMAND_DIRECTORY_ENV);
    text.append(POSIX_18);
    text.append(previous_flags.as_str());
    text.append(POSIX_19);
    text.append(COMMAND_ID_ENV);
    text.append(POSIX_20);
    text.append(COMMAND_DIRECTORY_ENV);
    text.append(POSIX_21);
    text.append(dialect.cd());
    text.append(POSIX_22);
    text.append(dialect.write_done_temp());
    text.append(POSIX_23);
    text.append(OUTPUT_REDIRECTION);
    text.append(POSIX_23_TAIL);
    text.append(dialect.mkdir());
    text.append(POSIX_24);
    text.append(dialect.emulate());
    text.append(POSIX_25);
    text.append(test_one.as_str());
    text.append(POSIX_26);
    text.append(COMMAND_ID_ENV);
    text.append(POSIX_27);
    text.append(COMMAND_ID_ENV);
    text.append(POSIX_28);
    text.append(test_three.as_str());
    text.append(POSIX_29);
    text.append(COMMAND_DIRECTORY_ENV);
    text.append(POSIX_30);
    text.append(COMMAND_DIRECTORY_ENV);
    text.append(POSIX_31);
    text.append(dialect.emulate());
    text.append(POSIX_32);
    text.append(dialect.emulate());
    text.append(POSIX_33);
    text.append(dialect.emulate());
    text.append(POSIX_34);
    text.append(dialect.write_done_temp());
    text.append(POSIX_35);
    text.append(dialect.move_done());
    text.append(POSIX_36);
    text
}

} // verus!
