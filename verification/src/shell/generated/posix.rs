//! The Bash and Zsh wrappers of the first generation: the command is read from
//! a Base64 payload file, its output is copied with `tee`, and the done record
//! is written by the wrapper itself.
use super::posix_dialect::{
    PosixDialect, cd_text, emulate_text, mkdir_text, move_done_text, previous_flags_text,
    test_arg_text, truncate_text, write_done_temp_text,
};
use crate::contract::{
    COMMAND_DIRECTORY_ENV, COMMAND_ID_ENV, COMMAND_PAYLOAD_FILE, DONE_FILE, DONE_TEMP_FILE,
    POSIX_COMMAND_FUNCTION, STDERR_FILE, STDOUT_FILE,
};
use crate::shell::shims::SHIM_DIR_ENV;
use crate::chars::{holds_text, lemma_holds_text_end, lemma_holds_text_grows};
use vstd::prelude::*;

verus! {

pub const POSIX_0: &'static str = r"set +o history
unset HISTFILE
export HISTSIZE=0
export HISTFILESIZE=0
history -c

";
pub const POSIX_1: &'static str = "\n\n";
pub const POSIX_2: &'static str = "\n";
pub const POSIX_3: &'static str = r"unset HISTFILE
HISTSIZE=0
SAVEHIST=0
setopt no_append_history
setopt no_share_history
setopt no_inc_append_history
fc -p /dev/null 0 0 2> /dev/null || true
unset HISTFILE

";
pub const POSIX_4: &'static str = "\n\n";
pub const POSIX_5: &'static str = "\n";
pub const POSIX_6: &'static str = "\n    emulate -L zsh";
pub const POSIX_7: &'static str = "functerm_prepend_shim_path() {";
pub const POSIX_8: &'static str = r#"
    if [ -z "${"#;
pub const POSIX_9: &'static str = r#"-}" ]; then
        return 0
    fi
    local shim_dir="${"#;
pub const POSIX_10: &'static str = r#"}"
    if command -v cygpath > /dev/null 2>&1; then
        shim_dir="$(cygpath -u "$shim_dir" 2> /dev/null || printf '%s' "$shim_dir")"
    fi
    export PATH="$shim_dir:$PATH"
}
functerm_prepend_shim_path"#;
pub const POSIX_11: &'static str = "() {\n";
pub const POSIX_12: &'static str = r#"    local command_id="$1"
    local directory="$2"
    local working_directory="$3"
    "#;
pub const POSIX_13: &'static str = r#" "$directory" || return 1
    "#;
/// The declaration of the file that receives a command's standard output, up to the file's name.
pub const STDOUT_DECLARATION: &'static str = r#"local stdout_file="$directory/"#;
pub const POSIX_14: &'static str = r#""
    local stderr_file="$directory/"#;
pub const POSIX_15: &'static str = r#""
    local payload_file="$directory/"#;
pub const POSIX_16: &'static str = r#""
    local done_file="$directory/"#;
pub const POSIX_17: &'static str = r#""
    local done_temp_file="$directory/"#;
pub const POSIX_18: &'static str = r#""
    local previous_command_id="${"#;
pub const POSIX_19: &'static str = r#"-}"
    local previous_command_directory="${"#;
pub const POSIX_20: &'static str = r#"-}"
"#;
pub const POSIX_21: &'static str = "\n    export ";
pub const POSIX_22: &'static str = r#"="$command_id"
    export "#;
pub const POSIX_23: &'static str = r#"="$directory"
    "#;
pub const POSIX_24: &'static str = r#" "$stdout_file"
    "#;
pub const POSIX_25: &'static str = r#" "$stderr_file"
    local script
    if ! script="$(functerm_decode_payload_file "$payload_file" "$stderr_file")"; then
        local cwd_json
        cwd_json="$(functerm_json_string "$PWD")"
        printf '{"command_id":"%s","exit_code":1,"cwd":%s,"completed_at":"%s"}\n' \
            "$command_id" "$cwd_json" "$(date -u +%Y-%m-%dT%H:%M:%SZ)" "#;
pub const POSIX_26: &'static str = r#" "$done_temp_file"
        "#;
pub const POSIX_27: &'static str = r#"
        cat "$stderr_file" >&2
        functerm_restore_command_environment \
            "$had_previous_command_id" "$previous_command_id" \
            "$had_previous_command_directory" "$previous_command_directory"
        return 1
    fi
    if ! "#;
pub const POSIX_28: &'static str = r#" "$working_directory"; then
        functerm_restore_command_environment \
            "$had_previous_command_id" "$previous_command_id" \
            "$had_previous_command_directory" "$previous_command_directory"
        return 1
    fi
    "#;
/// The line that runs the command's script with its standard output and standard error copied to their files.
pub const OUTPUT_REDIRECTION: &'static str = r#"{ eval "$script"; } > >(tee "$stdout_file") 2> >(tee "$stderr_file" >&2)"#;
pub const POSIX_28_TAIL: &'static str = r#"
    local exit_code=$?
    local cwd_json
    cwd_json="$(functerm_json_string "$PWD")"
    printf '{"command_id":"%s","exit_code":%s,"cwd":%s,"completed_at":"%s"}\n' \
        "$command_id" "$exit_code" "$cwd_json" "$(date -u +%Y-%m-%dT%H:%M:%SZ)" "#;
pub const POSIX_29: &'static str = r#" "$done_temp_file"
    "#;
pub const POSIX_30: &'static str = r#"
    functerm_restore_command_environment \
        "$had_previous_command_id" "$previous_command_id" \
        "$had_previous_command_directory" "$previous_command_directory"
    return "$exit_code"
}

functerm_restore_command_environment() {
"#;
pub const POSIX_31: &'static str = "    if ";
pub const POSIX_32: &'static str = "; then\n        export ";
pub const POSIX_33: &'static str = r#"="$2"
    else
        unset "#;
pub const POSIX_34: &'static str = "\n    fi\n    if ";
pub const POSIX_35: &'static str = "; then\n        export ";
pub const POSIX_36: &'static str = r#"="$4"
    else
        unset "#;
pub const POSIX_37: &'static str = "\n    fi\n}\n\nfuncterm_json_string() {\n";
pub const POSIX_38: &'static str = r#"    local value="$1"
    value="${value//\\/\\\\}"
    value="${value//\"/\\\"}"
    value="${value//$'\n'/\\n}"
    value="${value//$'\r'/\\r}"
    printf '"%s"' "$value"
}

functerm_decode_payload_file() {
"#;
pub const POSIX_39: &'static str = r#"    local payload_file="$1"
    local stderr_file="$2"
    if base64 --decode < "$payload_file" 2> "$stderr_file"; then
        return 0
    fi
    base64 -D < "$payload_file" 2> "$stderr_file"
}"#;

/// The Bash wrapper: history off, the shim path helper and the command runner.
pub open spec fn bash_wrapper_text() -> Seq<char> {
    POSIX_0@ + shim_path_function_text(false) + POSIX_1@ + command_function_text(PosixDialect::Bash) + POSIX_2@
}

/// The Bash wrapper: history off, the shim path helper and the command runner.
pub fn bash_wrapper() -> (text: String)
    ensures
        text@ == bash_wrapper_text(),
{
    let shim_path = shim_path_function(false);
    let command = command_function(PosixDialect::Bash);
    let mut text = String::from_str(POSIX_0);
    text.append(shim_path.as_str());
    text.append(POSIX_1);
    text.append(command.as_str());
    text.append(POSIX_2);
    text
}

/// The Zsh wrapper: history off, the shim path helper and the command runner.
pub open spec fn zsh_wrapper_text() -> Seq<char> {
    POSIX_3@ + shim_path_function_text(true) + POSIX_4@ + command_function_text(PosixDialect::Zsh) + POSIX_5@
}

/// The Zsh wrapper: history off, the shim path helper and the command runner.
pub fn zsh_wrapper() -> (text: String)
    ensures
        text@ == zsh_wrapper_text(),
{
    let shim_path = shim_path_function(true);
    let command = command_function(PosixDialect::Zsh);
    let mut text = String::from_str(POSIX_3);
    text.append(shim_path.as_str());
    text.append(POSIX_4);
    text.append(command.as_str());
    text.append(POSIX_5);
    text
}

/// The POSIX function `functerm_prepend_shim_path`, which puts the shim directory in front of `PATH`, followed by a call of it.
pub open spec fn shim_path_function_text(zsh: bool) -> Seq<char> {
    POSIX_7@ + (if zsh { POSIX_6@ } else { ""@ }) + POSIX_8@ + SHIM_DIR_ENV@ + POSIX_9@ + SHIM_DIR_ENV@ + POSIX_10@
}

/// The POSIX function `functerm_prepend_shim_path`, which puts the shim directory in front of `PATH`, followed by a call of it.
pub fn shim_path_function(zsh: bool) -> (text: String)
    ensures
        text@ == shim_path_function_text(zsh),
{
    let local_options = if zsh { POSIX_6 } else { "" };
    let mut text = String::from_str(POSIX_7);
    text.append(local_options);
    text.append(POSIX_8);
    text.append(SHIM_DIR_ENV);
    text.append(POSIX_9);
    text.append(SHIM_DIR_ENV);
    text.append(POSIX_10);
    text
}

/// In the command runner, the file that receives a command's standard
/// output is `STDOUT_FILE` in the command directory and the one that
/// receives its standard error is `STDERR_FILE` there; the command's script
/// runs with its standard output copied to the first and its standard error to
/// the second.
pub proof fn lemma_command_output_files(dialect: PosixDialect)
    ensures
        holds_text(command_function_text(dialect), "local stdout_file=\"$directory/"@ + STDOUT_FILE@ + "\"\n    local stderr_file=\"$directory/"@ + STDERR_FILE@),
        holds_text(command_function_text(dialect), "{ eval \"$script\"; } > >(tee \"$stdout_file\") 2> >(tee \"$stderr_file\" >&2)"@),
{
    lemma_holds_text_grows();
    assert forall|x: Seq<char>| #[trigger] holds_text(((((x + STDOUT_DECLARATION@) + STDOUT_FILE@) + POSIX_14@) + STDERR_FILE@), "local stdout_file=\"$directory/"@ + STDOUT_FILE@ + "\"\n    local stderr_file=\"$directory/"@ + STDERR_FILE@) by {
        assert(((((x + STDOUT_DECLARATION@) + STDOUT_FILE@) + POSIX_14@) + STDERR_FILE@) =~= x + ("local stdout_file=\"$directory/"@ + STDOUT_FILE@ + "\"\n    local stderr_file=\"$directory/"@ + STDERR_FILE@));
        lemma_holds_text_end(x, "local stdout_file=\"$directory/"@ + STDOUT_FILE@ + "\"\n    local stderr_file=\"$directory/"@ + STDERR_FILE@);
    }
    assert(holds_text(command_function_text(dialect), "local stdout_file=\"$directory/"@ + STDOUT_FILE@ + "\"\n    local stderr_file=\"$directory/"@ + STDERR_FILE@));
    assert forall|x: Seq<char>| #[trigger] holds_text((x + OUTPUT_REDIRECTION@), "{ eval \"$script\"; } > >(tee \"$stdout_file\") 2> >(tee \"$stderr_file\" >&2)"@) by {
        assert((x + OUTPUT_REDIRECTION@) =~= x + ("{ eval \"$script\"; } > >(tee \"$stdout_file\") 2> >(tee \"$stderr_file\" >&2)"@));
        lemma_holds_text_end(x, "{ eval \"$script\"; } > >(tee \"$stdout_file\") 2> >(tee \"$stderr_file\" >&2)"@);
    }
    assert(holds_text(command_function_text(dialect), "{ eval \"$script\"; } > >(tee \"$stdout_file\") 2> >(tee \"$stderr_file\" >&2)"@));
}

/// The command runner `functerm_run_command` of the first generation, with its helper functions, written for `dialect`.
pub open spec fn command_function_text(dialect: PosixDialect) -> Seq<char> {
    POSIX_COMMAND_FUNCTION@ + POSIX_11@ + emulate_text(dialect) + POSIX_12@ + mkdir_text(dialect) + POSIX_13@ + STDOUT_DECLARATION@ + STDOUT_FILE@ + POSIX_14@ + STDERR_FILE@ + POSIX_15@ + COMMAND_PAYLOAD_FILE@ + POSIX_16@ + DONE_FILE@ + POSIX_17@ + DONE_TEMP_FILE@ + POSIX_18@ + COMMAND_ID_ENV@ + POSIX_19@ + COMMAND_DIRECTORY_ENV@ + POSIX_20@ + previous_flags_text(dialect) + POSIX_21@ + COMMAND_ID_ENV@ + POSIX_22@ + COMMAND_DIRECTORY_ENV@ + POSIX_23@ + truncate_text(dialect) + POSIX_24@ + truncate_text(dialect) + POSIX_25@ + write_done_temp_text(dialect) + POSIX_26@ + move_done_text(dialect) + POSIX_27@ + cd_text(dialect) + POSIX_28@ + OUTPUT_REDIRECTION@ + POSIX_28_TAIL@ + write_done_temp_text(dialect) + POSIX_29@ + move_done_text(dialect) + POSIX_30@ + emulate_text(dialect) + POSIX_31@ + test_arg_text(dialect, "1"@) + POSIX_32@ + COMMAND_ID_ENV@ + POSIX_33@ + COMMAND_ID_ENV@ + POSIX_34@ + test_arg_text(dialect, "3"@) + POSIX_35@ + COMMAND_DIRECTORY_ENV@ + POSIX_36@ + COMMAND_DIRECTORY_ENV@ + POSIX_37@ + emulate_text(dialect) + POSIX_38@ + emulate_text(dialect) + POSIX_39@
}

/// The command runner `functerm_run_command` of the first generation, with its helper functions, written for `dialect`.
pub fn command_function(dialect: PosixDialect) -> (text: String)
    ensures
        text@ == command_function_text(dialect),
{
    let previous_flags = dialect.previous_flags();
    let test_one = dialect.test_arg("1");
    let test_three = dialect.test_arg("3");
    let mut text = String::from_str(POSIX_COMMAND_FUNCTION);
    text.append(POSIX_11);
    text.append(dialect.emulate());
    text.append(POSIX_12);
    text.append(dialect.mkdir());
    text.append(POSIX_13);
    text.append(STDOUT_DECLARATION);
    text.append(STDOUT_FILE);
    text.append(POSIX_14);
    text.append(STDERR_FILE);
    text.append(POSIX_15);
    text.append(COMMAND_PAYLOAD_FILE);
    text.append(POSIX_16);
    text.append(DONE_FILE);
    text.append(POSIX_17);
    text.append(DONE_TEMP_FILE);
    text.append(POSIX_18);
    text.append(COMMAND_ID_ENV);
    text.append(POSIX_19);
    text.append(COMMAND_DIRECTORY_ENV);
    text.append(POSIX_20);
    text.append(previous_flags.as_str());
    text.append(POSIX_21);
    text.append(COMMAND_ID_ENV);
    text.append(POSIX_22);
    text.append(COMMAND_DIRECTORY_ENV);
    text.append(POSIX_23);
    text.append(dialect.truncate());
    text.append(POSIX_24);
    text.append(dialect.truncate());
    text.append(POSIX_25);
    text.append(dialect.write_done_temp());
    text.append(POSIX_26);
    text.append(dialect.move_done());
    text.append(POSIX_27);
    text.append(dialect.cd());
    text.append(POSIX_28);
    text.append(OUTPUT_REDIRECTION);
    text.append(POSIX_28_TAIL);
    text.append(dialect.write_done_temp());
    text.append(POSIX_29);
    text.append(dialect.move_done());
    text.append(POSIX_30);
    text.append(dialect.emulate());
    text.append(POSIX_31);
    text.append(test_one.as_str());
    text.append(POSIX_32);
    text.append(COMMAND_ID_ENV);
    text.append(POSIX_33);
    text.append(COMMAND_ID_ENV);
    text.append(POSIX_34);
    text.append(test_three.as_str());
    text.append(POSIX_35);
    text.append(COMMAND_DIRECTORY_ENV);
    text.append(POSIX_36);
    text.append(COMMAND_DIRECTORY_ENV);
    text.append(POSIX_37);
    text.append(dialect.emulate());
    text.append(POSIX_38);
    text.append(dialect.emulate());
    text.append(POSIX_39);
    text
}

} // verus!
