//! The POSIX function that runs one dispatched command and publishes its
//! start and completion through the helper executable.
use super::start::{posix as posix_publish_start, publish_start_text};
use super::variables::{
    posix_environment_restore, posix_environment_restore_text, posix_environment_snapshot,
    posix_environment_snapshot_text,
};
use crate::contract::{
    COMMAND_DIRECTORY_ENV, COMMAND_FILE, COMMAND_ID_ENV, COMMAND_INPUT_DIRECTORY,
    COMMAND_OUTPUT_DIRECTORY, COMMAND_STATE_DIRECTORY, DONE_FILE, HELPER_EXECUTABLE_ENV,
    POSIX_COMMAND_FUNCTION, STDERR_FILE, STDOUT_FILE,
};
use crate::shell::generated::posix_dialect::{
    PosixDialect, cd_text, emulate_text, mkdir_text, previous_flags_text, test_arg_text,
};
use crate::chars::{holds_text, lemma_holds_text_end, lemma_holds_text_extend};
use vstd::prelude::*;

verus! {

pub const COMMAND_FUNCTION_0: &'static str = r#"() {
		    local @VAR_command_id@="$1"
	    local @VAR_native_directory@="$2"
	    local @VAR_directory@="$@VAR_native_directory@"
	    local @VAR_working_directory@="$3"
	    @VAR_directory@="$(functerm_posix_path "$@VAR_directory@")" || return 1
	    @VAR_working_directory@="$(functerm_posix_path "$@VAR_working_directory@")" || return 1
	    local @VAR_input_dir@="$@VAR_directory@/"#;
pub const COMMAND_FUNCTION_1: &'static str = r#""
	    local @VAR_output_dir@="$@VAR_directory@/"#;
pub const COMMAND_FUNCTION_2: &'static str = r#""
	    local @VAR_state_dir@="$@VAR_directory@/"#;
pub const COMMAND_FUNCTION_3: &'static str = r#""
	    "#;
pub const COMMAND_FUNCTION_4: &'static str = r#" "$@VAR_input_dir@" "$@VAR_output_dir@" "$@VAR_state_dir@" || return 1
	    "#;
/// The declaration of the file that receives a command's standard output,
/// up to the file's name.
pub const STDOUT_DECLARATION: &'static str = r#"local @VAR_stdout_file@="$@VAR_output_dir@/"#;
/// The quote that closes a file declaration.
pub const CLOSING_QUOTE: &'static str = "\"";
pub const COMMAND_FUNCTION_5: &'static str = "\n\t    ";
/// The declaration of the file that receives a command's standard error, up
/// to the file's name.
pub const STDERR_DECLARATION: &'static str = r#"local @VAR_stderr_file@="$@VAR_output_dir@/"#;
pub const COMMAND_FUNCTION_6: &'static str = r#"
	    local @VAR_command_file@="$@VAR_input_dir@/"#;
pub const COMMAND_FUNCTION_7: &'static str = r#""
	    local @VAR_done_file@="$@VAR_state_dir@/"#;
pub const COMMAND_FUNCTION_8: &'static str = r#""
	    local @VAR_previous_command_id@="${"#;
pub const COMMAND_FUNCTION_9: &'static str = r#"-}"
	    local @VAR_previous_command_directory@="${"#;
pub const COMMAND_FUNCTION_10: &'static str = r#"-}"
	"#;
pub const COMMAND_FUNCTION_11: &'static str = "\n\t";
pub const COMMAND_FUNCTION_12: &'static str = "\n\t    export ";
pub const COMMAND_FUNCTION_13: &'static str = r#"="$@VAR_command_id@"
	    export "#;
pub const COMMAND_FUNCTION_14: &'static str = r#"="$@VAR_directory@"
	    if ! functerm_ensure_shims; then
	        local @VAR_publish_result@=0
	        functerm_publish_done "$@VAR_command_id@" 1 "0ns" "$PWD" "$@VAR_native_directory@" || @VAR_publish_result@=$?
	        functerm_restore_command_environment \
	            "$@VAR_had_previous_command_id@" "$@VAR_previous_command_id@" \
	            "$@VAR_had_previous_command_directory@" "$@VAR_previous_command_directory@"
	        if [ "$@VAR_publish_result@" -ne 0 ]; then
	            return "$@VAR_publish_result@"
	        fi
	        return 1
	    fi
	    functerm_prepend_shim_path || return 1
	    local @VAR_script@
	    if ! @VAR_script@="$(cat "$@VAR_command_file@" 2> "$@VAR_stderr_file@")"; then
	        local @VAR_publish_result@=0
	        functerm_publish_done "$@VAR_command_id@" 1 "0ns" "$PWD" "$@VAR_native_directory@" || @VAR_publish_result@=$?
	        cat "$@VAR_stderr_file@" >&2
	        functerm_restore_command_environment \
	            "$@VAR_had_previous_command_id@" "$@VAR_previous_command_id@" \
	            "$@VAR_had_previous_command_directory@" "$@VAR_previous_command_directory@"
	        if [ "$@VAR_publish_result@" -ne 0 ]; then
	            return "$@VAR_publish_result@"
	        fi
	        return 1
	    fi
	    rm -f -- "$@VAR_command_file@" || return 1
	    if ! "#;
pub const COMMAND_FUNCTION_15: &'static str = r#" "$@VAR_working_directory@"; then
	        local @VAR_publish_result@=0
	        functerm_publish_done "$@VAR_command_id@" 1 "0ns" "$PWD" "$@VAR_native_directory@" || @VAR_publish_result@=$?
	        functerm_restore_command_environment \
	            "$@VAR_had_previous_command_id@" "$@VAR_previous_command_id@" \
	            "$@VAR_had_previous_command_directory@" "$@VAR_previous_command_directory@"
	        if [ "$@VAR_publish_result@" -ne 0 ]; then
	            return "$@VAR_publish_result@"
	        fi
	        return 1
	    fi
	    if ! functerm_publish_start "$@VAR_command_id@" "$@VAR_native_directory@"; then
	        local @VAR_publish_result@=0
	        functerm_publish_done "$@VAR_command_id@" 1 "0ns" "$PWD" "$@VAR_native_directory@" || @VAR_publish_result@=$?
	        functerm_restore_command_environment \
	            "$@VAR_had_previous_command_id@" "$@VAR_previous_command_id@" \
	            "$@VAR_had_previous_command_directory@" "$@VAR_previous_command_directory@"
	        if [ "$@VAR_publish_result@" -ne 0 ]; then
	            return "$@VAR_publish_result@"
	        fi
	        return 1
	    fi
	    local @VAR_command_started_at@="$(functerm_command_time_millis)" || return 1
	    "#;
/// The line that runs the command's script with its standard output and
/// standard error sent to their files.
pub const OUTPUT_REDIRECTION: &'static str = r#"{ eval "$@VAR_script@"; } > "$@VAR_stdout_file@" 2> "$@VAR_stderr_file@""#;
pub const COMMAND_FUNCTION_15_TAIL: &'static str = r#"
	    local @VAR_exit_code@=$?
	"#;
pub const COMMAND_FUNCTION_16: &'static str = r#"
	    local @VAR_command_finished_at@="$(functerm_command_time_millis)" || return 1
	    local @VAR_time_consumption@="$((@VAR_command_finished_at@ - @VAR_command_started_at@))ms"
	    cat "$@VAR_stdout_file@"
	    cat "$@VAR_stderr_file@" >&2
	    "#;
pub const COMMAND_FUNCTION_17: &'static str = r#" "$@VAR_state_dir@" || return 1
	    if ! functerm_publish_done "$@VAR_command_id@" "$@VAR_exit_code@" "$@VAR_time_consumption@" "$PWD" "$@VAR_native_directory@"; then
	        functerm_restore_command_environment \
	            "$@VAR_had_previous_command_id@" "$@VAR_previous_command_id@" \
	            "$@VAR_had_previous_command_directory@" "$@VAR_previous_command_directory@"
	        return 1
	    fi
	    functerm_restore_command_environment \
	        "$@VAR_had_previous_command_id@" "$@VAR_previous_command_id@" \
	        "$@VAR_had_previous_command_directory@" "$@VAR_previous_command_directory@"
	    return "$@VAR_exit_code@"
}
functerm_restore_command_environment() {
"#;
pub const COMMAND_FUNCTION_18: &'static str = "    if ";
pub const COMMAND_FUNCTION_19: &'static str = "; then\n        export ";
pub const COMMAND_FUNCTION_20: &'static str = r#"="$2"
    else
        unset "#;
pub const COMMAND_FUNCTION_21: &'static str = "\n    fi\n    if ";
pub const COMMAND_FUNCTION_22: &'static str = "; then\n        export ";
pub const COMMAND_FUNCTION_23: &'static str = r#"="$4"
    else
        unset "#;
pub const COMMAND_FUNCTION_24: &'static str = "\n    fi\n}\nfuncterm_publish_done() {\n";
pub const COMMAND_FUNCTION_25: &'static str = r#"    local @VAR_command_id@="$1"
	    local @VAR_exit_code@="$2"
	    local @VAR_time_consumption@="$3"
	    local @VAR_cwd@="$4"
	    local @VAR_native_directory@="$5"
	    local @VAR_helper@="${"#;
pub const COMMAND_FUNCTION_26: &'static str = r#"-}"
	    if [ -e "$@VAR_done_file@" ]; then
	        return 0
	    fi
	    if [ -z "$@VAR_helper@" ]; then
	        printf '%s is not set\n' ""#;
pub const COMMAND_FUNCTION_27: &'static str = r#"" >&2
	        return 1
	    fi
	    @VAR_helper@="$(functerm_posix_path "$@VAR_helper@")" || return 1
	    "$@VAR_helper@" internal-write-done \
	        --command-id "$@VAR_command_id@" \
	        --exit-code "$@VAR_exit_code@" \
	        --time-consumption "$@VAR_time_consumption@" \
	        --cwd "$@VAR_cwd@" \
	        --directory "$@VAR_native_directory@"
}
"#;
pub const COMMAND_FUNCTION_28: &'static str = "\nfuncterm_command_time_millis() { ";
pub const COMMAND_FUNCTION_29: &'static str = r#"    perl -MTime::HiRes=time -e 'printf "%.0f\n", time() * 1000'; }
functerm_ensure_shims() {
"#;
pub const COMMAND_FUNCTION_30: &'static str = r#"    local @VAR_shim_dir@="${FUNCTERM_SHIM_DIR-}"
	    if [ -z "$@VAR_shim_dir@" ]; then
	        return 0
	    fi
	    local @VAR_helper@="${"#;
pub const COMMAND_FUNCTION_31: &'static str = r#"-}"
	    if [ -z "$@VAR_helper@" ]; then
	        printf '%s is not set\n' ""#;
pub const COMMAND_FUNCTION_32: &'static str = r#"" >&2
	        return 1
	    fi
	    @VAR_helper@="$(functerm_posix_path "$@VAR_helper@")" || return 1
	    "$@VAR_helper@" internal-ensure-shims --directory "$@VAR_shim_dir@"
}"#;

/// The command runner `functerm_run_command` with its helper functions, written for `dialect`.
pub open spec fn command_function_text(dialect: PosixDialect) -> Seq<char> {
    POSIX_COMMAND_FUNCTION@ + COMMAND_FUNCTION_0@ + COMMAND_INPUT_DIRECTORY@ + COMMAND_FUNCTION_1@ + COMMAND_OUTPUT_DIRECTORY@ + COMMAND_FUNCTION_2@ + COMMAND_STATE_DIRECTORY@ + COMMAND_FUNCTION_3@ + mkdir_text(dialect) + COMMAND_FUNCTION_4@ + STDOUT_DECLARATION@ + STDOUT_FILE@ + CLOSING_QUOTE@ + COMMAND_FUNCTION_5@ + STDERR_DECLARATION@ + STDERR_FILE@ + CLOSING_QUOTE@ + COMMAND_FUNCTION_6@ + COMMAND_FILE@ + COMMAND_FUNCTION_7@ + DONE_FILE@ + COMMAND_FUNCTION_8@ + COMMAND_ID_ENV@ + COMMAND_FUNCTION_9@ + COMMAND_DIRECTORY_ENV@ + COMMAND_FUNCTION_10@ + previous_flags_text(dialect) + COMMAND_FUNCTION_11@ + posix_environment_snapshot_text() + COMMAND_FUNCTION_12@ + COMMAND_ID_ENV@ + COMMAND_FUNCTION_13@ + COMMAND_DIRECTORY_ENV@ + COMMAND_FUNCTION_14@ + cd_text(dialect) + COMMAND_FUNCTION_15@ + OUTPUT_REDIRECTION@ + COMMAND_FUNCTION_15_TAIL@ + posix_environment_restore_text() + COMMAND_FUNCTION_16@ + mkdir_text(dialect) + COMMAND_FUNCTION_17@ + emulate_text(dialect) + COMMAND_FUNCTION_18@ + test_arg_text(dialect, "1"@) + COMMAND_FUNCTION_19@ + COMMAND_ID_ENV@ + COMMAND_FUNCTION_20@ + COMMAND_ID_ENV@ + COMMAND_FUNCTION_21@ + test_arg_text(dialect, "3"@) + COMMAND_FUNCTION_22@ + COMMAND_DIRECTORY_ENV@ + COMMAND_FUNCTION_23@ + COMMAND_DIRECTORY_ENV@ + COMMAND_FUNCTION_24@ + emulate_text(dialect) + COMMAND_FUNCTION_25@ + HELPER_EXECUTABLE_ENV@ + COMMAND_FUNCTION_26@ + HELPER_EXECUTABLE_ENV@ + COMMAND_FUNCTION_27@ + publish_start_text(dialect) + COMMAND_FUNCTION_28@ + emulate_text(dialect) + COMMAND_FUNCTION_29@ + emulate_text(dialect) + COMMAND_FUNCTION_30@ + HELPER_EXECUTABLE_ENV@ + COMMAND_FUNCTION_31@ + HELPER_EXECUTABLE_ENV@ + COMMAND_FUNCTION_32@
}

/// In the command runner, the file that receives a command's standard
/// output is `STDOUT_FILE` in the command's output directory and the one that
/// receives its standard error is `STDERR_FILE` there; the command's script
/// runs with its standard output sent to the first and its standard error to
/// the second.
pub proof fn lemma_command_output_files(dialect: PosixDialect)
    ensures
        holds_text(command_function_text(dialect), "local @VAR_stdout_file@=\"$@VAR_output_dir@/"@ + STDOUT_FILE@ + "\""@),
        holds_text(command_function_text(dialect), "local @VAR_stderr_file@=\"$@VAR_output_dir@/"@ + STDERR_FILE@ + "\""@),
        holds_text(
            command_function_text(dialect),
            "{ eval \"$@VAR_script@\"; } > \"$@VAR_stdout_file@\" 2> \"$@VAR_stderr_file@\""@,
        ),
{
    let out = "local @VAR_stdout_file@=\"$@VAR_output_dir@/"@ + STDOUT_FILE@ + "\""@;
    let err = "local @VAR_stderr_file@=\"$@VAR_output_dir@/"@ + STDERR_FILE@ + "\""@;
    let run = "{ eval \"$@VAR_script@\"; } > \"$@VAR_stdout_file@\" 2> \"$@VAR_stderr_file@\""@;
    assert forall|x: Seq<char>, y: Seq<char>, p: Seq<char>| holds_text(x, p) implies #[trigger] holds_text(x + y, p) by {
        lemma_holds_text_extend(x, y, p);
    }
    assert forall|x: Seq<char>| #[trigger] holds_text(((x + STDOUT_DECLARATION@) + STDOUT_FILE@) + CLOSING_QUOTE@, out) by {
        assert(((x + STDOUT_DECLARATION@) + STDOUT_FILE@) + CLOSING_QUOTE@ =~= x + out);
        lemma_holds_text_end(x, out);
    }
    assert forall|x: Seq<char>| #[trigger] holds_text(((x + STDERR_DECLARATION@) + STDERR_FILE@) + CLOSING_QUOTE@, err) by {
        assert(((x + STDERR_DECLARATION@) + STDERR_FILE@) + CLOSING_QUOTE@ =~= x + err);
        lemma_holds_text_end(x, err);
    }
    assert forall|x: Seq<char>| #[trigger] holds_text(x + OUTPUT_REDIRECTION@, run) by {
        lemma_holds_text_end(x, run);
    }
    assert(holds_text(command_function_text(dialect), out));
    assert(holds_text(command_function_text(dialect), err));
    assert(holds_text(command_function_text(dialect), run));
}

/// The command runner `functerm_run_command` with its helper functions, written for `dialect`.
pub fn command_function(dialect: PosixDialect) -> (text: String)
    ensures
        text@ == command_function_text(dialect),
{
    let previous_flags = dialect.previous_flags();
    let environment_snapshot = posix_environment_snapshot();
    let environment_restore = posix_environment_restore();
    let test_one = dialect.test_arg("1");
    let test_three = dialect.test_arg("3");
    let publish_start = posix_publish_start(dialect);
    let mut text = String::from_str(POSIX_COMMAND_FUNCTION);
    text.append(COMMAND_FUNCTION_0);
    text.append(COMMAND_INPUT_DIRECTORY);
    text.append(COMMAND_FUNCTION_1);
    text.append(COMMAND_OUTPUT_DIRECTORY);
    text.append(COMMAND_FUNCTION_2);
    text.append(COMMAND_STATE_DIRECTORY);
    text.append(COMMAND_FUNCTION_3);
    text.append(dialect.mkdir());
    text.append(COMMAND_FUNCTION_4);
    text.append(STDOUT_DECLARATION);
    text.append(STDOUT_FILE);
    text.append(CLOSING_QUOTE);
    text.append(COMMAND_FUNCTION_5);
    text.append(STDERR_DECLARATION);
    text.append(STDERR_FILE);
    text.append(CLOSING_QUOTE);
    text.append(COMMAND_FUNCTION_6);
    text.append(COMMAND_FILE);
    text.append(COMMAND_FUNCTION_7);
    text.append(DONE_FILE);
    text.append(COMMAND_FUNCTION_8);
    text.append(COMMAND_ID_ENV);
    text.append(COMMAND_FUNCTION_9);
    text.append(COMMAND_DIRECTORY_ENV);
    text.append(COMMAND_FUNCTION_10);
    text.append(previous_flags.as_str());
    text.append(COMMAND_FUNCTION_11);
    text.append(environment_snapshot.as_str());
    text.append(COMMAND_FUNCTION_12);
    text.append(COMMAND_ID_ENV);
    text.append(COMMAND_FUNCTION_13);
    text.append(COMMAND_DIRECTORY_ENV);
    text.append(COMMAND_FUNCTION_14);
    text.append(dialect.cd());
    text.append(COMMAND_FUNCTION_15);
    text.append(OUTPUT_REDIRECTION);
    text.append(COMMAND_FUNCTION_15_TAIL);
    text.append(environment_restore.as_str());
    text.append(COMMAND_FUNCTION_16);
    text.append(dialect.mkdir());
    text.append(COMMAND_FUNCTION_17);
    text.append(dialect.emulate());
    text.append(COMMAND_FUNCTION_18);
    text.append(test_one.as_str());
    text.append(COMMAND_FUNCTION_19);
    text.append(COMMAND_ID_ENV);
    text.append(COMMAND_FUNCTION_20);
    text.append(COMMAND_ID_ENV);
    text.append(COMMAND_FUNCTION_21);
    text.append(test_three.as_str());
    text.append(COMMAND_FUNCTION_22);
    text.append(COMMAND_DIRECTORY_ENV);
    text.append(COMMAND_FUNCTION_23);
    text.append(COMMAND_DIRECTORY_ENV);
    text.append(COMMAND_FUNCTION_24);
    text.append(dialect.emulate());
    text.append(COMMAND_FUNCTION_25);
    text.append(HELPER_EXECUTABLE_ENV);
    text.append(COMMAND_FUNCTION_26);
    text.append(HELPER_EXECUTABLE_ENV);
    text.append(COMMAND_FUNCTION_27);
    text.append(publish_start.as_str());
    text.append(COMMAND_FUNCTION_28);
    text.append(dialect.emulate());
    text.append(COMMAND_FUNCTION_29);
    text.append(dialect.emulate());
    text.append(COMMAND_FUNCTION_30);
    text.append(HELPER_EXECUTABLE_ENV);
    text.append(COMMAND_FUNCTION_31);
    text.append(HELPER_EXECUTABLE_ENV);
    text.append(COMMAND_FUNCTION_32);
    text
}

} // verus!
