//! The Bun bootstrap: a REPL that enters the working directory, watches the
//! session's dispatch file, runs each dispatched command with its output
//! captured, publishes the command's record, and writes the ready file.
use crate::contract::{
    COMMAND_DIRECTORY_ENV, COMMAND_FILE, COMMAND_ID_ENV, COMMAND_INPUT_DIRECTORY,
    COMMAND_OUTPUT_DIRECTORY, COMMAND_WORKING_DIRECTORY_FILE, DISPATCH_FILE, HELPER_EXECUTABLE_ENV,
    SESSION_COMMANDS_DIRECTORY, SESSION_STATE_DIRECTORY, STDERR_FILE, STDOUT_FILE,
};
use crate::error::ShellError;
use crate::shell::wrappers::variables::{render_in_new_namespace, rendered_in_some_namespace};
use crate::chars::{holds_text, lemma_holds_text_end, lemma_holds_text_grows};
use vstd::prelude::*;

verus! {

/// The script that captures what a command prints while it runs.
pub const OUTPUT_CAPTURE: &'static str = r#"const @VAR_captureOutput@ = () => {
	    const @VAR_stdout@ = [], @VAR_stderr@ = [];
	    const @VAR_stdoutWrite@ = process.stdout.write.bind(process.stdout);
	    const @VAR_stderrWrite@ = process.stderr.write.bind(process.stderr);
	    const @VAR_write@ = (@VAR_original@, @VAR_chunks@, @VAR_isStdout@) => (@VAR_chunk@, ...@VAR_args@) => {
	        const @VAR_bytes@ = Buffer.isBuffer(@VAR_chunk@) ? @VAR_chunk@ : Buffer.from(@VAR_chunk@, typeof @VAR_args@[0] === "string" ? @VAR_args@[0] : undefined);
	        let @VAR_captured@ = @VAR_bytes@;
	        if (@VAR_isStdout@ && @VAR_activeCommand@?.readingInput) {
	            @VAR_captured@ = undefined;
	            if (@VAR_activeCommand@.nativeInput) {
	                const @VAR_lineEnd@ = @VAR_bytes@.indexOf(10);
	                if (@VAR_lineEnd@ >= 0) {
	                    @VAR_activeCommand@.readingInput = false;
	                    @VAR_captured@ = @VAR_bytes@.subarray(@VAR_lineEnd@ + 1);
	                }
	            }
	        }
	        if (@VAR_captured@?.length) @VAR_chunks@.push(@VAR_captured@);
	        return @VAR_original@(@VAR_chunk@, ...@VAR_args@);
	    };
	    process.stdout.write = @VAR_write@(@VAR_stdoutWrite@, @VAR_stdout@, true);
	    process.stderr.write = @VAR_write@(@VAR_stderrWrite@, @VAR_stderr@, false);
	    const @VAR_consoleMethods@ = [];
	    for (const @VAR_consoleObject@ of new Set([console, @VAR_server@.context.console])) {
	        for (const [@VAR_name@, @VAR_target@] of [["log", process.stdout], ["info", process.stdout], ["warn", process.stderr], ["error", process.stderr]]) {
	            @VAR_consoleMethods@.push([@VAR_consoleObject@, @VAR_name@, @VAR_consoleObject@[@VAR_name@]]);
	            @VAR_consoleObject@[@VAR_name@] = (...@VAR_values@) => @VAR_target@.write(`${@VAR_format@(...@VAR_values@)}\n`);
	        }
	    }
	    return {
	        stdout: @VAR_stdout@, stderr: @VAR_stderr@,
	        restore() {
	            process.stdout.write = @VAR_stdoutWrite@;
	            process.stderr.write = @VAR_stderrWrite@;
	            for (const [@VAR_consoleObject@, @VAR_name@, @VAR_method@] of @VAR_consoleMethods@) @VAR_consoleObject@[@VAR_name@] = @VAR_method@;
	        }
    };
};"#;

pub const BOOTSTRAP_0: &'static str = r#"import { spawnSync as @VAR_spawnSync@ } from "node:child_process";
	import { existsSync as @VAR_existsSync@, readFileSync as @VAR_readFileSync@, rmSync as @VAR_rmSync@, watch as @VAR_watch@, writeFileSync as @VAR_writeFileSync@ } from "node:fs";
	import { join as @VAR_join@, delimiter as @VAR_delimiter@ } from "node:path";
	import { Recoverable as @VAR_Recoverable@, start as @VAR_start@ } from "node:repl";
	import { format as @VAR_format@, inspect as @VAR_inspect@ } from "node:util";
	process.chdir("#;
pub const BOOTSTRAP_1: &'static str = r#");
	process.env.FUNCTERM_CURRENT_SHELL = "bun";
	const @VAR_server@ = @VAR_start@({ prompt: "> " });
	const @VAR_evaluate@ = @VAR_server@.eval;
	let @VAR_activeCommand@;
	let @VAR_dispatching@ = false;
	let @VAR_inputDepth@ = 0;
	let @VAR_pendingEvaluations@ = 0;
	let @VAR_deferredPrompt@;
	let @VAR_evaluationReturned@ = false;
	const @VAR_runHelper@ = @VAR_args@ => {
	    const @VAR_helper@ = process.env."#;
pub const BOOTSTRAP_2: &'static str = r#";
	    if (!@VAR_helper@) throw new Error(""#;
pub const BOOTSTRAP_3: &'static str = r#" is not set");
	    const @VAR_result@ = @VAR_spawnSync@(@VAR_helper@, @VAR_args@, { env: process.env, stdio: "inherit" });
	    if (@VAR_result@.error) throw @VAR_result@.error;
	    if (@VAR_result@.status !== 0) throw new Error(`FuncTerm helper exited with ${@VAR_result@.status}`);
	};
	const @VAR_prependShimPath@ = () => {
	    const @VAR_shim@ = process.env.FUNCTERM_SHIM_DIR;
	    if (!@VAR_shim@) return;
	    process.env.PATH = [@VAR_shim@, ...(process.env.PATH ?? "").split(@VAR_delimiter@).filter(@VAR_value@ => @VAR_value@ && @VAR_value@ !== @VAR_shim@)].join(@VAR_delimiter@);
	};
	"#;
pub const BOOTSTRAP_4: &'static str = r#"
	const @VAR_restoreEnvironment@ = (@VAR_name@, @VAR_value@) => @VAR_value@ === undefined ? delete process.env[@VAR_name@] : process.env[@VAR_name@] = @VAR_value@;
	const @VAR_finishCommand@ = () => {
	    const @VAR_command@ = @VAR_activeCommand@;
	    if (!@VAR_command@) return;
	    @VAR_activeCommand@ = undefined;
	    @VAR_server@.writer = @VAR_command@.previousWriter;
	    @VAR_command@.capture.restore();
	    "#;
/// The call that writes a captured stream into the command's output directory, up to the file's name.
pub const OUTPUT_WRITE: &'static str = r#"@VAR_writeFileSync@(@VAR_join@(@VAR_command@.output, ""#;
pub const BOOTSTRAP_5: &'static str = r#""), Buffer.concat(@VAR_command@.capture.stdout));
	    @VAR_writeFileSync@(@VAR_join@(@VAR_command@.output, ""#;
/// The end of the call that writes the captured standard error.
pub const BOOTSTRAP_6: &'static str = r#""), Buffer.concat(@VAR_command@.capture.stderr));"#;
pub const BOOTSTRAP_6_TAIL: &'static str = r#"
	    const @VAR_elapsed@ = `${Math.max(1, Math.ceil(performance.now() - @VAR_command@.started))}ms`;
	    @VAR_runHelper@(["internal-write-done", "--command-id", @VAR_command@.id, "--exit-code", @VAR_command@.failed ? "1" : "0", "--time-consumption", @VAR_elapsed@, "--cwd", process.cwd(), "--directory", @VAR_command@.directory]);
	    @VAR_restoreEnvironment@(""#;
pub const BOOTSTRAP_7: &'static str = r#"", @VAR_command@.previousId);
	    @VAR_restoreEnvironment@(""#;
pub const BOOTSTRAP_8: &'static str = r#"", @VAR_command@.previousDirectory);
	};
	const @VAR_displayPrompt@ = @VAR_server@.displayPrompt.bind(@VAR_server@);
	@VAR_server@.displayPrompt = (...@VAR_args@) => {
	    const @VAR_nativeError@ = @VAR_activeCommand@ && @VAR_server@.context._error !== @VAR_activeCommand@.previousError;
	    if (@VAR_nativeError@) {
	        @VAR_activeCommand@.failed = true;
	        @VAR_pendingEvaluations@ = 0;
	        @VAR_evaluationReturned@ = true;
	    }
	    if (@VAR_activeCommand@ && (@VAR_inputDepth@ > 0 || @VAR_pendingEvaluations@ > 0 || !@VAR_evaluationReturned@)) {
	        @VAR_deferredPrompt@ = @VAR_args@;
	        return;
	    }
	    @VAR_finishCommand@();
	    return @VAR_displayPrompt@(...@VAR_args@);
	};
	const @VAR_finishDeferredPrompt@ = () => {
	    if (!@VAR_activeCommand@ || @VAR_inputDepth@ > 0 || @VAR_pendingEvaluations@ > 0 || !@VAR_evaluationReturned@ || !@VAR_deferredPrompt@) return;
	    const @VAR_args@ = @VAR_deferredPrompt@;
	    @VAR_deferredPrompt@ = undefined;
	    @VAR_finishCommand@();
	    @VAR_displayPrompt@(...@VAR_args@);
	};
	@VAR_server@.eval = (@VAR_source@, @VAR_context@, @VAR_file@, @VAR_callback@) => {
	    if (@VAR_activeCommand@) @VAR_activeCommand@.readingInput = false;
	    @VAR_pendingEvaluations@ += 1;
	    let @VAR_callbackCalled@ = false;
	    const @VAR_finishEvaluation@ = (@VAR_error@, @VAR_value@) => {
	        if (@VAR_callbackCalled@) return;
	        @VAR_callbackCalled@ = true;
	        if (@VAR_activeCommand@ && @VAR_error@ instanceof @VAR_Recoverable@ && @VAR_inputDepth@ > 0) {
	            @VAR_activeCommand@.readingInput = true;
	        } else if (@VAR_activeCommand@ && @VAR_error@) {
	            @VAR_activeCommand@.failed = true;
	        }
	        @VAR_pendingEvaluations@ -= 1;
	        @VAR_callback@(@VAR_error@, @VAR_value@);
	        if (@VAR_activeCommand@ && @VAR_inputDepth@ > 0) @VAR_activeCommand@.readingInput = true;
	        @VAR_finishDeferredPrompt@();
	    };
	    try {
	        const @VAR_returned@ = @VAR_evaluate@.call(@VAR_server@, @VAR_source@, @VAR_context@, @VAR_file@, @VAR_finishEvaluation@);
	        if (@VAR_returned@ && typeof @VAR_returned@.then === "function") {
	            @VAR_returned@.then(@VAR_value@ => @VAR_finishEvaluation@(null, @VAR_value@), @VAR_error@ => @VAR_finishEvaluation@(@VAR_error@));
	        }
	    } finally {
	        @VAR_evaluationReturned@ = true;
	        @VAR_finishDeferredPrompt@();
	    }
	};
	@VAR_server@.on("exit", () => {
	    @VAR_finishCommand@();
	    @VAR_watcher@.close();
	});
	const @VAR_stateDirectory@ = @VAR_join@(process.env.FUNCTERM_SESSION_ROOT, ""#;
pub const BOOTSTRAP_9: &'static str = r#"");
	const @VAR_dispatchFile@ = @VAR_join@(@VAR_stateDirectory@, ""#;
pub const BOOTSTRAP_10: &'static str = r#"");
	const @VAR_dispatch@ = () => {
	    if (@VAR_dispatching@ || @VAR_activeCommand@) return;
	    @VAR_dispatching@ = true;
	    try {
	        const @VAR_commandId@ = @VAR_readFileSync@(@VAR_dispatchFile@, "utf8");
	        @VAR_rmSync@(@VAR_dispatchFile@);
	        const @VAR_directory@ = @VAR_join@(process.env.FUNCTERM_SESSION_ROOT, ""#;
pub const BOOTSTRAP_11: &'static str = r#"", @VAR_commandId@);
	        const @VAR_input@ = @VAR_join@(@VAR_directory@, ""#;
pub const BOOTSTRAP_12: &'static str = r#"");
	        const @VAR_output@ = @VAR_join@(@VAR_directory@, ""#;
pub const BOOTSTRAP_13: &'static str = r#"");
	        const @VAR_source@ = @VAR_readFileSync@(@VAR_join@(@VAR_input@, ""#;
pub const BOOTSTRAP_14: &'static str = r#""), "utf8");
	        const @VAR_workingDirectory@ = @VAR_readFileSync@(@VAR_join@(@VAR_input@, ""#;
pub const BOOTSTRAP_15: &'static str = r#""), "utf8");
	        const @VAR_previousId@ = process.env."#;
pub const BOOTSTRAP_16: &'static str = r";
	        const @VAR_previousDirectory@ = process.env.";
pub const BOOTSTRAP_17: &'static str = r";
	        const @VAR_previousError@ = @VAR_server@.context._error;
	        process.env.";
pub const BOOTSTRAP_18: &'static str = r" = @VAR_commandId@;
	        process.env.";
pub const BOOTSTRAP_19: &'static str = r#" = @VAR_directory@;
	        @VAR_runHelper@(["internal-ensure-shims", "--directory", process.env.FUNCTERM_SHIM_DIR]);
	        @VAR_prependShimPath@();
	        process.chdir(@VAR_workingDirectory@);
	        @VAR_runHelper@(["internal-write-start", "--command-id", @VAR_commandId@, "--directory", @VAR_directory@]);
	        const @VAR_previousWriter@ = @VAR_server@.writer;
	        @VAR_server@.writer = @VAR_value@ => @VAR_inspect@(@VAR_value@, { ...@VAR_previousWriter@.options, colors: false });
	        @VAR_activeCommand@ = {
	            id: @VAR_commandId@, directory: @VAR_directory@, output: @VAR_output@,
	            previousId: @VAR_previousId@, previousDirectory: @VAR_previousDirectory@,
	            previousError: @VAR_previousError@, previousWriter: @VAR_previousWriter@,
	            started: performance.now(), failed: false, readingInput: true,
	            nativeInput: @VAR_source@.trimStart().startsWith("."), capture: @VAR_captureOutput@()
	        };
	        @VAR_evaluationReturned@ = true;
	        @VAR_inputDepth@ += 1;
	        try {
	            @VAR_server@.write(@VAR_source@.endsWith("\n") ? @VAR_source@ : `${@VAR_source@}\n`);
	        } finally {
	            @VAR_inputDepth@ -= 1;
	        }
	        @VAR_finishDeferredPrompt@();
	        @VAR_server@.resume();
	    } catch (@VAR_error@) {
	        console.error(@VAR_error@);
	        @VAR_server@.close();
	    } finally {
	        @VAR_dispatching@ = false;
	    }
	};
	const @VAR_watcher@ = @VAR_watch@(@VAR_stateDirectory@, () => {
	    if (!@VAR_existsSync@(@VAR_dispatchFile@)) return;
	    try {
	        @VAR_dispatch@();
	    } catch (@VAR_error@) {
	        console.error(@VAR_error@);
	        @VAR_server@.close();
	    }
	});
	@VAR_server@.resume();
	@VAR_writeFileSync@("#;
pub const BOOTSTRAP_20: &'static str = r#", "");
"#;

/// In the Bun bootstrap, a command's captured standard output is written to
/// `STDOUT_FILE` in the command's output directory and its captured standard
/// error to `STDERR_FILE` there.
pub proof fn lemma_bootstrap_output_files(cwd: Seq<char>, ready: Seq<char>)
    ensures
        holds_text(bootstrap_template(cwd, ready), "@VAR_writeFileSync@(@VAR_join@(@VAR_command@.output, \""@ + STDOUT_FILE@ + "\"), Buffer.concat(@VAR_command@.capture.stdout));\n\t    @VAR_writeFileSync@(@VAR_join@(@VAR_command@.output, \""@ + STDERR_FILE@ + "\"), Buffer.concat(@VAR_command@.capture.stderr));"@),
{
    lemma_holds_text_grows();
    assert forall|x: Seq<char>| #[trigger] holds_text((((((x + OUTPUT_WRITE@) + STDOUT_FILE@) + BOOTSTRAP_5@) + STDERR_FILE@) + BOOTSTRAP_6@), "@VAR_writeFileSync@(@VAR_join@(@VAR_command@.output, \""@ + STDOUT_FILE@ + "\"), Buffer.concat(@VAR_command@.capture.stdout));\n\t    @VAR_writeFileSync@(@VAR_join@(@VAR_command@.output, \""@ + STDERR_FILE@ + "\"), Buffer.concat(@VAR_command@.capture.stderr));"@) by {
        assert((((((x + OUTPUT_WRITE@) + STDOUT_FILE@) + BOOTSTRAP_5@) + STDERR_FILE@) + BOOTSTRAP_6@) =~= x + ("@VAR_writeFileSync@(@VAR_join@(@VAR_command@.output, \""@ + STDOUT_FILE@ + "\"), Buffer.concat(@VAR_command@.capture.stdout));\n\t    @VAR_writeFileSync@(@VAR_join@(@VAR_command@.output, \""@ + STDERR_FILE@ + "\"), Buffer.concat(@VAR_command@.capture.stderr));"@));
        lemma_holds_text_end(x, "@VAR_writeFileSync@(@VAR_join@(@VAR_command@.output, \""@ + STDOUT_FILE@ + "\"), Buffer.concat(@VAR_command@.capture.stdout));\n\t    @VAR_writeFileSync@(@VAR_join@(@VAR_command@.output, \""@ + STDERR_FILE@ + "\"), Buffer.concat(@VAR_command@.capture.stderr));"@);
    }
    assert(holds_text(bootstrap_template(cwd, ready), "@VAR_writeFileSync@(@VAR_join@(@VAR_command@.output, \""@ + STDOUT_FILE@ + "\"), Buffer.concat(@VAR_command@.capture.stdout));\n\t    @VAR_writeFileSync@(@VAR_join@(@VAR_command@.output, \""@ + STDERR_FILE@ + "\"), Buffer.concat(@VAR_command@.capture.stderr));"@));
}

/// The Bun bootstrap before its variable markers are rendered, for the JSON
/// literals `cwd` and `ready`.
pub open spec fn bootstrap_template(cwd: Seq<char>, ready: Seq<char>) -> Seq<char> {
    bootstrap_head(cwd) + ready + BOOTSTRAP_20@
}

/// The Bun bootstrap before its variable markers are rendered, up to the
/// JSON literal of the ready file.
pub open spec fn bootstrap_head(cwd: Seq<char>) -> Seq<char> {
    BOOTSTRAP_0@ + cwd + BOOTSTRAP_1@ + HELPER_EXECUTABLE_ENV@ + BOOTSTRAP_2@ + HELPER_EXECUTABLE_ENV@ + BOOTSTRAP_3@ + OUTPUT_CAPTURE@ + BOOTSTRAP_4@ + OUTPUT_WRITE@ + STDOUT_FILE@ + BOOTSTRAP_5@ + STDERR_FILE@ + BOOTSTRAP_6@ + BOOTSTRAP_6_TAIL@ + COMMAND_ID_ENV@ + BOOTSTRAP_7@ + COMMAND_DIRECTORY_ENV@ + BOOTSTRAP_8@ + SESSION_STATE_DIRECTORY@ + BOOTSTRAP_9@ + DISPATCH_FILE@ + BOOTSTRAP_10@ + SESSION_COMMANDS_DIRECTORY@ + BOOTSTRAP_11@ + COMMAND_INPUT_DIRECTORY@ + BOOTSTRAP_12@ + COMMAND_OUTPUT_DIRECTORY@ + BOOTSTRAP_13@ + COMMAND_FILE@ + BOOTSTRAP_14@ + COMMAND_WORKING_DIRECTORY_FILE@ + BOOTSTRAP_15@ + COMMAND_ID_ENV@ + BOOTSTRAP_16@ + COMMAND_DIRECTORY_ENV@ + BOOTSTRAP_17@ + COMMAND_ID_ENV@ + BOOTSTRAP_18@ + COMMAND_DIRECTORY_ENV@ + BOOTSTRAP_19@
}

/// The Bun bootstrap for the JSON literals `cwd` and `ready`, with its
/// variables in a fresh namespace.
pub fn script(cwd: &str, ready: &str) -> (script: Result<String, ShellError>)
    ensures
        rendered_in_some_namespace(script, bootstrap_template(cwd@, ready@)),
{
    let mut text = String::from_str(BOOTSTRAP_0);
    text.append(cwd);
    text.append(BOOTSTRAP_1);
    text.append(HELPER_EXECUTABLE_ENV);
    text.append(BOOTSTRAP_2);
    text.append(HELPER_EXECUTABLE_ENV);
    text.append(BOOTSTRAP_3);
    text.append(OUTPUT_CAPTURE);
    text.append(BOOTSTRAP_4);
    text.append(OUTPUT_WRITE);
    text.append(STDOUT_FILE);
    text.append(BOOTSTRAP_5);
    text.append(STDERR_FILE);
    text.append(BOOTSTRAP_6);
    text.append(BOOTSTRAP_6_TAIL);
    text.append(COMMAND_ID_ENV);
    text.append(BOOTSTRAP_7);
    text.append(COMMAND_DIRECTORY_ENV);
    text.append(BOOTSTRAP_8);
    text.append(SESSION_STATE_DIRECTORY);
    text.append(BOOTSTRAP_9);
    text.append(DISPATCH_FILE);
    text.append(BOOTSTRAP_10);
    text.append(SESSION_COMMANDS_DIRECTORY);
    text.append(BOOTSTRAP_11);
    text.append(COMMAND_INPUT_DIRECTORY);
    text.append(BOOTSTRAP_12);
    text.append(COMMAND_OUTPUT_DIRECTORY);
    text.append(BOOTSTRAP_13);
    text.append(COMMAND_FILE);
    text.append(BOOTSTRAP_14);
    text.append(COMMAND_WORKING_DIRECTORY_FILE);
    text.append(BOOTSTRAP_15);
    text.append(COMMAND_ID_ENV);
    text.append(BOOTSTRAP_16);
    text.append(COMMAND_DIRECTORY_ENV);
    text.append(BOOTSTRAP_17);
    text.append(COMMAND_ID_ENV);
    text.append(BOOTSTRAP_18);
    text.append(COMMAND_DIRECTORY_ENV);
    text.append(BOOTSTRAP_19);
    text.append(ready);
    text.append(BOOTSTRAP_20);
    render_in_new_namespace(text.as_str())
}

} // verus!
