//! The Bash and Zsh wrappers that a controlled POSIX shell loads at startup.
use super::posix_function::{command_function, command_function_text};
use super::template::{posix_dispatcher, posix_dispatcher_text};
use super::variables::{render_in_new_namespace, rendered_in_some_namespace};
use crate::error::ShellError;
use crate::shell::generated::posix_dialect::PosixDialect;
use crate::shell::shims::SHIM_DIR_ENV;
use vstd::prelude::*;

verus! {

pub const STARTUP_0: &'static str = r"
    emulate -L zsh
    setopt sh_word_split";
pub const STARTUP_1: &'static str = "functerm_posix_path() {";
pub const STARTUP_2: &'static str = r#"
	    local @VAR_value@="$1"
	    if command -v cygpath > /dev/null 2>&1; then
	        cygpath -u "$@VAR_value@"
	        return $?
	    fi
	    case "$@VAR_value@" in
	        [A-Za-z]:\\*|[A-Za-z]:/*)
	            printf 'cygpath is required to convert Windows path: %s\n' "$@VAR_value@" >&2
	            return 1
	            ;;
	    esac
	    printf '%s\n' "$@VAR_value@"
}"#;
pub const STARTUP_3: &'static str = r"
    emulate -L zsh
    setopt sh_word_split";
pub const STARTUP_4: &'static str = "functerm_prepend_shim_path() {";
pub const STARTUP_5: &'static str = r#"
    if [ -z "${"#;
pub const STARTUP_6: &'static str = r#"-}" ]; then
        return 0
    fi
	    local @VAR_shim_dir@="${"#;
pub const STARTUP_7: &'static str = r#"}"
	    @VAR_shim_dir@="$(functerm_posix_path "$@VAR_shim_dir@")" || return 1
	    local @VAR_new_path@="$@VAR_shim_dir@"
	    local @VAR_old_ifs@="$IFS"
	    local @VAR_entry@
	    IFS=:
	    for @VAR_entry@ in $PATH; do
	        if [ "$@VAR_entry@" != "$@VAR_shim_dir@" ]; then
	            @VAR_new_path@="$@VAR_new_path@:$@VAR_entry@"
	        fi
	    done
	    IFS="$@VAR_old_ifs@"
	    export PATH="$@VAR_new_path@"
}
functerm_prepend_shim_path"#;
pub const STARTUP_8: &'static str = r"set +o history
	unset HISTFILE
export HISTSIZE=0
export HISTFILESIZE=0
history -c
	";
pub const STARTUP_9: &'static str = "\n\t";
pub const STARTUP_10: &'static str = "\n\t";
pub const STARTUP_11: &'static str = "\n\t";
pub const STARTUP_12: &'static str = "\n\t";
pub const STARTUP_13: &'static str = r"unset HISTFILE
	HISTSIZE=0
	SAVEHIST=0
	setopt no_append_history
	setopt no_share_history
	setopt no_inc_append_history
	fc -p /dev/null 0 0 2> /dev/null || true
	unset HISTFILE
	";
pub const STARTUP_14: &'static str = "\n\t";
pub const STARTUP_15: &'static str = "\n\t";
pub const STARTUP_16: &'static str = "\n\t";
pub const STARTUP_17: &'static str = "\n\t";

/// The POSIX function `functerm_posix_path`, which turns a native path into a POSIX one with `cygpath` where it is needed.
pub open spec fn path_function_text(zsh: bool) -> Seq<char> {
    STARTUP_1@ + (if zsh { STARTUP_0@ } else { ""@ }) + STARTUP_2@
}

/// The POSIX function `functerm_posix_path`, which turns a native path into a POSIX one with `cygpath` where it is needed.
pub fn path_function(zsh: bool) -> (text: String)
    ensures
        text@ == path_function_text(zsh),
{
    let local_options = if zsh { STARTUP_0 } else { "" };
    let mut text = String::from_str(STARTUP_1);
    text.append(local_options);
    text.append(STARTUP_2);
    text
}

/// The POSIX function `functerm_prepend_shim_path`, which moves the shim directory to the front of `PATH`, followed by a call of it.
pub open spec fn shim_path_function_text(zsh: bool) -> Seq<char> {
    STARTUP_4@ + (if zsh { STARTUP_3@ } else { ""@ }) + STARTUP_5@ + SHIM_DIR_ENV@ + STARTUP_6@ + SHIM_DIR_ENV@ + STARTUP_7@
}

/// The POSIX function `functerm_prepend_shim_path`, which moves the shim directory to the front of `PATH`, followed by a call of it.
pub fn shim_path_function(zsh: bool) -> (text: String)
    ensures
        text@ == shim_path_function_text(zsh),
{
    let local_options = if zsh { STARTUP_3 } else { "" };
    let mut text = String::from_str(STARTUP_4);
    text.append(local_options);
    text.append(STARTUP_5);
    text.append(SHIM_DIR_ENV);
    text.append(STARTUP_6);
    text.append(SHIM_DIR_ENV);
    text.append(STARTUP_7);
    text
}

/// The Bash wrapper: history off, the path and shim helpers, the command runner and the dispatcher `f`, before its variable markers are rendered.
pub open spec fn bash_wrapper_template() -> Seq<char> {
    STARTUP_8@ + path_function_text(false) + STARTUP_9@ + shim_path_function_text(false) + STARTUP_10@ + command_function_text(PosixDialect::Bash) + STARTUP_11@ + posix_dispatcher_text() + STARTUP_12@
}

/// The Bash wrapper: history off, the path and shim helpers, the command runner and the dispatcher `f`, with its variables in a fresh namespace.
pub fn bash_wrapper() -> (wrapper: Result<String, ShellError>)
    ensures
        rendered_in_some_namespace(wrapper, bash_wrapper_template()),
{
    let path = path_function(false);
    let shim_path = shim_path_function(false);
    let command = command_function(PosixDialect::Bash);
    let dispatcher = posix_dispatcher();
    let mut text = String::from_str(STARTUP_8);
    text.append(path.as_str());
    text.append(STARTUP_9);
    text.append(shim_path.as_str());
    text.append(STARTUP_10);
    text.append(command.as_str());
    text.append(STARTUP_11);
    text.append(dispatcher.as_str());
    text.append(STARTUP_12);
    render_in_new_namespace(text.as_str())
}

/// The Zsh wrapper: history off, the path and shim helpers, the command runner and the dispatcher `f`, before its variable markers are rendered.
pub open spec fn zsh_wrapper_template() -> Seq<char> {
    STARTUP_13@ + path_function_text(true) + STARTUP_14@ + shim_path_function_text(true) + STARTUP_15@ + command_function_text(PosixDialect::Zsh) + STARTUP_16@ + posix_dispatcher_text() + STARTUP_17@
}

/// The Zsh wrapper: history off, the path and shim helpers, the command runner and the dispatcher `f`, with its variables in a fresh namespace.
pub fn zsh_wrapper() -> (wrapper: Result<String, ShellError>)
    ensures
        rendered_in_some_namespace(wrapper, zsh_wrapper_template()),
{
    let path = path_function(true);
    let shim_path = shim_path_function(true);
    let command = command_function(PosixDialect::Zsh);
    let dispatcher = posix_dispatcher();
    let mut text = String::from_str(STARTUP_13);
    text.append(path.as_str());
    text.append(STARTUP_14);
    text.append(shim_path.as_str());
    text.append(STARTUP_15);
    text.append(command.as_str());
    text.append(STARTUP_16);
    text.append(dispatcher.as_str());
    text.append(STARTUP_17);
    render_in_new_namespace(text.as_str())
}

} // verus!
