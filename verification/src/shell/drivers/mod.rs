//! How each shell is driven: the line typed to run a dispatched command, the
//! bytes sent for keyboard input, and which command-line arguments still
//! leave the shell interactive.
pub mod bun;
pub mod command_prompt;
pub mod nushell;
pub mod powershell;
pub mod python;
pub mod unix_shell;

use crate::chars::{ascii_lowercase, static_texts, string_texts, text_equals, to_ascii_lowercase};
use crate::contract::DISPATCHER_COMMAND;
use crate::error::ShellError;
use crate::host::host_uses_windows_conventions;
use crate::shell::choice::ShellChoice;
use crate::shell::wrappers::variables::{marker_rendering, namespace_suffix};
use vstd::prelude::*;

verus! {

/// The paths a shell's startup refers to, each given by the bytes of its
/// native encoding.
pub struct StartupContext<'value> {
    /// The directory the shell starts in.
    pub cwd: &'value [u8],
    /// The directory that holds the generated startup files.
    pub startup_directory: &'value [u8],
    /// The file the shell creates once it is ready for input.
    pub ready_file: &'value [u8],
}

/// The arguments and extra environment variables a shell is started with.
pub struct DriverStartup {
    pub args: Vec<String>,
    pub env: Vec<(String, String)>,
}

/// A file that starting a shell writes into the startup directory: its name
/// there and its contents.
pub struct StartupFile {
    pub name: &'static str,
    pub contents: String,
}

/// How to start a shell: the files to write into the startup directory
/// first, then the arguments and environment to start it with.
pub struct StartupPlan {
    pub files: Vec<StartupFile>,
    pub startup: DriverStartup,
}

/// The texts of a startup plan: the files by name and contents, the
/// arguments, and the environment variables by name and value.
pub type PlanTexts = (Seq<(Seq<char>, Seq<char>)>, Seq<Seq<char>>, Seq<(Seq<char>, Seq<char>)>);

/// The texts of pairs of strings.
pub open spec fn pair_texts(pairs: Seq<(String, String)>) -> Seq<(Seq<char>, Seq<char>)> {
    pairs.map_values(|p: (String, String)| (p.0@, p.1@))
}

/// The names and contents of startup files.
pub open spec fn file_texts(files: Seq<StartupFile>) -> Seq<(Seq<char>, Seq<char>)> {
    files.map_values(|f: StartupFile| (f.name@, f.contents@))
}

/// The texts of a startup plan.
pub open spec fn plan_texts(plan: StartupPlan) -> PlanTexts {
    (file_texts(plan.files@), string_texts(plan.startup.args@), pair_texts(plan.startup.env@))
}

/// `r` is the expected plan, or fails with the expected error.
pub open spec fn plan_outcome(r: Result<StartupPlan, ShellError>, expected: Result<PlanTexts, ShellError>) -> bool {
    match expected {
        Ok(t) => r matches Ok(p) && plan_texts(p) == t,
        Err(e) => r matches Err(x) && x == e,
    }
}

/// A plan that writes no file and starts the shell with `args` and no extra
/// environment, from a script that `args` is made from.
pub open spec fn arguments_only(args: Result<Seq<Seq<char>>, ShellError>) -> Result<PlanTexts, ShellError> {
    match args {
        Ok(a) => Ok((seq![], a, seq![])),
        Err(e) => Err(e),
    }
}

/// The line break that submits an invocation line.
#[derive(Clone, Copy, Debug, PartialEq, Eq, Structural)]
pub enum InvocationTerminator {
    CarriageReturn,
    LineFeed,
    CarriageReturnLineFeed,
}

/// The characters of a terminator.
pub open spec fn terminator_text(t: InvocationTerminator) -> Seq<char> {
    match t {
        InvocationTerminator::CarriageReturn => seq!['\r'],
        InvocationTerminator::LineFeed => seq!['\n'],
        InvocationTerminator::CarriageReturnLineFeed => seq!['\r', '\n'],
    }
}

impl InvocationTerminator {
    /// The characters of this terminator.
    pub fn as_str(self) -> (text: &'static str)
        ensures
            text@ == terminator_text(self),
    {
        proof {
            reveal_strlit("\r");
            reveal_strlit("\n");
            reveal_strlit("\r\n");
        }
        match self {
            InvocationTerminator::CarriageReturn => "\r",
            InvocationTerminator::LineFeed => "\n",
            InvocationTerminator::CarriageReturnLineFeed => "\r\n",
        }
    }
}

/// A text that holds neither a carriage return nor a line feed.
pub open spec fn single_line(line: Seq<char>) -> bool {
    forall|i: int| 0 <= i < line.len() ==> #[trigger] line[i] != '\r' && line[i] != '\n'
}

/// One line to type into a shell, and the line break that submits it.
pub struct ShellInvocation {
    line: String,
    terminator: InvocationTerminator,
}

impl View for ShellInvocation {
    type V = (Seq<char>, InvocationTerminator);

    closed spec fn view(&self) -> (Seq<char>, InvocationTerminator) {
        (self.line@, self.terminator)
    }
}

impl ShellInvocation {
    /// An invocation of `line`; a line that holds a line break is refused.
    pub fn new(line: String, terminator: InvocationTerminator) -> (invocation: Result<
        Self,
        ShellError,
    >)
        ensures
            single_line(line@) ==> (invocation matches Ok(inv) && inv@ == (line@, terminator)),
            !single_line(line@) ==> (invocation matches Err(e) && e
                == ShellError::LineBreakInInvocation),
    {
        let chars = crate::chars::chars_of(line.as_str());
        let mut i: usize = 0;
        while i < chars.len()
            invariant
                chars@ == line@,
                i <= chars.len(),
                forall|k: int| 0 <= k < i ==> #[trigger] chars@[k] != '\r' && chars@[k] != '\n',
            decreases chars.len() - i,
        {
            if chars[i] == '\r' || chars[i] == '\n' {
                return Err(ShellError::LineBreakInInvocation);
            }
            i = i + 1;
        }
        Ok(ShellInvocation { line, terminator })
    }

    /// The UTF-8 bytes of the line followed by its terminator.
    pub fn into_bytes(self) -> (bytes: Vec<u8>)
        ensures
            bytes@ == vstd::utf8::encode_utf8(self@.0 + terminator_text(self@.1)),
    {
        let mut line = self.line;
        line.append(self.terminator.as_str());
        vstd::slice::slice_to_vec(line.as_str().as_bytes())
    }
}

/// The line that runs the dispatched command in a shell; Bun is driven
/// without one.
pub open spec fn invocation_line(choice: ShellChoice) -> Option<Seq<char>> {
    match choice {
        ShellChoice::Bun => None,
        ShellChoice::Python => Some("_functerm_dispatch()"@),
        _ => Some(DISPATCHER_COMMAND@),
    }
}

/// The terminator that submits an invocation in a shell, on Windows hosts
/// when `windows` holds.
pub open spec fn terminator_for(choice: ShellChoice, windows: bool) -> InvocationTerminator {
    match choice {
        ShellChoice::PowerShell => InvocationTerminator::CarriageReturn,
        ShellChoice::Python => carriage_return_for(windows),
        ShellChoice::NuShell => line_ending_for(windows),
        ShellChoice::Cmd => InvocationTerminator::CarriageReturnLineFeed,
        _ => InvocationTerminator::LineFeed,
    }
}

/// A carriage return on Windows hosts, a line feed elsewhere.
pub open spec fn carriage_return_for(windows: bool) -> InvocationTerminator {
    if windows {
        InvocationTerminator::CarriageReturn
    } else {
        InvocationTerminator::LineFeed
    }
}

/// The host's line ending: CR LF on Windows hosts, LF elsewhere.
pub open spec fn line_ending_for(windows: bool) -> InvocationTerminator {
    if windows {
        InvocationTerminator::CarriageReturnLineFeed
    } else {
        InvocationTerminator::LineFeed
    }
}

/// What each shell is sent to run the dispatched command: nothing for Bun,
/// `_functerm_dispatch()` for Python and the dispatcher command for the
/// others; ended by LF in Bash and Zsh, CR in PowerShell, CR LF in the
/// Command Prompt, and by the host's ending in Nushell (CR LF on Windows) and
/// Python (CR on Windows), LF elsewhere.
pub proof fn lemma_invocation_texts(choice: ShellChoice, windows: bool)
    ensures
        (choice == ShellChoice::Bun) <==> invocation_line(choice) is None,
        choice == ShellChoice::Python ==> invocation_line(choice) == Some("_functerm_dispatch()"@),
        (choice != ShellChoice::Python && choice != ShellChoice::Bun) ==> invocation_line(choice) == Some(
            DISPATCHER_COMMAND@,
        ),
        (choice == ShellChoice::Bash || choice == ShellChoice::Zsh) ==> terminator_text(terminator_for(choice, windows))
            == "\n"@,
        choice == ShellChoice::PowerShell ==> terminator_text(terminator_for(choice, windows)) == "\r"@,
        choice == ShellChoice::Cmd ==> terminator_text(terminator_for(choice, windows)) == "\r\n"@,
        choice == ShellChoice::NuShell ==> terminator_text(terminator_for(choice, windows)) == (if windows {
            "\r\n"@
        } else {
            "\n"@
        }),
        choice == ShellChoice::Python ==> terminator_text(terminator_for(choice, windows)) == (if windows {
            "\r"@
        } else {
            "\n"@
        }),
{
    reveal_strlit("\n");
    reveal_strlit("\r");
    reveal_strlit("\r\n");
    assert(seq!['\n'] =~= "\n"@);
    assert(seq!['\r'] =~= "\r"@);
    assert(seq!['\r', '\n'] =~= "\r\n"@);
}

/// The invocation that runs the dispatched command in `choice`, on a Windows
/// host when `windows` holds.
pub fn invocation_on(choice: ShellChoice, windows: bool) -> (invocation: Result<
    Option<ShellInvocation>,
    ShellError,
>)
    ensures
        match invocation_line(choice) {
            None => invocation matches Ok(None),
            Some(line) => invocation matches Ok(Some(inv)) && inv@ == (
                line,
                terminator_for(choice, windows),
            ),
        },
{
    proof {
        reveal_strlit("_functerm_dispatch()");
        reveal_strlit("f");
    }
    let line = match choice {
        ShellChoice::Bun => return Ok(None),
        ShellChoice::Python => "_functerm_dispatch()",
        _ => DISPATCHER_COMMAND,
    };
    assert(single_line(line@));
    let invocation = ShellInvocation::new(String::from_str(line), invocation_terminator_on(choice, windows))?;
    Ok(Some(invocation))
}

/// The invocation that runs the dispatched command in `choice` on this host.
pub fn invocation(choice: ShellChoice) -> (invocation: Result<Option<ShellInvocation>, ShellError>)
    ensures
        match invocation_line(choice) {
            None => invocation matches Ok(None),
            Some(line) => invocation matches Ok(Some(inv)) && inv@.0 == line && exists|
                windows: bool,
            | inv@.1 == terminator_for(choice, windows),
        },
{
    invocation_on(choice, host_uses_windows_conventions())
}

/// The terminator that submits an invocation in `choice` on a Windows host
/// when `windows` holds.
pub fn invocation_terminator_on(choice: ShellChoice, windows: bool) -> (terminator:
    InvocationTerminator)
    ensures
        terminator == terminator_for(choice, windows),
{
    match choice {
        ShellChoice::PowerShell => InvocationTerminator::CarriageReturn,
        ShellChoice::Python => platform_carriage_return_on(windows),
        ShellChoice::NuShell => platform_line_ending_on(windows),
        ShellChoice::Cmd => InvocationTerminator::CarriageReturnLineFeed,
        ShellChoice::Bash | ShellChoice::Zsh | ShellChoice::Bun => InvocationTerminator::LineFeed,
    }
}

/// A carriage return on a Windows host, a line feed elsewhere.
pub fn platform_carriage_return_on(windows: bool) -> (terminator: InvocationTerminator)
    ensures
        terminator == carriage_return_for(windows),
{
    if windows {
        InvocationTerminator::CarriageReturn
    } else {
        InvocationTerminator::LineFeed
    }
}

/// CR LF on a Windows host, LF elsewhere.
pub fn platform_line_ending_on(windows: bool) -> (terminator: InvocationTerminator)
    ensures
        terminator == line_ending_for(windows),
{
    if windows {
        InvocationTerminator::CarriageReturnLineFeed
    } else {
        InvocationTerminator::LineFeed
    }
}

/// This host's terminator for carriage-return shells: CR on Windows, LF
/// elsewhere.
pub fn platform_carriage_return() -> (terminator: InvocationTerminator)
    ensures
        exists|windows: bool| terminator == carriage_return_for(windows),
{
    platform_carriage_return_on(host_uses_windows_conventions())
}

/// This host's line ending: CR LF on Windows, LF elsewhere.
pub fn platform_line_ending() -> (terminator: InvocationTerminator)
    ensures
        exists|windows: bool| terminator == line_ending_for(windows),
{
    platform_line_ending_on(host_uses_windows_conventions())
}

/// Every argument has a text (none was invalid Unicode).
pub open spec fn all_texts(arguments: Seq<Option<String>>) -> bool {
    forall|i: int| 0 <= i < arguments.len() ==> #[trigger] arguments[i] is Some
}

/// Whether every argument has a text that, in ASCII lower case, is one of
/// the three switches `a`, `b` and `c`.
pub open spec fn each_lowered_in(arguments: Seq<Option<String>>, a: Seq<char>, b: Seq<char>, c: Seq<char>) -> bool {
    forall|i: int| 0 <= i < arguments.len() ==> (#[trigger] arguments[i] matches Some(x) && set![a, b, c].contains(ascii_lowercase(x@)))
}

/// Every argument is, in lower case, among the three switches listed in
/// order exactly when each has a text whose lower case is in their set.
pub proof fn lemma_lowered_among_three(arguments: Seq<Option<String>>, a: Seq<char>, b: Seq<char>, c: Seq<char>)
    ensures
        (all_texts(arguments) && all_among(lowered_texts(arguments), seq![a, b, c])) == each_lowered_in(arguments, a, b, c),
{
    let listed = seq![a, b, c];
    let switches = set![a, b, c];
    assert forall|v: Seq<char>| listed.contains(v) <==> switches.contains(v) by {
        if listed.contains(v) {
            let k = choose|k: int| 0 <= k < 3 && listed[k] == v;
            assert(k == 0 || k == 1 || k == 2);
        }
        if switches.contains(v) {
            if v == a {
                assert(listed[0] == v);
            } else if v == b {
                assert(listed[1] == v);
            } else {
                assert(listed[2] == v);
            }
        }
    }
    if all_texts(arguments) && all_among(lowered_texts(arguments), listed) {
        assert forall|i: int| 0 <= i < arguments.len() implies (#[trigger] arguments[i] matches Some(x) && switches.contains(
            ascii_lowercase(x@),
        )) by {
            assert(arguments[i] is Some);
            assert(lowered_texts(arguments)[i] == ascii_lowercase(arguments[i]->0@));
        }
    } else if each_lowered_in(arguments, a, b, c) {
        assert(all_texts(arguments));
        assert forall|i: int| 0 <= i < lowered_texts(arguments).len() implies listed.contains(
            #[trigger] lowered_texts(arguments)[i],
        ) by {
            assert(arguments[i] is Some);
        }
    }
}

/// The arguments' texts in ASCII lower case.
pub open spec fn lowered_texts(arguments: Seq<Option<String>>) -> Seq<Seq<char>> {
    Seq::new(arguments.len(), |i: int| ascii_lowercase(arguments[i]->0@))
}

/// The arguments in ASCII lower case, when every argument has a text.
pub fn os_strings_lower(arguments: &Vec<Option<String>>) -> (lowered: Option<Vec<String>>)
    ensures
        all_texts(arguments@) ==> (lowered matches Some(v) && v@.map_values(|s: String| s@)
            == lowered_texts(arguments@)),
        !all_texts(arguments@) ==> lowered is None,
{
    let mut out: Vec<String> = Vec::new();
    let mut i: usize = 0;
    while i < arguments.len()
        invariant
            i <= arguments.len(),
            out@.len() == i,
            forall|k: int| 0 <= k < i ==> #[trigger] arguments@[k] is Some,
            forall|k: int| 0 <= k < i ==> #[trigger] out@[k]@ == ascii_lowercase(arguments@[k]->0@),
        decreases arguments.len() - i,
    {
        match &arguments[i] {
            Some(text) => {
                out.push(to_ascii_lowercase(text.as_str()));
            },
            None => {
                return None;
            },
        }
        i = i + 1;
    }
    assert(out@.map_values(|s: String| s@) =~= lowered_texts(arguments@));
    Some(out)
}

/// Whether `value` is one of `allowed`.
pub fn is_among(value: &str, allowed: &Vec<&'static str>) -> (found: bool)
    ensures
        found == static_texts(allowed@).contains(value@),
{
    let mut i: usize = 0;
    while i < allowed.len()
        invariant
            i <= allowed.len(),
            forall|k: int| 0 <= k < i ==> static_texts(allowed@)[k] != value@,
        decreases allowed.len() - i,
    {
        if text_equals(value, allowed[i]) {
            assert(static_texts(allowed@)[i as int] == value@);
            return true;
        }
        i = i + 1;
    }
    false
}

/// Every value is one of `allowed`.
pub open spec fn all_among(values: Seq<Seq<char>>, allowed: Seq<Seq<char>>) -> bool {
    forall|i: int| 0 <= i < values.len() ==> allowed.contains(#[trigger] values[i])
}

/// Whether every value is one of `allowed`.
pub fn each_among(values: &Vec<String>, allowed: &Vec<&'static str>) -> (all: bool)
    ensures
        all == all_among(string_texts(values@), static_texts(allowed@)),
{
    let mut i: usize = 0;
    while i < values.len()
        invariant
            i <= values.len(),
            forall|k: int| 0 <= k < i ==> static_texts(allowed@).contains(#[trigger] string_texts(values@)[k]),
        decreases values.len() - i,
    {
        if !is_among(values[i].as_str(), allowed) {
            assert(!static_texts(allowed@).contains(string_texts(values@)[i as int]));
            return false;
        }
        i = i + 1;
    }
    true
}

/// Whether every argument has a text and, in lower case, is one of `allowed`.
pub fn lowered_among(arguments: &Vec<Option<String>>, allowed: &Vec<&'static str>) -> (all: bool)
    ensures
        all == (all_texts(arguments@) && all_among(lowered_texts(arguments@), static_texts(allowed@))),
{
    match os_strings_lower(arguments) {
        None => false,
        Some(values) => {
            let r = each_among(&values, allowed);
            assert(string_texts(values@) == lowered_texts(arguments@));
            r
        },
    }
}

/// The file in the startup directory whose path starting `choice` takes: the
/// script that the shell is told to run.
pub open spec fn entry_file(choice: ShellChoice) -> Option<Seq<char>> {
    match choice {
        ShellChoice::Bash => Some(unix_shell::BASH_INIT_FILE@),
        ShellChoice::Cmd => Some(command_prompt::INIT_FILE@),
        ShellChoice::Bun => Some(bun::SCRIPT_FILE@),
        ShellChoice::Python => Some(python::SCRIPT_FILE@),
        _ => None,
    }
}

/// The name, in the startup directory, of the file whose path `startup`
/// takes for `choice`; the other shells take none.
pub fn entry_file_name(choice: ShellChoice) -> (name: Option<&'static str>)
    ensures
        match entry_file(choice) {
            Some(n) => name matches Some(x) && x@ == n,
            None => name is None,
        },
{
    match choice {
        ShellChoice::Bash => Some(unix_shell::BASH_INIT_FILE),
        ShellChoice::Cmd => Some(command_prompt::INIT_FILE),
        ShellChoice::Bun => Some(bun::SCRIPT_FILE),
        ShellChoice::Python => Some(python::SCRIPT_FILE),
        _ => None,
    }
}

/// How to start `choice` for `context`. `entry_path` is the startup directory
/// joined with the shell's `entry_file_name`; shells without one ignore it.
pub fn startup(choice: ShellChoice, context: &StartupContext, entry_path: &[u8]) -> (plan: Result<
    StartupPlan,
    ShellError,
>)
    ensures
        choice is PowerShell ==> exists|suffix: Seq<char>|
            namespace_suffix(suffix) && #[trigger] plan_outcome(
                plan,
                powershell::startup_result(
                    powershell::initialization_script_result(
                        marker_rendering(crate::shell::wrappers::pwsh::wrapper_template(), suffix),
                        context.cwd@,
                        context.ready_file@,
                    ),
                ),
            ),
        choice is NuShell ==> exists|suffix: Seq<char>|
            namespace_suffix(suffix) && #[trigger] plan_outcome(
                plan,
                nushell::startup_result(
                    nushell::initialization_script_result(
                        marker_rendering(crate::shell::wrappers::nu::wrapper_template(), suffix),
                        context.cwd@,
                        context.ready_file@,
                    ),
                ),
            ),
        choice is Bash ==> exists|suffix: Seq<char>|
            namespace_suffix(suffix) && #[trigger] plan_outcome(
                plan,
                unix_shell::bash_startup_result(
                    marker_rendering(crate::shell::wrappers::posix_startup::bash_wrapper_template(), suffix),
                    context.cwd@,
                    context.ready_file@,
                    entry_path@,
                ),
            ),
        choice is Zsh ==> exists|suffix: Seq<char>|
            namespace_suffix(suffix) && #[trigger] plan_outcome(
                plan,
                unix_shell::zsh_startup_result(
                    marker_rendering(crate::shell::wrappers::posix_startup::zsh_wrapper_template(), suffix),
                    context.cwd@,
                    context.ready_file@,
                    context.startup_directory@,
                ),
            ),
        choice is Cmd ==> exists|runner_suffix: Seq<char>, dispatcher_suffix: Seq<char>|
            namespace_suffix(runner_suffix) && namespace_suffix(dispatcher_suffix) && #[trigger] plan_outcome(
                plan,
                command_prompt::startup_result(
                    marker_rendering(crate::shell::wrappers::batch::wrapper_template(), runner_suffix),
                    marker_rendering(crate::shell::wrappers::template::cmd_dispatcher_template(), dispatcher_suffix),
                    context.cwd@,
                    context.ready_file@,
                    entry_path@,
                ),
            ),
        choice is Bun ==> exists|suffix: Seq<char>|
            namespace_suffix(suffix) && #[trigger] plan_outcome(
                plan,
                bun::startup_result(bun::bootstrap_result(context.cwd@, context.ready_file@, suffix), entry_path@),
            ),
        choice is Python ==> exists|suffix: Seq<char>|
            namespace_suffix(suffix) && #[trigger] plan_outcome(
                plan,
                python::startup_result(python::bootstrap::script_result(context.cwd@, context.ready_file@, suffix), entry_path@),
            ),
{
    match choice {
        ShellChoice::PowerShell => powershell::startup(context),
        ShellChoice::Bash => unix_shell::bash_startup(context, entry_path),
        ShellChoice::NuShell => nushell::startup(context),
        ShellChoice::Zsh => unix_shell::zsh_startup(context),
        ShellChoice::Cmd => command_prompt::startup(context, entry_path),
        ShellChoice::Bun => bun::startup(context, entry_path),
        ShellChoice::Python => python::startup(context, entry_path),
    }
}

/// The script a command is run as in `choice`: PowerShell makes a script
/// block of it, the other shells run its text.
pub fn command_script(choice: ShellChoice, command: &str) -> (script: String)
    ensures
        script@ == (if choice is PowerShell {
            powershell::command_script_text(command@)
        } else {
            command@
        }),
{
    match choice {
        ShellChoice::PowerShell => powershell::command_script(command),
        _ => String::from_str(command),
    }
}

/// The bytes to send to `choice` for keyboard input `bytes`: PowerShell gets
/// each line break as one Enter, the other shells the input as it is.
pub fn keyboard_bytes(choice: ShellChoice, bytes: &[u8]) -> (keys: Vec<u8>)
    ensures
        keys@ == (if choice is PowerShell {
            powershell::enter_keys(bytes@, None)
        } else {
            bytes@
        }),
{
    match choice {
        ShellChoice::PowerShell => powershell::keyboard_bytes(bytes),
        _ => vstd::slice::slice_to_vec(bytes),
    }
}

/// Whether `choice` started with `arguments` stays an interactive shell.
pub open spec fn arguments_interactive(choice: ShellChoice, arguments: Seq<Option<String>>) -> bool {
    match choice {
        ShellChoice::PowerShell => all_texts(arguments) && powershell::powershell_flags_interactive(
            lowered_texts(arguments),
        ),
        ShellChoice::Bash | ShellChoice::Zsh => all_texts(arguments) && all_among(
            lowered_texts(arguments),
            unix_shell::interactive_switches(),
        ),
        ShellChoice::NuShell => all_texts(arguments) && all_among(
            lowered_texts(arguments),
            nushell::interactive_switches(),
        ),
        ShellChoice::Cmd => all_texts(arguments) && all_among(
            lowered_texts(arguments),
            command_prompt::interactive_switches(),
        ),
        ShellChoice::Bun => bun::repl_arguments(arguments),
        ShellChoice::Python => python::switches_only(arguments),
    }
}

/// Whether `choice` started with `arguments` stays an interactive shell.
pub fn interactive_arguments(choice: ShellChoice, arguments: &Vec<Option<String>>) -> (interactive:
    bool)
    ensures
        interactive == arguments_interactive(choice, arguments@),
{
    match choice {
        ShellChoice::PowerShell => powershell::interactive_arguments(arguments),
        ShellChoice::Bash | ShellChoice::Zsh => unix_shell::interactive_arguments(arguments),
        ShellChoice::NuShell => nushell::interactive_arguments(arguments),
        ShellChoice::Cmd => command_prompt::interactive_arguments(arguments),
        ShellChoice::Bun => bun::interactive_arguments(arguments),
        ShellChoice::Python => python::interactive_arguments(arguments),
    }
}

} // verus!
