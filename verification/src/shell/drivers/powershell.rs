//! PowerShell: keyboard input, interactive arguments, the encoded startup
//! command and the script that defines a command to run.
use super::{arguments_only, plan_outcome, DriverStartup, PlanTexts, StartupContext, StartupPlan, all_texts, lowered_texts, os_strings_lower};
use crate::chars::string_texts;
use crate::encoding::utf8_text;
use crate::error::ShellError;
use crate::shell::quote::powershell_path;
use crate::shell::shims::CURRENT_SHELL_ENV;
use crate::shell::wrappers::variables::{marker_rendering, namespace_suffix, outcome_matches};
use crate::chars::text_equals;
use crate::encoding::{
    base64_decode, base64_encode, lemma_base64_round_trip, lemma_little_endian_round_trip,
    lemma_utf16_round_trip, little_endian_bytes, little_endian_units, utf16_decode, utf16_units,
};
use crate::outside::base64_standard_encode;
use crate::shell::quote::{lemma_literal_values, powershell_literal, powershell_string, powershell_value};
use vstd::prelude::*;

verus! {

/// Keyboard bytes for PowerShell: each line break becomes a single carriage
/// return (Enter); a line feed right after a carriage return is dropped and a
/// lone line feed becomes a carriage return. `previous` is the byte before
/// `bytes`.
pub open spec fn enter_keys(bytes: Seq<u8>, previous: Option<u8>) -> Seq<u8>
    decreases bytes.len(),
{
    if bytes.len() == 0 {
        seq![]
    } else {
        let b = bytes[0];
        let keys = if b == 10 {
            if previous == Some(13u8) {
                seq![]
            } else {
                seq![13u8]
            }
        } else {
            seq![b]
        };
        keys + enter_keys(bytes.drop_first(), Some(b))
    }
}

/// The byte before position `i` of `bytes`, if there is one.
pub open spec fn byte_before(bytes: Seq<u8>, i: int) -> Option<u8> {
    if i == 0 {
        None
    } else {
        Some(bytes[i - 1])
    }
}

/// Keyboard input for PowerShell, with every line break sent as one Enter.
pub fn keyboard_bytes(bytes: &[u8]) -> (keys: Vec<u8>)
    ensures
        keys@ == enter_keys(bytes@, None),
{
    let mut normalized: Vec<u8> = Vec::new();
    let mut previous: Option<u8> = None;
    let mut i: usize = 0;
    assert(bytes@.skip(0) == bytes@);
    assert(normalized@ + enter_keys(bytes@, None) =~= enter_keys(bytes@, None));
    while i < bytes.len()
        invariant
            i <= bytes.len(),
            previous == byte_before(bytes@, i as int),
            enter_keys(bytes@, None) == normalized@ + enter_keys(bytes@.skip(i as int), previous),
        decreases bytes.len() - i,
    {
        let byte = bytes[i];
        let ghost before = normalized@;
        assert(bytes@.skip(i as int)[0] == byte);
        assert(bytes@.skip(i as int).drop_first() == bytes@.skip(i + 1));
        if byte == 10 {
            if previous != Some(13u8) {
                normalized.push(13);
            }
        } else {
            normalized.push(byte);
        }
        assert(before + enter_keys(bytes@.skip(i as int), previous) =~= normalized@ + enter_keys(
            bytes@.skip(i + 1),
            Some(byte),
        ));
        previous = Some(byte);
        i = i + 1;
    }
    assert(bytes@.skip(i as int).len() == 0);
    assert(normalized@ + enter_keys(bytes@.skip(i as int), previous) =~= normalized@);
    normalized
}

/// PowerShell keyboard input never holds a line feed.
pub proof fn lemma_enter_keys_without_line_feed(bytes: Seq<u8>, previous: Option<u8>)
    ensures
        forall|i: int| 0 <= i < enter_keys(bytes, previous).len() ==> #[trigger] enter_keys(
            bytes,
            previous,
        )[i] != 10,
    decreases bytes.len(),
{
    if bytes.len() > 0 {
        lemma_enter_keys_without_line_feed(bytes.drop_first(), Some(bytes[0]));
        let b = bytes[0];
        let keys = if b == 10 {
            if previous == Some(13u8) {
                seq![]
            } else {
                seq![13u8]
            }
        } else {
            seq![b]
        };
        let rest = enter_keys(bytes.drop_first(), Some(b));
        assert forall|i: int| 0 <= i < enter_keys(bytes, previous).len() implies #[trigger] enter_keys(
            bytes,
            previous,
        )[i] != 10 by {
            assert(enter_keys(bytes, previous) == keys + rest);
            if i >= keys.len() {
                assert((keys + rest)[i] == rest[i - keys.len()]);
            }
        }
    }
}

/// Input without line feeds is sent unchanged.
pub proof fn lemma_enter_keys_plain(bytes: Seq<u8>, previous: Option<u8>)
    requires
        forall|i: int| 0 <= i < bytes.len() ==> bytes[i] != 10,
    ensures
        enter_keys(bytes, previous) == bytes,
    decreases bytes.len(),
{
    if bytes.len() > 0 {
        assert(bytes[0] != 10);
        lemma_enter_keys_plain(bytes.drop_first(), Some(bytes[0]));
        assert(bytes == seq![bytes[0]] + bytes.drop_first());
    }
}

/// Switches that keep PowerShell interactive, in lower case: `-nologo`,
/// `-noexit`, `-noprofile`, and `-executionpolicy` with its value.
pub open spec fn powershell_flags_interactive(values: Seq<Seq<char>>) -> bool
    decreases values.len(),
{
    if values.len() == 0 {
        true
    } else if values[0] == "-nologo"@ || values[0] == "-noexit"@ || values[0] == "-noprofile"@ {
        powershell_flags_interactive(values.drop_first())
    } else if values[0] == "-executionpolicy"@ && values.len() >= 2 {
        powershell_flags_interactive(values.skip(2))
    } else {
        false
    }
}

/// Whether lower-case PowerShell arguments leave the shell interactive.
pub fn powershell_interactive_arguments(values: &Vec<String>) -> (interactive: bool)
    ensures
        interactive == powershell_flags_interactive(values@.map_values(|s: String| s@)),
{
    let ghost texts = values@.map_values(|s: String| s@);
    let mut index: usize = 0;
    assert(texts.skip(0) == texts);
    while index < values.len()
        invariant
            index <= values.len(),
            texts == values@.map_values(|s: String| s@),
            powershell_flags_interactive(texts) == powershell_flags_interactive(
                texts.skip(index as int),
            ),
        decreases values.len() - index,
    {
        let value = values[index].as_str();
        assert(texts.skip(index as int)[0] == value@);
        if text_equals(value, "-nologo") || text_equals(value, "-noexit") || text_equals(
            value,
            "-noprofile",
        ) {
            assert(texts.skip(index as int).drop_first() == texts.skip(index + 1));
            index = index + 1;
        } else if text_equals(value, "-executionpolicy") && index + 1 < values.len() {
            assert(texts.skip(index as int).skip(2) == texts.skip(index + 2));
            index = index + 2;
        } else {
            return false;
        }
    }
    assert(texts.skip(index as int).len() == 0);
    true
}

/// Whether PowerShell started with `arguments` stays interactive.
pub fn interactive_arguments(arguments: &Vec<Option<String>>) -> (interactive: bool)
    ensures
        interactive == (all_texts(arguments@) && powershell_flags_interactive(
            lowered_texts(arguments@),
        )),
{
    match os_strings_lower(arguments) {
        None => false,
        Some(values) => powershell_interactive_arguments(&values),
    }
}

/// Opening text of the PowerShell statement that defines the command to run.
pub const COMMAND_SCRIPT_PREFIX: &'static str = "$script:FuncTermCommandScript = [scriptblock]::Create(";

/// The PowerShell statement that defines the command to run from `command`.
pub open spec fn command_script_text(command: Seq<char>) -> Seq<char> {
    COMMAND_SCRIPT_PREFIX@ + powershell_literal(command) + ")"@
}

/// A PowerShell statement that makes a script block of `command`.
pub fn command_script(command: &str) -> (script: String)
    ensures
        script@ == command_script_text(command@),
{
    let mut script = String::from_str(COMMAND_SCRIPT_PREFIX);
    let literal = powershell_string(command);
    script.append(literal.as_str());
    script.append(")");
    script
}

/// The value of `-EncodedCommand` for `command`: its UTF-16LE bytes in Base64.
pub open spec fn encoded_command_text(command: Seq<char>) -> Seq<char> {
    base64_encode(little_endian_bytes(utf16_units(command)))
}

/// `command` encoded for PowerShell's `-EncodedCommand`.
pub fn encode_command(command: &str) -> (encoded: String)
    ensures
        encoded@ == encoded_command_text(command@),
{
    let chars = crate::chars::chars_of(command);
    let mut bytes: Vec<u8> = Vec::new();
    let mut i: usize = 0;
    assert(chars@.skip(0) == chars@);
    assert(bytes@ + little_endian_bytes(utf16_units(chars@)) =~= little_endian_bytes(
        utf16_units(chars@),
    ));
    proof {
        lemma_little_endian_concat(seq![], utf16_units(chars@));
    }
    while i < chars.len()
        invariant
            i <= chars.len(),
            little_endian_bytes(utf16_units(chars@)) == bytes@ + little_endian_bytes(
                utf16_units(chars@.skip(i as int)),
            ),
        decreases chars.len() - i,
    {
        let code = chars[i] as u32;
        let ghost rest = chars@.skip(i as int);
        assert(rest[0] == chars@[i as int]);
        assert(rest.drop_first() == chars@.skip(i + 1));
        let ghost before = bytes@;
        if code < 0x10000 {
            let unit = code as u16;
            bytes.push((unit % 256) as u8);
            bytes.push((unit / 256) as u8);
            proof {
                lemma_little_endian_concat(seq![unit], utf16_units(chars@.skip(i + 1)));
                assert(utf16_units(rest) == seq![unit] + utf16_units(rest.drop_first()));
                lemma_little_endian_single(unit);
            }
        } else {
            let v = code - 0x10000;
            let high = (0xD800 + v / 1024) as u16;
            let low = (0xDC00 + v % 1024) as u16;
            bytes.push((high % 256) as u8);
            bytes.push((high / 256) as u8);
            bytes.push((low % 256) as u8);
            bytes.push((low / 256) as u8);
            proof {
                lemma_little_endian_concat(seq![high, low], utf16_units(chars@.skip(i + 1)));
                assert(utf16_units(rest) == seq![high, low] + utf16_units(rest.drop_first()));
                assert(seq![high, low].drop_first() == seq![low]);
                lemma_little_endian_single(low);
                assert(little_endian_bytes(seq![high, low]) =~= seq![
                    (high % 256) as u8,
                    (high / 256) as u8,
                    (low % 256) as u8,
                    (low / 256) as u8,
                ]);
            }
        }
        i = i + 1;
        assert(before + little_endian_bytes(utf16_units(rest)) =~= bytes@ + little_endian_bytes(
            utf16_units(chars@.skip(i as int)),
        ));
    }
    assert(chars@.skip(i as int).len() == 0);
    assert(bytes@ + little_endian_bytes(utf16_units(chars@.skip(i as int))) =~= bytes@);
    base64_standard_encode(bytes.as_slice())
}

/// PowerShell reads back the command from its `-EncodedCommand` value:
/// Base64 decoding, then UTF-16LE decoding, give the command.
pub proof fn lemma_encoded_command_round_trip(command: Seq<char>)
    ensures
        utf16_decode(little_endian_units(base64_decode(encoded_command_text(command)))) == command,
{
    lemma_base64_round_trip(little_endian_bytes(utf16_units(command)));
    lemma_little_endian_round_trip(utf16_units(command));
    lemma_utf16_round_trip(command);
}

proof fn lemma_little_endian_single(unit: u16)
    ensures
        little_endian_bytes(seq![unit]) == seq![(unit % 256) as u8, (unit / 256) as u8],
{
    assert(seq![unit].drop_first() =~= Seq::<u16>::empty());
    assert(little_endian_bytes(Seq::<u16>::empty()) == Seq::<u8>::empty());
    assert(little_endian_bytes(seq![unit]) =~= seq![(unit % 256) as u8, (unit / 256) as u8]
        + little_endian_bytes(Seq::<u16>::empty()));
}

/// Bytes of concatenated units are the concatenated bytes.
pub proof fn lemma_little_endian_concat(a: Seq<u16>, b: Seq<u16>)
    ensures
        little_endian_bytes(a + b) == little_endian_bytes(a) + little_endian_bytes(b),
    decreases a.len(),
{
    if a.len() == 0 {
        assert(a + b == b);
    } else {
        lemma_little_endian_concat(a.drop_first(), b);
        assert((a + b).drop_first() == a.drop_first() + b);
        assert((a + b)[0] == a[0]);
    }
}

pub const POWERSHELL_0: &'static str = "$env:";
pub const POWERSHELL_1: &'static str = " = 'powershell'\n";
pub const POWERSHELL_2: &'static str = "\nSet-Location -LiteralPath ";
pub const POWERSHELL_3: &'static str = r"
$script:FuncTermReadyWritten = $false
$script:FuncTermOriginalPrompt = (Get-Command prompt).ScriptBlock
function prompt {
    if (-not $script:FuncTermReadyWritten) {
        Set-Content -LiteralPath ";
pub const POWERSHELL_4: &'static str = r" -Value '' -NoNewline
        $script:FuncTermReadyWritten = $true
    }
    & $script:FuncTermOriginalPrompt
}";

/// The text of the PowerShell initialization script, from its parts.
pub open spec fn initialization_script_text(wrapper: Seq<char>, cwd: Seq<char>, ready: Seq<char>) -> Seq<char> {
    POWERSHELL_0@ + CURRENT_SHELL_ENV@ + POWERSHELL_1@ + wrapper + POWERSHELL_2@ + cwd + POWERSHELL_3@ + ready + POWERSHELL_4@
}

/// The outcome of building the PowerShell initialization script: its text, or the first error met.
pub open spec fn initialization_script_result(wrapper: Result<Seq<char>, ShellError>, cwd: Seq<u8>, ready: Seq<u8>) -> Result<Seq<char>, ShellError> {
    match wrapper {
        Err(e) => Err(e),
        Ok(w) => match (utf8_text(cwd), utf8_text(ready)) {
                (Some(t_cwd), Some(t_ready)) => Ok(initialization_script_text(w, powershell_literal(t_cwd), powershell_literal(t_ready))),
                _ => Err(ShellError::NonUtf8Path),
            },
    }
}

/// The PowerShell initialization script records the current shell, defines
/// the wrapper, enters the directory given by an expression that PowerShell
/// reads back as the working directory's text, and at the first prompt
/// writes the ready file named by an expression read back as the ready
/// file's text.
pub proof fn lemma_initialization_script_reads_back(wrapper: Result<Seq<char>, ShellError>, cwd: Seq<u8>, ready: Seq<u8>)
    ensures
        initialization_script_result(wrapper, cwd, ready) matches Ok(script) ==> exists|cwd_word: Seq<char>, ready_word: Seq<char>|
            #![trigger powershell_value(cwd_word), powershell_value(ready_word)]
            script == "$env:FUNCTERM_CURRENT_SHELL = 'powershell'\n"@ + wrapper->Ok_0 + "\nSet-Location -LiteralPath "@ + cwd_word
                + "\n$script:FuncTermReadyWritten = $false\n$script:FuncTermOriginalPrompt = (Get-Command prompt).ScriptBlock\nfunction prompt {\n    if (-not $script:FuncTermReadyWritten) {\n        Set-Content -LiteralPath "@
                + ready_word
                + " -Value '' -NoNewline\n        $script:FuncTermReadyWritten = $true\n    }\n    & $script:FuncTermOriginalPrompt\n}"@
                && powershell_value(cwd_word) == utf8_text(cwd)->0
                && powershell_value(ready_word) == utf8_text(ready)->0,
{
    if let (Ok(w), Some(c), Some(r)) = (wrapper, utf8_text(cwd), utf8_text(ready)) {
        reveal_strlit("$env:");
        reveal_strlit("FUNCTERM_CURRENT_SHELL");
        reveal_strlit(" = 'powershell'\n");
        reveal_strlit("$env:FUNCTERM_CURRENT_SHELL = 'powershell'\n");
        assert("$env:FUNCTERM_CURRENT_SHELL = 'powershell'\n"@ =~= POWERSHELL_0@ + CURRENT_SHELL_ENV@ + POWERSHELL_1@);
        lemma_literal_values(c);
        lemma_literal_values(r);
        assert(powershell_value(powershell_literal(c)) == c);
        assert(powershell_value(powershell_literal(r)) == r);
    }
}

/// The PowerShell initialization script: it records the current shell, defines the wrapper, enters the working directory and writes the ready file at the first prompt.
pub fn initialization_script(context: &StartupContext) -> (script: Result<String, ShellError>)
    ensures
        exists|suffix: Seq<char>| namespace_suffix(suffix) && #[trigger] outcome_matches(script, initialization_script_result(marker_rendering(crate::shell::wrappers::pwsh::wrapper_template(), suffix), context.cwd@, context.ready_file@)),
{
    let wrapper = crate::shell::wrappers::pwsh::wrapper();
    let ghost suffix = choose|suffix: Seq<char>| namespace_suffix(suffix) && outcome_matches(wrapper, marker_rendering(crate::shell::wrappers::pwsh::wrapper_template(), suffix));
    let wrapper_text = match wrapper {
        Ok(w) => w,
        Err(e) => {
            let r: Result<String, ShellError> = Err(e);
            assert(namespace_suffix(suffix) && outcome_matches(r, initialization_script_result(marker_rendering(crate::shell::wrappers::pwsh::wrapper_template(), suffix), context.cwd@, context.ready_file@)));
            return r;
        },
    };
    let cwd_text = match powershell_path(context.cwd) {
        Ok(x) => x,
        Err(e) => {
            let r: Result<String, ShellError> = Err(e);
            assert(namespace_suffix(suffix) && outcome_matches(r, initialization_script_result(marker_rendering(crate::shell::wrappers::pwsh::wrapper_template(), suffix), context.cwd@, context.ready_file@)));
            return r;
        },
    };
    let ready_text = match powershell_path(context.ready_file) {
        Ok(x) => x,
        Err(e) => {
            let r: Result<String, ShellError> = Err(e);
            assert(namespace_suffix(suffix) && outcome_matches(r, initialization_script_result(marker_rendering(crate::shell::wrappers::pwsh::wrapper_template(), suffix), context.cwd@, context.ready_file@)));
            return r;
        },
    };
    let mut text = String::from_str(POWERSHELL_0);
    text.append(CURRENT_SHELL_ENV);
    text.append(POWERSHELL_1);
    text.append(wrapper_text.as_str());
    text.append(POWERSHELL_2);
    text.append(cwd_text.as_str());
    text.append(POWERSHELL_3);
    text.append(ready_text.as_str());
    text.append(POWERSHELL_4);
    let r: Result<String, ShellError> = Ok(text);
    assert(namespace_suffix(suffix) && outcome_matches(r, initialization_script_result(marker_rendering(crate::shell::wrappers::pwsh::wrapper_template(), suffix), context.cwd@, context.ready_file@)));
    r
}

/// The arguments that start PowerShell without logo or profile, keep it open,
/// and run the initialization script `init`.
pub open spec fn startup_arguments(init: Seq<char>) -> Seq<Seq<char>> {
    seq![
        "-NoLogo"@,
        "-NoProfile"@,
        "-NoExit"@,
        "-ExecutionPolicy"@,
        "Bypass"@,
        "-EncodedCommand"@,
        encoded_command_text(init),
    ]
}

/// The plan for starting PowerShell from the outcome of its initialization
/// script.
pub open spec fn startup_result(init: Result<Seq<char>, ShellError>) -> Result<PlanTexts, ShellError> {
    arguments_only(
        match init {
            Ok(t) => Ok(startup_arguments(t)),
            Err(e) => Err(e),
        },
    )
}

/// How to start PowerShell for `context`.
pub fn startup(context: &StartupContext) -> (plan: Result<StartupPlan, ShellError>)
    ensures
        exists|suffix: Seq<char>|
            namespace_suffix(suffix) && #[trigger] plan_outcome(
                plan,
                startup_result(
                    initialization_script_result(
                        marker_rendering(crate::shell::wrappers::pwsh::wrapper_template(), suffix),
                        context.cwd@,
                        context.ready_file@,
                    ),
                ),
            ),
{
    let init = initialization_script(context);
    let ghost suffix = choose|suffix: Seq<char>|
        namespace_suffix(suffix) && outcome_matches(
            init,
            initialization_script_result(
                marker_rendering(crate::shell::wrappers::pwsh::wrapper_template(), suffix),
                context.cwd@,
                context.ready_file@,
            ),
        );
    let r = match init {
        Err(e) => Err(e),
        Ok(init) => {
            let args = vec![
                String::from_str("-NoLogo"),
                String::from_str("-NoProfile"),
                String::from_str("-NoExit"),
                String::from_str("-ExecutionPolicy"),
                String::from_str("Bypass"),
                String::from_str("-EncodedCommand"),
                encode_command(init.as_str()),
            ];
            assert(string_texts(args@) =~= startup_arguments(init@));
            let plan = StartupPlan { files: Vec::new(), startup: DriverStartup { args, env: Vec::new() } };
            assert(super::file_texts(plan.files@) =~= seq![]);
            assert(super::pair_texts(plan.startup.env@) =~= seq![]);
            Ok(plan)
        },
    };
    assert(namespace_suffix(suffix) && plan_outcome(
        r,
        startup_result(
            initialization_script_result(
                marker_rendering(crate::shell::wrappers::pwsh::wrapper_template(), suffix),
                context.cwd@,
                context.ready_file@,
            ),
        ),
    ));
    r
}

} // verus!
