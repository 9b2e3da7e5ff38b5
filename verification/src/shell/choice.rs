//! The shells that FuncTerm can drive, and the names by which each is known.
use crate::chars::{ascii_lowercase, static_texts, text_equals, to_ascii_lowercase};
use crate::error::ShellError;
use vstd::prelude::*;

verus! {

/// A shell that FuncTerm can start and control.
#[derive(Clone, Copy, Debug, PartialEq, Eq, Structural)]
pub enum ShellChoice {
    PowerShell,
    Bash,
    NuShell,
    Zsh,
    Cmd,
    Bun,
    Python,
}

/// The executables configured for each shell, tried in order.
pub struct Settings {
    pub powershell: Vec<String>,
    pub bash: Vec<String>,
    pub nushell: Vec<String>,
    pub zsh: Vec<String>,
    pub cmd: Vec<String>,
    pub bun: Vec<String>,
    pub python: Vec<String>,
}

/// Every shell, in declaration order.
pub open spec fn all_shells() -> Seq<ShellChoice> {
    seq![
        ShellChoice::PowerShell,
        ShellChoice::Bash,
        ShellChoice::NuShell,
        ShellChoice::Zsh,
        ShellChoice::Cmd,
        ShellChoice::Bun,
        ShellChoice::Python,
    ]
}

/// The lower-case name under which a shell is configured and recorded.
pub open spec fn canonical_text(choice: ShellChoice) -> Seq<char> {
    match choice {
        ShellChoice::PowerShell => "powershell"@,
        ShellChoice::Bash => "bash"@,
        ShellChoice::NuShell => "nu"@,
        ShellChoice::Zsh => "zsh"@,
        ShellChoice::Cmd => "cmd"@,
        ShellChoice::Bun => "bun"@,
        ShellChoice::Python => "python"@,
    }
}

/// The name shown to people.
pub open spec fn display_text(choice: ShellChoice) -> Seq<char> {
    match choice {
        ShellChoice::PowerShell => "PowerShell"@,
        ShellChoice::Bash => "Bash"@,
        ShellChoice::NuShell => "NuShell"@,
        ShellChoice::Zsh => "Zsh"@,
        ShellChoice::Cmd => "Windows CMD"@,
        ShellChoice::Bun => "Bun"@,
        ShellChoice::Python => "Python"@,
    }
}

/// The environment variable that names the real executable behind a shim.
pub open spec fn shim_env_text(choice: ShellChoice) -> Seq<char> {
    match choice {
        ShellChoice::PowerShell => "FUNCTERM_REAL_POWERSHELL"@,
        ShellChoice::Bash => "FUNCTERM_REAL_BASH"@,
        ShellChoice::NuShell => "FUNCTERM_REAL_NUSHELL"@,
        ShellChoice::Zsh => "FUNCTERM_REAL_ZSH"@,
        ShellChoice::Cmd => "FUNCTERM_REAL_CMD"@,
        ShellChoice::Bun => "FUNCTERM_REAL_BUN"@,
        ShellChoice::Python => "FUNCTERM_REAL_PYTHON"@,
    }
}

/// The executable names under which a shim stands in for a shell.
pub open spec fn shim_name_texts(choice: ShellChoice) -> Seq<Seq<char>> {
    match choice {
        ShellChoice::PowerShell => seq![
            "pwsh"@,
            "pwsh.exe"@,
            "powershell"@,
            "powershell.exe"@,
            "powershell_core"@,
            "windows_powershell"@,
        ],
        ShellChoice::Bash => seq!["bash"@, "bash.exe"@],
        ShellChoice::NuShell => seq!["nu"@, "nu.exe"@, "nushell"@, "nushell.exe"@],
        ShellChoice::Zsh => seq!["zsh"@],
        ShellChoice::Cmd => seq!["cmd"@, "cmd.exe"@],
        ShellChoice::Bun => seq!["bun"@, "bun.exe"@],
        ShellChoice::Python => seq![
            "python"@,
            "python.exe"@,
            "python3"@,
            "python3.exe"@,
            "pypy3"@,
            "pypy3.exe"@,
        ],
    }
}

/// The first shell, in declaration order, whose canonical name is `name`.
pub open spec fn shell_with_canonical_name(name: Seq<char>) -> Option<ShellChoice> {
    if name == canonical_text(ShellChoice::PowerShell) {
        Some(ShellChoice::PowerShell)
    } else if name == canonical_text(ShellChoice::Bash) {
        Some(ShellChoice::Bash)
    } else if name == canonical_text(ShellChoice::NuShell) {
        Some(ShellChoice::NuShell)
    } else if name == canonical_text(ShellChoice::Zsh) {
        Some(ShellChoice::Zsh)
    } else if name == canonical_text(ShellChoice::Cmd) {
        Some(ShellChoice::Cmd)
    } else if name == canonical_text(ShellChoice::Bun) {
        Some(ShellChoice::Bun)
    } else if name == canonical_text(ShellChoice::Python) {
        Some(ShellChoice::Python)
    } else {
        None
    }
}

/// The first shell, in declaration order, with a shim executable named `name`.
pub open spec fn shell_with_shim_name_from(name: Seq<char>, shells: Seq<ShellChoice>) -> Option<
    ShellChoice,
>
    decreases shells.len(),
{
    if shells.len() == 0 {
        None
    } else if shim_name_texts(shells[0]).contains(name) {
        Some(shells[0])
    } else {
        shell_with_shim_name_from(name, shells.drop_first())
    }
}

impl ShellChoice {
    /// Every shell, in declaration order.
    pub fn all() -> (shells: Vec<ShellChoice>)
        ensures
            shells@ == all_shells(),
    {
        vec![
            ShellChoice::PowerShell,
            ShellChoice::Bash,
            ShellChoice::NuShell,
            ShellChoice::Zsh,
            ShellChoice::Cmd,
            ShellChoice::Bun,
            ShellChoice::Python,
        ]
    }

    /// The lower-case name under which the shell is configured and recorded.
    pub fn canonical_name(self) -> (name: &'static str)
        ensures
            name@ == canonical_text(self),
    {
        match self {
            ShellChoice::PowerShell => "powershell",
            ShellChoice::Bash => "bash",
            ShellChoice::NuShell => "nu",
            ShellChoice::Zsh => "zsh",
            ShellChoice::Cmd => "cmd",
            ShellChoice::Bun => "bun",
            ShellChoice::Python => "python",
        }
    }

    /// The name shown to people.
    pub fn display_name(self) -> (name: &'static str)
        ensures
            name@ == display_text(self),
    {
        match self {
            ShellChoice::PowerShell => "PowerShell",
            ShellChoice::Bash => "Bash",
            ShellChoice::NuShell => "NuShell",
            ShellChoice::Zsh => "Zsh",
            ShellChoice::Cmd => "Windows CMD",
            ShellChoice::Bun => "Bun",
            ShellChoice::Python => "Python",
        }
    }

    /// The environment variable that names the real executable behind a shim.
    pub fn shim_env_name(self) -> (name: &'static str)
        ensures
            name@ == shim_env_text(self),
    {
        match self {
            ShellChoice::PowerShell => "FUNCTERM_REAL_POWERSHELL",
            ShellChoice::Bash => "FUNCTERM_REAL_BASH",
            ShellChoice::NuShell => "FUNCTERM_REAL_NUSHELL",
            ShellChoice::Zsh => "FUNCTERM_REAL_ZSH",
            ShellChoice::Cmd => "FUNCTERM_REAL_CMD",
            ShellChoice::Bun => "FUNCTERM_REAL_BUN",
            ShellChoice::Python => "FUNCTERM_REAL_PYTHON",
        }
    }

    /// The executable names under which a shim stands in for the shell.
    pub fn shim_executable_names(self) -> (names: Vec<&'static str>)
        ensures
            static_texts(names@) == shim_name_texts(self),
    {
        let names = match self {
            ShellChoice::PowerShell => vec![
                "pwsh",
                "pwsh.exe",
                "powershell",
                "powershell.exe",
                "powershell_core",
                "windows_powershell",
            ],
            ShellChoice::Bash => vec!["bash", "bash.exe"],
            ShellChoice::NuShell => vec!["nu", "nu.exe", "nushell", "nushell.exe"],
            ShellChoice::Zsh => vec!["zsh"],
            ShellChoice::Cmd => vec!["cmd", "cmd.exe"],
            ShellChoice::Bun => vec!["bun", "bun.exe"],
            ShellChoice::Python => vec![
                "python",
                "python.exe",
                "python3",
                "python3.exe",
                "pypy3",
                "pypy3.exe",
            ],
        };
        assert(static_texts(names@) =~= shim_name_texts(self));
        names
    }

    /// The executables configured for this shell, in the order to try them.
    pub fn executable_candidates(self, settings: &Settings) -> (candidates: &Vec<String>)
        ensures
            *candidates == match self {
                ShellChoice::PowerShell => settings.powershell,
                ShellChoice::Bash => settings.bash,
                ShellChoice::NuShell => settings.nushell,
                ShellChoice::Zsh => settings.zsh,
                ShellChoice::Cmd => settings.cmd,
                ShellChoice::Bun => settings.bun,
                ShellChoice::Python => settings.python,
            },
    {
        match self {
            ShellChoice::PowerShell => &settings.powershell,
            ShellChoice::Bash => &settings.bash,
            ShellChoice::NuShell => &settings.nushell,
            ShellChoice::Zsh => &settings.zsh,
            ShellChoice::Cmd => &settings.cmd,
            ShellChoice::Bun => &settings.bun,
            ShellChoice::Python => &settings.python,
        }
    }

    /// The shell whose canonical name is exactly `name`.
    pub fn from_canonical_name(name: &str) -> (choice: Result<ShellChoice, ShellError>)
        ensures
            match shell_with_canonical_name(name@) {
                Some(c) => choice == Ok::<ShellChoice, ShellError>(c),
                None => choice == Err::<ShellChoice, ShellError>(ShellError::UnknownShell),
            },
    {
        let shells = ShellChoice::all();
        let mut i: usize = 0;
        while i < shells.len()
            invariant
                shells@ == all_shells(),
                0 <= i <= 7,
                forall|k: int| 0 <= k < i ==> name@ != canonical_text(#[trigger] all_shells()[k]),
            decreases 7 - i,
        {
            if text_equals(name, shells[i].canonical_name()) {
                return Ok(shells[i]);
            }
            i = i + 1;
        }
        Err(ShellError::UnknownShell)
    }
}

/// The shell that a shim executable called `value` stands in for; the name is
/// compared in ASCII lower case.
pub fn from_shim_name(value: &str) -> (choice: Option<ShellChoice>)
    ensures
        choice == shell_with_shim_name_from(ascii_lowercase(value@), all_shells()),
{
    let normalized = to_ascii_lowercase(value);
    let shells = ShellChoice::all();
    let mut i: usize = 0;
    assert(all_shells().skip(0) == all_shells());
    while i < shells.len()
        invariant
            shells@ == all_shells(),
            0 <= i <= 7,
            normalized@ == ascii_lowercase(value@),
            shell_with_shim_name_from(normalized@, all_shells()) == shell_with_shim_name_from(
                normalized@,
                all_shells().skip(i as int),
            ),
        decreases 7 - i,
    {
        let names = shells[i].shim_executable_names();
        let mut j: usize = 0;
        while j < names.len()
            invariant
                shells@ == all_shells(),
                0 <= i < 7,
                normalized@ == ascii_lowercase(value@),
                shell_with_shim_name_from(normalized@, all_shells()) == shell_with_shim_name_from(
                    normalized@,
                    all_shells().skip(i as int),
                ),
                static_texts(names@) == shim_name_texts(shells@[i as int]),
                j <= names.len(),
                forall|k: int| 0 <= k < j ==> names@[k]@ != normalized@,
            decreases names.len() - j,
        {
            if text_equals(normalized.as_str(), names[j]) {
                assert(static_texts(names@)[j as int] == normalized@);
                assert(shim_name_texts(shells@[i as int]).contains(normalized@));
                assert(all_shells().skip(i as int)[0] == shells@[i as int]);
                assert(all_shells().skip(i as int).len() > 0);
                assert(shell_with_shim_name_from(normalized@, all_shells().skip(i as int)) == Some(
                    shells@[i as int],
                ));
                return Some(shells[i]);
            }
            j = j + 1;
        }
        assert(!shim_name_texts(shells@[i as int]).contains(normalized@)) by {
            if shim_name_texts(shells@[i as int]).contains(normalized@) {
                let k = choose|k: int|
                    0 <= k < shim_name_texts(shells@[i as int]).len() && shim_name_texts(
                        shells@[i as int],
                    )[k] == normalized@;
                assert(static_texts(names@)[k] == names@[k]@);
            }
        }
        assert(all_shells().skip(i as int)[0] == shells@[i as int]);
        assert(all_shells().skip(i as int).drop_first() == all_shells().skip(i + 1));
        i = i + 1;
    }
    assert(all_shells().skip(7).len() == 0);
    None
}

/// Every shell is found again by its canonical name.
pub proof fn lemma_canonical_name_round_trip(choice: ShellChoice)
    ensures
        shell_with_canonical_name(canonical_text(choice)) == Some(choice),
{
    reveal_strlit("powershell");
    reveal_strlit("bash");
    reveal_strlit("nu");
    reveal_strlit("zsh");
    reveal_strlit("cmd");
    reveal_strlit("bun");
    reveal_strlit("python");
    assert forall|i: int, j: int| 0 <= i < 7 && 0 <= j < 7 && i != j implies #[trigger] canonical_text(all_shells()[i]) != #[trigger] canonical_text(all_shells()[j]) by {
        let a = canonical_text(all_shells()[i]);
        let b = canonical_text(all_shells()[j]);
        if a == b {
            assert(a.len() == b.len());
            assert(a[0] == b[0]);
        }
    }
    let k: int = match choice {
        ShellChoice::PowerShell => 0,
        ShellChoice::Bash => 1,
        ShellChoice::NuShell => 2,
        ShellChoice::Zsh => 3,
        ShellChoice::Cmd => 4,
        ShellChoice::Bun => 5,
        ShellChoice::Python => 6,
    };
    assert(all_shells()[k] == choice);
    assert forall|j: int| 0 <= j < k implies canonical_text(choice) != canonical_text(#[trigger] all_shells()[j]) by {
        assert(canonical_text(all_shells()[k]) != canonical_text(all_shells()[j]));
    }
}

/// A canonical name holds only lower-case ASCII letters.
pub proof fn lemma_canonical_name_letters(choice: ShellChoice)
    ensures
        canonical_text(choice).len() > 0,
        forall|i: int| 0 <= i < canonical_text(choice).len() ==> 'a' <= #[trigger] canonical_text(choice)[i] <= 'z',
{
    reveal_strlit("powershell");
    reveal_strlit("bash");
    reveal_strlit("nu");
    reveal_strlit("zsh");
    reveal_strlit("cmd");
    reveal_strlit("bun");
    reveal_strlit("python");
}

/// Each shim name of a shell leads back to that shell, whatever its ASCII
/// case.
pub proof fn lemma_shim_name_identifies_shell(choice: ShellChoice, i: int)
    requires
        0 <= i < shim_name_texts(choice).len(),
    ensures
        shell_with_shim_name_from(ascii_lowercase(shim_name_texts(choice)[i]), all_shells()) == Some(choice),
{
    reveal_strlit("pwsh");
    reveal_strlit("pwsh.exe");
    reveal_strlit("powershell");
    reveal_strlit("powershell.exe");
    reveal_strlit("powershell_core");
    reveal_strlit("windows_powershell");
    reveal_strlit("bash");
    reveal_strlit("bash.exe");
    reveal_strlit("nu");
    reveal_strlit("nu.exe");
    reveal_strlit("nushell");
    reveal_strlit("nushell.exe");
    reveal_strlit("zsh");
    reveal_strlit("cmd");
    reveal_strlit("cmd.exe");
    reveal_strlit("bun");
    reveal_strlit("bun.exe");
    reveal_strlit("python");
    reveal_strlit("python.exe");
    reveal_strlit("python3");
    reveal_strlit("python3.exe");
    reveal_strlit("pypy3");
    reveal_strlit("pypy3.exe");
    let name = shim_name_texts(choice)[i];
    assert(ascii_lowercase(name) =~= name);
    reveal_with_fuel(shell_with_shim_name_from, 8);
    assert forall|c: ShellChoice, j: int| 0 <= j < shim_name_texts(c).len() && #[trigger] shim_name_texts(c)[j] == name implies c == choice by {
        let other = shim_name_texts(c)[j];
        assert(other.len() == name.len());
        assert(other[0] == name[0]);
        assert(other.last() == name.last());
    }
    assert(shim_name_texts(choice).contains(name));
}

} // verus!
