//! The differences between Bash and Zsh that the POSIX wrappers depend on.
use crate::contract::{COMMAND_DIRECTORY_ENV, COMMAND_ID_ENV};
use vstd::prelude::*;

verus! {

/// The POSIX shell dialect a wrapper is written for.
#[derive(Clone, Copy, Debug, PartialEq, Eq, Structural)]
pub enum PosixDialect {
    Bash,
    Zsh,
}

pub const DIALECT_0: &'static str = "";
pub const DIALECT_1: &'static str = "    emulate -L zsh\n";
pub const DIALECT_2: &'static str = "mkdir -p";
pub const DIALECT_3: &'static str = "mkdir -p --";
pub const DIALECT_4: &'static str = ": >";
pub const DIALECT_5: &'static str = ": >|";
pub const DIALECT_6: &'static str = ">";
pub const DIALECT_7: &'static str = ">|";
pub const DIALECT_8: &'static str = r#"mv "$done_temp_file" "$done_file""#;
pub const DIALECT_9: &'static str = r#"mv -f -- "$done_temp_file" "$done_file""#;
pub const DIALECT_10: &'static str = "cd";
pub const DIALECT_11: &'static str = "builtin cd --";
pub const DIALECT_12: &'static str = r#"    local had_previous_command_id=0
    local had_previous_command_directory=0
    if [ "${"#;
pub const DIALECT_13: &'static str = r#"+x}" ]; then
        had_previous_command_id=1
    fi
    if [ "${"#;
pub const DIALECT_14: &'static str = r#"+x}" ]; then
        had_previous_command_directory=1
    fi"#;
pub const DIALECT_15: &'static str = "    local had_previous_command_id=${+";
pub const DIALECT_16: &'static str = r"}
    local had_previous_command_directory=${+";
pub const DIALECT_17: &'static str = "}";
pub const DIALECT_18: &'static str = r#"[ "$"#;
pub const DIALECT_19: &'static str = r#"" = 1 ]"#;
pub const DIALECT_20: &'static str = r#"[[ "$"#;
pub const DIALECT_21: &'static str = r#"" == 1 ]]"#;

/// Lines that make a function body run with the dialect's own option set (empty for Bash).
pub open spec fn emulate_text(dialect: PosixDialect) -> Seq<char> {
    match dialect {
        PosixDialect::Bash => DIALECT_0@,
        PosixDialect::Zsh => DIALECT_1@,
    }
}

impl PosixDialect {
    /// Lines that make a function body run with the dialect's own option set (empty for Bash).
    pub fn emulate(self) -> (text: &'static str)
        ensures
            text@ == emulate_text(self),
    {
        match self {
            PosixDialect::Bash => DIALECT_0,
            PosixDialect::Zsh => DIALECT_1,
        }
    }
}

/// The command that creates a directory and its parents.
pub open spec fn mkdir_text(dialect: PosixDialect) -> Seq<char> {
    match dialect {
        PosixDialect::Bash => DIALECT_2@,
        PosixDialect::Zsh => DIALECT_3@,
    }
}

impl PosixDialect {
    /// The command that creates a directory and its parents.
    pub fn mkdir(self) -> (text: &'static str)
        ensures
            text@ == mkdir_text(self),
    {
        match self {
            PosixDialect::Bash => DIALECT_2,
            PosixDialect::Zsh => DIALECT_3,
        }
    }
}

/// The redirection that empties a file, overwriting it even under `noclobber`.
pub open spec fn truncate_text(dialect: PosixDialect) -> Seq<char> {
    match dialect {
        PosixDialect::Bash => DIALECT_4@,
        PosixDialect::Zsh => DIALECT_5@,
    }
}

impl PosixDialect {
    /// The redirection that empties a file, overwriting it even under `noclobber`.
    pub fn truncate(self) -> (text: &'static str)
        ensures
            text@ == truncate_text(self),
    {
        match self {
            PosixDialect::Bash => DIALECT_4,
            PosixDialect::Zsh => DIALECT_5,
        }
    }
}

/// The redirection that writes a file, overwriting it even under `noclobber`.
pub open spec fn write_done_temp_text(dialect: PosixDialect) -> Seq<char> {
    match dialect {
        PosixDialect::Bash => DIALECT_6@,
        PosixDialect::Zsh => DIALECT_7@,
    }
}

impl PosixDialect {
    /// The redirection that writes a file, overwriting it even under `noclobber`.
    pub fn write_done_temp(self) -> (text: &'static str)
        ensures
            text@ == write_done_temp_text(self),
    {
        match self {
            PosixDialect::Bash => DIALECT_6,
            PosixDialect::Zsh => DIALECT_7,
        }
    }
}

/// The command that moves the temporary done file onto the done file.
pub open spec fn move_done_text(dialect: PosixDialect) -> Seq<char> {
    match dialect {
        PosixDialect::Bash => DIALECT_8@,
        PosixDialect::Zsh => DIALECT_9@,
    }
}

impl PosixDialect {
    /// The command that moves the temporary done file onto the done file.
    pub fn move_done(self) -> (text: &'static str)
        ensures
            text@ == move_done_text(self),
    {
        match self {
            PosixDialect::Bash => DIALECT_8,
            PosixDialect::Zsh => DIALECT_9,
        }
    }
}

/// The command that changes directory without aliases or options.
pub open spec fn cd_text(dialect: PosixDialect) -> Seq<char> {
    match dialect {
        PosixDialect::Bash => DIALECT_10@,
        PosixDialect::Zsh => DIALECT_11@,
    }
}

impl PosixDialect {
    /// The command that changes directory without aliases or options.
    pub fn cd(self) -> (text: &'static str)
        ensures
            text@ == cd_text(self),
    {
        match self {
            PosixDialect::Bash => DIALECT_10,
            PosixDialect::Zsh => DIALECT_11,
        }
    }
}

/// Lines that record whether the command identity variables were set before.
pub open spec fn previous_flags_text(dialect: PosixDialect) -> Seq<char> {
    match dialect {
        PosixDialect::Bash => DIALECT_12@ + COMMAND_ID_ENV@ + DIALECT_13@ + COMMAND_DIRECTORY_ENV@ + DIALECT_14@,
        PosixDialect::Zsh => DIALECT_15@ + COMMAND_ID_ENV@ + DIALECT_16@ + COMMAND_DIRECTORY_ENV@ + DIALECT_17@,
    }
}

impl PosixDialect {
    /// Lines that record whether the command identity variables were set before.
    pub fn previous_flags(self) -> (text: String)
        ensures
            text@ == previous_flags_text(self),
    {
        match self {
            PosixDialect::Bash => {
                let mut text = String::from_str(DIALECT_12);
                text.append(COMMAND_ID_ENV);
                text.append(DIALECT_13);
                text.append(COMMAND_DIRECTORY_ENV);
                text.append(DIALECT_14);
                text
            },
            PosixDialect::Zsh => {
                let mut text = String::from_str(DIALECT_15);
                text.append(COMMAND_ID_ENV);
                text.append(DIALECT_16);
                text.append(COMMAND_DIRECTORY_ENV);
                text.append(DIALECT_17);
                text
            },
        }
    }
}

/// A test that positional parameter `arg` equals 1.
pub open spec fn test_arg_text(dialect: PosixDialect, arg: Seq<char>) -> Seq<char> {
    match dialect {
        PosixDialect::Bash => DIALECT_18@ + arg + DIALECT_19@,
        PosixDialect::Zsh => DIALECT_20@ + arg + DIALECT_21@,
    }
}

impl PosixDialect {
    /// A test that positional parameter `arg` equals 1.
    pub fn test_arg(self, arg: &str) -> (text: String)
        ensures
            text@ == test_arg_text(self, arg@),
    {
        match self {
            PosixDialect::Bash => {
                let mut text = String::from_str(DIALECT_18);
                text.append(arg);
                text.append(DIALECT_19);
                text
            },
            PosixDialect::Zsh => {
                let mut text = String::from_str(DIALECT_20);
                text.append(arg);
                text.append(DIALECT_21);
                text
            },
        }
    }
}

} // verus!
