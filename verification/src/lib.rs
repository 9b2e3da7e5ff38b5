//! Shell integration text for FuncTerm: quoting of values and paths for each
//! supported shell, the startup scripts and arguments that bring a shell under
//! control, the wrapper functions that run a dispatched command, and the rules
//! that decide how an interactive shell session is entered.
pub mod chars;
pub mod contract;
pub mod encoding;
pub mod error;
pub mod host;
pub mod outside;
pub mod shell;
pub mod shim;
