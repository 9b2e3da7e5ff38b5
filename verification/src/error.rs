use vstd::prelude::*;

verus! {

/// Why a piece of shell text could not be produced.
#[derive(Debug, Clone, Copy, PartialEq, Eq, Structural)]
pub enum ShellError {
    /// A path whose bytes are not valid UTF-8 cannot be written into a script.
    NonUtf8Path,
    /// A shell invocation line held a carriage return or a line feed.
    LineBreakInInvocation,
    /// A wrapper template held a variable marker that is not closed by `@`
    /// or whose name is not an identifier.
    MalformedVariableMarker,
    /// A value could not be written as a JSON string literal.
    JsonEncoding,
    /// A name did not denote any supported shell.
    UnknownShell,
}

} // verus!
