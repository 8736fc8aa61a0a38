use vstd::prelude::*;

verus! {

/// What can go wrong while opening, resizing or spawning on a pty.
#[derive(Debug, PartialEq, Eq)]
pub enum Error {
    /// An operating-system call failed with the given error number.
    Os(i32),
    /// A terminal dimension does not fit the platform's signed size field.
    SizeOutOfRange,
    /// The command names no program to run.
    NoExeSpecified,
    /// The program's path cannot be written in the platform's encoding.
    InvalidExeSpecified(String),
    /// An environment variable, named here, cannot stand in an environment
    /// block: its name is empty or holds `=` or a NUL, or its value holds a
    /// NUL.
    InvalidEnvironment(String),
}

} // verus!
