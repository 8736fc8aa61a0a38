use vstd::prelude::*;

use crate::error::Error;
use crate::size::Size;

verus! {

/// The largest value of a pseudo-console dimension, a signed 16-bit field.
pub const MAX_CONSOLE_DIM: u16 = 32767;

/// A pseudo-console size: `x` columns and `y` rows, in the signed fields that
/// the pseudo-console calls take.
#[derive(Debug, Clone, Copy, PartialEq, Eq, Structural)]
pub struct ConsoleSize {
    pub x: i16,
    pub y: i16,
}

/// Whether both dimensions of `size` fit a pseudo-console size.
pub open spec fn fits_console(size: Size) -> bool {
    size.rows <= MAX_CONSOLE_DIM && size.cols <= MAX_CONSOLE_DIM
}

/// The pseudo-console size for `size`, or the resize failure where a
/// dimension does not fit.
pub open spec fn console_size_of(size: Size) -> Result<ConsoleSize, Error> {
    if fits_console(size) {
        Ok(ConsoleSize { x: size.cols as i16, y: size.rows as i16 })
    } else {
        Err(Error::SizeOutOfRange)
    }
}

/// Converts `size` into a pseudo-console size; fails where the rows or the
/// columns exceed what a signed 16-bit field holds.
pub fn console_size(size: Size) -> (r: Result<ConsoleSize, Error>)
    ensures
        r == console_size_of(size),
{
    if size.cols <= MAX_CONSOLE_DIM && size.rows <= MAX_CONSOLE_DIM {
        Ok(ConsoleSize { x: size.cols as i16, y: size.rows as i16 })
    } else {
        Err(Error::SizeOutOfRange)
    }
}

/// The size that a pseudo-console size stands for.
pub open spec fn size_of_console(c: ConsoleSize) -> Size {
    Size { rows: c.y as u16, cols: c.x as u16 }
}

/// Every size whose dimensions fit the signed fields converts, and reads back
/// as the same rows and columns.
pub proof fn lemma_console_size_round_trip(size: Size)
    requires
        fits_console(size),
    ensures
        console_size_of(size) is Ok,
        size_of_console(console_size_of(size)->Ok_0) == size,
        console_size_of(size)->Ok_0.x as int == size.cols as int,
        console_size_of(size)->Ok_0.y as int == size.rows as int,
{
}

/// Every size with a dimension beyond the signed limit is refused with the
/// resize failure, before any call reaches the pseudo-console.
pub proof fn lemma_console_size_out_of_range(size: Size)
    requires
        size.rows > MAX_CONSOLE_DIM || size.cols > MAX_CONSOLE_DIM,
    ensures
        console_size_of(size) == Err::<ConsoleSize, Error>(Error::SizeOutOfRange),
{
}

/// The controlling side on the pseudo-console platform: a pseudo-console
/// object and the two pipe ends that the caller writes to and reads from,
/// each held as its raw handle value.
#[derive(Debug)]
pub struct WindowsPty {
    pseudo_terminal: isize,
    stdin: isize,
    stdout: isize,
}

/// The subordinate side on the pseudo-console platform: a marker with no
/// resource of its own, since the pipe ends of the pty serve the child.
#[derive(Debug)]
pub struct WindowsPts();

impl WindowsPty {
    /// The raw handle of the pseudo-console object.
    pub closed spec fn console_handle(&self) -> isize {
        self.pseudo_terminal
    }

    /// The raw handle of the pipe end that carries bytes to the terminal.
    pub closed spec fn input_handle(&self) -> isize {
        self.stdin
    }

    /// The raw handle of the pipe end that carries bytes from the terminal.
    pub closed spec fn output_handle(&self) -> isize {
        self.stdout
    }

    /// The pty that owns the pseudo-console `console` and the pipe ends
    /// `stdin` and `stdout`.
    pub(crate) fn from_handles(console: isize, stdin: isize, stdout: isize) -> (r: WindowsPty)
        ensures
            r.console_handle() == console,
            r.input_handle() == stdin,
            r.output_handle() == stdout,
    {
        WindowsPty { pseudo_terminal: console, stdin, stdout }
    }

    /// The subordinate side of this pty; it needs no call to the system and
    /// never fails.
    pub fn pts(&self) -> (r: Result<WindowsPts, Error>)
        ensures
            r is Ok,
    {
        Ok(WindowsPts())
    }

    /// The size that a pty's pseudo-console is created with: 24 rows of 80
    /// columns.
    pub fn initial_size() -> (r: ConsoleSize)
        ensures
            r.x == 80,
            r.y == 24,
    {
        ConsoleSize { x: 80, y: 24 }
    }
}

} // verus!
