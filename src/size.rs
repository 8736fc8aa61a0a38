use vstd::prelude::*;

verus! {

/// The size of a terminal: a number of rows and a number of columns.
#[derive(Debug, Clone, Copy, PartialEq, Eq, Structural)]
pub struct Size {
    pub rows: u16,
    pub cols: u16,
}

impl Size {
    /// A size of `rows` rows and `cols` columns.
    pub fn new(rows: u16, cols: u16) -> (r: Size)
        ensures
            r.rows == rows,
            r.cols == cols,
    {
        Size { rows, cols }
    }

    /// The number of rows.
    pub fn rows(&self) -> (r: u16)
        ensures
            r == self.rows,
    {
        self.rows
    }

    /// The number of columns.
    pub fn cols(&self) -> (r: u16)
        ensures
            r == self.cols,
    {
        self.cols
    }
}

/// Declares `libc::winsize`, the record that the terminal size ioctls read
/// and write, with its four public `u16` fields visible so that it can be
/// built and read here.
#[verifier::external_type_specification]
pub struct ExWinsize(libc::winsize);

/// The window-size record of the terminal ioctls: the rows and columns of
/// the size, and no pixel dimensions.
impl From<Size> for libc::winsize {
    fn from(size: Size) -> (r: libc::winsize) {
        libc::winsize { ws_row: size.rows, ws_col: size.cols, ws_xpixel: 0, ws_ypixel: 0 }
    }
}

impl vstd::std_specs::convert::FromSpecImpl<Size> for libc::winsize {
    open spec fn obeys_from_spec() -> bool {
        true
    }

    open spec fn from_spec(size: Size) -> libc::winsize {
        winsize_of(size)
    }
}

/// The size that a window-size record of the terminal ioctls holds.
impl From<libc::winsize> for Size {
    fn from(w: libc::winsize) -> (r: Size) {
        Size { rows: w.ws_row, cols: w.ws_col }
    }
}

impl vstd::std_specs::convert::FromSpecImpl<libc::winsize> for Size {
    open spec fn obeys_from_spec() -> bool {
        true
    }

    open spec fn from_spec(w: libc::winsize) -> Size {
        size_of_winsize(w)
    }
}

/// The window-size record for `size`.
pub open spec fn winsize_of(size: Size) -> libc::winsize {
    libc::winsize { ws_row: size.rows, ws_col: size.cols, ws_xpixel: 0, ws_ypixel: 0 }
}

/// The size that a window-size record holds.
pub open spec fn size_of_winsize(w: libc::winsize) -> Size {
    Size { rows: w.ws_row, cols: w.ws_col }
}

/// Every size converts into a window-size record and reads back as the same
/// rows and columns: the ioctl platform has no signed limit.
pub proof fn lemma_winsize_round_trip(size: Size)
    ensures
        size_of_winsize(winsize_of(size)) == size,
        winsize_of(size).ws_row == size.rows,
        winsize_of(size).ws_col == size.cols,
{
}

} // verus!
