use pty_process::{console_size, ConsoleSize, Error, Size, WindowsPty};

#[test]
fn size_keeps_rows_and_cols() {
    let size = Size::new(24, 80);
    assert_eq!(size.rows(), 24);
    assert_eq!(size.cols(), 80);
}

#[test]
fn winsize_holds_rows_and_cols() {
    let ws = libc::winsize::from(Size::new(40, 120));
    assert_eq!(ws.ws_row, 40);
    assert_eq!(ws.ws_col, 120);
    assert_eq!(ws.ws_xpixel, 0);
    assert_eq!(ws.ws_ypixel, 0);
}

#[test]
fn winsize_takes_largest_size() {
    let ws = libc::winsize::from(Size::new(u16::MAX, u16::MAX));
    assert_eq!(ws.ws_row, u16::MAX);
    assert_eq!(ws.ws_col, u16::MAX);
}

#[test]
fn console_size_swaps_into_columns_then_rows() {
    assert_eq!(console_size(Size::new(40, 120)), Ok(ConsoleSize { x: 120, y: 40 }));
}

#[test]
fn console_size_takes_signed_limit() {
    assert_eq!(
        console_size(Size::new(32767, 32767)),
        Ok(ConsoleSize { x: 32767, y: 32767 })
    );
    assert_eq!(console_size(Size::new(0, 0)), Ok(ConsoleSize { x: 0, y: 0 }));
}

#[test]
fn console_size_refuses_rows_beyond_limit() {
    assert_eq!(console_size(Size::new(32768, 80)), Err(Error::SizeOutOfRange));
}

#[test]
fn console_size_refuses_cols_beyond_limit() {
    assert_eq!(console_size(Size::new(24, 40000)), Err(Error::SizeOutOfRange));
    assert_eq!(console_size(Size::new(u16::MAX, u16::MAX)), Err(Error::SizeOutOfRange));
}

#[test]
fn initial_console_size_is_24_by_80() {
    assert_eq!(WindowsPty::initial_size(), ConsoleSize { x: 80, y: 24 });
}

#[test]
fn winsize_reads_back_as_same_size() {
    let size = Size::new(40, 120);
    let back = Size::from(libc::winsize::from(size));
    assert_eq!(back, size);
    let odd = libc::winsize { ws_row: 7, ws_col: 9, ws_xpixel: 100, ws_ypixel: 200 };
    assert_eq!(Size::from(odd), Size::new(7, 9));
}
