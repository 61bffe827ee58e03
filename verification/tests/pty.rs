use noverterm::terminal::pty::PtyHandle;

#[test]
fn test_pty_creation() {
    let pty = PtyHandle::new("/bin/bash", 24, 80).unwrap();
    assert_eq!(pty.shell, "/bin/bash");
    assert_eq!(pty.rows, 24);
    assert_eq!(pty.cols, 80);
}

#[test]
fn pty_write_takes_every_byte() {
    let mut pty = PtyHandle::new("/bin/sh", 24, 80).unwrap();
    assert_eq!(pty.write(b"ls -la\n").unwrap(), 7);
    assert_eq!(pty.write(b"").unwrap(), 0);
    assert_eq!(pty.shell, "/bin/sh");
    assert_eq!((pty.rows, pty.cols), (24, 80));
}

#[test]
fn pty_read_reports_end_of_stream() {
    let mut pty = PtyHandle::new("/bin/sh", 24, 80).unwrap();
    let mut buf = [7u8; 16];
    assert_eq!(pty.read(&mut buf).unwrap(), 0);
    assert_eq!(buf, [7u8; 16]);
}

#[test]
fn pty_set_size_records_the_size() {
    let mut pty = PtyHandle::new("/bin/zsh", 24, 80).unwrap();
    pty.set_size(10, 40).unwrap();
    assert_eq!(pty.rows, 10);
    assert_eq!(pty.cols, 40);
    assert_eq!(pty.shell, "/bin/zsh");
}
