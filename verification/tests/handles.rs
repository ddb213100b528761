//! Handle liveness and the closed-descriptor error path.

use ptyterm::IoFd;
use ptyterm::TtyError;

#[test]
fn stdin_duplicate_is_live() {
    let h = IoFd::from_stdin(&std::io::stdin()).unwrap();
    assert!(h.raw_fd() >= 0);
    assert!(h.is_live());
}

#[test]
fn out_of_band_close_reports_not_live() {
    let h = IoFd::from_stdin(&std::io::stdin()).unwrap();
    assert!(h.is_live());
    nix::unistd::close(h.raw_fd()).unwrap();
    assert!(!h.is_live());
    std::mem::forget(h);
}

#[test]
fn closed_descriptor_io_reports_closed() {
    let h = IoFd::from_stdin(&std::io::stdin()).unwrap();
    nix::unistd::close(h.raw_fd()).unwrap();
    let mut buf = vec![7u8; 8];
    assert_eq!(h.read(&mut buf), Err(TtyError::Closed));
    assert_eq!(buf, vec![7u8; 8]);
    assert_eq!(h.write(&buf[..]), Err(TtyError::Closed));
    assert_eq!(h.flush(), Err(TtyError::Closed));
    assert!(h.read(&mut buf).unwrap_err().is_closed());
    std::mem::forget(h);
}

#[test]
fn error_kinds_are_distinguishable() {
    assert!(TtyError::Closed.is_closed());
    assert!(!TtyError::Os(5).is_closed());
    assert_ne!(TtyError::Closed, TtyError::Os(5));
    assert_eq!(TtyError::Closed.os_errno(), None);
    assert_eq!(TtyError::Os(5).os_errno(), Some(5));
}

#[test]
fn zero_length_read_returns_zero_without_blocking() {
    let h = IoFd::from_stdin(&std::io::stdin()).unwrap();
    let mut empty: Vec<u8> = Vec::new();
    assert_eq!(h.read(&mut empty), Ok(0));
    assert_eq!(empty.len(), 0);
}
