//! Lifecycle operations observable without spawning: reap semantics.

use ptyterm::PtySetup;
use ptyterm::Terminal;
use ptyterm::TtyError;

#[test]
fn wait_without_reapable_child_errors_promptly() {
    let setup = PtySetup::allocate().unwrap();
    let sub = setup.subordinate_fd();
    let own = nix::unistd::getpid().as_raw();
    let mut t = Terminal::open(setup, own).unwrap();
    let r = t.wait();
    assert!(r.is_err());
    assert!(!r.unwrap_err().is_closed());
    nix::unistd::close(sub).unwrap();
}

#[test]
fn wait_error_carries_an_errno() {
    let setup = PtySetup::allocate().unwrap();
    let sub = setup.subordinate_fd();
    let own = nix::unistd::getpid().as_raw();
    let mut t = Terminal::open(setup, own).unwrap();
    match t.wait() {
        Err(TtyError::Os(e)) => assert!(e > 0),
        other => panic!("expected an OS error, got {:?}", other),
    }
    nix::unistd::close(sub).unwrap();
}
