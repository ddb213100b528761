//! Pair allocation, owner-side handle duplication, loopback I/O and resize.

use ptyterm::PtySetup;
use ptyterm::Terminal;

fn own_pid() -> i32 {
    nix::unistd::getpid().as_raw()
}

#[test]
fn allocate_and_open_yields_two_live_handles() {
    let setup = PtySetup::allocate().unwrap();
    let sub = setup.subordinate_fd();
    assert!(sub >= 0);
    assert!(setup.owner_raw() >= 0);
    let t = Terminal::open(setup, own_pid()).unwrap();
    let a = t.stdin.as_ref().unwrap();
    let b = t.stdout.as_ref().unwrap();
    assert!(a.is_live());
    assert!(b.is_live());
    assert_ne!(a.raw_fd(), b.raw_fd());
    nix::unistd::close(sub).unwrap();
}

#[test]
fn loopback_echo_between_the_two_handles() {
    let setup = PtySetup::allocate().unwrap();
    let sub = setup.subordinate_fd();
    let t = Terminal::open(setup, own_pid()).unwrap();
    let written = t.stdin.as_ref().unwrap().write(b"ping\n").unwrap();
    assert_eq!(written, 5);
    let mut buf = vec![0u8; 64];
    let got = t.stdout.as_ref().unwrap().read(&mut buf).unwrap();
    assert!(got >= 4);
    assert_eq!(&buf[..4], b"ping");
    assert_eq!(buf.len(), 64);
    assert!(buf[got..].iter().all(|&b| b == 0));
    nix::unistd::close(sub).unwrap();
}

#[test]
fn io_errors_promptly_once_subordinate_is_gone() {
    let setup = PtySetup::allocate().unwrap();
    let sub = setup.subordinate_fd();
    let t = Terminal::open(setup, own_pid()).unwrap();
    nix::unistd::close(sub).unwrap();
    let mut buf = vec![0u8; 8];
    assert!(t.stdout.as_ref().unwrap().read(&mut buf).is_err());
}

#[test]
fn resize_succeeds_while_open_and_fails_after_teardown() {
    let setup = PtySetup::allocate().unwrap();
    let sub = setup.subordinate_fd();
    let t = Terminal::open(setup, own_pid()).unwrap();
    assert_eq!(t.resize(24, 80, 0, 0), Ok(()));
    assert_eq!(t.resize(50, 132, 640, 480), Ok(()));
    assert_eq!(t.resize(1, 1, 0, 0), Ok(()));
    nix::unistd::close(sub).unwrap();
    nix::unistd::close(t.owner_raw()).unwrap();
    assert!(t.resize(24, 80, 0, 0).is_err());
    std::mem::forget(t);
}
