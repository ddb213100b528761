//! Trusted boundary: thin wrappers around the PTY, descriptor and process
//! system calls this library is built on. Each wrapper makes exactly one
//! outside call; its contract states only what the call's documentation
//! promises. Errors are handed on as the raw errno value.

use vstd::prelude::*;
use rustix::fd::AsRawFd;
use rustix::fd::OwnedFd;
use std::io::Stdin;

verus! {

/// An owned file descriptor: the kernel handle is closed when the value is
/// dropped. Opaque to verification; values originate only from the wrappers
/// below, which return descriptors the kernel reported as successfully opened.
#[verifier::external_type_specification]
#[verifier::external_body]
pub struct ExOwnedFd(OwnedFd);

/// A handle to the calling process's standard input stream. Opaque to
/// verification; only its descriptor is duplicated here.
#[verifier::external_type_specification]
#[verifier::external_body]
pub struct ExStdin(Stdin);

/// Relies on rustix::pty::openpt: allocates a PTY owner device, opened
/// read/write and without making it the controlling terminal.
#[verifier::external_body]
pub(crate) fn open_owner() -> (r: Result<OwnedFd, i32>)
{
    rustix::pty::openpt(rustix::pty::OpenptFlags::RDWR | rustix::pty::OpenptFlags::NOCTTY)
        .map_err(|e| e.raw_os_error())
}

/// Relies on rustix::pty::grantpt: grants access to the subordinate device
/// of the given PTY owner descriptor.
#[verifier::external_body]
pub(crate) fn grant_subordinate(fd: &OwnedFd) -> (r: Result<(), i32>)
{
    rustix::pty::grantpt(fd).map_err(|e| e.raw_os_error())
}

/// Relies on rustix::pty::unlockpt: unlocks the subordinate device of the
/// given PTY owner descriptor so it can be opened.
#[verifier::external_body]
pub(crate) fn unlock_subordinate(fd: &OwnedFd) -> (r: Result<(), i32>)
{
    rustix::pty::unlockpt(fd).map_err(|e| e.raw_os_error())
}

/// Relies on rustix::pty::ptsname: returns the pathname of the subordinate
/// device of the given PTY owner descriptor.
#[verifier::external_body]
pub(crate) fn subordinate_path(fd: &OwnedFd) -> (r: Result<String, i32>)
{
    let name = rustix::pty::ptsname(fd, Vec::new()).map_err(|e| e.raw_os_error())?;
    name.into_string().map_err(|_| rustix::io::Errno::INVAL.raw_os_error())
}

/// Relies on std's AsRawFd for OwnedFd: returns the contained descriptor
/// number. An owned descriptor is an open one, and open descriptors are
/// non-negative.
#[verifier::external_body]
pub(crate) fn raw_fd_of(fd: &OwnedFd) -> (r: i32)
    ensures
        r >= 0,
{
    fd.as_raw_fd()
}

/// Relies on nix::fcntl::fcntl with F_GETFD: queries the descriptor flags of
/// the given descriptor number; fails (EBADF) when the number does not name
/// an open descriptor.
#[verifier::external_body]
pub(crate) fn fd_flag_bits(fd: i32) -> (r: Result<i32, i32>)
{
    nix::fcntl::fcntl(fd, nix::fcntl::FcntlArg::F_GETFD).map_err(|e| e as i32)
}

/// Relies on nix::fcntl::fcntl with F_SETFD: sets the descriptor flags of
/// the given descriptor number to exactly the given bits.
#[verifier::external_body]
pub(crate) fn set_fd_flag_bits(fd: i32, bits: i32) -> (r: Result<(), i32>)
{
    nix::fcntl::fcntl(fd, nix::fcntl::FcntlArg::F_SETFD(nix::fcntl::FdFlag::from_bits_retain(bits)))
        .map(|_| ())
        .map_err(|e| e as i32)
}

/// Relies on nix::fcntl::FdFlag::FD_CLOEXEC: the close-on-exec descriptor
/// flag bit, which is a non-empty set of flag bits.
#[verifier::external_body]
pub(crate) fn cloexec_bit() -> (r: i32)
    ensures
        r != 0,
{
    nix::fcntl::FdFlag::FD_CLOEXEC.bits()
}

/// Relies on nix::fcntl::open: opens the given path read/write and returns
/// the new descriptor number, which is non-negative.
#[verifier::external_body]
pub(crate) fn open_rdwr(path: &str) -> (r: Result<i32, i32>)
    ensures
        r matches Ok(fd) ==> fd >= 0,
{
    nix::fcntl::open(path, nix::fcntl::OFlag::O_RDWR, nix::sys::stat::Mode::empty())
        .map_err(|e| e as i32)
}

/// Relies on rustix::io::dup: duplicates the given descriptor into a fresh
/// independently owned descriptor referring to the same open device.
#[verifier::external_body]
pub(crate) fn dup_owned(fd: &OwnedFd) -> (r: Result<OwnedFd, i32>)
{
    rustix::io::dup(fd).map_err(|e| e.raw_os_error())
}

/// Relies on rustix::io::dup: duplicates the calling process's standard
/// input descriptor into a fresh independently owned descriptor.
#[verifier::external_body]
pub(crate) fn dup_stdin(s: &Stdin) -> (r: Result<OwnedFd, i32>)
{
    rustix::io::dup(s).map_err(|e| e.raw_os_error())
}

/// Relies on nix::unistd::read: reads into the buffer's first bytes and
/// returns how many were read, never more than the buffer holds; the buffer
/// keeps its length, and the bytes beyond the ones read are untouched.
#[verifier::external_body]
pub(crate) fn read_into(fd: &OwnedFd, buf: &mut Vec<u8>) -> (r: Result<usize, i32>)
    ensures
        final(buf)@.len() == old(buf)@.len(),
        r matches Ok(n) ==> n <= old(buf)@.len() && final(buf)@.skip(n as int) == old(
            buf,
        )@.skip(n as int),
{
    nix::unistd::read(fd.as_raw_fd(), buf.as_mut_slice()).map_err(|e| e as i32)
}

/// Relies on nix::unistd::write: writes from the buffer and returns how many
/// bytes were written, never more than the buffer holds.
#[verifier::external_body]
pub(crate) fn write_from(fd: &OwnedFd, buf: &[u8]) -> (r: Result<usize, i32>)
    ensures
        r matches Ok(n) ==> n <= buf@.len(),
{
    nix::unistd::write(fd.as_raw_fd(), buf).map_err(|e| e as i32)
}

/// Relies on nix::sys::signal::kill with SIGKILL: requests termination of
/// the process with the given id. Positive ids name a single process; other
/// values address process groups and are excluded here.
#[verifier::external_body]
pub(crate) fn send_kill(pid: i32) -> (r: Result<(), i32>)
    requires
        pid >= 1,
{
    nix::sys::signal::kill(nix::unistd::Pid::from_raw(pid), nix::sys::signal::Signal::SIGKILL)
        .map_err(|e| e as i32)
}

/// Relies on nix::sys::wait::waitpid: blocks until the child process with
/// the given id changes state and reports how it ended. Positive ids name a
/// single child; other values address whole groups and are excluded here.
#[verifier::external_body]
pub(crate) fn wait_for(pid: i32) -> (r: Result<crate::term::ExitStatus, i32>)
    requires
        pid >= 1,
{
    match nix::sys::wait::waitpid(nix::unistd::Pid::from_raw(pid), None) {
        Ok(nix::sys::wait::WaitStatus::Exited(_, code)) => Ok(crate::term::ExitStatus::Exited(code)),
        Ok(nix::sys::wait::WaitStatus::Signaled(_, sig, _)) => {
            Ok(crate::term::ExitStatus::Signaled(sig as i32))
        },
        Ok(_) => Ok(crate::term::ExitStatus::Other),
        Err(e) => Err(e as i32),
    }
}

/// Relies on rustix::termios::tcsetwinsize: issues the window-size-change
/// control operation on the given descriptor with the given dimensions.
#[verifier::external_body]
pub(crate) fn set_window_size(
    fd: &OwnedFd,
    rows: u16,
    cols: u16,
    pixel_width: u16,
    pixel_height: u16,
) -> (r: Result<(), i32>)
{
    rustix::termios::tcsetwinsize(
        fd,
        rustix::termios::Winsize {
            ws_row: rows,
            ws_col: cols,
            ws_xpixel: pixel_width,
            ws_ypixel: pixel_height,
        },
    )
    .map_err(|e| e.raw_os_error())
}

} // verus!
