//! Liveness-checked owner-side I/O handle.

use vstd::prelude::*;
use rustix::fd::OwnedFd;
use std::io::Stdin;
use crate::sys;
use crate::TtyError;

verus! {

/// A liveness-checked wrapper around one owned file descriptor.
///
/// Every read, write and flush first asks the kernel whether the descriptor
/// number is still valid; when it is not, the operation fails at once with
/// the distinct closed-descriptor condition instead of attempting I/O. Each
/// operation that does go ahead runs on a fresh duplicate of the descriptor,
/// which is closed again when the operation returns. The descriptor itself
/// is closed when the handle is dropped.
pub struct IoFd {
    pub(crate) fd: OwnedFd,
}

impl IoFd {
    /// Constructs a handle holding a fresh duplicate of the calling
    /// process's standard input descriptor. A failure is the duplicating
    /// call's, and carries its errno.
    pub fn from_stdin(s: &Stdin) -> (r: Result<IoFd, TtyError>)
        ensures
            r matches Err(e) ==> e is Os,
    {
        match sys::dup_stdin(s) {
            Ok(fd) => Ok(IoFd { fd }),
            Err(e) => Err(TtyError::Os(e)),
        }
    }

    /// The descriptor number this handle owns. Non-negative.
    pub fn raw_fd(&self) -> (r: i32)
        ensures
            r >= 0,
    {
        sys::raw_fd_of(&self.fd)
    }

    /// Queries the kernel descriptor table for the validity of this handle's
    /// descriptor number. Never blocks; any query failure is reported as
    /// "does not exist".
    pub fn is_live(&self) -> (r: bool)
    {
        let raw = sys::raw_fd_of(&self.fd);
        match sys::fd_flag_bits(raw) {
            Ok(v) => v != -1,
            Err(_) => false,
        }
    }

    /// Reads into `buf` through a fresh duplicate of the descriptor.
    ///
    /// Fails with the closed-descriptor condition when the liveness check
    /// fails, leaving the buffer entirely unchanged; otherwise returns the
    /// number of bytes read, zero signaling end-of-stream. At most
    /// `buf.len()` bytes are read; the buffer keeps its length and the bytes
    /// beyond the ones read are untouched.
    pub fn read(&self, buf: &mut Vec<u8>) -> (r: Result<usize, TtyError>)
        ensures
            final(buf)@.len() == old(buf)@.len(),
            r matches Ok(n) ==> n <= old(buf)@.len() && final(buf)@.skip(n as int) == old(
                buf,
            )@.skip(n as int),
            r matches Err(e) ==> (e is Closed ==> final(buf)@ == old(buf)@),
    {
        if !self.is_live() {
            return Err(TtyError::Closed);
        }
        let view = match sys::dup_owned(&self.fd) {
            Ok(f) => f,
            Err(e) => {
                return Err(TtyError::Os(e));
            },
        };
        match sys::read_into(&view, buf) {
            Ok(n) => Ok(n),
            Err(e) => Err(TtyError::Os(e)),
        }
    }

    /// Writes from `buf` through a fresh duplicate of the descriptor.
    ///
    /// Fails with the closed-descriptor condition when the liveness check
    /// fails; otherwise returns the number of bytes written, at most
    /// `buf.len()`.
    pub fn write(&self, buf: &[u8]) -> (r: Result<usize, TtyError>)
        ensures
            r matches Ok(n) ==> n <= buf@.len(),
    {
        if !self.is_live() {
            return Err(TtyError::Closed);
        }
        let view = match sys::dup_owned(&self.fd) {
            Ok(f) => f,
            Err(e) => {
                return Err(TtyError::Os(e));
            },
        };
        match sys::write_from(&view, buf) {
            Ok(n) => Ok(n),
            Err(e) => Err(TtyError::Os(e)),
        }
    }

    /// Flushes through a fresh duplicate of the descriptor. PTY descriptors
    /// are unbuffered at this layer, so beyond the liveness check this only
    /// resolves and releases the fresh view.
    pub fn flush(&self) -> (r: Result<(), TtyError>)
    {
        if !self.is_live() {
            return Err(TtyError::Closed);
        }
        match sys::dup_owned(&self.fd) {
            Ok(_) => Ok(()),
            Err(e) => Err(TtyError::Os(e)),
        }
    }
}

} // verus!
