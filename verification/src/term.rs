//! PTY pair allocation and child-session lifecycle.

use vstd::prelude::*;
use rustix::fd::OwnedFd;
use crate::fd::IoFd;
use crate::sys;
use crate::TtyError;

verus! {

/// How a child process ended, as reported when it was reaped.
#[derive(Clone, Copy, Debug, PartialEq, Eq, Structural)]
pub enum ExitStatus {
    /// The child called exit with the given code.
    Exited(i32),
    /// The child was terminated by the signal with the given number.
    Signaled(i32),
    /// Any other state change (stopped, continued, traced).
    Other,
}

/// A freshly allocated and configured PTY pair, ready for a child process to
/// be attached to its subordinate side.
///
/// The owner side is held exclusively and is already marked close-on-exec;
/// the subordinate side is open read/write and its descriptor number is
/// handed to the caller, who must bind it to the child's standard streams
/// (or close it). The setup itself never closes the subordinate.
pub struct PtySetup {
    pub(crate) owner: OwnedFd,
    pub(crate) subordinate: i32,
}

impl PtySetup {
    /// A well-formed setup holds a valid (non-negative) subordinate
    /// descriptor number.
    pub closed spec fn wf(&self) -> bool {
        self.subordinate >= 0
    }

    /// The subordinate-side descriptor number.
    pub closed spec fn sub_fd(&self) -> int {
        self.subordinate as int
    }

    /// Allocates a PTY pair in read/write, no-controlling-terminal mode;
    /// grants access to and unlocks the subordinate side; marks the owner
    /// side close-on-exec, preserving its other descriptor flags; and opens
    /// the subordinate side by pathname, read/write.
    ///
    /// Any failing step surfaces at once as an OS error carrying its errno,
    /// and no setup is returned.
    pub fn allocate() -> (r: Result<PtySetup, TtyError>)
        ensures
            r matches Ok(s) ==> s.wf(),
            r matches Err(e) ==> e is Os,
    {
        let owner = match sys::open_owner() {
            Ok(fd) => fd,
            Err(e) => {
                return Err(TtyError::Os(e));
            },
        };
        if let Err(e) = sys::grant_subordinate(&owner) {
            return Err(TtyError::Os(e));
        }
        if let Err(e) = sys::unlock_subordinate(&owner) {
            return Err(TtyError::Os(e));
        }
        let owner_raw = sys::raw_fd_of(&owner);
        let bits = match sys::fd_flag_bits(owner_raw) {
            Ok(b) => b,
            Err(e) => {
                return Err(TtyError::Os(e));
            },
        };
        if let Err(e) = sys::set_fd_flag_bits(owner_raw, bits | sys::cloexec_bit()) {
            return Err(TtyError::Os(e));
        }
        let path = match sys::subordinate_path(&owner) {
            Ok(p) => p,
            Err(e) => {
                return Err(TtyError::Os(e));
            },
        };
        let subordinate = match sys::open_rdwr(path.as_str()) {
            Ok(fd) => fd,
            Err(e) => {
                return Err(TtyError::Os(e));
            },
        };
        Ok(PtySetup { owner, subordinate })
    }

    /// The owner-side descriptor number. Non-negative.
    pub fn owner_raw(&self) -> (r: i32)
        ensures
            r >= 0,
    {
        sys::raw_fd_of(&self.owner)
    }

    /// The subordinate-side descriptor number. Non-negative.
    pub fn subordinate_fd(&self) -> (r: i32)
        requires
            self.wf(),
        ensures
            r >= 0,
            r as int == self.sub_fd(),
    {
        self.subordinate
    }
}

/// An interactive terminal session: the exclusively owned PTY owner-side
/// handle, the id of the child process attached to the subordinate side,
/// and two independently owned owner-side duplicates for interactive I/O.
///
/// The subordinate side is never retained here: it lives only in the setup
/// phase and belongs to the child's standard streams thereafter. The owner
/// handle is closed when the terminal is dropped; the I/O handles have
/// lifetimes of their own.
pub struct Terminal {
    pub(crate) owner: OwnedFd,
    pub stdin: Option<IoFd>,
    pub stdout: Option<IoFd>,
    pub(crate) child: i32,
}

impl Terminal {
    /// A well-formed terminal records a positive child process id, so that
    /// lifecycle operations address exactly one process.
    pub closed spec fn wf(&self) -> bool {
        self.child >= 1
    }

    /// The recorded child process id.
    pub closed spec fn child_id(&self) -> int {
        self.child as int
    }

    /// Whether the interactive input handle is present.
    pub closed spec fn has_stdin(&self) -> bool {
        self.stdin is Some
    }

    /// Whether the interactive output handle is present.
    pub closed spec fn has_stdout(&self) -> bool {
        self.stdout is Some
    }

    /// Completes a session around an allocated pair and a spawned child:
    /// produces the two independent owner-side descriptor duplicates for
    /// interactive I/O and takes ownership of the owner side.
    ///
    /// `child` is the id of the process already attached to the subordinate
    /// side of `setup`; the caller keeps responsibility for the subordinate
    /// descriptor itself. On success both I/O handles are present and the
    /// given child id is the one all lifecycle operations will address.
    pub fn open(setup: PtySetup, child: i32) -> (r: Result<Terminal, TtyError>)
        requires
            child >= 1,
        ensures
            r matches Ok(t) ==> t.wf() && t.child_id() == child && t.has_stdin()
                && t.has_stdout(),
            r matches Err(e) ==> e is Os,
    {
        let first = match sys::dup_owned(&setup.owner) {
            Ok(fd) => fd,
            Err(e) => {
                return Err(TtyError::Os(e));
            },
        };
        let second = match sys::dup_owned(&first) {
            Ok(fd) => fd,
            Err(e) => {
                return Err(TtyError::Os(e));
            },
        };
        Ok(Terminal {
            owner: setup.owner,
            stdin: Some(IoFd { fd: first }),
            stdout: Some(IoFd { fd: second }),
            child,
        })
    }

    /// Requests termination of the child with a kill signal; OS
    /// process-termination semantics decide idempotency and the
    /// already-exited case. The terminal itself is unchanged.
    pub fn kill(&mut self) -> (r: Result<(), TtyError>)
        requires
            old(self).wf(),
        ensures
            *final(self) == *old(self),
            r matches Err(e) ==> e is Os,
    {
        match sys::send_kill(self.child) {
            Ok(()) => Ok(()),
            Err(e) => Err(TtyError::Os(e)),
        }
    }

    /// Blocks until the child terminates and returns how it ended. Waiting
    /// again after the child was reaped is an OS-level error, handed on
    /// as-is. The terminal itself is unchanged.
    pub fn wait(&mut self) -> (r: Result<ExitStatus, TtyError>)
        requires
            old(self).wf(),
        ensures
            *final(self) == *old(self),
            r matches Err(e) ==> e is Os,
    {
        match sys::wait_for(self.child) {
            Ok(status) => Ok(status),
            Err(e) => Err(TtyError::Os(e)),
        }
    }

    /// Issues the window-size-change control operation on the owner-side
    /// descriptor with the given dimensions; a failure (for instance, a
    /// descriptor already closed out of band) surfaces as an OS error.
    pub fn resize(&self, rows: u16, cols: u16, pixel_width: u16, pixel_height: u16) -> (r: Result<
        (),
        TtyError,
    >)
        ensures
            r matches Err(e) ==> e is Os,
    {
        match sys::set_window_size(&self.owner, rows, cols, pixel_width, pixel_height) {
            Ok(()) => Ok(()),
            Err(e) => Err(TtyError::Os(e)),
        }
    }

    /// The owner-side descriptor number. Non-negative.
    pub fn owner_raw(&self) -> (r: i32)
        ensures
            r >= 0,
    {
        sys::raw_fd_of(&self.owner)
    }
}

} // verus!
