//! Allocation of a pseudo-terminal pair, lifecycle control of a child
//! process attached to its subordinate side, and liveness-checked I/O
//! handles on the owner side.

use vstd::prelude::*;

mod sys;
pub mod fd;
pub mod term;

pub use fd::IoFd;
pub use term::ExitStatus;
pub use term::PtySetup;
pub use term::Terminal;

verus! {

/// Errors reported by this library.
///
/// `Closed` is the distinct broken-pipe condition raised when an I/O handle
/// is used after its descriptor is no longer valid; `Os` carries the raw
/// errno of a failed system call.
#[derive(Clone, Copy, Debug, PartialEq, Eq, Structural)]
pub enum TtyError {
    Closed,
    Os(i32),
}

impl TtyError {
    /// True exactly when this is the closed-descriptor condition.
    pub fn is_closed(&self) -> (r: bool)
        ensures
            r == (*self == TtyError::Closed),
    {
        match self {
            TtyError::Closed => true,
            TtyError::Os(_) => false,
        }
    }

    /// The errno carried by an OS error; the closed-descriptor condition
    /// carries none.
    pub fn os_errno(&self) -> (r: Option<i32>)
        ensures
            r == match *self {
                TtyError::Closed => None::<i32>,
                TtyError::Os(e) => Some(e),
            },
    {
        match self {
            TtyError::Closed => None,
            TtyError::Os(e) => Some(*e),
        }
    }
}

} // verus!
