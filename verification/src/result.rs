//! The failures this layer reports.

use vstd::prelude::*;

use crate::sys::result::SysResult;

verus! {

/// Why an operation of this layer failed.
#[derive(Clone, Copy, Debug, PartialEq, Eq, Structural)]
pub enum Error {
    /// No memory could be had for the per-thread slots of a shared handle.
    AllocationFailure,
    /// A kernel call failed; the code is the one the kernel gave, never
    /// zero.
    Kernel(SysResult),
}

impl Error {
    /// What a result code means: zero is success, anything else is the
    /// kernel's name for a failure.
    pub open spec fn check(code: SysResult) -> Result<(), Error> {
        if code == 0 {
            Ok(())
        } else {
            Err(Error::Kernel(code))
        }
    }

    /// Turns a result code into a `Result`.
    pub fn from_code(code: SysResult) -> (outcome: Result<(), Error>)
        ensures
            outcome == Self::check(code),
    {
        if code == 0 {
            Ok(())
        } else {
            Err(Error::Kernel(code))
        }
    }
}

} // verus!
