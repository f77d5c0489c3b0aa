//! Result codes of kernel calls.

use vstd::prelude::*;

verus! {

/// What a kernel call answers: zero when it succeeded, any other value to
/// name the reason it failed.
pub type SysResult = i64;

/// The code of a kernel call that succeeded.
pub const SUCCESS: SysResult = 0;

} // verus!
