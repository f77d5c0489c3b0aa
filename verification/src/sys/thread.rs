use super::handle::Handle;
use vstd::prelude::*;

verus! {

/// A kernel thread.
#[derive(Debug)]
pub struct ThreadHandle(Handle);

/// The identity of a thread of this process.
#[derive(Clone, Copy, Debug, PartialEq, Eq, Hash, Structural)]
pub struct ThreadId(pub u64);

} // verus!
