use super::handle::Handle;
use vstd::prelude::*;

verus! {

/// A debugging session attached to another thread.
#[derive(Debug)]
pub struct DebugHandle(Handle);

} // verus!
