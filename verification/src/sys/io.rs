use super::handle::Handle;
use vstd::prelude::*;

verus! {

/// A generic I/O stream.
#[derive(Debug)]
pub struct IOHandle(Handle);

} // verus!
