use super::handle::Handle;
use vstd::prelude::*;

verus! {

/// An open file. Every file is also an I/O stream.
#[derive(Debug)]
pub struct FileHandle(Handle);

} // verus!
