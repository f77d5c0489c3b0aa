use super::handle::Handle;
use vstd::prelude::*;

verus! {

/// A security context: a set of permissions a thread runs under.
#[derive(Debug)]
pub struct SecurityContext(Handle);

} // verus!
