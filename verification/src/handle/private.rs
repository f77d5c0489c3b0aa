use vstd::prelude::*;

verus! {

/// Closes the set of handle kinds: only this crate can name this trait, so
/// only this crate can add a kind.
pub trait Sealed {

}

} // verus!
