//! Handle values: opaque tokens that name kernel objects.

use core::marker::PhantomData;
use vstd::prelude::*;
use vstd::std_specs::cmp::PartialEqSpecImpl;

verus! {

/// The untyped kernel object behind every handle.
#[derive(Debug)]
pub struct Handle {
    opaque: (),
}

/// An opaque token naming a kernel object of kind `T`.
///
/// The token is a machine word; `T` only records, for the compiler, which
/// kind of object it names. The word zero is the null handle and names
/// nothing.
#[derive(Debug)]
pub struct HandlePtr<T> {
    addr: usize,
    kind: PhantomData<T>,
}

impl<T> HandlePtr<T> {
    /// The machine word this handle consists of.
    pub closed spec fn addr(self) -> usize {
        self.addr
    }

    /// Whether this is the null handle.
    pub open spec fn is_null_spec(self) -> bool {
        self.addr() == 0
    }

    /// The null handle, in specifications.
    pub closed spec fn null_spec() -> Self {
        HandlePtr { addr: 0, kind: PhantomData }
    }

    /// The handle made of the same word, seen as naming a `U`.
    pub closed spec fn cast_spec<U>(self) -> HandlePtr<U> {
        HandlePtr { addr: self.addr, kind: PhantomData }
    }

    /// The null handle.
    pub fn null() -> (ptr: Self)
        ensures
            ptr == Self::null_spec(),
            ptr.addr() == 0,
    {
        HandlePtr { addr: 0, kind: PhantomData }
    }

    /// The handle made of the word `addr`.
    pub fn from_addr(addr: usize) -> (ptr: Self)
        ensures
            ptr.addr() == addr,
    {
        HandlePtr { addr, kind: PhantomData }
    }

    /// The word this handle is made of.
    pub fn as_addr(self) -> (addr: usize)
        ensures
            addr == self.addr(),
    {
        self.addr
    }

    #[verifier::when_used_as_spec(is_null_spec)]
    pub fn is_null(self) -> (null: bool)
        ensures
            null == self.is_null_spec(),
    {
        self.addr == 0
    }

    /// Reinterprets the handle as naming a `U`, keeping every bit of it.
    pub fn cast<U>(self) -> (ptr: HandlePtr<U>)
        ensures
            ptr == self.cast_spec::<U>(),
            ptr.addr() == self.addr(),
    {
        HandlePtr { addr: self.addr, kind: PhantomData }
    }

    /// The null handle is the one made of the word zero.
    pub proof fn null_is_zero()
        ensures
            Self::null_spec().addr() == 0,
            Self::null_spec().is_null(),
    {
    }

    /// Two handles of one kind are the same handle when their words agree.
    pub proof fn addr_is_injective(self, other: Self)
        ensures
            self.addr() == other.addr() <==> self == other,
    {
    }

    /// A cast changes no bit, so casting back gives the first handle again.
    pub proof fn cast_round_trip<U>(self)
        ensures
            self.cast_spec::<U>().addr() == self.addr(),
            self.cast_spec::<U>().cast_spec::<T>() == self,
    {
    }
}

/// What the kernel hands out for a handle that is to be shared: a token
/// that any thread of the process can turn into a handle of its own.
#[derive(Clone, Copy, Debug, PartialEq, Eq, Structural)]
pub struct SharedToken(pub usize);

impl<T> Clone for HandlePtr<T> {
    fn clone(&self) -> (ptr: Self)
        ensures
            ptr == *self,
    {
        HandlePtr { addr: self.addr, kind: PhantomData }
    }
}

impl<T> Copy for HandlePtr<T> {}

impl<T> PartialEq for HandlePtr<T> {
    fn eq(&self, other: &Self) -> (same: bool) {
        self.addr == other.addr
    }
}

impl<T> Eq for HandlePtr<T> {}

impl<T> PartialEqSpecImpl for HandlePtr<T> {
    open spec fn obeys_eq_spec() -> bool {
        true
    }

    open spec fn eq_spec(&self, other: &Self) -> bool {
        self.addr() == other.addr()
    }
}

} // verus!
