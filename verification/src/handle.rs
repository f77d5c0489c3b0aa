//! The relationships a piece of code can have to a kernel handle: owning
//! it, borrowing it for a while, or sharing it between threads.

mod private;
pub mod shared;
pub mod slots;

use core::marker::PhantomData;
use private::Sealed;
pub use shared::SharedHandle;
use vstd::prelude::*;

use crate::sys::debug::DebugHandle;
use crate::sys::device::DeviceHandle;
use crate::sys::fs::FileHandle;
use crate::sys::handle::HandlePtr;
use crate::sys::io::IOHandle;
use crate::sys::permission::SecurityContext;
use crate::sys::thread::ThreadHandle;

verus! {

/// The kinds of kernel object a handle can name.
#[derive(Clone, Copy, Debug, PartialEq, Eq, Structural)]
pub enum HandleKind {
    Thread,
    Debug,
    SecurityContext,
    IOStream,
    File,
    Device,
}

/// The kernel operations that destroy an object.
#[derive(Clone, Copy, Debug, PartialEq, Eq, Structural)]
pub enum DestroyOp {
    DetachThread,
    DebugDetach,
    DestroySecurityContext,
    CloseIOStream,
}

/// One destruction call for the kernel: the operation and the handle it is
/// to be made on.
#[derive(Clone, Copy, Debug, PartialEq, Eq)]
pub enum DestroyCall {
    DetachThread(HandlePtr<ThreadHandle>),
    DebugDetach(HandlePtr<DebugHandle>),
    DestroySecurityContext(HandlePtr<SecurityContext>),
    CloseIOStream(HandlePtr<IOHandle>),
}

/// The operation that destroys an object of the given kind. Files and
/// devices are I/O streams and are closed as such.
pub open spec fn destructor_of(kind: HandleKind) -> DestroyOp {
    match kind {
        HandleKind::Thread => DestroyOp::DetachThread,
        HandleKind::Debug => DestroyOp::DebugDetach,
        HandleKind::SecurityContext => DestroyOp::DestroySecurityContext,
        HandleKind::IOStream => DestroyOp::CloseIOStream,
        HandleKind::File => DestroyOp::CloseIOStream,
        HandleKind::Device => DestroyOp::CloseIOStream,
    }
}

/// Whether a handle of kind `from` may be viewed as one of kind `to`.
pub open spec fn upcasts_to(from: HandleKind, to: HandleKind) -> bool {
    (from == HandleKind::File || from == HandleKind::Device) && to == HandleKind::IOStream
}

/// Files and devices have no destructor of their own: both are closed by
/// the call that closes any I/O stream, and by no other.
pub proof fn files_and_devices_close_as_streams()
    ensures
        destructor_of(HandleKind::File) == DestroyOp::CloseIOStream,
        destructor_of(HandleKind::Device) == DestroyOp::CloseIOStream,
        destructor_of(HandleKind::File) == destructor_of(HandleKind::IOStream),
        destructor_of(HandleKind::Device) == destructor_of(HandleKind::IOStream),
{
}

/// The upcast relation is what the object model says and no more: only a
/// file or a device is upcast, only to an I/O stream, never back; and an
/// upcast handle is destroyed by the same call as the handle it came from.
pub proof fn upcasts_lead_to_streams_only(from: HandleKind, to: HandleKind)
    requires
        upcasts_to(from, to),
    ensures
        from == HandleKind::File || from == HandleKind::Device,
        to == HandleKind::IOStream,
        !upcasts_to(to, from),
        destructor_of(from) == destructor_of(to),
{
}

impl DestroyCall {
    /// The operation this call invokes.
    pub open spec fn op_spec(self) -> DestroyOp {
        match self {
            DestroyCall::DetachThread(_) => DestroyOp::DetachThread,
            DestroyCall::DebugDetach(_) => DestroyOp::DebugDetach,
            DestroyCall::DestroySecurityContext(_) => DestroyOp::DestroySecurityContext,
            DestroyCall::CloseIOStream(_) => DestroyOp::CloseIOStream,
        }
    }

    /// The word of the handle this call is made on.
    pub open spec fn addr_spec(self) -> usize {
        match self {
            DestroyCall::DetachThread(ptr) => ptr.addr(),
            DestroyCall::DebugDetach(ptr) => ptr.addr(),
            DestroyCall::DestroySecurityContext(ptr) => ptr.addr(),
            DestroyCall::CloseIOStream(ptr) => ptr.addr(),
        }
    }

    #[verifier::when_used_as_spec(op_spec)]
    pub fn op(self) -> (op: DestroyOp)
        ensures
            op == self.op_spec(),
    {
        match self {
            DestroyCall::DetachThread(_) => DestroyOp::DetachThread,
            DestroyCall::DebugDetach(_) => DestroyOp::DebugDetach,
            DestroyCall::DestroySecurityContext(_) => DestroyOp::DestroySecurityContext,
            DestroyCall::CloseIOStream(_) => DestroyOp::CloseIOStream,
        }
    }

    #[verifier::when_used_as_spec(addr_spec)]
    pub fn addr(self) -> (addr: usize)
        ensures
            addr == self.addr_spec(),
    {
        match self {
            DestroyCall::DetachThread(ptr) => ptr.as_addr(),
            DestroyCall::DebugDetach(ptr) => ptr.as_addr(),
            DestroyCall::DestroySecurityContext(ptr) => ptr.as_addr(),
            DestroyCall::CloseIOStream(ptr) => ptr.as_addr(),
        }
    }

    /// A destruction call is nothing but its operation and the word of its
    /// handle: two calls that agree on both are the same call.
    pub proof fn determined_by_op_and_addr(self, other: DestroyCall)
        requires
            self.op() == other.op(),
            self.addr() == other.addr(),
        ensures
            self == other,
    {
        match (self, other) {
            (DestroyCall::DetachThread(a), DestroyCall::DetachThread(b)) => {
                a.addr_is_injective(b);
            },
            (DestroyCall::DebugDetach(a), DestroyCall::DebugDetach(b)) => {
                a.addr_is_injective(b);
            },
            (DestroyCall::DestroySecurityContext(a), DestroyCall::DestroySecurityContext(b)) => {
                a.addr_is_injective(b);
            },
            (DestroyCall::CloseIOStream(a), DestroyCall::CloseIOStream(b)) => {
                a.addr_is_injective(b);
            },
            _ => {},
        }
    }
}

/// A kind of kernel object, as a type. The set is closed: these six and no
/// others.
pub trait HandleType: Sized + Sealed {
    /// The kind this type stands for.
    spec fn kind() -> HandleKind;

    /// The one call that destroys the object `ptr` names: the destructor of
    /// this kind, on that handle. Nothing is called here; the call is handed
    /// back for the caller to make.
    fn destroy(ptr: HandlePtr<Self>) -> (call: DestroyCall)
        ensures
            call.op() == destructor_of(Self::kind()),
            call.addr() == ptr.addr(),
    ;
}

/// Says that a handle of this kind may be viewed as one of kind `U`.
pub trait UpcastHandle<U: HandleType>: HandleType {
    /// Every declared upcast is one the object model allows.
    proof fn upcast_is_allowed()
        ensures
            upcasts_to(Self::kind(), U::kind()),
    ;
}

impl Sealed for ThreadHandle {

}

impl Sealed for DebugHandle {

}

impl Sealed for SecurityContext {

}

impl Sealed for IOHandle {

}

impl Sealed for FileHandle {

}

impl Sealed for DeviceHandle {

}

impl HandleType for ThreadHandle {
    open spec fn kind() -> HandleKind {
        HandleKind::Thread
    }

    fn destroy(ptr: HandlePtr<Self>) -> (call: DestroyCall) {
        DestroyCall::DetachThread(ptr)
    }
}

impl HandleType for DebugHandle {
    open spec fn kind() -> HandleKind {
        HandleKind::Debug
    }

    fn destroy(ptr: HandlePtr<Self>) -> (call: DestroyCall) {
        DestroyCall::DebugDetach(ptr)
    }
}

impl HandleType for SecurityContext {
    open spec fn kind() -> HandleKind {
        HandleKind::SecurityContext
    }

    fn destroy(ptr: HandlePtr<Self>) -> (call: DestroyCall) {
        DestroyCall::DestroySecurityContext(ptr)
    }
}

impl HandleType for IOHandle {
    open spec fn kind() -> HandleKind {
        HandleKind::IOStream
    }

    fn destroy(ptr: HandlePtr<Self>) -> (call: DestroyCall) {
        DestroyCall::CloseIOStream(ptr)
    }
}

impl HandleType for FileHandle {
    open spec fn kind() -> HandleKind {
        HandleKind::File
    }

    fn destroy(ptr: HandlePtr<Self>) -> (call: DestroyCall) {
        DestroyCall::CloseIOStream(ptr.cast())
    }
}

impl UpcastHandle<IOHandle> for FileHandle {
    proof fn upcast_is_allowed() {
    }
}

impl HandleType for DeviceHandle {
    open spec fn kind() -> HandleKind {
        HandleKind::Device
    }

    fn destroy(ptr: HandlePtr<Self>) -> (call: DestroyCall) {
        DestroyCall::CloseIOStream(ptr.cast())
    }
}

impl UpcastHandle<IOHandle> for DeviceHandle {
    proof fn upcast_is_allowed() {
    }
}

/// A handle somebody else owns, seen through a reference. It can be read,
/// lent out and upcast, and destroys nothing.
#[derive(Debug)]
pub struct HandleRef<T> {
    ptr: HandlePtr<T>,
}

impl<T> View for HandleRef<T> {
    type V = HandlePtr<T>;

    closed spec fn view(&self) -> HandlePtr<T> {
        self.ptr
    }
}

impl<T> HandleRef<T> {
    /// The handle value itself.
    pub fn as_raw(&self) -> (ptr: HandlePtr<T>)
        ensures
            ptr == self@,
    {
        self.ptr
    }

    /// Lends the handle out for as long as `self` is borrowed.
    pub fn borrow<'a>(&'a self) -> (lent: BorrowedHandle<'a, T>)
        ensures
            lent@ == self@,
    {
        BorrowedHandle { ptr: self.ptr, scope: PhantomData }
    }

    /// Lends the handle out as one of the more general kind `U`. No bit of
    /// the handle changes and the kernel is not involved.
    pub fn upcast<'a, U: HandleType>(&'a self) -> (lent: BorrowedHandle<'a, U>) where
        T: UpcastHandle<U>,

        ensures
            lent@ == self@.cast_spec::<U>(),
            lent@.addr() == self@.addr(),
            upcasts_to(T::kind(), U::kind()),
    {
        proof {
            T::upcast_is_allowed();
        }
        BorrowedHandle { ptr: self.ptr.cast(), scope: PhantomData }
    }
}

/// The one owner of a kernel object. Whoever holds this value must end it
/// in exactly one of two ways: `destroy`, which names the kernel call that
/// destroys the object, or `release_ownership`, which hands the bare handle
/// and the duty to destroy it to the caller.
#[derive(Debug)]
pub struct OwnedHandle<T: HandleType> {
    inner: HandleRef<T>,
}

impl<T: HandleType> View for OwnedHandle<T> {
    type V = HandlePtr<T>;

    closed spec fn view(&self) -> HandlePtr<T> {
        self.inner@
    }
}

impl<T: HandleType> OwnedHandle<T> {
    /// An owner always holds a handle: never null.
    #[verifier::type_invariant]
    spec fn holds_a_handle(self) -> bool {
        !self.inner@.is_null()
    }

    /// Takes ownership of the object `hdl` names. The caller vouches that
    /// `hdl` is a live handle of kind `T` that nobody owns yet; that it is
    /// not null is the part of this that can be written down.
    pub fn take_ownership(hdl: HandlePtr<T>) -> (owned: Self)
        requires
            !hdl.is_null(),
        ensures
            owned@ == hdl,
    {
        OwnedHandle { inner: HandleRef { ptr: hdl } }
    }

    /// Gives ownership up: the bare handle goes to the caller, and with it
    /// the duty to destroy the object. No destruction call comes of the
    /// wrapper after this, since the wrapper is gone.
    pub fn release_ownership(self) -> (ptr: HandlePtr<T>)
        ensures
            ptr == self@,
            !ptr.is_null(),
    {
        proof {
            use_type_invariant(&self);
        }
        self.inner.ptr
    }

    /// Ends ownership by destroying the object: hands back the one call to
    /// make, which is the destructor of kind `T` on the owned handle. What
    /// the kernel answers to it is of no consequence to this layer.
    pub fn destroy(self) -> (call: DestroyCall)
        ensures
            call.op() == destructor_of(T::kind()),
            call.addr() == self@.addr(),
            call.addr() != 0,
    {
        proof {
            use_type_invariant(&self);
        }
        T::destroy(self.inner.ptr)
    }

    /// The owned handle, seen through a reference.
    pub fn as_ref(&self) -> (handle: &HandleRef<T>)
        ensures
            handle@ == self@,
            !handle@.is_null(),
    {
        proof {
            use_type_invariant(self);
        }
        &self.inner
    }

    /// The handle value itself.
    pub fn as_raw(&self) -> (ptr: HandlePtr<T>)
        ensures
            ptr == self@,
            !ptr.is_null(),
    {
        proof {
            use_type_invariant(self);
        }
        self.inner.ptr
    }

    /// Lends the handle out for as long as `self` is borrowed.
    pub fn borrow<'a>(&'a self) -> (lent: BorrowedHandle<'a, T>)
        ensures
            lent@ == self@,
    {
        self.inner.borrow()
    }

    /// Lends the handle out as one of the more general kind `U`.
    pub fn upcast<'a, U: HandleType>(&'a self) -> (lent: BorrowedHandle<'a, U>) where
        T: UpcastHandle<U>,

        ensures
            lent@ == self@.cast_spec::<U>(),
            lent@.addr() == self@.addr(),
    {
        self.inner.upcast()
    }
}

/// A handle lent out for the scope `'a`. Any number of these may exist for
/// one handle; none destroys anything.
#[derive(Debug)]
pub struct BorrowedHandle<'a, T> {
    ptr: HandlePtr<T>,
    scope: PhantomData<&'a T>,
}

impl<'a, T> View for BorrowedHandle<'a, T> {
    type V = HandlePtr<T>;

    closed spec fn view(&self) -> HandlePtr<T> {
        self.ptr
    }
}

impl<'a, T> Clone for BorrowedHandle<'a, T> {
    fn clone(&self) -> (lent: Self)
        ensures
            lent@ == self@,
    {
        BorrowedHandle { ptr: self.ptr, scope: PhantomData }
    }
}

impl<'a, T> Copy for BorrowedHandle<'a, T> {

}

impl<'a, T> BorrowedHandle<'a, T> {
    /// The handle value itself.
    pub fn as_raw(&self) -> (ptr: HandlePtr<T>)
        ensures
            ptr == self@,
    {
        self.ptr
    }

    /// Lends the handle on, for the same scope.
    pub fn borrow(&self) -> (lent: BorrowedHandle<'a, T>)
        ensures
            lent@ == self@,
    {
        BorrowedHandle { ptr: self.ptr, scope: PhantomData }
    }

    /// Lends the handle on as one of the more general kind `U`, for the
    /// same scope.
    pub fn upcast<U: HandleType>(&self) -> (lent: BorrowedHandle<'a, U>) where
        T: UpcastHandle<U>,

        ensures
            lent@ == self@.cast_spec::<U>(),
            lent@.addr() == self@.addr(),
    {
        BorrowedHandle { ptr: self.ptr.cast(), scope: PhantomData }
    }
}

/// Anything a handle value can be read from, to pass it to the kernel.
pub trait AsHandle<'a, T> {
    /// The handle this value stands for.
    spec fn handle(&self) -> HandlePtr<T>;

    fn as_handle(&self) -> (ptr: HandlePtr<T>)
        ensures
            ptr == self.handle(),
    ;
}

impl<'a, T> AsHandle<'a, T> for HandlePtr<T> {
    open spec fn handle(&self) -> HandlePtr<T> {
        *self
    }

    fn as_handle(&self) -> (ptr: HandlePtr<T>) {
        *self
    }
}

impl<'a, T> AsHandle<'a, T> for &'a HandleRef<T> {
    open spec fn handle(&self) -> HandlePtr<T> {
        self@
    }

    fn as_handle(&self) -> (ptr: HandlePtr<T>) {
        self.as_raw()
    }
}

impl<'a, T: HandleType> AsHandle<'a, T> for &'a OwnedHandle<T> {
    open spec fn handle(&self) -> HandlePtr<T> {
        self@
    }

    fn as_handle(&self) -> (ptr: HandlePtr<T>) {
        self.as_raw()
    }
}

impl<'a, T> AsHandle<'a, T> for BorrowedHandle<'a, T> {
    open spec fn handle(&self) -> HandlePtr<T> {
        self@
    }

    fn as_handle(&self) -> (ptr: HandlePtr<T>) {
        self.as_raw()
    }
}

} // verus!
