use kernel_handles::handle::AsHandle;
use kernel_handles::handle::BorrowedHandle;
use kernel_handles::handle::DestroyCall;
use kernel_handles::handle::DestroyOp;
use kernel_handles::handle::HandleType;
use kernel_handles::handle::OwnedHandle;
use kernel_handles::result::Error;
use kernel_handles::sys::debug::DebugHandle;
use kernel_handles::sys::device::DeviceHandle;
use kernel_handles::sys::fs::FileHandle;
use kernel_handles::sys::handle::HandlePtr;
use kernel_handles::sys::io::IOHandle;
use kernel_handles::sys::permission::SecurityContext;
use kernel_handles::sys::thread::ThreadHandle;

/// Stands in for the code around the library: owns a handle and, when it
/// goes out of scope, makes the destruction call the library names.
struct Scoped<'k, T: HandleType> {
    owned: Option<OwnedHandle<T>>,
    calls: &'k mut Vec<DestroyCall>,
}

impl<'k, T: HandleType> Scoped<'k, T> {
    fn release(mut self) -> HandlePtr<T> {
        self.owned.take().unwrap().release_ownership()
    }
}

impl<'k, T: HandleType> Drop for Scoped<'k, T> {
    fn drop(&mut self) {
        if let Some(owned) = self.owned.take() {
            self.calls.push(owned.destroy());
        }
    }
}

fn own<T: HandleType>(addr: usize) -> OwnedHandle<T> {
    OwnedHandle::take_ownership(HandlePtr::from_addr(addr))
}

#[test]
fn null_handle_is_the_zero_word() {
    let null = HandlePtr::<FileHandle>::null();
    assert!(null.is_null());
    assert_eq!(null.as_addr(), 0);
    assert_eq!(null, HandlePtr::from_addr(0));
    assert!(!HandlePtr::<FileHandle>::from_addr(1).is_null());
}

#[test]
fn handles_compare_by_their_word() {
    let a = HandlePtr::<ThreadHandle>::from_addr(0x40);
    let b = HandlePtr::<ThreadHandle>::from_addr(0x40);
    let c = HandlePtr::<ThreadHandle>::from_addr(0x41);
    assert_eq!(a, b);
    assert_ne!(a, c);
    let copy = a;
    assert_eq!(copy.clone(), a);
}

#[test]
fn cast_keeps_every_bit() {
    let file = HandlePtr::<FileHandle>::from_addr(usize::MAX - 3);
    let stream: HandlePtr<IOHandle> = file.cast();
    assert_eq!(stream.as_addr(), usize::MAX - 3);
    let back: HandlePtr<FileHandle> = stream.cast();
    assert_eq!(back, file);
}

#[test]
fn dropping_a_thread_detaches_it() {
    let mut calls = Vec::new();
    {
        let _scoped = Scoped { owned: Some(own::<ThreadHandle>(0x10)), calls: &mut calls };
    }
    assert_eq!(calls, vec![DestroyCall::DetachThread(HandlePtr::from_addr(0x10))]);
}

#[test]
fn dropping_a_debug_session_detaches_it() {
    let mut calls = Vec::new();
    {
        let _scoped = Scoped { owned: Some(own::<DebugHandle>(0x20)), calls: &mut calls };
    }
    assert_eq!(calls, vec![DestroyCall::DebugDetach(HandlePtr::from_addr(0x20))]);
}

#[test]
fn dropping_a_security_context_destroys_it() {
    let mut calls = Vec::new();
    {
        let _scoped = Scoped { owned: Some(own::<SecurityContext>(0x30)), calls: &mut calls };
    }
    assert_eq!(calls, vec![DestroyCall::DestroySecurityContext(HandlePtr::from_addr(0x30))]);
}

#[test]
fn dropping_a_stream_closes_it() {
    let mut calls = Vec::new();
    {
        let _scoped = Scoped { owned: Some(own::<IOHandle>(0x40)), calls: &mut calls };
    }
    assert_eq!(calls, vec![DestroyCall::CloseIOStream(HandlePtr::from_addr(0x40))]);
}

#[test]
fn dropping_a_file_closes_it_as_a_stream() {
    let mut calls = Vec::new();
    {
        let _scoped = Scoped { owned: Some(own::<FileHandle>(0x50)), calls: &mut calls };
    }
    assert_eq!(calls, vec![DestroyCall::CloseIOStream(HandlePtr::from_addr(0x50))]);
    assert_eq!(calls[0].op(), DestroyOp::CloseIOStream);
    assert_eq!(calls[0].addr(), 0x50);
}

#[test]
fn dropping_a_device_closes_it_as_a_stream() {
    let mut calls = Vec::new();
    {
        let _scoped = Scoped { owned: Some(own::<DeviceHandle>(0x60)), calls: &mut calls };
    }
    assert_eq!(calls, vec![DestroyCall::CloseIOStream(HandlePtr::from_addr(0x60))]);
}

#[test]
fn each_kind_names_its_own_destructor() {
    assert_eq!(ThreadHandle::destroy(HandlePtr::from_addr(1)).op(), DestroyOp::DetachThread);
    assert_eq!(DebugHandle::destroy(HandlePtr::from_addr(2)).op(), DestroyOp::DebugDetach);
    assert_eq!(
        SecurityContext::destroy(HandlePtr::from_addr(3)).op(),
        DestroyOp::DestroySecurityContext
    );
    assert_eq!(IOHandle::destroy(HandlePtr::from_addr(4)).op(), DestroyOp::CloseIOStream);
    assert_eq!(FileHandle::destroy(HandlePtr::from_addr(5)).op(), DestroyOp::CloseIOStream);
    assert_eq!(DeviceHandle::destroy(HandlePtr::from_addr(6)).op(), DestroyOp::CloseIOStream);
    assert_eq!(DeviceHandle::destroy(HandlePtr::from_addr(6)).addr(), 6);
}

#[test]
fn released_handle_is_never_destroyed() {
    let mut calls = Vec::new();
    let raw = {
        let scoped = Scoped { owned: Some(own::<FileHandle>(0x70)), calls: &mut calls };
        scoped.release()
    };
    assert_eq!(raw, HandlePtr::from_addr(0x70));
    assert!(calls.is_empty());
}

#[test]
fn released_handle_can_be_owned_again() {
    let raw = own::<ThreadHandle>(0x80).release_ownership();
    let again = OwnedHandle::take_ownership(raw);
    assert_eq!(again.as_raw(), HandlePtr::from_addr(0x80));
    assert_eq!(again.destroy(), DestroyCall::DetachThread(HandlePtr::from_addr(0x80)));
}

#[test]
fn borrow_shows_the_owned_handle() {
    let owned = own::<FileHandle>(0x90);
    let first = owned.borrow();
    let second = owned.as_ref().borrow();
    let third = first;
    assert_eq!(first.borrow().as_raw(), first.as_raw());
    assert_eq!(first.as_raw(), HandlePtr::from_addr(0x90));
    assert_eq!(second.as_raw(), first.as_raw());
    assert_eq!(third.clone().as_raw(), owned.as_raw());
    assert_eq!(owned.as_ref().as_raw(), HandlePtr::from_addr(0x90));
}

#[test]
fn upcast_of_a_file_keeps_the_handle() {
    let owned = own::<FileHandle>(0xdead_beef);
    let stream: BorrowedHandle<IOHandle> = owned.upcast();
    assert_eq!(stream.as_raw().as_addr(), 0xdead_beef);
    let back: HandlePtr<FileHandle> = stream.as_raw().cast();
    assert_eq!(back, owned.as_raw());
}

#[test]
fn upcast_of_a_device_keeps_the_handle() {
    let owned = own::<DeviceHandle>(0xa0);
    let from_ref: BorrowedHandle<IOHandle> = owned.as_ref().upcast();
    let from_borrow: BorrowedHandle<IOHandle> = owned.borrow().upcast();
    assert_eq!(from_ref.as_raw().as_addr(), 0xa0);
    assert_eq!(from_borrow.as_raw(), from_ref.as_raw());
}

#[test]
fn every_wrapper_yields_its_handle() {
    let raw = HandlePtr::<IOHandle>::from_addr(0xb0);
    let owned = OwnedHandle::take_ownership(raw);
    assert_eq!(raw.as_handle(), raw);
    assert_eq!((&owned).as_handle(), raw);
    assert_eq!(owned.as_ref().as_handle(), raw);
    assert_eq!(owned.borrow().as_handle(), raw);
}

#[test]
fn zero_is_success() {
    assert_eq!(Error::from_code(0), Ok(()));
}

#[test]
fn any_other_code_is_the_kernel_error() {
    assert_eq!(Error::from_code(-7), Err(Error::Kernel(-7)));
    assert_eq!(Error::from_code(1), Err(Error::Kernel(1)));
    assert_eq!(Error::from_code(i64::MIN), Err(Error::Kernel(i64::MIN)));
}
