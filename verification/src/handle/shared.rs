//! One handle, usable from many threads.
//!
//! The kernel turns an owned handle into a token that every thread can
//! resolve into a handle of its own. Resolving costs a kernel call, so each
//! thread's resolved handle is kept in a slot of that thread, and the kernel
//! is asked only while the slot is empty.

use vstd::prelude::*;
use vstd::std_specs::cmp::PartialEqSpecImpl;

use super::slots::ThreadSlots;
use super::HandleType;
use super::OwnedHandle;
use crate::result::Error;
use crate::sys::handle::Handle;
use crate::sys::handle::HandlePtr;
use crate::sys::handle::SharedToken;
use crate::sys::result::SysResult;
use crate::sys::thread::ThreadId;

verus! {

/// What a shared handle consists of: the kernel's token, and for every
/// thread the handle it has resolved, null while it has resolved none.
pub struct CacheView<T> {
    pub token: SharedToken,
    pub slots: Map<ThreadId, HandlePtr<T>>,
}

/// What a thread that wants the handle has to do next.
#[derive(Debug)]
pub enum Resolution<T> {
    /// Nothing: the thread has resolved the handle before, and here it is.
    Resolved(HandlePtr<T>),
    /// Ask the kernel to upgrade this token, then report its answer with
    /// `finish_upgrade`.
    Upgrade(SharedToken),
}

/// One use of a shared handle by a thread, together with what the kernel
/// answers should the thread have to ask for an upgrade.
pub struct Access<T> {
    pub thread: ThreadId,
    pub code: SysResult,
    pub handle: HandlePtr<T>,
}

impl<T> Clone for Resolution<T> {
    fn clone(&self) -> (same: Self)
        ensures
            same == *self,
    {
        match self {
            Resolution::Resolved(handle) => Resolution::Resolved(*handle),
            Resolution::Upgrade(token) => Resolution::Upgrade(*token),
        }
    }
}

impl<T> Copy for Resolution<T> {

}

impl<T> PartialEq for Resolution<T> {
    fn eq(&self, other: &Self) -> (same: bool) {
        match (self, other) {
            (Resolution::Resolved(a), Resolution::Resolved(b)) => a.as_addr() == b.as_addr(),
            (Resolution::Upgrade(a), Resolution::Upgrade(b)) => a.0 == b.0,
            _ => false,
        }
    }
}

impl<T> Eq for Resolution<T> {

}

impl<T> PartialEqSpecImpl for Resolution<T> {
    open spec fn obeys_eq_spec() -> bool {
        true
    }

    open spec fn eq_spec(&self, other: &Self) -> bool {
        match (*self, *other) {
            (Resolution::Resolved(a), Resolution::Resolved(b)) => a.addr() == b.addr(),
            (Resolution::Upgrade(a), Resolution::Upgrade(b)) => a.0 == b.0,
            _ => false,
        }
    }
}

impl<T> CacheView<T> {
    /// The cache as `share` leaves it: the creating thread's slot holds the
    /// handle that was shared, every other slot is empty.
    pub open spec fn created(token: SharedToken, creator: ThreadId, handle: HandlePtr<T>) -> Self {
        CacheView { token, slots: ThreadSlots::<T>::fresh().insert(creator, handle) }
    }

    /// What the slot of `thread` holds.
    pub open spec fn slot(self, thread: ThreadId) -> HandlePtr<T> {
        self.slots[thread]
    }

    /// What `thread` has to do to get the handle: nothing when its slot is
    /// filled, one upgrade of the token when it is empty.
    pub open spec fn lookup(self, thread: ThreadId) -> Resolution<T> {
        if self.slot(thread).is_null() {
            Resolution::Upgrade(self.token)
        } else {
            Resolution::Resolved(self.slot(thread))
        }
    }

    /// The cache after the kernel has answered an upgrade made by `thread`
    /// with `code` and `handle`: on success the handle fills the thread's
    /// slot, on failure nothing changes.
    pub open spec fn upgraded(self, thread: ThreadId, code: SysResult, handle: HandlePtr<T>) -> Self {
        if code == 0 {
            CacheView { token: self.token, slots: self.slots.insert(thread, handle) }
        } else {
            self
        }
    }

    /// The cache after the slot of `thread` has been emptied.
    pub open spec fn invalidated(self, thread: ThreadId) -> Self {
        CacheView { token: self.token, slots: self.slots.insert(thread, HandlePtr::null_spec()) }
    }

    /// The thread that shares a handle never asks the kernel for it: its
    /// first look at the cache already finds the handle that was shared.
    pub proof fn creator_finds_the_shared_handle(
        token: SharedToken,
        creator: ThreadId,
        handle: HandlePtr<T>,
    )
        requires
            !handle.is_null(),
        ensures
            Self::created(token, creator, handle).lookup(creator) == Resolution::Resolved(handle),
    {
    }

    /// Any thread but the creator finds a fresh cache unresolved, and is
    /// told to upgrade the cache's token.
    pub proof fn other_threads_start_unresolved(
        token: SharedToken,
        creator: ThreadId,
        handle: HandlePtr<T>,
        thread: ThreadId,
    )
        requires
            thread != creator,
        ensures
            Self::created(token, creator, handle).lookup(thread) == Resolution::<T>::Upgrade(token),
    {
        HandlePtr::<T>::null_is_zero();
    }

    /// A thread pays for one upgrade at most: while its slot is empty a
    /// look at the cache asks for an upgrade of the cache's token, and once
    /// an upgrade has succeeded every later look finds the handle the kernel
    /// gave, with nothing to ask.
    pub proof fn one_upgrade_resolves_a_thread(self, thread: ThreadId, handle: HandlePtr<T>)
        requires
            self.slot(thread).is_null(),
            !handle.is_null(),
        ensures
            self.lookup(thread) == Resolution::<T>::Upgrade(self.token),
            self.upgraded(thread, 0, handle).lookup(thread) == Resolution::Resolved(handle),
            self.upgraded(thread, 0, handle).token == self.token,
    {
    }

    /// A failed upgrade leaves the cache as it was, so the thread is still
    /// unresolved and may try again.
    pub proof fn failed_upgrade_changes_nothing(
        self,
        thread: ThreadId,
        code: SysResult,
        handle: HandlePtr<T>,
    )
        requires
            code != 0,
        ensures
            self.upgraded(thread, code, handle) == self,
            self.upgraded(thread, code, handle).lookup(thread) == self.lookup(thread),
    {
    }

    /// A slot belongs to one thread: what one thread resolves or clears is
    /// never seen in the slot of another, and the token never changes.
    pub proof fn slots_are_private(
        self,
        thread: ThreadId,
        code: SysResult,
        handle: HandlePtr<T>,
        other: ThreadId,
    )
        requires
            other != thread,
        ensures
            self.upgraded(thread, code, handle).slot(other) == self.slot(other),
            self.upgraded(thread, code, handle).lookup(other) == self.lookup(other),
            self.invalidated(thread).slot(other) == self.slot(other),
            self.invalidated(thread).lookup(other) == self.lookup(other),
    {
    }

    /// The cache after one use: a thread that finds its slot filled changes
    /// nothing, one that finds it empty asks the kernel and reports the
    /// answer.
    pub open spec fn accessed(self, access: Access<T>) -> Self {
        if self.slot(access.thread).is_null() {
            self.upgraded(access.thread, access.code, access.handle)
        } else {
            self
        }
    }

    /// How often `thread` asks the kernel for an upgrade in the course of
    /// `accesses`, made one after the other on this cache.
    pub open spec fn upgrades_asked(self, accesses: Seq<Access<T>>, thread: ThreadId) -> nat
        decreases accesses.len(),
    {
        if accesses.len() == 0 {
            0
        } else {
            let asked: nat = if accesses[0].thread == thread && self.slot(thread).is_null() {
                1
            } else {
                0
            };
            asked + self.accessed(accesses[0]).upgrades_asked(accesses.drop_first(), thread)
        }
    }

    /// Whether `thread` uses the handle at all in the course of `accesses`.
    pub open spec fn uses(accesses: Seq<Access<T>>, thread: ThreadId) -> bool {
        exists|i: int| 0 <= i < accesses.len() && #[trigger] accesses[i].thread == thread
    }

    /// Sharing costs a thread one kernel call for as long as the cache
    /// lives, however often and in whatever order the threads use the
    /// handle: where the kernel answers every upgrade with a handle, a
    /// thread that starts resolved never asks, and a thread that starts
    /// unresolved asks once, on its first use.
    pub proof fn a_thread_asks_once_at_most(self, accesses: Seq<Access<T>>, thread: ThreadId)
        requires
            forall|i: int|
                0 <= i < accesses.len() ==> (#[trigger] accesses[i]).code == 0
                    && !accesses[i].handle.is_null(),
        ensures
            self.upgrades_asked(accesses, thread) <= 1,
            !self.slot(thread).is_null() ==> self.upgrades_asked(accesses, thread) == 0,
            self.slot(thread).is_null() && Self::uses(accesses, thread) ==> self.upgrades_asked(
                accesses,
                thread,
            ) == 1,
            !Self::uses(accesses, thread) ==> self.upgrades_asked(accesses, thread) == 0,
        decreases accesses.len(),
    {
        if accesses.len() != 0 {
            let first = accesses[0];
            let rest = accesses.drop_first();
            let next = self.accessed(first);
            assert forall|i: int| 0 <= i < rest.len() implies (#[trigger] rest[i]).code == 0
                && !rest[i].handle.is_null() by {
                assert(rest[i] == accesses[i + 1]);
            }
            next.a_thread_asks_once_at_most(rest, thread);
            if first.thread == thread {
                assert(Self::uses(accesses, thread));
            } else {
                assert(next.slot(thread) == self.slot(thread));
                if Self::uses(accesses, thread) {
                    let i = choose|i: int|
                        0 <= i < accesses.len() && #[trigger] accesses[i].thread == thread;
                    assert(rest[i - 1].thread == thread);
                }
                if Self::uses(rest, thread) {
                    let i = choose|i: int| 0 <= i < rest.len() && #[trigger] rest[i].thread == thread;
                    assert(accesses[i + 1].thread == thread);
                }
            }
        }
    }

    /// A thread whose slot was cleared is unresolved again: its next look
    /// asks for an upgrade of the cache's token.
    pub proof fn invalidated_thread_upgrades_again(self, thread: ThreadId)
        ensures
            self.invalidated(thread).lookup(thread) == Resolution::<T>::Upgrade(self.token),
    {
        HandlePtr::<T>::null_is_zero();
    }
}

/// A handle that could not be shared. Ownership never got lost on the way:
/// the owner comes back with the reason, for the caller to keep or destroy.
#[derive(Debug)]
pub struct ShareFailure<T: HandleType> {
    pub error: Error,
    pub handle: OwnedHandle<T>,
}

/// A handle shared between the threads of a process.
#[derive(Debug)]
pub struct SharedHandle<T> {
    token: SharedToken,
    slots: ThreadSlots<T>,
}

impl<T> View for SharedHandle<T> {
    type V = CacheView<T>;

    closed spec fn view(&self) -> CacheView<T> {
        CacheView { token: self.token, slots: self.slots@ }
    }
}

impl<T: HandleType> SharedHandle<T> {
    /// The handle to ask the kernel's token for when `owned` is to be
    /// shared: the owned one, stripped of its kind.
    pub fn request(owned: &OwnedHandle<T>) -> (bare: HandlePtr<Handle>)
        ensures
            bare == owned@.cast_spec::<Handle>(),
            bare.addr() == owned@.addr(),
            !bare.is_null(),
    {
        owned.as_raw().cast()
    }

    /// Shares `owned`, given slots to keep each thread's handle in and what
    /// the kernel answered when it was asked for a token for
    /// `request(&owned)`.
    ///
    /// On success the handle is shared from now on: the wrapper that owned
    /// it is used up without a destruction call, and `creator`, the thread
    /// that shares, finds the handle in its slot without ever asking the
    /// kernel. On failure the error is the kernel's code, and the owner
    /// comes back with it.
    pub fn share(
        owned: OwnedHandle<T>,
        slots: ThreadSlots<T>,
        creator: ThreadId,
        code: SysResult,
        token: SharedToken,
    ) -> (outcome: Result<Self, ShareFailure<T>>)
        ensures
            match outcome {
                Ok(cache) => code == 0 && cache@ == (CacheView {
                    token,
                    slots: slots@.insert(creator, owned@),
                }),
                Err(failure) => code != 0 && failure.error == Error::Kernel(code)
                    && failure.handle@ == owned@,
            },
    {
        match Error::from_code(code) {
            Ok(_) => {
                let mut slots = slots;
                slots.write(creator, owned.release_ownership());
                Ok(SharedHandle { token, slots })
            },
            Err(error) => Err(ShareFailure { error, handle: owned }),
        }
    }

    /// The kernel's token for the shared handle. It never changes.
    pub fn token(&self) -> (token: SharedToken)
        ensures
            token == self@.token,
    {
        self.token
    }

    /// Looks the handle up for `thread`. A thread that has resolved it gets
    /// it at once, with no kernel call to make; any other is told to have
    /// the token upgraded.
    pub fn try_get(&self, thread: ThreadId) -> (found: Resolution<T>)
        ensures
            found == self@.lookup(thread),
    {
        let handle = self.slots.read(thread);
        if handle.is_null() {
            Resolution::Upgrade(self.token)
        } else {
            Resolution::Resolved(handle)
        }
    }

    /// Takes the kernel's answer to the upgrade `thread` was told to make.
    /// On success `handle` fills the slot of `thread` and is returned; on
    /// failure the kernel's code is the error, and the thread stays
    /// unresolved, free to try again.
    pub fn finish_upgrade(&mut self, thread: ThreadId, code: SysResult, handle: HandlePtr<T>) -> (outcome:
        Result<HandlePtr<T>, Error>)
        ensures
            final(self)@ == old(self)@.upgraded(thread, code, handle),
            code == 0 ==> outcome == Ok::<HandlePtr<T>, Error>(handle),
            code != 0 ==> outcome == Err::<HandlePtr<T>, Error>(Error::Kernel(code)),
    {
        match Error::from_code(code) {
            Ok(_) => {
                self.slots.write(thread, handle);
                Ok(handle)
            },
            Err(error) => Err(error),
        }
    }

    /// Empties the slot of `thread`, for a caller that has found its
    /// resolved handle to be stale. The thread's next look upgrades again.
    pub fn invalidate(&mut self, thread: ThreadId)
        ensures
            final(self)@ == old(self)@.invalidated(thread),
    {
        self.slots.write(thread, HandlePtr::null());
    }
}

} // verus!
