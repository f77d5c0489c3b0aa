//! Thread-local slots: for every thread of the process a place of its own
//! to keep a handle in.

use vstd::prelude::*;

use crate::result::Error;
use crate::sys::handle::HandlePtr;
use crate::sys::thread::ThreadId;

verus! {

/// One filled slot: the handle a thread keeps.
#[derive(Debug)]
struct Slot<T> {
    thread: ThreadId,
    handle: HandlePtr<T>,
}

/// The index of the first slot of `thread` among `slots`, or their number
/// when the thread has none.
spec fn first_of<T>(slots: Seq<Slot<T>>, thread: ThreadId) -> int
    decreases slots.len(),
{
    if slots.len() == 0 {
        0
    } else if slots[0].thread == thread {
        0
    } else {
        1 + first_of(slots.drop_first(), thread)
    }
}

/// The handle `thread` keeps according to `slots`: that of its first slot,
/// or null.
spec fn kept_by<T>(slots: Seq<Slot<T>>, thread: ThreadId) -> HandlePtr<T> {
    let at = first_of(slots, thread);
    if at < slots.len() {
        slots[at].handle
    } else {
        HandlePtr::null_spec()
    }
}

proof fn first_of_is_first<T>(slots: Seq<Slot<T>>, thread: ThreadId)
    ensures
        0 <= first_of(slots, thread) <= slots.len(),
        forall|j: int| 0 <= j < first_of(slots, thread) ==> slots[j].thread != thread,
        first_of(slots, thread) < slots.len() ==> slots[first_of(slots, thread)].thread == thread,
    decreases slots.len(),
{
    if slots.len() != 0 && slots[0].thread != thread {
        let rest = slots.drop_first();
        first_of_is_first(rest, thread);
        assert forall|j: int| 0 <= j < first_of(slots, thread) implies slots[j].thread
            != thread by {
            if j > 0 {
                assert(slots[j] == rest[j - 1]);
            }
        }
    }
}

proof fn first_of_is_unique<T>(slots: Seq<Slot<T>>, thread: ThreadId, at: int)
    requires
        0 <= at <= slots.len(),
        forall|j: int| 0 <= j < at ==> slots[j].thread != thread,
        at < slots.len() ==> slots[at].thread == thread,
    ensures
        first_of(slots, thread) == at,
{
    first_of_is_first(slots, thread);
}

/// A slot for every thread, each holding a handle of kind `T`: null until
/// the thread writes to it, and from then on what the thread wrote last.
#[derive(Debug)]
pub struct ThreadSlots<T> {
    filled: Vec<Slot<T>>,
}

impl<T> View for ThreadSlots<T> {
    type V = Map<ThreadId, HandlePtr<T>>;

    closed spec fn view(&self) -> Map<ThreadId, HandlePtr<T>> {
        Map::total(|thread: ThreadId| kept_by(self.filled@, thread))
    }
}

impl<T> ThreadSlots<T> {
    /// Slots nobody has written to: every thread finds null in its own.
    pub open spec fn fresh() -> Map<ThreadId, HandlePtr<T>> {
        Map::total(|thread: ThreadId| HandlePtr::null_spec())
    }

    /// Sets fresh slots up. Whether there is memory for them is for the
    /// allocator to say; when there is none, that is the error.
    pub fn try_alloc() -> (slots: Result<Self, Error>)
        ensures
            slots matches Ok(fresh) ==> fresh@ == Self::fresh(),
            slots matches Err(error) ==> error == Error::AllocationFailure,
    {
        let mut filled: Vec<Slot<T>> = Vec::new();
        match filled.try_reserve(1) {
            Ok(_) => {
                let fresh = ThreadSlots { filled };
                assert(fresh@ =~= Self::fresh());
                Ok(fresh)
            },
            Err(_) => Err(Error::AllocationFailure),
        }
    }

    /// The index of the slot of `thread`, or the number of filled slots
    /// when it has none.
    fn position(&self, thread: ThreadId) -> (at: usize)
        ensures
            at == first_of(self.filled@, thread),
            at <= self.filled@.len(),
    {
        let mut at: usize = 0;
        while at < self.filled.len()
            invariant
                at <= self.filled@.len(),
                forall|j: int| 0 <= j < at ==> self.filled@[j].thread != thread,
            decreases self.filled@.len() - at,
        {
            if self.filled[at].thread == thread {
                proof {
                    first_of_is_unique(self.filled@, thread, at as int);
                }
                return at;
            }
            at += 1;
        }
        proof {
            first_of_is_unique(self.filled@, thread, at as int);
        }
        at
    }

    /// What the slot of `thread` holds.
    pub fn read(&self, thread: ThreadId) -> (handle: HandlePtr<T>)
        ensures
            handle == self@[thread],
    {
        let at = self.position(thread);
        if at < self.filled.len() {
            self.filled[at].handle
        } else {
            HandlePtr::null()
        }
    }

    /// Puts `handle` into the slot of `thread`. No other slot changes.
    pub fn write(&mut self, thread: ThreadId, handle: HandlePtr<T>)
        ensures
            final(self)@ == old(self)@.insert(thread, handle),
    {
        let at = self.position(thread);
        let ghost before = self.filled@;
        if at < self.filled.len() {
            self.filled.set(at, Slot { thread, handle });
        } else {
            self.filled.push(Slot { thread, handle });
        }
        proof {
            let after = self.filled@;
            first_of_is_first(before, thread);
            assert forall|other: ThreadId| kept_by(after, other) == (if other == thread {
                handle
            } else {
                kept_by(before, other)
            }) by {
                first_of_is_first(before, other);
                let was = first_of(before, other);
                if other == thread {
                    first_of_is_unique(after, other, at as int);
                } else if was < before.len() {
                    first_of_is_unique(after, other, was);
                } else {
                    first_of_is_unique(after, other, after.len() as int);
                }
            }
            assert(self@ =~= old(self)@.insert(thread, handle));
        }
    }
}

} // verus!
