//! The cache of a class's handle in the JVM.
//!
//! Each generated struct looks its Java class up once and keeps the handle
//! for as long as the process runs. The first caller that needs the handle
//! looks it up; callers that arrive meanwhile wait for that lookup instead of
//! starting their own. A handle that was found is kept for good. A lookup
//! that failed leaves nothing behind, and the next caller looks up again.
//!
//! `ClassCache` decides; the caller acts. `access` says what a caller has to
//! do, and `complete` takes the outcome of the lookup it asked for.

use vstd::prelude::*;

verus! {

/// The cache that the code generated for a class declares: empty, and to be
/// filled by looking up `jni_class_name`.
#[derive(Debug, PartialEq, Eq)]
pub struct CachedClass {
    /// The name to look up, with `/` between the packages.
    pub jni_class_name: String,
}

impl View for CachedClass {
    type V = Seq<char>;

    open spec fn view(&self) -> Seq<char> {
        self.jni_class_name@
    }
}

/// What a cache holds.
#[derive(Debug, PartialEq, Eq)]
pub enum Slot<H> {
    /// No handle, and nobody looking one up.
    Empty,
    /// No handle yet; a caller is looking it up.
    Pending,
    /// The handle.
    Ready(H),
}

/// What a caller that needs the handle has to do.
#[derive(Debug, PartialEq, Eq)]
pub enum Access<H> {
    /// Look the class up, and report the outcome with `complete`.
    Lookup,
    /// Wait for the lookup that another caller is making, and take its
    /// outcome.
    Wait,
    /// Use this handle.
    Ready(H),
}

/// The cache of one class's handle.
pub struct ClassCache<H> {
    slot: Slot<H>,
}

/// What `access` leaves in the cache.
pub open spec fn slot_after_access<H>(slot: Slot<H>) -> Slot<H> {
    match slot {
        Slot::Empty => Slot::Pending,
        Slot::Pending => Slot::Pending,
        Slot::Ready(handle) => Slot::Ready(handle),
    }
}

/// What `access` tells the caller.
pub open spec fn access_of<H>(slot: Slot<H>) -> Access<H> {
    match slot {
        Slot::Empty => Access::Lookup,
        Slot::Pending => Access::Wait,
        Slot::Ready(handle) => Access::Ready(handle),
    }
}

/// What `complete` leaves in the cache: a handle that is there stays; else
/// a handle that was found is stored, and a failure leaves the cache empty.
pub open spec fn slot_after_complete<H, E>(slot: Slot<H>, outcome: Result<H, E>) -> Slot<H> {
    match slot {
        Slot::Ready(handle) => Slot::Ready(handle),
        _ => match outcome {
            Ok(handle) => Slot::Ready(handle),
            Err(_) => Slot::Empty,
        },
    }
}

/// What `complete` hands to the caller that looked up, and to each that
/// waited.
pub open spec fn completed<H, E>(slot: Slot<H>, outcome: Result<H, E>) -> Result<H, E> {
    match slot {
        Slot::Ready(handle) => Ok(handle),
        _ => outcome,
    }
}

impl<H: Copy> View for ClassCache<H> {
    type V = Slot<H>;

    closed spec fn view(&self) -> Slot<H> {
        self.slot
    }
}

impl<H: Copy> ClassCache<H> {
    /// An empty cache.
    pub fn new() -> (cache: Self)
        ensures
            cache@ == Slot::<H>::Empty,
    {
        ClassCache { slot: Slot::Empty }
    }

    /// The handle, if the cache holds it.
    pub fn get(&self) -> (handle: Option<H>)
        ensures
            handle == match self@ {
                Slot::Ready(handle) => Some(handle),
                _ => None,
            },
    {
        match &self.slot {
            Slot::Ready(handle) => Some(*handle),
            _ => None,
        }
    }

    /// A caller needs the handle. With the handle in the cache, it gets it.
    /// With the cache empty, it is the one to look up. With a lookup under
    /// way, it waits.
    pub fn access(&mut self) -> (access: Access<H>)
        ensures
            access == access_of(old(self)@),
            final(self)@ == slot_after_access(old(self)@),
    {
        match &self.slot {
            Slot::Empty => {
                self.slot = Slot::Pending;
                Access::Lookup
            },
            Slot::Pending => Access::Wait,
            Slot::Ready(handle) => Access::Ready(*handle),
        }
    }

    /// The lookup has ended, in `outcome`. What comes back goes to the
    /// caller that looked up and to each that waited.
    pub fn complete<E>(&mut self, outcome: Result<H, E>) -> (r: Result<H, E>)
        ensures
            r == completed(old(self)@, outcome),
            final(self)@ == slot_after_complete(old(self)@, outcome),
    {
        match &self.slot {
            Slot::Ready(handle) => Ok(*handle),
            _ => {
                match outcome {
                    Ok(handle) => {
                        self.slot = Slot::Ready(handle);
                        Ok(handle)
                    },
                    Err(e) => {
                        self.slot = Slot::Empty;
                        Err(e)
                    },
                }
            },
        }
    }
}

/// A handle in the cache stays there: no access and no later outcome of a
/// lookup replaces or removes it.
pub proof fn lemma_handle_stays<H, E>(handle: H, outcome: Result<H, E>)
    ensures
        slot_after_access(Slot::Ready(handle)) == Slot::Ready(handle),
        access_of(Slot::Ready(handle)) == Access::Ready(handle),
        slot_after_complete(Slot::Ready(handle), outcome) == Slot::Ready(handle),
        completed(Slot::Ready(handle), outcome) == Ok::<H, E>(handle),
{
}

/// While one caller looks up, no other is told to: from the first access of
/// an empty cache until the outcome is in, every access is told to wait.
pub proof fn lemma_one_lookup<H>(slot: Slot<H>)
    ensures
        !(access_of(slot_after_access(slot)) is Lookup),
        slot is Empty ==> access_of(slot) is Lookup && access_of(slot_after_access(slot)) is Wait,
{
}

/// A failure is not kept: after it the cache is empty, and the next caller
/// is told to look up.
pub proof fn lemma_failure_is_not_cached<H, E>(slot: Slot<H>, error: E)
    requires
        !(slot is Ready),
    ensures
        slot_after_complete(slot, Err::<H, E>(error)) == Slot::<H>::Empty,
        completed(slot, Err::<H, E>(error)) == Err::<H, E>(error),
        access_of(slot_after_complete(slot, Err::<H, E>(error))) is Lookup,
{
}

} // verus!
