//! Ownership of one opaque runtime handle: who frees it, and that it is freed at most once.

use vstd::prelude::*;

verus! {

/// An opaque runtime handle, whether this wrapper owns it, and whether it was freed.
///
/// A handle that is not owned (a globally registered function, a view of a tensor) is
/// never freed through this wrapper.
#[derive(Debug)]
pub struct OwnedHandle {
    handle: u64,
    owned: bool,
    released: bool,
}

impl OwnedHandle {
    /// The address of the handle.
    pub closed spec fn spec_handle(&self) -> u64 {
        self.handle
    }

    /// Whether this wrapper is the one that frees the handle.
    pub closed spec fn spec_owned(&self) -> bool {
        self.owned
    }

    /// Whether the handle was freed through this wrapper already.
    pub closed spec fn spec_released(&self) -> bool {
        self.released
    }

    /// Whether a release now has to call the runtime's free routine.
    pub open spec fn frees_now(&self) -> bool {
        self.spec_owned() && !self.spec_released()
    }

    /// The state after a release.
    pub open spec fn released_state(&self, next: &OwnedHandle) -> bool {
        &&& next.spec_handle() == self.spec_handle()
        &&& next.spec_owned() == self.spec_owned()
        &&& next.spec_released() == (self.spec_released() || self.spec_owned())
    }

    /// How many of `n` successive releases, starting here, call the free routine.
    pub open spec fn frees_in(owned: bool, released: bool, n: nat) -> nat
        decreases n,
    {
        if n == 0 {
            0
        } else {
            (if owned && !released {
                1nat
            } else {
                0nat
            }) + OwnedHandle::frees_in(owned, released || owned, (n - 1) as nat)
        }
    }

    pub fn new(handle: u64, owned: bool, released: bool) -> (r: OwnedHandle)
        ensures
            r.spec_handle() == handle,
            r.spec_owned() == owned,
            r.spec_released() == released,
    {
        OwnedHandle { handle, owned, released }
    }

    pub fn handle(&self) -> (r: u64)
        ensures
            r == self.spec_handle(),
    {
        self.handle
    }

    pub fn is_owned(&self) -> (r: bool)
        ensures
            r == self.spec_owned(),
    {
        self.owned
    }

    pub fn is_released(&self) -> (r: bool)
        ensures
            r == self.spec_released(),
    {
        self.released
    }

    /// Takes over the duty to free the handle: returns true exactly when the caller
    /// must now call the runtime's free routine on it, and marks it freed.
    pub fn release(&mut self) -> (free_now: bool)
        ensures
            free_now == old(self).frees_now(),
            old(self).released_state(final(self)),
        no_unwind
    {
        if self.owned && !self.released {
            self.released = true;
            true
        } else {
            false
        }
    }
}

/// Single release: over any number of successive releases of one handle, the free
/// routine is called at most once, never for a handle that is not owned, and never
/// again once the handle has been freed.
pub proof fn lemma_release_at_most_once(owned: bool, released: bool, n: nat)
    ensures
        OwnedHandle::frees_in(owned, released, n) <= 1,
        !owned ==> OwnedHandle::frees_in(owned, released, n) == 0,
        released ==> OwnedHandle::frees_in(owned, released, n) == 0,
    decreases n,
{
    if n > 0 {
        lemma_release_at_most_once(owned, released || owned, (n - 1) as nat);
    }
}

} // verus!
