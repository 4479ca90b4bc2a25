//! A single slot that holds at most one authenticated session handle.
use vstd::prelude::*;

verus! {

/// Holds the current session handle, if any. Installing a handle replaces
/// whatever the slot held before.
pub struct SessionCache<H> {
    slot: Option<H>,
}

impl<H> SessionCache<H> {
    /// What the slot holds.
    pub closed spec fn held(&self) -> Option<H> {
        self.slot
    }

    /// The cache after `h` is installed in it.
    pub closed spec fn after_install(self, h: H) -> Self {
        SessionCache { slot: Some(h) }
    }

    /// An empty slot.
    pub fn new() -> (r: Self)
        ensures
            r.held() is None,
    {
        SessionCache { slot: None }
    }

    /// Puts `handle` in the slot, dropping any handle held before.
    pub fn install(&mut self, handle: H)
        ensures
            *final(self) == old(self).after_install(handle),
            final(self).held() == Some(handle),
    {
        self.slot = Some(handle);
    }

    /// The handle held, if any.
    pub fn read(&self) -> (r: Option<&H>)
        ensures
            r is None <==> self.held() is None,
            r matches Some(h) ==> self.held() == Some(*h),
    {
        match &self.slot {
            Some(h) => Some(h),
            None => None,
        }
    }

    /// Whether a handle is held.
    pub fn is_present(&self) -> (r: bool)
        ensures
            r == self.held() is Some,
    {
        self.slot.is_some()
    }
}

/// Two installs, in either order, leave exactly one handle in the cache:
/// the one installed last.
pub proof fn lemma_last_install_wins<H>(c: SessionCache<H>, a: H, b: H)
    ensures
        c.after_install(a).after_install(b).held() == Some(b),
        c.after_install(b).after_install(a).held() == Some(a),
{
}

/// Installing a second handle replaces the first: the cache is then what it
/// would be had the first never been installed.
pub proof fn lemma_install_again_replaces<H>(c: SessionCache<H>, first: H, second: H)
    ensures
        c.after_install(first).after_install(second) == c.after_install(second),
{
}

} // verus!
