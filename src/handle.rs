//! Scope-bound release of engine resources.
use vstd::prelude::*;

verus! {

/// The kinds of engine resources that the library hands around.
#[derive(Debug, Clone, Copy, PartialEq, Eq, Structural)]
pub enum ResourceKind {
    Scene,
    Source,
    Filter,
    SceneItem,
    Display,
    Output,
    Encoder,
    Data,
}

/// An opaque engine handle tagged with the kind of resource it names.
#[derive(Debug, Clone, Copy, PartialEq, Eq, Structural)]
pub struct ResourceHandle {
    pub kind: ResourceKind,
    pub raw: u64,
}

/// A drop guard: owns one handle and hands it out for release at most once.
pub struct ReleaseGuard {
    handle: ResourceHandle,
    released: bool,
}

impl ReleaseGuard {
    pub closed spec fn handle_spec(&self) -> ResourceHandle {
        self.handle
    }

    pub closed spec fn is_released(&self) -> bool {
        self.released
    }

    /// What one call of `release` returns from this state.
    pub open spec fn release_result(&self) -> Option<ResourceHandle> {
        if self.is_released() {
            None
        } else {
            Some(self.handle_spec())
        }
    }

    /// The guard after one call of `release`.
    pub closed spec fn after_release(&self) -> ReleaseGuard {
        ReleaseGuard { handle: self.handle, released: true }
    }

    /// Number of handles handed out by `n` successive calls of `release`.
    pub open spec fn releases_in(&self, n: nat) -> nat
        decreases n,
    {
        if n == 0 {
            0
        } else {
            let here: nat = if self.release_result() is Some { 1 } else { 0 };
            here + self.after_release().releases_in((n - 1) as nat)
        }
    }

    /// Guards a freshly created handle.
    pub fn new(handle: ResourceHandle) -> (g: ReleaseGuard)
        ensures
            g.handle_spec() == handle,
            !g.is_released(),
    {
        ReleaseGuard { handle, released: false }
    }

    pub fn handle(&self) -> (r: ResourceHandle)
        ensures
            r == self.handle_spec(),
    {
        self.handle
    }

    pub fn released(&self) -> (r: bool)
        ensures
            r == self.is_released(),
    {
        self.released
    }

    /// Returns the handle to release on the first call, `None` on every later one.
    pub fn release(&mut self) -> (r: Option<ResourceHandle>)
        ensures
            r == old(self).release_result(),
            *final(self) == old(self).after_release(),
            final(self).is_released(),
            final(self).handle_spec() == old(self).handle_spec(),
    {
        if self.released {
            None
        } else {
            self.released = true;
            Some(self.handle)
        }
    }
}

/// A guard that has released its handle hands out nothing more, however
/// often `release` is called again.
pub proof fn lemma_released_stays_quiet(g: ReleaseGuard, n: nat)
    requires
        g.is_released(),
    ensures
        g.releases_in(n) == 0,
    decreases n,
{
    if n > 0 {
        assert(g.after_release() == g);
        lemma_released_stays_quiet(g.after_release(), (n - 1) as nat);
    }
}

/// A resource that is guarded and never handed to a scene is released exactly
/// once: any positive number of `release` calls on a fresh guard hands out
/// its handle exactly one time.
pub proof fn lemma_release_exactly_once(g: ReleaseGuard, n: nat)
    requires
        !g.is_released(),
        n >= 1,
    ensures
        g.releases_in(n) == 1,
        g.release_result() == Some(g.handle_spec()),
{
    lemma_released_stays_quiet(g.after_release(), (n - 1) as nat);
}

} // verus!
