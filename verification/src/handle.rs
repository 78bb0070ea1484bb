//! Owned references to native objects.
//!
//! A [`NativeHandle`] stands for exactly one reference to one entry of the
//! host's object table.  Cloning is deliberately impossible; an
//! independent handle to the same object exists only through the explicit
//! "add reference" operation, which increments the native count.  A handle
//! is given up through [`NativeHandle::release`], which consumes it, so
//! each handle's reference is released at most once.

use vstd::prelude::*;
use crate::host::{bump, drop_ref, Host, Object};

verus! {

/// One owned reference to the native object at a fixed table index.
pub struct NativeHandle {
    ix: usize,
}

impl NativeHandle {
    /// The table index of the object this handle references.
    pub closed spec fn id(self) -> int {
        self.ix as int
    }

    /// The handle references a live object of `host`.
    pub open spec fn wf(self, host: Host) -> bool {
        host.live(self.id())
    }

    /// Wraps an index whose reference the caller already owns — used by
    /// the facades when a native operation has handed out a fresh
    /// reference.
    pub(crate) fn attach(ix: usize) -> (h: NativeHandle)
        ensures
            h.id() == ix,
    {
        NativeHandle { ix }
    }

    /// The table index, for handing to native operations.
    pub(crate) fn index(&self) -> (r: usize)
        ensures
            r == self.id(),
    {
        self.ix
    }

    /// Explicit "add reference": increments the native count and yields an
    /// independent handle aliasing the same object.
    pub fn add_reference(&self, host: &mut Host) -> (h: NativeHandle)
        requires
            self.wf(*old(host)),
            old(host).refs_of(self.id()) < u64::MAX,
        ensures
            h.id() == self.id(),
            final(host).objects@ == bump(old(host).objects@, self.id()),
            final(host).same_config(*old(host)),
    {
        host.add_reference(self.ix);
        NativeHandle { ix: self.ix }
    }

    /// Releases this handle's reference.  Taking `self` by value, it can
    /// be called at most once per handle: every handle is released exactly
    /// once by whoever lets go of it last.
    pub fn release(self, host: &mut Host)
        requires
            self.wf(*old(host)),
        ensures
            final(host).objects@ == drop_ref(old(host).objects@, self.id()),
            final(host).same_config(*old(host)),
    {
        host.release(self.ix);
    }
}

/// Releasing a handle obtained by "add reference" never invalidates the
/// original handle aliasing the same object: the add and the release
/// cancel exactly, so the table — and in particular the object's liveness
/// — is back to what it was.
pub proof fn lemma_alias_release_preserves_original(s: Seq<Object>, i: int)
    requires
        0 <= i < s.len(),
        s[i].refs >= 1,
        s[i].refs < u64::MAX,
    ensures
        drop_ref(bump(s, i), i) == s,
        drop_ref(bump(s, i), i)[i].refs >= 1,
{
    assert(drop_ref(bump(s, i), i) =~= s);
}

} // verus!
