//! The callback bridge.
//!
//! A caller-supplied handler is invoked from the vendor side's own thread
//! through fixed trampoline entry points.  Before any trampoline runs,
//! the vendor side consults the endpoint's registration slot: after the
//! registration is cleared, no handler is reached — the delivery is
//! ignored.  When a handler does run, each non-null native argument is
//! wrapped into an owned handle ("add reference") before the handler sees
//! it, and the handler's outcome is translated into a native result code
//! at the boundary: zero for success, the failure's own code otherwise.
//! The handler never unwinds into the native call stack.

use vstd::prelude::*;

verus! {

/// What became of one event delivery.
#[derive(Clone, Copy, Debug, PartialEq, Eq, Structural)]
pub enum Delivery {
    /// The registration slot was cleared (or nothing was pending): no
    /// handler was invoked and nothing changed.
    Ignored,
    /// The handler ran; the code is what the trampoline reported back to
    /// the vendor side — zero for success, the failure's code otherwise.
    Delivered(i32),
}

} // verus!
