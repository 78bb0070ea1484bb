//! The top-level device enumerator.

use vstd::prelude::*;
use crate::CreationError;
use crate::Error;
use crate::device::Device;
use crate::handle::NativeHandle;
use crate::host::{appended_object, drop_ref, enum_advanced, enum_step, EnumOutcome, EnumState,
    Host};

verus! {

/// The one-shot enumerator over the subsystem's devices: one owned
/// reference to the native enumerator object.
pub struct DeviceIterator {
    handle: NativeHandle,
}

impl DeviceIterator {
    /// The table index of the underlying native enumerator.
    pub closed spec fn id(self) -> int {
        self.handle.id()
    }

    /// The facade references a live enumerator of `host`.
    pub open spec fn wf(self, host: Host) -> bool {
        host.live(self.id()) && host.body_of(self.id()) is Enumerator
    }

    /// Creates the device enumerator.  A vendor side whose factory is
    /// unavailable — a missing or outdated driver — yields a descriptive
    /// construction failure instead of a native code.
    pub fn new(host: &mut Host) -> (r: Result<DeviceIterator, CreationError>)
        ensures
            !old(host).iterator_available ==> (r matches Err(e) && e.message@
                == "unable to create the device iterator. the latest drivers may need to be installed"@
                && final(host).objects@ == old(host).objects@ && final(host).same_config(
                *old(host),
            )),
            old(host).iterator_available ==> (r matches Ok(it) && it.wf(*final(host))
                && appended_object(*old(host), *final(host), it.id() as usize) && it.id() == old(host).objects@.len() && final(host).enum_state(it.id()) == (EnumState {
                items: old(host).devices@,
                pos: 0,
                done: false,
                fault: None,
            })),
    {
        match host.create_device_enumerator() {
            Some(e) => Ok(DeviceIterator { handle: NativeHandle::attach(e) }),
            None => Err(
                CreationError {
                    message:
                        "unable to create the device iterator. the latest drivers may need to be installed",
                },
            ),
        }
    }

    /// Releases the enumerator's own reference, exactly once, however
    /// many devices were produced.
    pub fn release(self, host: &mut Host)
        requires
            old(host).live(self.id()),
        ensures
            final(host).objects@ == drop_ref(old(host).objects@, self.id()),
            final(host).same_config(*old(host)),
    {
        self.handle.release(host);
    }

    /// One advance: the next device as a fresh owned handle, or `None`
    /// once the sequence is exhausted — and exhaustion is terminal, every
    /// later call is `None` as well.  A genuine native error — distinct
    /// from "no more items" — is surfaced as a failure carrying the code
    /// verbatim, and likewise ends the sequence.
    pub fn next(&self, host: &mut Host) -> (r: Result<Option<Device>, Error>)
        requires
            self.wf(*old(host)),
            enum_step(old(host).body_of(self.id())).1 matches EnumOutcome::Item(t) ==> old(host).live(t as int) && old(host).refs_of(t as int) < u64::MAX && t != self.id() && old(host).body_of(t as int) is Device,
        ensures
            enum_advanced(*old(host), *final(host), self.id()),
            final(host).same_config(*old(host)),
            match enum_step(old(host).body_of(self.id())).1 {
                EnumOutcome::Item(t) => (r matches Ok(o) && o matches Some(d) && d.id() == t
                    && d.wf(*final(host))),
                EnumOutcome::Exhausted => r matches Ok(o) && o is None,
                EnumOutcome::Failed(code) => r matches Err(e) && e.result == code,
            },
    {
        match host.enumerator_next(self.handle.index()) {
            EnumOutcome::Item(t) => Ok(Some(Device::from_handle(NativeHandle::attach(t)))),
            EnumOutcome::Exhausted => Ok(None),
            EnumOutcome::Failed(code) => Err(Error { result: code }),
        }
    }
}

} // verus!
