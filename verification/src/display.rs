//! Display mode descriptions and their one-shot enumerator.

use vstd::prelude::*;
use crate::Error;
use crate::catalog::DisplayMode;
use crate::handle::NativeHandle;
use crate::host::{drop_ref, enum_advanced, enum_step, EnumOutcome, Host};
use crate::text::text_of;

verus! {

/// One display mode description: one owned reference.
pub struct DisplayModeInfo {
    handle: NativeHandle,
}

impl DisplayModeInfo {
    /// The table index of the underlying native object.
    pub closed spec fn id(self) -> int {
        self.handle.id()
    }

    /// The facade references a live mode description of `host`.
    pub open spec fn wf(self, host: Host) -> bool {
        host.live(self.id()) && host.body_of(self.id()) is ModeInfo
    }

    /// Wraps a freshly-owned reference.
    pub(crate) fn from_handle(handle: NativeHandle) -> (r: DisplayModeInfo)
        ensures
            r.id() == handle.id(),
    {
        DisplayModeInfo { handle }
    }

    /// Releases this facade's reference, exactly once.
    pub fn release(self, host: &mut Host)
        requires
            old(host).live(self.id()),
        ensures
            final(host).objects@ == drop_ref(old(host).objects@, self.id()),
            final(host).same_config(*old(host)),
    {
        self.handle.release(host);
    }

    /// The mode's native display mode value.
    pub fn get_display_mode(&self, host: &Host) -> (r: DisplayMode)
        requires
            self.wf(*host),
        ensures
            r.0 == host.mode_value_of(self.id()),
    {
        DisplayMode(host.mode_get_value(self.handle.index()))
    }

    /// The mode's name, through a transient native buffer that is created
    /// and released again.
    pub fn get_name(&self, host: &mut Host) -> (r: Result<String, Error>)
        requires
            self.wf(*old(host)),
        ensures
            r matches Ok(s) && text_of(s@, old(host).mode_name_of(self.id())),
            final(host).objects@.len() == old(host).objects@.len() + 1,
            final(host).objects@.take(old(host).objects@.len() as int) == old(host).objects@,
            final(host).refs_of(old(host).objects@.len() as int) == 0,
            final(host).same_config(*old(host)),
    {
        let b = host.mode_name_buffer(self.handle.index());
        let buffer = NativeHandle::attach(b);
        let text = crate::marshal::buffer_to_string(host, buffer);
        proof {
            assert(host.objects@.take(old(host).objects@.len() as int) =~= old(host).objects@);
        }
        Ok(text)
    }

    /// The mode's frame width in pixels.
    pub fn get_width(&self, host: &Host) -> (r: i32)
        requires
            self.wf(*host),
        ensures
            r == host.mode_width_of(self.id()),
    {
        host.mode_get_width(self.handle.index())
    }

    /// The mode's frame height in rows.
    pub fn get_height(&self, host: &Host) -> (r: i32)
        requires
            self.wf(*host),
        ensures
            r == host.mode_height_of(self.id()),
    {
        host.mode_get_height(self.handle.index())
    }

    /// The mode's frame rate, as frame duration and time scale.
    pub fn get_frame_rate(&self, host: &Host) -> (r: Result<(i64, i64), Error>)
        requires
            self.wf(*host),
        ensures
            r matches Ok(rate) && rate == host.mode_rate_of(self.id()),
    {
        Ok(host.mode_get_frame_rate(self.handle.index()))
    }
}

/// The one-shot enumerator over an endpoint's display modes: one owned
/// reference to the native enumerator object.
pub struct DisplayModeIterator {
    handle: NativeHandle,
}

impl DisplayModeIterator {
    /// The table index of the underlying native enumerator.
    pub closed spec fn id(self) -> int {
        self.handle.id()
    }

    /// The facade references a live enumerator of `host`.
    pub open spec fn wf(self, host: Host) -> bool {
        host.live(self.id()) && host.body_of(self.id()) is Enumerator
    }

    /// Wraps a freshly-owned reference.
    pub(crate) fn from_handle(handle: NativeHandle) -> (r: DisplayModeIterator)
        ensures
            r.id() == handle.id(),
    {
        DisplayModeIterator { handle }
    }

    /// Releases the enumerator's own reference, exactly once, however
    /// many items were produced.
    pub fn release(self, host: &mut Host)
        requires
            old(host).live(self.id()),
        ensures
            final(host).objects@ == drop_ref(old(host).objects@, self.id()),
            final(host).same_config(*old(host)),
    {
        self.handle.release(host);
    }

    /// One advance: the next mode description as a fresh owned handle, or
    /// `None` once the sequence is exhausted — and exhaustion is
    /// terminal, every later call is `None` as well.  A genuine native
    /// error — distinct from "no more items" — is surfaced as a failure
    /// carrying the code verbatim, and likewise ends the sequence.
    pub fn next(&self, host: &mut Host) -> (r: Result<Option<DisplayModeInfo>, Error>)
        requires
            self.wf(*old(host)),
            enum_step(old(host).body_of(self.id())).1 matches EnumOutcome::Item(t) ==> old(
                host,
            ).live(t as int) && old(host).refs_of(t as int) < u64::MAX && t != self.id() && old(
                host,
            ).body_of(t as int) is ModeInfo,
        ensures
            enum_advanced(*old(host), *final(host), self.id()),
            final(host).same_config(*old(host)),
            match enum_step(old(host).body_of(self.id())).1 {
                EnumOutcome::Item(t) => (r matches Ok(o) && o matches Some(m) && m.id() == t
                    && m.wf(*final(host))),
                EnumOutcome::Exhausted => r matches Ok(o) && o is None,
                EnumOutcome::Failed(code) => r matches Err(e) && e.result == code,
            },
    {
        match host.enumerator_next(self.handle.index()) {
            EnumOutcome::Item(t) => Ok(Some(DisplayModeInfo::from_handle(NativeHandle::attach(t)))),
            EnumOutcome::Exhausted => Ok(None),
            EnumOutcome::Failed(code) => Err(Error { result: code }),
        }
    }
}

} // verus!
