//! The device facade and its capability queries.
//!
//! A device handle supports dynamic casting to its capability facades by
//! 128-bit identifier.  Each facade hard-codes its identifier here — the
//! only place identifiers appear — and a query either yields a fresh,
//! independently-owned handle of the requested facade type with result
//! zero, or fails with the native "no such interface" code, leaving the
//! source handle untouched either way.

use vstd::prelude::*;
use crate::Error;
use crate::attributes::Attributes;
use crate::guid::InterfaceId;
use crate::handle::NativeHandle;
use crate::host::{bump, drop_ref, Host};
use crate::input::Input;
use crate::output::Output;
use crate::status::Status;
use crate::text::text_of;

verus! {

/// The capability identifier of the attribute store.
pub open spec fn attributes_iid() -> InterfaceId {
    InterfaceId(0xABC11843_D966_44CB_96E2_A1CB5D3135C4u128)
}

/// The capability identifier of the status store.
pub open spec fn status_iid() -> InterfaceId {
    InterfaceId(0x5F558200_4028_49BC_BEAC_DB3FA4A96E46u128)
}

/// The capability identifier of the capture endpoint.
pub open spec fn input_iid() -> InterfaceId {
    InterfaceId(0xAF22762B_DFAC_4846_AA79_FA8883560995u128)
}

/// The capability identifier of the playback endpoint.
pub open spec fn output_iid() -> InterfaceId {
    InterfaceId(0xCC5C8A6E_3F2F_4B3A_87EA_FD78AF300564u128)
}

/// The attribute-store identifier, for wiring interface tables.
pub fn attributes_interface_id() -> (r: InterfaceId)
    ensures
        r == attributes_iid(),
{
    InterfaceId(0xABC11843_D966_44CB_96E2_A1CB5D3135C4u128)
}

/// The status-store identifier, for wiring interface tables.
pub fn status_interface_id() -> (r: InterfaceId)
    ensures
        r == status_iid(),
{
    InterfaceId(0x5F558200_4028_49BC_BEAC_DB3FA4A96E46u128)
}

/// The capture-endpoint identifier, for wiring interface tables.
pub fn input_interface_id() -> (r: InterfaceId)
    ensures
        r == input_iid(),
{
    InterfaceId(0xAF22762B_DFAC_4846_AA79_FA8883560995u128)
}

/// The playback-endpoint identifier, for wiring interface tables.
pub fn output_interface_id() -> (r: InterfaceId)
    ensures
        r == output_iid(),
{
    InterfaceId(0xCC5C8A6E_3F2F_4B3A_87EA_FD78AF300564u128)
}

/// A device: one owned reference to a native device object.
pub struct Device {
    handle: NativeHandle,
}

/// The capability at `iid` of device `ix`, if wired, is a live object of
/// the given class with headroom for one more reference — what a
/// consistent native side guarantees for its own interface tables.
pub open spec fn query_requires(host: Host, ix: int, iid: InterfaceId) -> bool {
    host.iface_target(ix, iid) matches Some(t) ==> host.live(t as int) && host.refs_of(t as int)
        < u64::MAX
}

/// The outcome of a capability query: a supported capability yields the
/// serving object's index with one fresh reference; an unsupported one
/// yields the native "no such interface" code and leaves every reference
/// count unchanged.  The source handle is never consumed.
pub open spec fn query_ensures<T>(
    pre: Host,
    post: Host,
    ix: int,
    iid: InterfaceId,
    r: Result<T, Error>,
    target: Option<int>,
) -> bool {
    &&& post.same_config(pre)
    &&& match pre.iface_target(ix, iid) {
        Some(t) => {
            &&& r is Ok
            &&& target == Some(t as int)
            &&& post.objects@ == bump(pre.objects@, t as int)
        },
        None => {
            &&& r matches Err(e) && e.result == crate::result::E_NOINTERFACE
            &&& target is None
            &&& post.objects@ == pre.objects@
        },
    }
}

impl Device {
    /// The table index of the underlying native object.
    pub closed spec fn id(self) -> int {
        self.handle.id()
    }

    /// The facade references a live device object of `host`.
    pub open spec fn wf(self, host: Host) -> bool {
        host.live(self.id()) && host.body_of(self.id()) is Device
    }

    /// Wraps a freshly-owned device reference.
    pub(crate) fn from_handle(handle: NativeHandle) -> (r: Device)
        ensures
            r.id() == handle.id(),
    {
        Device { handle }
    }

    /// Releases this facade's reference, exactly once.
    pub fn release(self, host: &mut Host)
        requires
            old(host).live(self.id()),
        ensures
            final(host).objects@ == drop_ref(old(host).objects@, self.id()),
            final(host).same_config(*old(host)),
    {
        self.handle.release(host);
    }

    /// The device's model name: fetched into a transient native buffer,
    /// decoded, and the buffer released again — one extra table entry, no
    /// reference left on it.
    pub fn get_model_name(&self, host: &mut Host) -> (r: Result<String, Error>)
        requires
            self.wf(*old(host)),
        ensures
            r matches Ok(s) && text_of(s@, old(host).device_name_of(self.id())),
            final(host).objects@.len() == old(host).objects@.len() + 1,
            final(host).objects@.take(old(host).objects@.len() as int) == old(host).objects@,
            final(host).refs_of(old(host).objects@.len() as int) == 0,
            final(host).same_config(*old(host)),
    {
        let b = host.device_name_buffer(self.handle.index());
        let buffer = NativeHandle::attach(b);
        let text = crate::marshal::buffer_to_string(host, buffer);
        proof {
            assert(host.objects@.take(old(host).objects@.len() as int) =~= old(host).objects@);
        }
        Ok(text)
    }

    /// The shared query step: one native `query_interface` call, its
    /// result code mapped to the typed error.
    fn query_capability(&self, host: &mut Host, iid: InterfaceId) -> (r: Result<
        NativeHandle,
        Error,
    >)
        requires
            self.wf(*old(host)),
            query_requires(*old(host), self.id(), iid),
        ensures
            query_ensures(
                *old(host),
                *final(host),
                self.id(),
                iid,
                r,
                match r {
                    Ok(h) => Some(h.id()),
                    Err(_) => None,
                },
            ),
    {
        match host.query_interface(self.handle.index(), iid) {
            Ok(t) => Ok(NativeHandle::attach(t)),
            Err(code) => Err(Error { result: code }),
        }
    }

    /// Casts to the attribute store.
    pub fn query_attributes(&self, host: &mut Host) -> (r: Result<Attributes, Error>)
        requires
            self.wf(*old(host)),
            query_requires(*old(host), self.id(), attributes_iid()),
            old(host).iface_target(self.id(), attributes_iid()) matches Some(t) ==> old(host).body_of(t as int) is Attributes,
        ensures
            query_ensures(
                *old(host),
                *final(host),
                self.id(),
                attributes_iid(),
                r,
                match r {
                    Ok(a) => Some(a.id()),
                    Err(_) => None,
                },
            ),
            r matches Ok(a) ==> a.wf(*final(host)),
    {
        let iid = InterfaceId(0xABC11843_D966_44CB_96E2_A1CB5D3135C4u128);
        match self.query_capability(host, iid) {
            Ok(h) => Ok(Attributes::from_handle(h)),
            Err(e) => Err(e),
        }
    }

    /// Casts to the status store.
    pub fn query_status(&self, host: &mut Host) -> (r: Result<Status, Error>)
        requires
            self.wf(*old(host)),
            query_requires(*old(host), self.id(), status_iid()),
            old(host).iface_target(self.id(), status_iid()) matches Some(t) ==> old(host).body_of(t as int) is Status,
        ensures
            query_ensures(
                *old(host),
                *final(host),
                self.id(),
                status_iid(),
                r,
                match r {
                    Ok(a) => Some(a.id()),
                    Err(_) => None,
                },
            ),
            r matches Ok(a) ==> a.wf(*final(host)),
    {
        let iid = InterfaceId(0x5F558200_4028_49BC_BEAC_DB3FA4A96E46u128);
        match self.query_capability(host, iid) {
            Ok(h) => Ok(Status::from_handle(h)),
            Err(e) => Err(e),
        }
    }

    /// Casts to the capture endpoint.
    pub fn query_input(&self, host: &mut Host) -> (r: Result<Input, Error>)
        requires
            self.wf(*old(host)),
            query_requires(*old(host), self.id(), input_iid()),
            old(host).iface_target(self.id(), input_iid()) matches Some(t) ==> old(host).body_of(
                t as int,
            ) is Input,
        ensures
            query_ensures(
                *old(host),
                *final(host),
                self.id(),
                input_iid(),
                r,
                match r {
                    Ok(a) => Some(a.id()),
                    Err(_) => None,
                },
            ),
            r matches Ok(a) ==> a.wf(*final(host)),
    {
        let iid = InterfaceId(0xAF22762B_DFAC_4846_AA79_FA8883560995u128);
        match self.query_capability(host, iid) {
            Ok(h) => Ok(Input::from_handle(h)),
            Err(e) => Err(e),
        }
    }

    /// Casts to the playback endpoint.
    pub fn query_output(&self, host: &mut Host) -> (r: Result<Output, Error>)
        requires
            self.wf(*old(host)),
            query_requires(*old(host), self.id(), output_iid()),
            old(host).iface_target(self.id(), output_iid()) matches Some(t) ==> old(host).body_of(t as int) is Output,
        ensures
            query_ensures(
                *old(host),
                *final(host),
                self.id(),
                output_iid(),
                r,
                match r {
                    Ok(a) => Some(a.id()),
                    Err(_) => None,
                },
            ),
            r matches Ok(a) ==> a.wf(*final(host)),
    {
        let iid = InterfaceId(0xCC5C8A6E_3F2F_4B3A_87EA_FD78AF300564u128);
        match self.query_capability(host, iid) {
            Ok(h) => Ok(Output::from_handle(h)),
            Err(e) => Err(e),
        }
    }
}

} // verus!
