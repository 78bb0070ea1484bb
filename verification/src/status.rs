//! The status store: read-only projections over a device's live status
//! table, keyed by small integer identifiers, following the same uniform
//! pattern as the attribute store.

use vstd::prelude::*;
use crate::Error;
use crate::catalog::{DeviceBusyState, DisplayMode};
use crate::handle::NativeHandle;
use crate::host::{drop_ref, Host};
use crate::props::{flag_result, int_result, read_flag, read_int};

verus! {

/// Status identifier: Whether the video input signal is locked.
pub const STATUS_VIDEO_INPUT_SIGNAL_LOCKED: u32 = 0x7669736c;

/// Status identifier: Whether the reference signal is locked.
pub const STATUS_REFERENCE_SIGNAL_LOCKED: u32 = 0x7265666c;

/// Status identifier: Whether EDID has been received.
pub const STATUS_RECEIVED_EDID: u32 = 0x65646964;

/// Status identifier: The detected video input flags.
pub const STATUS_DETECTED_VIDEO_INPUT_FLAGS: u32 = 0x64766966;

/// Status identifier: The current video input pixel format.
pub const STATUS_CURRENT_VIDEO_INPUT_PIXEL_FORMAT: u32 = 0x63766970;

/// Status identifier: The current video input flags.
pub const STATUS_CURRENT_VIDEO_INPUT_FLAGS: u32 = 0x63766966;

/// Status identifier: The current video output flags.
pub const STATUS_CURRENT_VIDEO_OUTPUT_FLAGS: u32 = 0x63766f66;

/// Status identifier: The PCI Express link width.
pub const STATUS_PCI_EXPRESS_LINK_WIDTH: u32 = 0x70776964;

/// Status identifier: The PCI Express link speed.
pub const STATUS_PCI_EXPRESS_LINK_SPEED: u32 = 0x706c6e6b;

/// Status identifier: The last video output pixel format.
pub const STATUS_LAST_VIDEO_OUTPUT_PIXEL_FORMAT: u32 = 0x6f706978;

/// Status identifier: The reference signal's display mode.
pub const STATUS_REFERENCE_SIGNAL_MODE: u32 = 0x7265666d;

/// Status identifier: The reference signal's flags.
pub const STATUS_REFERENCE_SIGNAL_FLAGS: u32 = 0x72656666;

/// Status identifier: The current duplex mode.
pub const STATUS_DUPLEX_MODE: u32 = 0x64706c78;

/// Status identifier: The interchangeable panel type.
pub const STATUS_INTERCHANGEABLE_PANEL_TYPE: u32 = 0x69637074;

/// Status identifier: The device temperature.
pub const STATUS_DEVICE_TEMPERATURE: u32 = 0x64746d70;

/// Status identifier: The detected video input display mode.
pub const STATUS_DETECTED_VIDEO_INPUT_MODE: u32 = 0x6476696d;

/// Status identifier: The current video input display mode.
pub const STATUS_CURRENT_VIDEO_INPUT_MODE: u32 = 0x6376696d;

/// Status identifier: The current video output display mode.
pub const STATUS_CURRENT_VIDEO_OUTPUT_MODE: u32 = 0x63766f6d;

/// Status identifier: which parts of the device are busy.
pub const STATUS_BUSY: u32 = 0x62757379;

/// The status store of one device: one owned reference.
pub struct Status {
    handle: NativeHandle,
}

impl Status {
    /// The table index of the underlying native object.
    pub closed spec fn id(self) -> int {
        self.handle.id()
    }

    /// The facade references a live object of the right class.
    pub open spec fn wf(self, host: Host) -> bool {
        host.live(self.id()) && host.body_of(self.id()) is Status
    }

    /// Wraps a freshly-owned reference.
    pub(crate) fn from_handle(handle: NativeHandle) -> (r: Status)
        ensures
            r.id() == handle.id(),
    {
        Status { handle }
    }

    /// Releases this facade's reference, exactly once.
    pub fn release(self, host: &mut Host)
        requires
            old(host).live(self.id()),
        ensures
            final(host).objects@ == drop_ref(old(host).objects@, self.id()),
            final(host).same_config(*old(host)),
    {
        self.handle.release(host);
    }

    /// Whether the video input signal is locked.
    pub fn get_video_input_signal_locked(&self, host: &Host) -> (r: Result<bool, Error>)
        requires
            self.wf(*host),
        ensures
            flag_result(*host, self.id(), STATUS_VIDEO_INPUT_SIGNAL_LOCKED, r),
    {
        read_flag(host, self.handle.index(), STATUS_VIDEO_INPUT_SIGNAL_LOCKED)
    }

    /// Whether the reference signal is locked.
    pub fn get_reference_signal_locked(&self, host: &Host) -> (r: Result<bool, Error>)
        requires
            self.wf(*host),
        ensures
            flag_result(*host, self.id(), STATUS_REFERENCE_SIGNAL_LOCKED, r),
    {
        read_flag(host, self.handle.index(), STATUS_REFERENCE_SIGNAL_LOCKED)
    }

    /// Whether EDID has been received.
    pub fn get_received_edid(&self, host: &Host) -> (r: Result<bool, Error>)
        requires
            self.wf(*host),
        ensures
            flag_result(*host, self.id(), STATUS_RECEIVED_EDID, r),
    {
        read_flag(host, self.handle.index(), STATUS_RECEIVED_EDID)
    }

    /// The detected video input flags.
    pub fn get_detected_video_input_flags(&self, host: &Host) -> (r: Result<i64, Error>)
        requires
            self.wf(*host),
        ensures
            int_result(*host, self.id(), STATUS_DETECTED_VIDEO_INPUT_FLAGS, r),
    {
        read_int(host, self.handle.index(), STATUS_DETECTED_VIDEO_INPUT_FLAGS)
    }

    /// The current video input pixel format.
    pub fn get_current_video_input_pixel_format(&self, host: &Host) -> (r: Result<i64, Error>)
        requires
            self.wf(*host),
        ensures
            int_result(*host, self.id(), STATUS_CURRENT_VIDEO_INPUT_PIXEL_FORMAT, r),
    {
        read_int(host, self.handle.index(), STATUS_CURRENT_VIDEO_INPUT_PIXEL_FORMAT)
    }

    /// The current video input flags.
    pub fn get_current_video_input_flags(&self, host: &Host) -> (r: Result<i64, Error>)
        requires
            self.wf(*host),
        ensures
            int_result(*host, self.id(), STATUS_CURRENT_VIDEO_INPUT_FLAGS, r),
    {
        read_int(host, self.handle.index(), STATUS_CURRENT_VIDEO_INPUT_FLAGS)
    }

    /// The current video output flags.
    pub fn get_current_video_output_flags(&self, host: &Host) -> (r: Result<i64, Error>)
        requires
            self.wf(*host),
        ensures
            int_result(*host, self.id(), STATUS_CURRENT_VIDEO_OUTPUT_FLAGS, r),
    {
        read_int(host, self.handle.index(), STATUS_CURRENT_VIDEO_OUTPUT_FLAGS)
    }

    /// The PCI Express link width.
    pub fn get_pci_express_link_width(&self, host: &Host) -> (r: Result<i64, Error>)
        requires
            self.wf(*host),
        ensures
            int_result(*host, self.id(), STATUS_PCI_EXPRESS_LINK_WIDTH, r),
    {
        read_int(host, self.handle.index(), STATUS_PCI_EXPRESS_LINK_WIDTH)
    }

    /// The PCI Express link speed.
    pub fn get_pci_express_link_speed(&self, host: &Host) -> (r: Result<i64, Error>)
        requires
            self.wf(*host),
        ensures
            int_result(*host, self.id(), STATUS_PCI_EXPRESS_LINK_SPEED, r),
    {
        read_int(host, self.handle.index(), STATUS_PCI_EXPRESS_LINK_SPEED)
    }

    /// The last video output pixel format.
    pub fn get_last_video_output_pixel_format(&self, host: &Host) -> (r: Result<i64, Error>)
        requires
            self.wf(*host),
        ensures
            int_result(*host, self.id(), STATUS_LAST_VIDEO_OUTPUT_PIXEL_FORMAT, r),
    {
        read_int(host, self.handle.index(), STATUS_LAST_VIDEO_OUTPUT_PIXEL_FORMAT)
    }

    /// The reference signal's display mode.
    pub fn get_reference_signal_mode(&self, host: &Host) -> (r: Result<i64, Error>)
        requires
            self.wf(*host),
        ensures
            int_result(*host, self.id(), STATUS_REFERENCE_SIGNAL_MODE, r),
    {
        read_int(host, self.handle.index(), STATUS_REFERENCE_SIGNAL_MODE)
    }

    /// The reference signal's flags.
    pub fn get_reference_signal_flags(&self, host: &Host) -> (r: Result<i64, Error>)
        requires
            self.wf(*host),
        ensures
            int_result(*host, self.id(), STATUS_REFERENCE_SIGNAL_FLAGS, r),
    {
        read_int(host, self.handle.index(), STATUS_REFERENCE_SIGNAL_FLAGS)
    }

    /// The current duplex mode.
    pub fn get_duplex_mode(&self, host: &Host) -> (r: Result<i64, Error>)
        requires
            self.wf(*host),
        ensures
            int_result(*host, self.id(), STATUS_DUPLEX_MODE, r),
    {
        read_int(host, self.handle.index(), STATUS_DUPLEX_MODE)
    }

    /// The interchangeable panel type.
    pub fn get_interchangeable_panel_type(&self, host: &Host) -> (r: Result<i64, Error>)
        requires
            self.wf(*host),
        ensures
            int_result(*host, self.id(), STATUS_INTERCHANGEABLE_PANEL_TYPE, r),
    {
        read_int(host, self.handle.index(), STATUS_INTERCHANGEABLE_PANEL_TYPE)
    }

    /// The device temperature.
    pub fn get_device_temperature(&self, host: &Host) -> (r: Result<i64, Error>)
        requires
            self.wf(*host),
        ensures
            int_result(*host, self.id(), STATUS_DEVICE_TEMPERATURE, r),
    {
        read_int(host, self.handle.index(), STATUS_DEVICE_TEMPERATURE)
    }

    /// The detected video input display mode.
    pub fn get_detected_video_input_mode(&self, host: &Host) -> (r: Result<DisplayMode, Error>)
        requires
            self.wf(*host),
        ensures
            match host.int_prop(self.id(), STATUS_DETECTED_VIDEO_INPUT_MODE) {
                Some(v) => r matches Ok(m) && m.0 == v as u32,
                None => (r matches Err(e) && e.result == crate::result::E_INVALIDARG),
            },
    {
        match read_int(host, self.handle.index(), STATUS_DETECTED_VIDEO_INPUT_MODE) {
            Ok(v) => Ok(DisplayMode(#[verifier::truncate] (v as u32))),
            Err(e) => Err(e),
        }
    }

    /// The current video input display mode.
    pub fn get_current_video_input_mode(&self, host: &Host) -> (r: Result<DisplayMode, Error>)
        requires
            self.wf(*host),
        ensures
            match host.int_prop(self.id(), STATUS_CURRENT_VIDEO_INPUT_MODE) {
                Some(v) => r matches Ok(m) && m.0 == v as u32,
                None => (r matches Err(e) && e.result == crate::result::E_INVALIDARG),
            },
    {
        match read_int(host, self.handle.index(), STATUS_CURRENT_VIDEO_INPUT_MODE) {
            Ok(v) => Ok(DisplayMode(#[verifier::truncate] (v as u32))),
            Err(e) => Err(e),
        }
    }

    /// The current video output display mode.
    pub fn get_current_video_output_mode(&self, host: &Host) -> (r: Result<DisplayMode, Error>)
        requires
            self.wf(*host),
        ensures
            match host.int_prop(self.id(), STATUS_CURRENT_VIDEO_OUTPUT_MODE) {
                Some(v) => r matches Ok(m) && m.0 == v as u32,
                None => (r matches Err(e) && e.result == crate::result::E_INVALIDARG),
            },
    {
        match read_int(host, self.handle.index(), STATUS_CURRENT_VIDEO_OUTPUT_MODE) {
            Ok(v) => Ok(DisplayMode(#[verifier::truncate] (v as u32))),
            Err(e) => Err(e),
        }
    }

    /// Which parts of the device are busy, as a bit field truncated to
    /// the known bits.
    pub fn get_busy(&self, host: &Host) -> (r: Result<DeviceBusyState, Error>)
        requires
            self.wf(*host),
        ensures
            match host.int_prop(self.id(), STATUS_BUSY) {
                Some(v) => r matches Ok(f) && f.bits == (v as u32) & 0x7,
                None => (r matches Err(e) && e.result == crate::result::E_INVALIDARG),
            },
    {
        match read_int(host, self.handle.index(), STATUS_BUSY) {
            Ok(v) => Ok(DeviceBusyState::from_bits_truncate(#[verifier::truncate] (v as u32))),
            Err(e) => Err(e),
        }
    }

}

} // verus!
