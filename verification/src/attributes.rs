//! The attribute store: read-only projections over a device's property
//! table, keyed by small integer identifiers.
//!
//! Every accessor follows the uniform pattern: issue the native "get
//! property by identifier" call, map a zero result to success, and map
//! any other result to a typed failure carrying the native code.

use vstd::prelude::*;
use crate::Error;
use crate::catalog::VideoIOSupport;
use crate::handle::NativeHandle;
use crate::host::{drop_ref, Host};
use crate::props::{flag_result, int_result, read_flag, read_int, read_string, string_result};

verus! {

/// Property identifier: Whether the device supports internal keying.
pub const ATTR_SUPPORTS_INTERNAL_KEYING: u32 = 0x6b657969;

/// Property identifier: Whether the device supports external keying.
pub const ATTR_SUPPORTS_EXTERNAL_KEYING: u32 = 0x6b657965;

/// Property identifier: Whether the device supports HD keying.
pub const ATTR_SUPPORTS_HD_KEYING: u32 = 0x6b657968;

/// Property identifier: Whether the device can detect the input format.
pub const ATTR_SUPPORTS_INPUT_FORMAT_DETECTION: u32 = 0x696e6664;

/// Property identifier: Whether the device has a reference input.
pub const ATTR_HAS_REFERENCE_INPUT: u32 = 0x6872696e;

/// Property identifier: Whether the device has a serial port.
pub const ATTR_HAS_SERIAL_PORT: u32 = 0x68737074;

/// Property identifier: Whether analog video output gain is adjustable.
pub const ATTR_HAS_ANALOG_VIDEO_OUTPUT_GAIN: u32 = 0x61766f67;

/// Property identifier: Whether only the overall output gain is adjustable.
pub const ATTR_CAN_ONLY_ADJUST_OVERALL_VIDEO_OUTPUT_GAIN: u32 = 0x6f766f67;

/// Property identifier: Whether the video input has an antialiasing filter.
pub const ATTR_HAS_VIDEO_INPUT_ANTIALIASING_FILTER: u32 = 0x6161666c;

/// Property identifier: Whether the device has a bypass relay.
pub const ATTR_HAS_BYPASS: u32 = 0x62797073;

/// Property identifier: Whether clock timing adjustment is supported.
pub const ATTR_SUPPORTS_CLOCK_TIMING_ADJUSTMENT: u32 = 0x63746164;

/// Property identifier: Whether full-duplex operation is supported.
pub const ATTR_SUPPORTS_FULL_DUPLEX: u32 = 0x66647570;

/// Property identifier: Whether a full-frame reference timing offset is supported.
pub const ATTR_SUPPORTS_FULL_FRAME_REFERENCE_INPUT_TIMING_OFFSET: u32 = 0x6672696e;

/// Property identifier: Whether SMPTE level A output is supported.
pub const ATTR_SUPPORTS_SMPTE_LEVEL_A_OUTPUT: u32 = 0x6c766c61;

/// Property identifier: Whether dual-link SDI is supported.
pub const ATTR_SUPPORTS_DUAL_LINK_SDI: u32 = 0x73646c73;

/// Property identifier: Whether quad-link SDI is supported.
pub const ATTR_SUPPORTS_QUAD_LINK_SDI: u32 = 0x73716c73;

/// Property identifier: Whether an idle output state is supported.
pub const ATTR_SUPPORTS_IDLE_OUTPUT: u32 = 0x69646f75;

/// Property identifier: Whether the device has an LTC timecode input.
pub const ATTR_HAS_LTC_TIMECODE_INPUT: u32 = 0x686c7463;

/// Property identifier: Whether the duplex mode is configurable.
pub const ATTR_SUPPORTS_DUPLEX_MODE_CONFIGURATION: u32 = 0x64757078;

/// Property identifier: Whether HDR metadata is supported.
pub const ATTR_SUPPORTS_HDR_METADATA: u32 = 0x6864726d;

/// Property identifier: Whether colorspace metadata is supported.
pub const ATTR_SUPPORTS_COLORSPACE_METADATA: u32 = 0x636d6574;

/// Property identifier: Whether HDMI timecode is supported.
pub const ATTR_SUPPORTS_HDMI_TIMECODE: u32 = 0x6874696d;

/// Property identifier: Whether high-frame-rate timecode is supported.
pub const ATTR_SUPPORTS_HIGH_FRAME_RATE_TIMECODE: u32 = 0x48465254;

/// Property identifier: Whether the device can synchronize to a capture group.
pub const ATTR_SUPPORTS_SYNCHRONIZE_TO_CAPTURE_GROUP: u32 = 0x73746367;

/// Property identifier: Whether the device can synchronize to a playback group.
pub const ATTR_SUPPORTS_SYNCHRONIZE_TO_PLAYBACK_GROUP: u32 = 0x73747067;

/// Property identifier: The most audio channels the device carries.
pub const ATTR_MAXIMUM_AUDIO_CHANNELS: u32 = 0x6d616368;

/// Property identifier: The most analog audio input channels.
pub const ATTR_MAXIMUM_ANALOG_AUDIO_INPUT_CHANNELS: u32 = 0x69616368;

/// Property identifier: The most analog audio output channels.
pub const ATTR_MAXIMUM_ANALOG_AUDIO_OUTPUT_CHANNELS: u32 = 0x61616368;

/// Property identifier: How many sub-devices the device has.
pub const ATTR_NUMBER_OF_SUBDEVICES: u32 = 0x6e736264;

/// Property identifier: This sub-device's index.
pub const ATTR_SUBDEVICE_INDEX: u32 = 0x73756269;

/// Property identifier: The device's persistent identifier.
pub const ATTR_PERSISTENT_ID: u32 = 0x70656964;

/// Property identifier: The device group identifier.
pub const ATTR_DEVICE_GROUP_ID: u32 = 0x64676964;

/// Property identifier: The device's topological identifier.
pub const ATTR_TOPOLOGICAL_ID: u32 = 0x746f6964;

/// Property identifier: The available video output connections.
pub const ATTR_VIDEO_OUTPUT_CONNECTIONS: u32 = 0x766f636e;

/// Property identifier: The available video input connections.
pub const ATTR_VIDEO_INPUT_CONNECTIONS: u32 = 0x7669636e;

/// Property identifier: The available audio output connections.
pub const ATTR_AUDIO_OUTPUT_CONNECTIONS: u32 = 0x616f636e;

/// Property identifier: The available audio input connections.
pub const ATTR_AUDIO_INPUT_CONNECTIONS: u32 = 0x6169636e;

/// Property identifier: The available deck-control connections.
pub const ATTR_DECK_CONTROL_CONNECTIONS: u32 = 0x6463636e;

/// Property identifier: The bus the device is attached through.
pub const ATTR_DEVICE_INTERFACE: u32 = 0x64627573;

/// Property identifier: The number of RCA audio input channels.
pub const ATTR_AUDIO_INPUT_RCA_CHANNEL_COUNT: u32 = 0x61697263;

/// Property identifier: The number of XLR audio input channels.
pub const ATTR_AUDIO_INPUT_XLR_CHANNEL_COUNT: u32 = 0x61697863;

/// Property identifier: The number of RCA audio output channels.
pub const ATTR_AUDIO_OUTPUT_RCA_CHANNEL_COUNT: u32 = 0x616f7263;

/// Property identifier: The number of XLR audio output channels.
pub const ATTR_AUDIO_OUTPUT_XLR_CHANNEL_COUNT: u32 = 0x616f7863;

/// Property identifier: The paired device's persistent identifier.
pub const ATTR_PAIRED_DEVICE_PERSISTENT_ID: u32 = 0x70706964;

/// Property identifier: The serial port's device name.
pub const ATTR_SERIAL_PORT_DEVICE_NAME: u32 = 0x736c706e;

/// Property identifier: The vendor's name.
pub const ATTR_VENDOR_NAME: u32 = 0x766e6472;

/// Property identifier: The device's display name.
pub const ATTR_DISPLAY_NAME: u32 = 0x6473706e;

/// Property identifier: The device's model name.
pub const ATTR_MODEL_NAME: u32 = 0x6d646c6e;

/// Property identifier: The device's handle string.
pub const ATTR_DEVICE_HANDLE: u32 = 0x64657668;

/// Property identifier: which streaming directions the device supports.
pub const ATTR_VIDEO_IO_SUPPORT: u32 = 0x76696f73;

/// The attribute store of one device: one owned reference.
pub struct Attributes {
    handle: NativeHandle,
}

impl Attributes {
    /// The table index of the underlying native object.
    pub closed spec fn id(self) -> int {
        self.handle.id()
    }

    /// The facade references a live object of the right class.
    pub open spec fn wf(self, host: Host) -> bool {
        host.live(self.id()) && host.body_of(self.id()) is Attributes
    }

    /// Wraps a freshly-owned reference.
    pub(crate) fn from_handle(handle: NativeHandle) -> (r: Attributes)
        ensures
            r.id() == handle.id(),
    {
        Attributes { handle }
    }

    /// Releases this facade's reference, exactly once.
    pub fn release(self, host: &mut Host)
        requires
            old(host).live(self.id()),
        ensures
            final(host).objects@ == drop_ref(old(host).objects@, self.id()),
            final(host).same_config(*old(host)),
    {
        self.handle.release(host);
    }

    /// Whether the device supports internal keying.
    pub fn get_supports_internal_keying(&self, host: &Host) -> (r: Result<bool, Error>)
        requires
            self.wf(*host),
        ensures
            flag_result(*host, self.id(), ATTR_SUPPORTS_INTERNAL_KEYING, r),
    {
        read_flag(host, self.handle.index(), ATTR_SUPPORTS_INTERNAL_KEYING)
    }

    /// Whether the device supports external keying.
    pub fn get_supports_external_keying(&self, host: &Host) -> (r: Result<bool, Error>)
        requires
            self.wf(*host),
        ensures
            flag_result(*host, self.id(), ATTR_SUPPORTS_EXTERNAL_KEYING, r),
    {
        read_flag(host, self.handle.index(), ATTR_SUPPORTS_EXTERNAL_KEYING)
    }

    /// Whether the device supports HD keying.
    pub fn get_supports_hd_keying(&self, host: &Host) -> (r: Result<bool, Error>)
        requires
            self.wf(*host),
        ensures
            flag_result(*host, self.id(), ATTR_SUPPORTS_HD_KEYING, r),
    {
        read_flag(host, self.handle.index(), ATTR_SUPPORTS_HD_KEYING)
    }

    /// Whether the device can detect the input format.
    pub fn get_supports_input_format_detection(&self, host: &Host) -> (r: Result<bool, Error>)
        requires
            self.wf(*host),
        ensures
            flag_result(*host, self.id(), ATTR_SUPPORTS_INPUT_FORMAT_DETECTION, r),
    {
        read_flag(host, self.handle.index(), ATTR_SUPPORTS_INPUT_FORMAT_DETECTION)
    }

    /// Whether the device has a reference input.
    pub fn get_has_reference_input(&self, host: &Host) -> (r: Result<bool, Error>)
        requires
            self.wf(*host),
        ensures
            flag_result(*host, self.id(), ATTR_HAS_REFERENCE_INPUT, r),
    {
        read_flag(host, self.handle.index(), ATTR_HAS_REFERENCE_INPUT)
    }

    /// Whether the device has a serial port.
    pub fn get_has_serial_port(&self, host: &Host) -> (r: Result<bool, Error>)
        requires
            self.wf(*host),
        ensures
            flag_result(*host, self.id(), ATTR_HAS_SERIAL_PORT, r),
    {
        read_flag(host, self.handle.index(), ATTR_HAS_SERIAL_PORT)
    }

    /// Whether analog video output gain is adjustable.
    pub fn get_has_analog_video_output_gain(&self, host: &Host) -> (r: Result<bool, Error>)
        requires
            self.wf(*host),
        ensures
            flag_result(*host, self.id(), ATTR_HAS_ANALOG_VIDEO_OUTPUT_GAIN, r),
    {
        read_flag(host, self.handle.index(), ATTR_HAS_ANALOG_VIDEO_OUTPUT_GAIN)
    }

    /// Whether only the overall output gain is adjustable.
    pub fn get_can_only_adjust_overall_video_output_gain(&self, host: &Host) -> (r: Result<bool, Error>)
        requires
            self.wf(*host),
        ensures
            flag_result(*host, self.id(), ATTR_CAN_ONLY_ADJUST_OVERALL_VIDEO_OUTPUT_GAIN, r),
    {
        read_flag(host, self.handle.index(), ATTR_CAN_ONLY_ADJUST_OVERALL_VIDEO_OUTPUT_GAIN)
    }

    /// Whether the video input has an antialiasing filter.
    pub fn get_has_video_input_antialiasing_filter(&self, host: &Host) -> (r: Result<bool, Error>)
        requires
            self.wf(*host),
        ensures
            flag_result(*host, self.id(), ATTR_HAS_VIDEO_INPUT_ANTIALIASING_FILTER, r),
    {
        read_flag(host, self.handle.index(), ATTR_HAS_VIDEO_INPUT_ANTIALIASING_FILTER)
    }

    /// Whether the device has a bypass relay.
    pub fn get_has_bypass(&self, host: &Host) -> (r: Result<bool, Error>)
        requires
            self.wf(*host),
        ensures
            flag_result(*host, self.id(), ATTR_HAS_BYPASS, r),
    {
        read_flag(host, self.handle.index(), ATTR_HAS_BYPASS)
    }

    /// Whether clock timing adjustment is supported.
    pub fn get_supports_clock_timing_adjustment(&self, host: &Host) -> (r: Result<bool, Error>)
        requires
            self.wf(*host),
        ensures
            flag_result(*host, self.id(), ATTR_SUPPORTS_CLOCK_TIMING_ADJUSTMENT, r),
    {
        read_flag(host, self.handle.index(), ATTR_SUPPORTS_CLOCK_TIMING_ADJUSTMENT)
    }

    /// Whether full-duplex operation is supported.
    pub fn get_supports_full_duplex(&self, host: &Host) -> (r: Result<bool, Error>)
        requires
            self.wf(*host),
        ensures
            flag_result(*host, self.id(), ATTR_SUPPORTS_FULL_DUPLEX, r),
    {
        read_flag(host, self.handle.index(), ATTR_SUPPORTS_FULL_DUPLEX)
    }

    /// Whether a full-frame reference timing offset is supported.
    pub fn get_supports_full_frame_reference_input_timing_offset(&self, host: &Host) -> (r: Result<bool, Error>)
        requires
            self.wf(*host),
        ensures
            flag_result(*host, self.id(), ATTR_SUPPORTS_FULL_FRAME_REFERENCE_INPUT_TIMING_OFFSET, r),
    {
        read_flag(host, self.handle.index(), ATTR_SUPPORTS_FULL_FRAME_REFERENCE_INPUT_TIMING_OFFSET)
    }

    /// Whether SMPTE level A output is supported.
    pub fn get_supports_smpte_level_a_output(&self, host: &Host) -> (r: Result<bool, Error>)
        requires
            self.wf(*host),
        ensures
            flag_result(*host, self.id(), ATTR_SUPPORTS_SMPTE_LEVEL_A_OUTPUT, r),
    {
        read_flag(host, self.handle.index(), ATTR_SUPPORTS_SMPTE_LEVEL_A_OUTPUT)
    }

    /// Whether dual-link SDI is supported.
    pub fn get_supports_dual_link_sdi(&self, host: &Host) -> (r: Result<bool, Error>)
        requires
            self.wf(*host),
        ensures
            flag_result(*host, self.id(), ATTR_SUPPORTS_DUAL_LINK_SDI, r),
    {
        read_flag(host, self.handle.index(), ATTR_SUPPORTS_DUAL_LINK_SDI)
    }

    /// Whether quad-link SDI is supported.
    pub fn get_supports_quad_link_sdi(&self, host: &Host) -> (r: Result<bool, Error>)
        requires
            self.wf(*host),
        ensures
            flag_result(*host, self.id(), ATTR_SUPPORTS_QUAD_LINK_SDI, r),
    {
        read_flag(host, self.handle.index(), ATTR_SUPPORTS_QUAD_LINK_SDI)
    }

    /// Whether an idle output state is supported.
    pub fn get_supports_idle_output(&self, host: &Host) -> (r: Result<bool, Error>)
        requires
            self.wf(*host),
        ensures
            flag_result(*host, self.id(), ATTR_SUPPORTS_IDLE_OUTPUT, r),
    {
        read_flag(host, self.handle.index(), ATTR_SUPPORTS_IDLE_OUTPUT)
    }

    /// Whether the device has an LTC timecode input.
    pub fn get_has_ltc_timecode_input(&self, host: &Host) -> (r: Result<bool, Error>)
        requires
            self.wf(*host),
        ensures
            flag_result(*host, self.id(), ATTR_HAS_LTC_TIMECODE_INPUT, r),
    {
        read_flag(host, self.handle.index(), ATTR_HAS_LTC_TIMECODE_INPUT)
    }

    /// Whether the duplex mode is configurable.
    pub fn get_supports_duplex_mode_configuration(&self, host: &Host) -> (r: Result<bool, Error>)
        requires
            self.wf(*host),
        ensures
            flag_result(*host, self.id(), ATTR_SUPPORTS_DUPLEX_MODE_CONFIGURATION, r),
    {
        read_flag(host, self.handle.index(), ATTR_SUPPORTS_DUPLEX_MODE_CONFIGURATION)
    }

    /// Whether HDR metadata is supported.
    pub fn get_supports_hdr_metadata(&self, host: &Host) -> (r: Result<bool, Error>)
        requires
            self.wf(*host),
        ensures
            flag_result(*host, self.id(), ATTR_SUPPORTS_HDR_METADATA, r),
    {
        read_flag(host, self.handle.index(), ATTR_SUPPORTS_HDR_METADATA)
    }

    /// Whether colorspace metadata is supported.
    pub fn get_supports_colorspace_metadata(&self, host: &Host) -> (r: Result<bool, Error>)
        requires
            self.wf(*host),
        ensures
            flag_result(*host, self.id(), ATTR_SUPPORTS_COLORSPACE_METADATA, r),
    {
        read_flag(host, self.handle.index(), ATTR_SUPPORTS_COLORSPACE_METADATA)
    }

    /// Whether HDMI timecode is supported.
    pub fn get_supports_hdmi_timecode(&self, host: &Host) -> (r: Result<bool, Error>)
        requires
            self.wf(*host),
        ensures
            flag_result(*host, self.id(), ATTR_SUPPORTS_HDMI_TIMECODE, r),
    {
        read_flag(host, self.handle.index(), ATTR_SUPPORTS_HDMI_TIMECODE)
    }

    /// Whether high-frame-rate timecode is supported.
    pub fn get_supports_high_frame_rate_timecode(&self, host: &Host) -> (r: Result<bool, Error>)
        requires
            self.wf(*host),
        ensures
            flag_result(*host, self.id(), ATTR_SUPPORTS_HIGH_FRAME_RATE_TIMECODE, r),
    {
        read_flag(host, self.handle.index(), ATTR_SUPPORTS_HIGH_FRAME_RATE_TIMECODE)
    }

    /// Whether the device can synchronize to a capture group.
    pub fn get_supports_synchronize_to_capture_group(&self, host: &Host) -> (r: Result<bool, Error>)
        requires
            self.wf(*host),
        ensures
            flag_result(*host, self.id(), ATTR_SUPPORTS_SYNCHRONIZE_TO_CAPTURE_GROUP, r),
    {
        read_flag(host, self.handle.index(), ATTR_SUPPORTS_SYNCHRONIZE_TO_CAPTURE_GROUP)
    }

    /// Whether the device can synchronize to a playback group.
    pub fn get_supports_synchronize_to_playback_group(&self, host: &Host) -> (r: Result<bool, Error>)
        requires
            self.wf(*host),
        ensures
            flag_result(*host, self.id(), ATTR_SUPPORTS_SYNCHRONIZE_TO_PLAYBACK_GROUP, r),
    {
        read_flag(host, self.handle.index(), ATTR_SUPPORTS_SYNCHRONIZE_TO_PLAYBACK_GROUP)
    }

    /// The most audio channels the device carries.
    pub fn get_maximum_audio_channels(&self, host: &Host) -> (r: Result<i64, Error>)
        requires
            self.wf(*host),
        ensures
            int_result(*host, self.id(), ATTR_MAXIMUM_AUDIO_CHANNELS, r),
    {
        read_int(host, self.handle.index(), ATTR_MAXIMUM_AUDIO_CHANNELS)
    }

    /// The most analog audio input channels.
    pub fn get_maximum_analog_audio_input_channels(&self, host: &Host) -> (r: Result<i64, Error>)
        requires
            self.wf(*host),
        ensures
            int_result(*host, self.id(), ATTR_MAXIMUM_ANALOG_AUDIO_INPUT_CHANNELS, r),
    {
        read_int(host, self.handle.index(), ATTR_MAXIMUM_ANALOG_AUDIO_INPUT_CHANNELS)
    }

    /// The most analog audio output channels.
    pub fn get_maximum_analog_audio_output_channels(&self, host: &Host) -> (r: Result<i64, Error>)
        requires
            self.wf(*host),
        ensures
            int_result(*host, self.id(), ATTR_MAXIMUM_ANALOG_AUDIO_OUTPUT_CHANNELS, r),
    {
        read_int(host, self.handle.index(), ATTR_MAXIMUM_ANALOG_AUDIO_OUTPUT_CHANNELS)
    }

    /// How many sub-devices the device has.
    pub fn get_number_of_subdevices(&self, host: &Host) -> (r: Result<i64, Error>)
        requires
            self.wf(*host),
        ensures
            int_result(*host, self.id(), ATTR_NUMBER_OF_SUBDEVICES, r),
    {
        read_int(host, self.handle.index(), ATTR_NUMBER_OF_SUBDEVICES)
    }

    /// This sub-device's index.
    pub fn get_subdevice_index(&self, host: &Host) -> (r: Result<i64, Error>)
        requires
            self.wf(*host),
        ensures
            int_result(*host, self.id(), ATTR_SUBDEVICE_INDEX, r),
    {
        read_int(host, self.handle.index(), ATTR_SUBDEVICE_INDEX)
    }

    /// The device's persistent identifier.
    pub fn get_persistent_id(&self, host: &Host) -> (r: Result<i64, Error>)
        requires
            self.wf(*host),
        ensures
            int_result(*host, self.id(), ATTR_PERSISTENT_ID, r),
    {
        read_int(host, self.handle.index(), ATTR_PERSISTENT_ID)
    }

    /// The device group identifier.
    pub fn get_device_group_id(&self, host: &Host) -> (r: Result<i64, Error>)
        requires
            self.wf(*host),
        ensures
            int_result(*host, self.id(), ATTR_DEVICE_GROUP_ID, r),
    {
        read_int(host, self.handle.index(), ATTR_DEVICE_GROUP_ID)
    }

    /// The device's topological identifier.
    pub fn get_topological_id(&self, host: &Host) -> (r: Result<i64, Error>)
        requires
            self.wf(*host),
        ensures
            int_result(*host, self.id(), ATTR_TOPOLOGICAL_ID, r),
    {
        read_int(host, self.handle.index(), ATTR_TOPOLOGICAL_ID)
    }

    /// The available video output connections.
    pub fn get_video_output_connections(&self, host: &Host) -> (r: Result<i64, Error>)
        requires
            self.wf(*host),
        ensures
            int_result(*host, self.id(), ATTR_VIDEO_OUTPUT_CONNECTIONS, r),
    {
        read_int(host, self.handle.index(), ATTR_VIDEO_OUTPUT_CONNECTIONS)
    }

    /// The available video input connections.
    pub fn get_video_input_connections(&self, host: &Host) -> (r: Result<i64, Error>)
        requires
            self.wf(*host),
        ensures
            int_result(*host, self.id(), ATTR_VIDEO_INPUT_CONNECTIONS, r),
    {
        read_int(host, self.handle.index(), ATTR_VIDEO_INPUT_CONNECTIONS)
    }

    /// The available audio output connections.
    pub fn get_audio_output_connections(&self, host: &Host) -> (r: Result<i64, Error>)
        requires
            self.wf(*host),
        ensures
            int_result(*host, self.id(), ATTR_AUDIO_OUTPUT_CONNECTIONS, r),
    {
        read_int(host, self.handle.index(), ATTR_AUDIO_OUTPUT_CONNECTIONS)
    }

    /// The available audio input connections.
    pub fn get_audio_input_connections(&self, host: &Host) -> (r: Result<i64, Error>)
        requires
            self.wf(*host),
        ensures
            int_result(*host, self.id(), ATTR_AUDIO_INPUT_CONNECTIONS, r),
    {
        read_int(host, self.handle.index(), ATTR_AUDIO_INPUT_CONNECTIONS)
    }

    /// The available deck-control connections.
    pub fn get_deck_control_connections(&self, host: &Host) -> (r: Result<i64, Error>)
        requires
            self.wf(*host),
        ensures
            int_result(*host, self.id(), ATTR_DECK_CONTROL_CONNECTIONS, r),
    {
        read_int(host, self.handle.index(), ATTR_DECK_CONTROL_CONNECTIONS)
    }

    /// The bus the device is attached through.
    pub fn get_device_interface(&self, host: &Host) -> (r: Result<i64, Error>)
        requires
            self.wf(*host),
        ensures
            int_result(*host, self.id(), ATTR_DEVICE_INTERFACE, r),
    {
        read_int(host, self.handle.index(), ATTR_DEVICE_INTERFACE)
    }

    /// The number of RCA audio input channels.
    pub fn get_audio_input_rca_channel_count(&self, host: &Host) -> (r: Result<i64, Error>)
        requires
            self.wf(*host),
        ensures
            int_result(*host, self.id(), ATTR_AUDIO_INPUT_RCA_CHANNEL_COUNT, r),
    {
        read_int(host, self.handle.index(), ATTR_AUDIO_INPUT_RCA_CHANNEL_COUNT)
    }

    /// The number of XLR audio input channels.
    pub fn get_audio_input_xlr_channel_count(&self, host: &Host) -> (r: Result<i64, Error>)
        requires
            self.wf(*host),
        ensures
            int_result(*host, self.id(), ATTR_AUDIO_INPUT_XLR_CHANNEL_COUNT, r),
    {
        read_int(host, self.handle.index(), ATTR_AUDIO_INPUT_XLR_CHANNEL_COUNT)
    }

    /// The number of RCA audio output channels.
    pub fn get_audio_output_rca_channel_count(&self, host: &Host) -> (r: Result<i64, Error>)
        requires
            self.wf(*host),
        ensures
            int_result(*host, self.id(), ATTR_AUDIO_OUTPUT_RCA_CHANNEL_COUNT, r),
    {
        read_int(host, self.handle.index(), ATTR_AUDIO_OUTPUT_RCA_CHANNEL_COUNT)
    }

    /// The number of XLR audio output channels.
    pub fn get_audio_output_xlr_channel_count(&self, host: &Host) -> (r: Result<i64, Error>)
        requires
            self.wf(*host),
        ensures
            int_result(*host, self.id(), ATTR_AUDIO_OUTPUT_XLR_CHANNEL_COUNT, r),
    {
        read_int(host, self.handle.index(), ATTR_AUDIO_OUTPUT_XLR_CHANNEL_COUNT)
    }

    /// The paired device's persistent identifier.
    pub fn get_paired_device_persistent_id(&self, host: &Host) -> (r: Result<i64, Error>)
        requires
            self.wf(*host),
        ensures
            int_result(*host, self.id(), ATTR_PAIRED_DEVICE_PERSISTENT_ID, r),
    {
        read_int(host, self.handle.index(), ATTR_PAIRED_DEVICE_PERSISTENT_ID)
    }

    /// Which streaming directions the device supports, as a bit field
    /// truncated to the known bits.
    pub fn get_video_io_support(&self, host: &Host) -> (r: Result<VideoIOSupport, Error>)
        requires
            self.wf(*host),
        ensures
            match host.int_prop(self.id(), ATTR_VIDEO_IO_SUPPORT) {
                Some(v) => r matches Ok(f) && f.bits == (v as u32) & 0x3,
                None => (r matches Err(e) && e.result == crate::result::E_INVALIDARG),
            },
    {
        match read_int(host, self.handle.index(), ATTR_VIDEO_IO_SUPPORT) {
            Ok(v) => Ok(VideoIOSupport::from_bits_truncate(#[verifier::truncate] (v as u32))),
            Err(e) => Err(e),
        }
    }

    /// The serial port's device name.
    pub fn get_serial_port_device_name(&self, host: &mut Host) -> (r: Result<String, Error>)
        requires
            self.wf(*old(host)),
        ensures
            string_result(*old(host), *final(host), self.id(), ATTR_SERIAL_PORT_DEVICE_NAME, r),
    {
        read_string(host, self.handle.index(), ATTR_SERIAL_PORT_DEVICE_NAME)
    }

    /// The vendor's name.
    pub fn get_vendor_name(&self, host: &mut Host) -> (r: Result<String, Error>)
        requires
            self.wf(*old(host)),
        ensures
            string_result(*old(host), *final(host), self.id(), ATTR_VENDOR_NAME, r),
    {
        read_string(host, self.handle.index(), ATTR_VENDOR_NAME)
    }

    /// The device's display name.
    pub fn get_display_name(&self, host: &mut Host) -> (r: Result<String, Error>)
        requires
            self.wf(*old(host)),
        ensures
            string_result(*old(host), *final(host), self.id(), ATTR_DISPLAY_NAME, r),
    {
        read_string(host, self.handle.index(), ATTR_DISPLAY_NAME)
    }

    /// The device's model name.
    pub fn get_model_name(&self, host: &mut Host) -> (r: Result<String, Error>)
        requires
            self.wf(*old(host)),
        ensures
            string_result(*old(host), *final(host), self.id(), ATTR_MODEL_NAME, r),
    {
        read_string(host, self.handle.index(), ATTR_MODEL_NAME)
    }

    /// The device's handle string.
    pub fn get_device_handle(&self, host: &mut Host) -> (r: Result<String, Error>)
        requires
            self.wf(*old(host)),
        ensures
            string_result(*old(host), *final(host), self.id(), ATTR_DEVICE_HANDLE, r),
    {
        read_string(host, self.handle.index(), ATTR_DEVICE_HANDLE)
    }

}

} // verus!
