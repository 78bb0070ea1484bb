//! The bitmask and enumeration catalogues of the native API.
//!
//! These are flat data tables, not design: each type carries the native
//! numeric value verbatim, and each bitmask type is a 32-bit field masked
//! to its known bits.  Values are built through named constructors so that
//! every contract can state the exact bits a call passes or returns.

use vstd::prelude::*;

verus! {


/// Which streaming directions a device supports.
#[derive(Clone, Copy, Debug, PartialEq, Eq, Structural)]
pub struct VideoIOSupport {
    pub bits: u32,
}

impl VideoIOSupport {
    /// No bits set.
    pub fn empty() -> (r: VideoIOSupport)
        ensures
            r.bits == 0,
    {
        VideoIOSupport { bits: 0 }
    }

    /// The device can capture.
    pub fn capture() -> (r: VideoIOSupport)
        ensures
            r.bits == 0x1,
    {
        VideoIOSupport { bits: 0x1 }
    }

    /// The device can play back.
    pub fn playback() -> (r: VideoIOSupport)
        ensures
            r.bits == 0x2,
    {
        VideoIOSupport { bits: 0x2 }
    }

    /// The given bits, with unknown bits cleared.
    pub fn from_bits_truncate(bits: u32) -> (r: VideoIOSupport)
        ensures
            r.bits == bits & 0x3,
    {
        VideoIOSupport { bits: bits & 0x3 }
    }

    /// The raw bit field.
    pub fn bits(&self) -> (r: u32)
        ensures
            r == self.bits,
    {
        self.bits
    }

    /// Every bit of `other` is set in `self`.
    pub fn contains(&self, other: VideoIOSupport) -> (r: bool)
        ensures
            r == (self.bits & other.bits == other.bits),
    {
        self.bits & other.bits == other.bits
    }

    /// The union of the two bit fields.
    pub fn with(self, other: VideoIOSupport) -> (r: VideoIOSupport)
        ensures
            r.bits == self.bits | other.bits,
    {
        VideoIOSupport { bits: self.bits | other.bits }
    }
}

/// Which parts of a device are currently in use.
#[derive(Clone, Copy, Debug, PartialEq, Eq, Structural)]
pub struct DeviceBusyState {
    pub bits: u32,
}

impl DeviceBusyState {
    /// No bits set.
    pub fn empty() -> (r: DeviceBusyState)
        ensures
            r.bits == 0,
    {
        DeviceBusyState { bits: 0 }
    }

    /// Capture is in use.
    pub fn capture_busy() -> (r: DeviceBusyState)
        ensures
            r.bits == 0x1,
    {
        DeviceBusyState { bits: 0x1 }
    }

    /// Playback is in use.
    pub fn playback_busy() -> (r: DeviceBusyState)
        ensures
            r.bits == 0x2,
    {
        DeviceBusyState { bits: 0x2 }
    }

    /// The serial port is in use.
    pub fn serial_port_busy() -> (r: DeviceBusyState)
        ensures
            r.bits == 0x4,
    {
        DeviceBusyState { bits: 0x4 }
    }

    /// The given bits, with unknown bits cleared.
    pub fn from_bits_truncate(bits: u32) -> (r: DeviceBusyState)
        ensures
            r.bits == bits & 0x7,
    {
        DeviceBusyState { bits: bits & 0x7 }
    }

    /// The raw bit field.
    pub fn bits(&self) -> (r: u32)
        ensures
            r == self.bits,
    {
        self.bits
    }

    /// Every bit of `other` is set in `self`.
    pub fn contains(&self, other: DeviceBusyState) -> (r: bool)
        ensures
            r == (self.bits & other.bits == other.bits),
    {
        self.bits & other.bits == other.bits
    }

    /// The union of the two bit fields.
    pub fn with(self, other: DeviceBusyState) -> (r: DeviceBusyState)
        ensures
            r.bits == self.bits | other.bits,
    {
        DeviceBusyState { bits: self.bits | other.bits }
    }
}

/// Properties of a display mode.
#[derive(Clone, Copy, Debug, PartialEq, Eq, Structural)]
pub struct DisplayModeFlags {
    pub bits: u32,
}

impl DisplayModeFlags {
    /// No bits set.
    pub fn empty() -> (r: DisplayModeFlags)
        ensures
            r.bits == 0,
    {
        DisplayModeFlags { bits: 0 }
    }

    /// The mode supports 3D.
    pub fn supports_3d() -> (r: DisplayModeFlags)
        ensures
            r.bits == 0x1,
    {
        DisplayModeFlags { bits: 0x1 }
    }

    /// Rec. 601 colorspace.
    pub fn colorspace_rec601() -> (r: DisplayModeFlags)
        ensures
            r.bits == 0x2,
    {
        DisplayModeFlags { bits: 0x2 }
    }

    /// Rec. 709 colorspace.
    pub fn colorspace_rec709() -> (r: DisplayModeFlags)
        ensures
            r.bits == 0x4,
    {
        DisplayModeFlags { bits: 0x4 }
    }

    /// Rec. 2020 colorspace.
    pub fn colorspace_rec2020() -> (r: DisplayModeFlags)
        ensures
            r.bits == 0x8,
    {
        DisplayModeFlags { bits: 0x8 }
    }

    /// The given bits, with unknown bits cleared.
    pub fn from_bits_truncate(bits: u32) -> (r: DisplayModeFlags)
        ensures
            r.bits == bits & 0xF,
    {
        DisplayModeFlags { bits: bits & 0xF }
    }

    /// The raw bit field.
    pub fn bits(&self) -> (r: u32)
        ensures
            r == self.bits,
    {
        self.bits
    }

    /// Every bit of `other` is set in `self`.
    pub fn contains(&self, other: DisplayModeFlags) -> (r: bool)
        ensures
            r == (self.bits & other.bits == other.bits),
    {
        self.bits & other.bits == other.bits
    }

    /// The union of the two bit fields.
    pub fn with(self, other: DisplayModeFlags) -> (r: DisplayModeFlags)
        ensures
            r.bits == self.bits | other.bits,
    {
        DisplayModeFlags { bits: self.bits | other.bits }
    }
}

/// Options for enabling video input.
#[derive(Clone, Copy, Debug, PartialEq, Eq, Structural)]
pub struct VideoInputFlags {
    pub bits: u32,
}

impl VideoInputFlags {
    /// No bits set.
    pub fn empty() -> (r: VideoInputFlags)
        ensures
            r.bits == 0,
    {
        VideoInputFlags { bits: 0 }
    }

    /// Detect the input format automatically.
    pub fn enable_format_detection() -> (r: VideoInputFlags)
        ensures
            r.bits == 0x1,
    {
        VideoInputFlags { bits: 0x1 }
    }

    /// Capture both eyes of a 3D stream.
    pub fn dual_stream_3d() -> (r: VideoInputFlags)
        ensures
            r.bits == 0x2,
    {
        VideoInputFlags { bits: 0x2 }
    }

    /// The given bits, with unknown bits cleared.
    pub fn from_bits_truncate(bits: u32) -> (r: VideoInputFlags)
        ensures
            r.bits == bits & 0x3,
    {
        VideoInputFlags { bits: bits & 0x3 }
    }

    /// The raw bit field.
    pub fn bits(&self) -> (r: u32)
        ensures
            r == self.bits,
    {
        self.bits
    }

    /// Every bit of `other` is set in `self`.
    pub fn contains(&self, other: VideoInputFlags) -> (r: bool)
        ensures
            r == (self.bits & other.bits == other.bits),
    {
        self.bits & other.bits == other.bits
    }

    /// The union of the two bit fields.
    pub fn with(self, other: VideoInputFlags) -> (r: VideoInputFlags)
        ensures
            r.bits == self.bits | other.bits,
    {
        VideoInputFlags { bits: self.bits | other.bits }
    }
}

/// Options for enabling video output.
#[derive(Clone, Copy, Debug, PartialEq, Eq, Structural)]
pub struct VideoOutputFlags {
    pub bits: u32,
}

impl VideoOutputFlags {
    /// No bits set.
    pub fn empty() -> (r: VideoOutputFlags)
        ensures
            r.bits == 0,
    {
        VideoOutputFlags { bits: 0 }
    }

    /// The given bits, with unknown bits cleared.
    pub fn from_bits_truncate(bits: u32) -> (r: VideoOutputFlags)
        ensures
            r.bits == bits & 0x0,
    {
        VideoOutputFlags { bits: bits & 0x0 }
    }

    /// The raw bit field.
    pub fn bits(&self) -> (r: u32)
        ensures
            r == self.bits,
    {
        self.bits
    }

    /// Every bit of `other` is set in `self`.
    pub fn contains(&self, other: VideoOutputFlags) -> (r: bool)
        ensures
            r == (self.bits & other.bits == other.bits),
    {
        self.bits & other.bits == other.bits
    }

    /// The union of the two bit fields.
    pub fn with(self, other: VideoOutputFlags) -> (r: VideoOutputFlags)
        ensures
            r.bits == self.bits | other.bits,
    {
        VideoOutputFlags { bits: self.bits | other.bits }
    }
}

/// What changed when the input format changed.
#[derive(Clone, Copy, Debug, PartialEq, Eq, Structural)]
pub struct VideoInputFormatChangedEvents {
    pub bits: u32,
}

impl VideoInputFormatChangedEvents {
    /// No bits set.
    pub fn empty() -> (r: VideoInputFormatChangedEvents)
        ensures
            r.bits == 0,
    {
        VideoInputFormatChangedEvents { bits: 0 }
    }

    /// The display mode changed.
    pub fn display_mode_changed() -> (r: VideoInputFormatChangedEvents)
        ensures
            r.bits == 0x1,
    {
        VideoInputFormatChangedEvents { bits: 0x1 }
    }

    /// The field dominance changed.
    pub fn field_dominance_changed() -> (r: VideoInputFormatChangedEvents)
        ensures
            r.bits == 0x2,
    {
        VideoInputFormatChangedEvents { bits: 0x2 }
    }

    /// The colorspace changed.
    pub fn colorspace_changed() -> (r: VideoInputFormatChangedEvents)
        ensures
            r.bits == 0x4,
    {
        VideoInputFormatChangedEvents { bits: 0x4 }
    }

    /// The given bits, with unknown bits cleared.
    pub fn from_bits_truncate(bits: u32) -> (r: VideoInputFormatChangedEvents)
        ensures
            r.bits == bits & 0x7,
    {
        VideoInputFormatChangedEvents { bits: bits & 0x7 }
    }

    /// The raw bit field.
    pub fn bits(&self) -> (r: u32)
        ensures
            r == self.bits,
    {
        self.bits
    }

    /// Every bit of `other` is set in `self`.
    pub fn contains(&self, other: VideoInputFormatChangedEvents) -> (r: bool)
        ensures
            r == (self.bits & other.bits == other.bits),
    {
        self.bits & other.bits == other.bits
    }

    /// The union of the two bit fields.
    pub fn with(self, other: VideoInputFormatChangedEvents) -> (r: VideoInputFormatChangedEvents)
        ensures
            r.bits == self.bits | other.bits,
    {
        VideoInputFormatChangedEvents { bits: self.bits | other.bits }
    }
}

/// How the detected input signal is encoded.
#[derive(Clone, Copy, Debug, PartialEq, Eq, Structural)]
pub struct DetectedVideoInputFormatFlags {
    pub bits: u32,
}

impl DetectedVideoInputFormatFlags {
    /// No bits set.
    pub fn empty() -> (r: DetectedVideoInputFormatFlags)
        ensures
            r.bits == 0,
    {
        DetectedVideoInputFormatFlags { bits: 0 }
    }

    /// The signal is YCbCr 4:2:2.
    pub fn ycbcr422() -> (r: DetectedVideoInputFormatFlags)
        ensures
            r.bits == 0x1,
    {
        DetectedVideoInputFormatFlags { bits: 0x1 }
    }

    /// The signal is RGB 4:4:4.
    pub fn rgb444() -> (r: DetectedVideoInputFormatFlags)
        ensures
            r.bits == 0x2,
    {
        DetectedVideoInputFormatFlags { bits: 0x2 }
    }

    /// The signal is a dual-stream 3D pair.
    pub fn dual_stream_3d() -> (r: DetectedVideoInputFormatFlags)
        ensures
            r.bits == 0x4,
    {
        DetectedVideoInputFormatFlags { bits: 0x4 }
    }

    /// The given bits, with unknown bits cleared.
    pub fn from_bits_truncate(bits: u32) -> (r: DetectedVideoInputFormatFlags)
        ensures
            r.bits == bits & 0x7,
    {
        DetectedVideoInputFormatFlags { bits: bits & 0x7 }
    }

    /// The raw bit field.
    pub fn bits(&self) -> (r: u32)
        ensures
            r == self.bits,
    {
        self.bits
    }

    /// Every bit of `other` is set in `self`.
    pub fn contains(&self, other: DetectedVideoInputFormatFlags) -> (r: bool)
        ensures
            r == (self.bits & other.bits == other.bits),
    {
        self.bits & other.bits == other.bits
    }

    /// The union of the two bit fields.
    pub fn with(self, other: DetectedVideoInputFormatFlags) -> (r: DetectedVideoInputFormatFlags)
        ensures
            r.bits == self.bits | other.bits,
    {
        DetectedVideoInputFormatFlags { bits: self.bits | other.bits }
    }
}

/// Properties of a video frame.
#[derive(Clone, Copy, Debug, PartialEq, Eq, Structural)]
pub struct FrameFlags {
    pub bits: u32,
}

impl FrameFlags {
    /// No bits set.
    pub fn empty() -> (r: FrameFlags)
        ensures
            r.bits == 0,
    {
        FrameFlags { bits: 0 }
    }

    /// The frame is stored bottom-up.
    pub fn flip_vertical() -> (r: FrameFlags)
        ensures
            r.bits == 0x1,
    {
        FrameFlags { bits: 0x1 }
    }

    /// The frame carries HDR metadata.
    pub fn contains_hdr_metadata() -> (r: FrameFlags)
        ensures
            r.bits == 0x2,
    {
        FrameFlags { bits: 0x2 }
    }

    /// The frame carries Cintel metadata.
    pub fn contains_cintel_metadata() -> (r: FrameFlags)
        ensures
            r.bits == 0x4,
    {
        FrameFlags { bits: 0x4 }
    }

    /// The frame was captured as PsF.
    pub fn captured_as_ps_f() -> (r: FrameFlags)
        ensures
            r.bits == 0x40000000,
    {
        FrameFlags { bits: 0x40000000 }
    }

    /// No input source was connected.
    pub fn has_no_input_source() -> (r: FrameFlags)
        ensures
            r.bits == 0x80000000,
    {
        FrameFlags { bits: 0x80000000 }
    }

    /// The given bits, with unknown bits cleared.
    pub fn from_bits_truncate(bits: u32) -> (r: FrameFlags)
        ensures
            r.bits == bits & 0xC0000007,
    {
        FrameFlags { bits: bits & 0xC0000007 }
    }

    /// The raw bit field.
    pub fn bits(&self) -> (r: u32)
        ensures
            r == self.bits,
    {
        self.bits
    }

    /// Every bit of `other` is set in `self`.
    pub fn contains(&self, other: FrameFlags) -> (r: bool)
        ensures
            r == (self.bits & other.bits == other.bits),
    {
        self.bits & other.bits == other.bits
    }

    /// The union of the two bit fields.
    pub fn with(self, other: FrameFlags) -> (r: FrameFlags)
        ensures
            r.bits == self.bits | other.bits,
    {
        FrameFlags { bits: self.bits | other.bits }
    }
}

/// A pixel format, by its native value.
#[derive(Clone, Copy, Debug, PartialEq, Eq, Structural)]
pub struct PixelFormat(pub u32);

impl PixelFormat {
    /// 8-bit YUV 4:2:2.
    pub fn format_8bit_yuv() -> (r: PixelFormat)
        ensures
            r.0 == 0x32767579,
    {
        PixelFormat(0x32767579)
    }

    /// 10-bit YUV 4:2:2.
    pub fn format_10bit_yuv() -> (r: PixelFormat)
        ensures
            r.0 == 0x76323130,
    {
        PixelFormat(0x76323130)
    }

    /// 8-bit ARGB.
    pub fn format_8bit_argb() -> (r: PixelFormat)
        ensures
            r.0 == 0x20,
    {
        PixelFormat(0x20)
    }

    /// 8-bit BGRA.
    pub fn format_8bit_bgra() -> (r: PixelFormat)
        ensures
            r.0 == 0x42475241,
    {
        PixelFormat(0x42475241)
    }

    /// 10-bit RGB.
    pub fn format_10bit_rgb() -> (r: PixelFormat)
        ensures
            r.0 == 0x72323130,
    {
        PixelFormat(0x72323130)
    }

    /// 12-bit RGB, big-endian.
    pub fn format_12bit_rgb() -> (r: PixelFormat)
        ensures
            r.0 == 0x52313242,
    {
        PixelFormat(0x52313242)
    }

    /// 12-bit RGB, little-endian.
    pub fn format_12bit_rgble() -> (r: PixelFormat)
        ensures
            r.0 == 0x5231324c,
    {
        PixelFormat(0x5231324c)
    }

    /// 10-bit RGBX, little-endian.
    pub fn format_10bit_rgbxle() -> (r: PixelFormat)
        ensures
            r.0 == 0x5231306c,
    {
        PixelFormat(0x5231306c)
    }

    /// 10-bit RGBX, big-endian.
    pub fn format_10bit_rgbx() -> (r: PixelFormat)
        ensures
            r.0 == 0x52313062,
    {
        PixelFormat(0x52313062)
    }

    /// H.265 elementary stream.
    pub fn format_h265() -> (r: PixelFormat)
        ensures
            r.0 == 0x68657631,
    {
        PixelFormat(0x68657631)
    }

    /// DNxHR compressed frames.
    pub fn format_dnxhr() -> (r: PixelFormat)
        ensures
            r.0 == 0x41566468,
    {
        PixelFormat(0x41566468)
    }

    /// 12-bit raw sensor data, GRBG.
    pub fn format_12bit_raw_grbg() -> (r: PixelFormat)
        ensures
            r.0 == 0x72313270,
    {
        PixelFormat(0x72313270)
    }

    /// 12-bit raw sensor data, JPEG wrapped.
    pub fn format_12bit_raw_jpeg() -> (r: PixelFormat)
        ensures
            r.0 == 0x72313670,
    {
        PixelFormat(0x72313670)
    }

}

/// The outcome of a scheduled frame, by its native value.
#[derive(Clone, Copy, Debug, PartialEq, Eq, Structural)]
pub struct OutputFrameCompletionResult(pub u32);

impl OutputFrameCompletionResult {
    /// The frame was displayed on time.
    pub fn completed() -> (r: OutputFrameCompletionResult)
        ensures
            r.0 == 0,
    {
        OutputFrameCompletionResult(0)
    }

    /// The frame was displayed late.
    pub fn displayed_late() -> (r: OutputFrameCompletionResult)
        ensures
            r.0 == 1,
    {
        OutputFrameCompletionResult(1)
    }

    /// The frame was dropped.
    pub fn dropped() -> (r: OutputFrameCompletionResult)
        ensures
            r.0 == 2,
    {
        OutputFrameCompletionResult(2)
    }

    /// The frame was flushed before display.
    pub fn flushed() -> (r: OutputFrameCompletionResult)
        ensures
            r.0 == 3,
    {
        OutputFrameCompletionResult(3)
    }

}

/// A display mode, by its native value.
#[derive(Clone, Copy, Debug, PartialEq, Eq, Structural)]
pub struct DisplayMode(pub u32);

impl DisplayMode {
    /// NTSC interlaced.
    pub fn mode_ntsc() -> (r: DisplayMode)
        ensures
            r.0 == 0x6e747363,
    {
        DisplayMode(0x6e747363)
    }

    /// NTSC at 23.98, 3:2 pulldown.
    pub fn mode_ntsc2398() -> (r: DisplayMode)
        ensures
            r.0 == 0x6e743233,
    {
        DisplayMode(0x6e743233)
    }

    /// PAL interlaced.
    pub fn mode_pal() -> (r: DisplayMode)
        ensures
            r.0 == 0x70616c20,
    {
        DisplayMode(0x70616c20)
    }

    /// NTSC progressive.
    pub fn mode_ntscp() -> (r: DisplayMode)
        ensures
            r.0 == 0x6e747370,
    {
        DisplayMode(0x6e747370)
    }

    /// PAL progressive.
    pub fn mode_palp() -> (r: DisplayMode)
        ensures
            r.0 == 0x70616c70,
    {
        DisplayMode(0x70616c70)
    }

    /// 1080p at 23.98.
    pub fn mode_hd1080p2398() -> (r: DisplayMode)
        ensures
            r.0 == 0x32337073,
    {
        DisplayMode(0x32337073)
    }

    /// 1080p at 24.
    pub fn mode_hd1080p24() -> (r: DisplayMode)
        ensures
            r.0 == 0x32347073,
    {
        DisplayMode(0x32347073)
    }

    /// 1080p at 25.
    pub fn mode_hd1080p25() -> (r: DisplayMode)
        ensures
            r.0 == 0x48703235,
    {
        DisplayMode(0x48703235)
    }

    /// 1080p at 29.97.
    pub fn mode_hd1080p2997() -> (r: DisplayMode)
        ensures
            r.0 == 0x48703239,
    {
        DisplayMode(0x48703239)
    }

    /// 1080p at 30.
    pub fn mode_hd1080p30() -> (r: DisplayMode)
        ensures
            r.0 == 0x48703330,
    {
        DisplayMode(0x48703330)
    }

    /// 1080p at 50.
    pub fn mode_hd1080p50() -> (r: DisplayMode)
        ensures
            r.0 == 0x48703530,
    {
        DisplayMode(0x48703530)
    }

    /// 1080p at 59.94.
    pub fn mode_hd1080p5994() -> (r: DisplayMode)
        ensures
            r.0 == 0x48703539,
    {
        DisplayMode(0x48703539)
    }

    /// 1080p at 60.
    pub fn mode_hd1080p6000() -> (r: DisplayMode)
        ensures
            r.0 == 0x48703630,
    {
        DisplayMode(0x48703630)
    }

    /// 1080i at 50.
    pub fn mode_hd1080i50() -> (r: DisplayMode)
        ensures
            r.0 == 0x48693530,
    {
        DisplayMode(0x48693530)
    }

    /// 1080i at 59.94.
    pub fn mode_hd1080i5994() -> (r: DisplayMode)
        ensures
            r.0 == 0x48693539,
    {
        DisplayMode(0x48693539)
    }

    /// 1080i at 60.
    pub fn mode_hd1080i6000() -> (r: DisplayMode)
        ensures
            r.0 == 0x48693630,
    {
        DisplayMode(0x48693630)
    }

    /// 720p at 50.
    pub fn mode_hd720p50() -> (r: DisplayMode)
        ensures
            r.0 == 0x68703530,
    {
        DisplayMode(0x68703530)
    }

    /// 720p at 59.94.
    pub fn mode_hd720p5994() -> (r: DisplayMode)
        ensures
            r.0 == 0x68703539,
    {
        DisplayMode(0x68703539)
    }

    /// 720p at 60.
    pub fn mode_hd720p60() -> (r: DisplayMode)
        ensures
            r.0 == 0x68703630,
    {
        DisplayMode(0x68703630)
    }

    /// 2K at 23.98.
    pub fn mode_2k2398() -> (r: DisplayMode)
        ensures
            r.0 == 0x326b3233,
    {
        DisplayMode(0x326b3233)
    }

    /// 2K at 24.
    pub fn mode_2k24() -> (r: DisplayMode)
        ensures
            r.0 == 0x326b3234,
    {
        DisplayMode(0x326b3234)
    }

    /// 2K at 25.
    pub fn mode_2k25() -> (r: DisplayMode)
        ensures
            r.0 == 0x326b3235,
    {
        DisplayMode(0x326b3235)
    }

    /// 2K DCI at 23.98.
    pub fn mode_2kdci2398() -> (r: DisplayMode)
        ensures
            r.0 == 0x32643233,
    {
        DisplayMode(0x32643233)
    }

    /// 2K DCI at 24.
    pub fn mode_2kdci24() -> (r: DisplayMode)
        ensures
            r.0 == 0x32643234,
    {
        DisplayMode(0x32643234)
    }

    /// 2K DCI at 25.
    pub fn mode_2kdci25() -> (r: DisplayMode)
        ensures
            r.0 == 0x32643235,
    {
        DisplayMode(0x32643235)
    }

    /// 2K DCI at 29.97.
    pub fn mode_2kdci2997() -> (r: DisplayMode)
        ensures
            r.0 == 0x32643239,
    {
        DisplayMode(0x32643239)
    }

    /// 2K DCI at 30.
    pub fn mode_2kdci30() -> (r: DisplayMode)
        ensures
            r.0 == 0x32643330,
    {
        DisplayMode(0x32643330)
    }

    /// 2K DCI at 50.
    pub fn mode_2kdci50() -> (r: DisplayMode)
        ensures
            r.0 == 0x32643530,
    {
        DisplayMode(0x32643530)
    }

    /// 2K DCI at 59.94.
    pub fn mode_2kdci5994() -> (r: DisplayMode)
        ensures
            r.0 == 0x32643539,
    {
        DisplayMode(0x32643539)
    }

    /// 2K DCI at 60.
    pub fn mode_2kdci60() -> (r: DisplayMode)
        ensures
            r.0 == 0x32643630,
    {
        DisplayMode(0x32643630)
    }

    /// 4K UHD at 23.98.
    pub fn mode_4k2160p2398() -> (r: DisplayMode)
        ensures
            r.0 == 0x346b3233,
    {
        DisplayMode(0x346b3233)
    }

    /// 4K UHD at 24.
    pub fn mode_4k2160p24() -> (r: DisplayMode)
        ensures
            r.0 == 0x346b3234,
    {
        DisplayMode(0x346b3234)
    }

    /// 4K UHD at 25.
    pub fn mode_4k2160p25() -> (r: DisplayMode)
        ensures
            r.0 == 0x346b3235,
    {
        DisplayMode(0x346b3235)
    }

    /// 4K UHD at 29.97.
    pub fn mode_4k2160p2997() -> (r: DisplayMode)
        ensures
            r.0 == 0x346b3239,
    {
        DisplayMode(0x346b3239)
    }

    /// 4K UHD at 30.
    pub fn mode_4k2160p30() -> (r: DisplayMode)
        ensures
            r.0 == 0x346b3330,
    {
        DisplayMode(0x346b3330)
    }

    /// 4K UHD at 50.
    pub fn mode_4k2160p50() -> (r: DisplayMode)
        ensures
            r.0 == 0x346b3530,
    {
        DisplayMode(0x346b3530)
    }

    /// 4K UHD at 59.94.
    pub fn mode_4k2160p5994() -> (r: DisplayMode)
        ensures
            r.0 == 0x346b3539,
    {
        DisplayMode(0x346b3539)
    }

    /// 4K UHD at 60.
    pub fn mode_4k2160p60() -> (r: DisplayMode)
        ensures
            r.0 == 0x346b3630,
    {
        DisplayMode(0x346b3630)
    }

    /// 4K DCI at 23.98.
    pub fn mode_4kdci2398() -> (r: DisplayMode)
        ensures
            r.0 == 0x34643233,
    {
        DisplayMode(0x34643233)
    }

    /// 4K DCI at 24.
    pub fn mode_4kdci24() -> (r: DisplayMode)
        ensures
            r.0 == 0x34643234,
    {
        DisplayMode(0x34643234)
    }

    /// 4K DCI at 25.
    pub fn mode_4kdci25() -> (r: DisplayMode)
        ensures
            r.0 == 0x34643235,
    {
        DisplayMode(0x34643235)
    }

    /// 4K DCI at 29.97.
    pub fn mode_4kdci2997() -> (r: DisplayMode)
        ensures
            r.0 == 0x34643239,
    {
        DisplayMode(0x34643239)
    }

    /// 4K DCI at 30.
    pub fn mode_4kdci30() -> (r: DisplayMode)
        ensures
            r.0 == 0x34643330,
    {
        DisplayMode(0x34643330)
    }

    /// 4K DCI at 50.
    pub fn mode_4kdci50() -> (r: DisplayMode)
        ensures
            r.0 == 0x34643530,
    {
        DisplayMode(0x34643530)
    }

    /// 4K DCI at 59.94.
    pub fn mode_4kdci5994() -> (r: DisplayMode)
        ensures
            r.0 == 0x34643539,
    {
        DisplayMode(0x34643539)
    }

    /// 4K DCI at 60.
    pub fn mode_4kdci60() -> (r: DisplayMode)
        ensures
            r.0 == 0x34643630,
    {
        DisplayMode(0x34643630)
    }

    /// 8K UHD at 23.98.
    pub fn mode_8k4320p2398() -> (r: DisplayMode)
        ensures
            r.0 == 0x386b3233,
    {
        DisplayMode(0x386b3233)
    }

    /// 8K UHD at 24.
    pub fn mode_8k4320p24() -> (r: DisplayMode)
        ensures
            r.0 == 0x386b3234,
    {
        DisplayMode(0x386b3234)
    }

    /// 8K UHD at 25.
    pub fn mode_8k4320p25() -> (r: DisplayMode)
        ensures
            r.0 == 0x386b3235,
    {
        DisplayMode(0x386b3235)
    }

    /// 8K UHD at 29.97.
    pub fn mode_8k4320p2997() -> (r: DisplayMode)
        ensures
            r.0 == 0x386b3239,
    {
        DisplayMode(0x386b3239)
    }

    /// 8K UHD at 30.
    pub fn mode_8k4320p30() -> (r: DisplayMode)
        ensures
            r.0 == 0x386b3330,
    {
        DisplayMode(0x386b3330)
    }

    /// 8K UHD at 50.
    pub fn mode_8k4320p50() -> (r: DisplayMode)
        ensures
            r.0 == 0x386b3530,
    {
        DisplayMode(0x386b3530)
    }

    /// 8K UHD at 59.94.
    pub fn mode_8k4320p5994() -> (r: DisplayMode)
        ensures
            r.0 == 0x386b3539,
    {
        DisplayMode(0x386b3539)
    }

    /// 8K UHD at 60.
    pub fn mode_8k4320p60() -> (r: DisplayMode)
        ensures
            r.0 == 0x386b3630,
    {
        DisplayMode(0x386b3630)
    }

    /// 8K DCI at 23.98.
    pub fn mode_8kdci2398() -> (r: DisplayMode)
        ensures
            r.0 == 0x38643233,
    {
        DisplayMode(0x38643233)
    }

    /// 8K DCI at 24.
    pub fn mode_8kdci24() -> (r: DisplayMode)
        ensures
            r.0 == 0x38643234,
    {
        DisplayMode(0x38643234)
    }

    /// 8K DCI at 25.
    pub fn mode_8kdci25() -> (r: DisplayMode)
        ensures
            r.0 == 0x38643235,
    {
        DisplayMode(0x38643235)
    }

    /// 8K DCI at 29.97.
    pub fn mode_8kdci2997() -> (r: DisplayMode)
        ensures
            r.0 == 0x38643239,
    {
        DisplayMode(0x38643239)
    }

    /// 8K DCI at 30.
    pub fn mode_8kdci30() -> (r: DisplayMode)
        ensures
            r.0 == 0x38643330,
    {
        DisplayMode(0x38643330)
    }

    /// 8K DCI at 50.
    pub fn mode_8kdci50() -> (r: DisplayMode)
        ensures
            r.0 == 0x38643530,
    {
        DisplayMode(0x38643530)
    }

    /// 8K DCI at 59.94.
    pub fn mode_8kdci5994() -> (r: DisplayMode)
        ensures
            r.0 == 0x38643539,
    {
        DisplayMode(0x38643539)
    }

    /// 8K DCI at 60.
    pub fn mode_8kdci60() -> (r: DisplayMode)
        ensures
            r.0 == 0x38643630,
    {
        DisplayMode(0x38643630)
    }

    /// Cintel raw scan.
    pub fn mode_cintel_raw() -> (r: DisplayMode)
        ensures
            r.0 == 0x72776369,
    {
        DisplayMode(0x72776369)
    }

    /// Cintel compressed raw scan.
    pub fn mode_cintel_compressed_raw() -> (r: DisplayMode)
        ensures
            r.0 == 0x72776370,
    {
        DisplayMode(0x72776370)
    }

    /// Unknown or unset mode.
    pub fn mode_unknown() -> (r: DisplayMode)
        ensures
            r.0 == 0x69756e6b,
    {
        DisplayMode(0x69756e6b)
    }

}

/// A timecode format, by its native value.
#[derive(Clone, Copy, Debug, PartialEq, Eq, Structural)]
pub struct TimecodeFormat(pub u32);

impl TimecodeFormat {
    /// RP 188 VITC, field 1.
    pub fn format_rp188_vitc1() -> (r: TimecodeFormat)
        ensures
            r.0 == 0x72707631,
    {
        TimecodeFormat(0x72707631)
    }

    /// RP 188 VITC, field 2.
    pub fn format_rp188_vitc2() -> (r: TimecodeFormat)
        ensures
            r.0 == 0x72703132,
    {
        TimecodeFormat(0x72703132)
    }

    /// RP 188 LTC.
    pub fn format_rp188_ltc() -> (r: TimecodeFormat)
        ensures
            r.0 == 0x72706c74,
    {
        TimecodeFormat(0x72706c74)
    }

    /// RP 188 high frame rate.
    pub fn format_rp188_high_frame_rate() -> (r: TimecodeFormat)
        ensures
            r.0 == 0x72706872,
    {
        TimecodeFormat(0x72706872)
    }

    /// Any RP 188 timecode.
    pub fn format_rp188_any() -> (r: TimecodeFormat)
        ensures
            r.0 == 0x72703138,
    {
        TimecodeFormat(0x72703138)
    }

    /// VITC, field 1.
    pub fn format_vitc() -> (r: TimecodeFormat)
        ensures
            r.0 == 0x76697463,
    {
        TimecodeFormat(0x76697463)
    }

    /// VITC, field 2.
    pub fn format_vitc_field2() -> (r: TimecodeFormat)
        ensures
            r.0 == 0x76697432,
    {
        TimecodeFormat(0x76697432)
    }

    /// Serial timecode.
    pub fn format_serial() -> (r: TimecodeFormat)
        ensures
            r.0 == 0x73657269,
    {
        TimecodeFormat(0x73657269)
    }

}

} // verus!
