//! Video frames, audio packets and timecodes.
//!
//! A frame facade owns one reference to a native frame object and exposes
//! its geometry and its pixel buffer.  Reading yields an owned copy;
//! writing (on a mutable frame) replaces the buffer wholesale and is the
//! one mutable access path, so a written buffer reads back exactly as
//! written.

use vstd::prelude::*;
use crate::Error;
use crate::catalog::{FrameFlags, PixelFormat, TimecodeFormat};
use crate::handle::NativeHandle;
use crate::host::{assoc, bump, drop_ref, Host};
use crate::result::E_INVALIDARG;
use crate::text::text_of;

verus! {

/// A timecode carried by a frame: one owned reference.
pub struct Timecode {
    handle: NativeHandle,
}

impl Timecode {
    /// The table index of the underlying native object.
    pub closed spec fn id(self) -> int {
        self.handle.id()
    }

    /// The facade references a live timecode object of `host`.
    pub open spec fn wf(self, host: Host) -> bool {
        host.live(self.id()) && host.body_of(self.id()) is Timecode
    }

    /// Wraps a freshly-owned reference.
    pub(crate) fn from_handle(handle: NativeHandle) -> (r: Timecode)
        ensures
            r.id() == handle.id(),
    {
        Timecode { handle }
    }

    /// Releases this facade's reference, exactly once.
    pub fn release(self, host: &mut Host)
        requires
            old(host).live(self.id()),
        ensures
            final(host).objects@ == drop_ref(old(host).objects@, self.id()),
            final(host).same_config(*old(host)),
    {
        self.handle.release(host);
    }

    /// The timecode's components: hours, minutes, seconds, frames.
    pub fn get_components(&self, host: &Host) -> (r: Result<(u8, u8, u8, u8), Error>)
        requires
            self.wf(*host),
        ensures
            r matches Ok(c) && c.0 == host.timecode_state(self.id()).hours && c.1
                == host.timecode_state(self.id()).minutes && c.2 == host.timecode_state(
                self.id(),
            ).seconds && c.3 == host.timecode_state(self.id()).frames,
    {
        Ok(host.timecode_get_components(self.handle.index()))
    }

    /// The timecode's textual rendering, through a transient native
    /// buffer that is created and released again.
    pub fn get_string(&self, host: &mut Host) -> (r: Result<String, Error>)
        requires
            self.wf(*old(host)),
        ensures
            r matches Ok(s) && text_of(s@, old(host).timecode_state(self.id()).text),
            final(host).objects@.len() == old(host).objects@.len() + 1,
            final(host).objects@.take(old(host).objects@.len() as int) == old(host).objects@,
            final(host).refs_of(old(host).objects@.len() as int) == 0,
            final(host).same_config(*old(host)),
    {
        let b = host.timecode_text_buffer(self.handle.index());
        let buffer = NativeHandle::attach(b);
        let text = crate::marshal::buffer_to_string(host, buffer);
        proof {
            assert(host.objects@.take(old(host).objects@.len() as int) =~= old(host).objects@);
        }
        Ok(text)
    }
}

/// The read-only operations every frame facade shares.
pub trait VideoFrame: Sized {
    /// The table index of the underlying native frame object.
    spec fn id(self) -> int;

    /// The table index, for handing to native operations.
    fn frame_index(&self) -> (r: usize)
        ensures
            r == self.id(),
    ;

    /// The frame's width in pixels.
    fn get_width(&self, host: &Host) -> (r: i32)
        requires
            host.live(self.id()),
            host.body_of(self.id()) is Frame,
        ensures
            r == host.frame_state(self.id()).width,
    {
        host.frame_get_width(self.frame_index())
    }

    /// The frame's height in rows.
    fn get_height(&self, host: &Host) -> (r: i32)
        requires
            host.live(self.id()),
            host.body_of(self.id()) is Frame,
        ensures
            r == host.frame_state(self.id()).height,
    {
        host.frame_get_height(self.frame_index())
    }

    /// The frame's row stride in bytes.
    fn get_row_bytes(&self, host: &Host) -> (r: i32)
        requires
            host.live(self.id()),
            host.body_of(self.id()) is Frame,
        ensures
            r == host.frame_state(self.id()).row_bytes,
    {
        host.frame_get_row_bytes(self.frame_index())
    }

    /// The frame's pixel format.
    fn get_pixel_format(&self, host: &Host) -> (r: PixelFormat)
        requires
            host.live(self.id()),
            host.body_of(self.id()) is Frame,
        ensures
            r.0 == host.frame_state(self.id()).pixel_format,
    {
        PixelFormat(host.frame_get_pixel_format(self.frame_index()))
    }

    /// The frame's flags, truncated to the known bits.
    fn get_flags(&self, host: &Host) -> (r: FrameFlags)
        requires
            host.live(self.id()),
            host.body_of(self.id()) is Frame,
        ensures
            r.bits == host.frame_state(self.id()).frame_flags & 0xC0000007,
    {
        FrameFlags::from_bits_truncate(host.frame_get_flags(self.frame_index()))
    }

    /// The frame's pixel buffer — `row_bytes * height` bytes — as an
    /// owned copy.
    fn get_bytes(&self, host: &Host) -> (r: Result<Vec<u8>, Error>)
        requires
            host.live(self.id()),
            host.body_of(self.id()) is Frame,
        ensures
            r matches Ok(b) && b@ == host.frame_state(self.id()).bytes,
    {
        Ok(host.frame_get_bytes(self.frame_index()))
    }

    /// The frame's timecode in the given format: a fresh owned reference,
    /// or `None` — the reserved "no value" outcome, not an error — where
    /// the frame carries none.
    fn get_timecode(&self, host: &mut Host, format: TimecodeFormat) -> (r: Result<
        Option<Timecode>,
        Error,
    >)
        requires
            old(host).live(self.id()),
            old(host).body_of(self.id()) is Frame,
            assoc(old(host).frame_state(self.id()).timecodes, format.0) matches Some(t) ==> old(host).live(t as int) && old(host).refs_of(t as int) < u64::MAX,
        ensures
            match assoc(old(host).frame_state(self.id()).timecodes, format.0) {
                Some(t) => (r matches Ok(o) && o matches Some(tc) && tc.id() == t && final(host).objects@ == bump(old(host).objects@, t as int)),
                None => r matches Ok(o) && o is None && final(host).objects@ == old(host).objects@,
            },
            final(host).same_config(*old(host)),
    {
        match host.frame_get_timecode(self.frame_index(), format.0) {
            Some(t) => Ok(Some(Timecode::from_handle(NativeHandle::attach(t)))),
            None => Ok(None),
        }
    }
}

/// A frame delivered by the capture endpoint: one owned reference.
pub struct VideoInputFrame {
    handle: NativeHandle,
}

impl VideoInputFrame {
    /// Wraps a freshly-owned reference.
    pub(crate) fn from_handle(handle: NativeHandle) -> (r: VideoInputFrame)
        ensures
            r.id() == handle.id(),
    {
        VideoInputFrame { handle }
    }

    /// Releases this facade's reference, exactly once.
    pub fn release(self, host: &mut Host)
        requires
            old(host).live(self.id()),
        ensures
            final(host).objects@ == drop_ref(old(host).objects@, self.id()),
            final(host).same_config(*old(host)),
    {
        self.handle.release(host);
    }
}

impl VideoFrame for VideoInputFrame {
    closed spec fn id(self) -> int {
        self.handle.id()
    }

    fn frame_index(&self) -> (r: usize) {
        self.handle.index()
    }
}

/// A frame created for playback: one owned reference, with the one
/// mutable access path to its pixel buffer.
pub struct MutableVideoFrame {
    handle: NativeHandle,
}

impl MutableVideoFrame {
    /// Wraps a freshly-owned reference.
    pub(crate) fn from_handle(handle: NativeHandle) -> (r: MutableVideoFrame)
        ensures
            r.id() == handle.id(),
    {
        MutableVideoFrame { handle }
    }

    /// Releases this facade's reference, exactly once.
    pub fn release(self, host: &mut Host)
        requires
            old(host).live(self.id()),
        ensures
            final(host).objects@ == drop_ref(old(host).objects@, self.id()),
            final(host).same_config(*old(host)),
    {
        self.handle.release(host);
    }

    /// Hands the underlying reference over (to scheduling, which takes
    /// ownership of the frame).
    pub(crate) fn into_handle(self) -> (r: NativeHandle)
        ensures
            r.id() == self.id(),
    {
        self.handle
    }

    /// Writes the frame's pixel buffer through the mutable byte view:
    /// exactly the buffer's `row_bytes * height` bytes, replaced
    /// wholesale.  Reading afterwards returns exactly these bytes.  Data
    /// of any other length is a native error and changes nothing.
    pub fn write_bytes(&self, host: &mut Host, data: &[u8]) -> (r: Result<(), Error>)
        requires
            old(host).live(self.id()),
            old(host).body_of(self.id()) is Frame,
        ensures
            data@.len() == old(host).frame_state(self.id()).bytes.len() ==> (r == Ok::<(), Error>(
                (),
            ) && final(host).entry_mutated(*old(host), self.id()) && final(host).body_of(
                self.id(),
            ) is Frame && final(host).frame_state(self.id()) == old(host).frame_state(
                self.id(),
            ).with_bytes(data@)),
            data@.len() != old(host).frame_state(self.id()).bytes.len() ==> (r matches Err(e)
                && e.result == E_INVALIDARG && final(host).objects@ == old(host).objects@
                && final(host).same_config(*old(host))),
    {
        match host.frame_write_bytes(self.handle.index(), data) {
            Ok(()) => Ok(()),
            Err(code) => Err(Error { result: code }),
        }
    }
}

impl VideoFrame for MutableVideoFrame {
    closed spec fn id(self) -> int {
        self.handle.id()
    }

    fn frame_index(&self) -> (r: usize) {
        self.handle.index()
    }
}

/// Writing bytes into a mutable frame's byte view and reading them back
/// through the immutable view on the same handle returns the identical
/// bytes: a write leaves the frame's state carrying exactly the written
/// bytes, and a read returns exactly the state's bytes.
pub proof fn lemma_write_read_round_trip(pre: Host, post: Host, i: int, data: Seq<u8>)
    requires
        post.frame_state(i) == pre.frame_state(i).with_bytes(data),
    ensures
        post.frame_state(i).bytes == data,
{
}

/// An audio packet delivered alongside captured frames: one owned
/// reference.
pub struct AudioInputPacket {
    handle: NativeHandle,
}

impl AudioInputPacket {
    /// The table index of the underlying native object.
    pub closed spec fn id(self) -> int {
        self.handle.id()
    }

    /// The facade references a live audio packet object of `host`.
    pub open spec fn wf(self, host: Host) -> bool {
        host.live(self.id()) && host.body_of(self.id()) is AudioPacket
    }

    /// Wraps a freshly-owned reference.
    pub(crate) fn from_handle(handle: NativeHandle) -> (r: AudioInputPacket)
        ensures
            r.id() == handle.id(),
    {
        AudioInputPacket { handle }
    }

    /// Releases this facade's reference, exactly once.
    pub fn release(self, host: &mut Host)
        requires
            old(host).live(self.id()),
        ensures
            final(host).objects@ == drop_ref(old(host).objects@, self.id()),
            final(host).same_config(*old(host)),
    {
        self.handle.release(host);
    }
}

} // verus!
