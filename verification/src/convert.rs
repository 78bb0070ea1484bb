//! The pixel-format converter.

use vstd::prelude::*;
use crate::CreationError;
use crate::Error;
use crate::frame::VideoFrame;
use crate::handle::NativeHandle;
use crate::host::{appended_object, converted, drop_ref, Host};

verus! {

/// A frame converter instance: one owned reference.
pub struct VideoConversion {
    handle: NativeHandle,
}

impl VideoConversion {
    /// The table index of the underlying native object.
    pub closed spec fn id(self) -> int {
        self.handle.id()
    }

    /// The facade references a live converter of `host`.
    pub open spec fn wf(self, host: Host) -> bool {
        host.live(self.id()) && host.body_of(self.id()) is Converter
    }

    /// Creates a converter.  A vendor side whose factory is unavailable —
    /// a missing or outdated driver — yields a descriptive construction
    /// failure instead of a native code.
    pub fn new(host: &mut Host) -> (r: Result<VideoConversion, CreationError>)
        ensures
            !old(host).conversion_available ==> (r matches Err(e) && e.message@
                == "unable to create the video converter. the latest drivers may need to be installed"@
                && final(host).objects@ == old(host).objects@ && final(host).same_config(
                *old(host),
            )),
            old(host).conversion_available ==> (r matches Ok(c) && c.wf(*final(host))
                && appended_object(*old(host), *final(host), c.id() as usize) && c.id() == old(host).objects@.len()),
    {
        match host.create_converter() {
            Some(c) => Ok(VideoConversion { handle: NativeHandle::attach(c) }),
            None => Err(
                CreationError {
                    message:
                        "unable to create the video converter. the latest drivers may need to be installed",
                },
            ),
        }
    }

    /// Releases this facade's reference, exactly once.
    pub fn release(self, host: &mut Host)
        requires
            old(host).live(self.id()),
        ensures
            final(host).objects@ == drop_ref(old(host).objects@, self.id()),
            final(host).same_config(*old(host)),
    {
        self.handle.release(host);
    }

    /// Converts one frame into another: the destination's pixel buffer
    /// becomes the conversion of the source's, in the destination's own
    /// size; no other state changes and no reference count moves.
    pub fn convert_frame<S: VideoFrame, D: VideoFrame>(
        &self,
        host: &mut Host,
        src_frame: &S,
        dst_frame: &D,
    ) -> (r: Result<(), Error>)
        requires
            self.wf(*old(host)),
            old(host).live(src_frame.id()),
            old(host).body_of(src_frame.id()) is Frame,
            old(host).live(dst_frame.id()),
            old(host).body_of(dst_frame.id()) is Frame,
            src_frame.id() != dst_frame.id(),
        ensures
            r == Ok::<(), Error>(()),
            final(host).entry_mutated(*old(host), dst_frame.id()),
            final(host).body_of(dst_frame.id()) is Frame,
            final(host).frame_state(dst_frame.id()) == old(host).frame_state(
                dst_frame.id(),
            ).with_bytes(
                converted(
                    old(host).frame_state(src_frame.id()).bytes,
                    old(host).frame_state(dst_frame.id()).bytes.len(),
                ),
            ),
    {
        let code = host.convert_frame(
            self.handle.index(),
            src_frame.frame_index(),
            dst_frame.frame_index(),
        );
        crate::result::void_result(code)
    }
}

} // verus!
