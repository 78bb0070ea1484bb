//! The playback endpoint, its completion callback, and the playback
//! trampolines.

use vstd::prelude::*;
use crate::Error;
use crate::bridge::Delivery;
use crate::catalog::{DisplayMode, FrameFlags, OutputFrameCompletionResult, PixelFormat,
    VideoOutputFlags};
use crate::display::DisplayModeIterator;
use crate::frame::{MutableVideoFrame, VideoFrame};
use crate::handle::NativeHandle;
use crate::host::{appended_object, drop_ref, EnumState, FrameState, Host};
use crate::result::{E_FAIL, E_INVALIDARG, S_OK};

verus! {

/// The playback endpoint of one device: one owned reference.
pub struct Output {
    handle: NativeHandle,
}

impl Output {
    /// The table index of the underlying native object.
    pub closed spec fn id(self) -> int {
        self.handle.id()
    }

    /// The facade references a live playback endpoint of `host`.
    pub open spec fn wf(self, host: Host) -> bool {
        host.live(self.id()) && host.body_of(self.id()) is Output
    }

    /// Wraps a freshly-owned reference.
    pub(crate) fn from_handle(handle: NativeHandle) -> (r: Output)
        ensures
            r.id() == handle.id(),
    {
        Output { handle }
    }

    /// Releases this facade's reference, exactly once.
    pub fn release(self, host: &mut Host)
        requires
            old(host).live(self.id()),
        ensures
            final(host).objects@ == drop_ref(old(host).objects@, self.id()),
            final(host).same_config(*old(host)),
    {
        self.handle.release(host);
    }

    /// A fresh one-shot enumerator over the endpoint's display modes.
    pub fn get_display_mode_iterator(&self, host: &mut Host) -> (r: Result<
        DisplayModeIterator,
        Error,
    >)
        requires
            self.wf(*old(host)),
        ensures
            r matches Ok(it) && it.wf(*final(host)) && appended_object(
                *old(host),
                *final(host),
                it.id() as usize,
            ) && it.id() == old(host).objects@.len() && final(host).enum_state(it.id()) == (
            EnumState {
                items: old(host).endpoint_modes_of(self.id()),
                pos: 0,
                done: false,
                fault: None,
            }),
    {
        let e = host.create_display_mode_enumerator(self.handle.index());
        Ok(DisplayModeIterator::from_handle(NativeHandle::attach(e)))
    }

    /// Creates a mutable frame for playback: a fresh owned frame whose
    /// zeroed pixel buffer holds exactly `row_bytes * height` bytes; bad
    /// geometry is a native error, surfaced verbatim.
    pub fn create_video_frame(
        &self,
        host: &mut Host,
        width: i32,
        height: i32,
        row_bytes: i32,
        pixel_format: PixelFormat,
        flags: FrameFlags,
    ) -> (r: Result<MutableVideoFrame, Error>)
        requires
            self.wf(*old(host)),
        ensures
            Host::frame_geometry_ok(width, height, row_bytes) ==> (r matches Ok(f)
                && appended_object(*old(host), *final(host), f.id() as usize) && f.id() == old(host).objects@.len() && final(host).body_of(f.id()) is Frame && final(host).frame_state(
                f.id(),
            ) == (FrameState {
                width,
                height,
                row_bytes,
                pixel_format: pixel_format.0,
                frame_flags: flags.bits,
                bytes: Seq::new((row_bytes * height) as nat, |i: int| 0u8),
                timecodes: Seq::empty(),
            })),
            !Host::frame_geometry_ok(width, height, row_bytes) ==> (r matches Err(e) && e.result
                == E_INVALIDARG && final(host).objects@ == old(host).objects@ && final(host).same_config(*old(host))),
    {
        match host.create_video_frame(
            self.handle.index(),
            width,
            height,
            row_bytes,
            pixel_format.0,
            flags.bits,
        ) {
            Ok(f) => Ok(MutableVideoFrame::from_handle(NativeHandle::attach(f))),
            Err(code) => Err(Error { result: code }),
        }
    }

    /// Makes the endpoint ready to play back in the given mode.
    pub fn enable_video_output(
        &self,
        host: &mut Host,
        display_mode: DisplayMode,
        flags: VideoOutputFlags,
    ) -> (r: Result<(), Error>)
        requires
            self.wf(*old(host)),
        ensures
            r == Ok::<(), Error>(()),
            final(host).entry_mutated(*old(host), self.id()),
            final(host).body_of(self.id()) is Output,
            final(host).output_state(self.id()) == old(host).output_state(self.id()).with_video(
                true,
            ),
    {
        let code = host.enable_video_output(self.handle.index(), display_mode.0, flags.bits);
        crate::result::void_result(code)
    }

    /// Disables video playback.
    pub fn disable_video_output(&self, host: &mut Host) -> (r: Result<(), Error>)
        requires
            self.wf(*old(host)),
        ensures
            r == Ok::<(), Error>(()),
            final(host).entry_mutated(*old(host), self.id()),
            final(host).body_of(self.id()) is Output,
            final(host).output_state(self.id()) == old(host).output_state(self.id()).with_video(
                false,
            ),
    {
        let code = host.disable_video_output(self.handle.index());
        crate::result::void_result(code)
    }

    /// Arms or clears the completion-callback registration slot.  The
    /// native call is synchronous and always succeeds: once it returns
    /// with `active` false, no further trampoline invocation reaches a
    /// handler.
    pub fn set_scheduled_frame_completion_callback(&self, host: &mut Host, active: bool) -> (r:
        Result<(), Error>)
        requires
            self.wf(*old(host)),
        ensures
            r == Ok::<(), Error>(()),
            final(host).entry_mutated(*old(host), self.id()),
            final(host).body_of(self.id()) is Output,
            final(host).output_state(self.id()) == old(host).output_state(
                self.id(),
            ).with_callback(active),
    {
        host.set_output_callback(self.handle.index(), active);
        Ok(())
    }

    /// Registers a completion handler: arms the slot and moves the
    /// handler into a wrapper that guarantees the registration is cleared
    /// before the endpoint itself can be released.
    pub fn with_callback<T: VideoOutputCallback>(self, host: &mut Host, handler: T) -> (r:
        OutputWithCallback<T>)
        requires
            self.wf(*old(host)),
        ensures
            r.output_id() == self.id(),
            r.handler_spec() == handler,
            final(host).entry_mutated(*old(host), self.id()),
            final(host).body_of(self.id()) is Output,
            final(host).output_state(self.id()) == old(host).output_state(
                self.id(),
            ).with_callback(true),
    {
        match self.set_scheduled_frame_completion_callback(host, true) {
            Ok(()) => {},
            Err(_) => {
                proof {
                    assert(false);
                }
            },
        }
        OutputWithCallback { output: self, handler }
    }

    /// Starts scheduled playback: succeeds exactly when video output is
    /// enabled.
    pub fn start_scheduled_playback(
        &self,
        host: &mut Host,
        playback_start_time: i64,
        time_scale: i64,
    ) -> (r: Result<(), Error>)
        requires
            self.wf(*old(host)),
        ensures
            final(host).same_config(*old(host)),
            old(host).output_state(self.id()).video_enabled ==> (r == Ok::<(), Error>(())
                && final(host).entry_mutated(*old(host), self.id()) && final(host).body_of(
                self.id(),
            ) is Output && final(host).output_state(self.id()) == old(host).output_state(
                self.id(),
            ).with_playback(true)),
            !old(host).output_state(self.id()).video_enabled ==> (r matches Err(e) && e.result
                == E_FAIL && final(host).objects@ == old(host).objects@),
    {
        let code = host.start_scheduled_playback(
            self.handle.index(),
            playback_start_time,
            time_scale,
        );
        crate::result::void_result(code)
    }

    /// Schedules a frame for playback, taking ownership of it: on success
    /// the frame's reference moves into the endpoint's queue; on failure
    /// — video output not enabled — the frame is released, exactly once,
    /// and the error carries the native code.
    pub fn schedule_video_frame(
        &self,
        host: &mut Host,
        frame: MutableVideoFrame,
        display_time: i64,
        display_duration: i64,
        time_scale: i64,
    ) -> (r: Result<(), Error>)
        requires
            self.wf(*old(host)),
            old(host).live(frame.id()),
            old(host).body_of(frame.id()) is Frame,
        ensures
            final(host).same_config(*old(host)),
            old(host).output_state(self.id()).video_enabled ==> (r == Ok::<(), Error>(())
                && final(host).entry_mutated(*old(host), self.id()) && final(host).body_of(
                self.id(),
            ) is Output && final(host).output_state(self.id()) == old(host).output_state(
                self.id(),
            ).with_queue(old(host).output_state(self.id()).queue.push(frame.id() as usize))),
            !old(host).output_state(self.id()).video_enabled ==> (r matches Err(e) && e.result
                == E_FAIL && final(host).objects@ == drop_ref(old(host).objects@, frame.id())),
    {
        let _ = display_time;
        let _ = display_duration;
        let _ = time_scale;
        let handle = frame.into_handle();
        let code = host.schedule_video_frame(self.handle.index(), handle.index());
        if code == S_OK {
            let _ = handle;
            Ok(())
        } else {
            handle.release(host);
            Err(Error { result: code })
        }
    }
}

/// The capability set a playback completion handler implements.  Handlers
/// are invoked from the vendor side's own thread; a completed frame
/// arrives with its own reference, which the handler is responsible for
/// releasing.
pub trait VideoOutputCallback: Sized {
    /// A scheduled frame has been completed (displayed, displayed late,
    /// dropped or flushed).
    fn scheduled_frame_completed(
        &mut self,
        host: &mut Host,
        completed_frame: MutableVideoFrame,
        result: OutputFrameCompletionResult,
    ) -> (r: Result<(), Error>)
        requires
            old(host).live(completed_frame.id()),
            old(host).body_of(completed_frame.id()) is Frame,
    ;

    /// Scheduled playback has stopped.
    fn scheduled_playback_has_stopped(&mut self, host: &mut Host) -> (r: Result<(), Error>);
}

/// A playback endpoint with an armed completion registration.  The
/// wrapper owns the handler for as long as the vendor side might invoke
/// it, and the registration is cleared — synchronously — before the
/// endpoint can be taken back out.
pub struct OutputWithCallback<T> {
    output: Output,
    handler: T,
}

impl<T: VideoOutputCallback> OutputWithCallback<T> {
    /// The table index of the underlying playback endpoint.
    pub closed spec fn output_id(self) -> int {
        self.output.id()
    }

    /// The owned handler.
    pub closed spec fn handler_spec(self) -> T {
        self.handler
    }

    /// The wrapper references a live playback endpoint of `host`.
    pub open spec fn wf(self, host: Host) -> bool {
        host.live(self.output_id()) && host.body_of(self.output_id()) is Output
    }

    /// The wrapped endpoint, for its other operations (transparent
    /// delegation).
    pub fn output(&self) -> (r: &Output)
        ensures
            r.id() == self.output_id(),
    {
        &self.output
    }

    /// The owned handler, for inspection.
    pub fn handler(&self) -> (r: &T)
        ensures
            *r == self.handler_spec(),
    {
        &self.handler
    }

    /// Clears the registration — after this returns, no further
    /// trampoline invocation occurs — and hands the endpoint back.  The
    /// handler is dropped only once the registration is gone.
    pub fn into_inner(self, host: &mut Host) -> (r: Output)
        requires
            self.wf(*old(host)),
        ensures
            r.id() == self.output_id(),
            final(host).entry_mutated(*old(host), self.output_id()),
            final(host).body_of(self.output_id()) is Output,
            final(host).output_state(self.output_id()) == old(host).output_state(
                self.output_id(),
            ).with_callback(false),
    {
        let OutputWithCallback { output, handler } = self;
        match output.set_scheduled_frame_completion_callback(host, false) {
            Ok(()) => {},
            Err(_) => {
                proof {
                    assert(false);
                }
            },
        }
        let _ = handler;
        output
    }

    /// The frame-completed trampoline.  The vendor side consults the
    /// registration slot first: with the slot cleared — or with nothing
    /// scheduled — the event is ignored and the handler is not reached.
    /// Otherwise the oldest scheduled frame comes off the queue, its
    /// reference handed to the handler, and the handler's outcome becomes
    /// the reported code.
    pub fn deliver_frame_completed(&mut self, host: &mut Host, result: OutputFrameCompletionResult)
        -> (r: Delivery)
        requires
            old(self).wf(*old(host)),
            old(host).output_state(old(self).output_id()).queue.len() > 0 ==> old(host).live(
                old(host).output_state(old(self).output_id()).queue[0] as int,
            ) && old(host).body_of(
                old(host).output_state(old(self).output_id()).queue[0] as int,
            ) is Frame,
        ensures
            final(self).output_id() == old(self).output_id(),
            !old(host).output_state(old(self).output_id()).callback ==> (r == Delivery::Ignored
                && final(host).objects@ == old(host).objects@ && final(host).same_config(
                *old(host),
            ) && final(self).handler_spec() == old(self).handler_spec()),
            old(host).output_state(old(self).output_id()).callback && old(host).output_state(
                old(self).output_id(),
            ).queue.len() > 0 ==> r is Delivered,
    {
        let armed = host.output_callback_armed(self.output.handle.index());
        if !armed {
            return Delivery::Ignored;
        }
        let taken = host.take_scheduled(self.output.handle.index());
        match taken {
            Some(f) => {
                let frame = MutableVideoFrame::from_handle(NativeHandle::attach(f));
                let outcome = self.handler.scheduled_frame_completed(host, frame, result);
                match outcome {
                    Ok(()) => Delivery::Delivered(S_OK),
                    Err(e) => Delivery::Delivered(e.result),
                }
            },
            None => Delivery::Ignored,
        }
    }

    /// The playback-stopped trampoline.  The vendor side consults the
    /// registration slot first: with the slot cleared the event is
    /// ignored and the handler is not reached.
    pub fn deliver_playback_stopped(&mut self, host: &mut Host) -> (r: Delivery)
        requires
            old(self).wf(*old(host)),
        ensures
            final(self).output_id() == old(self).output_id(),
            !old(host).output_state(old(self).output_id()).callback ==> (r == Delivery::Ignored
                && final(host).objects@ == old(host).objects@ && final(host).same_config(
                *old(host),
            ) && final(self).handler_spec() == old(self).handler_spec()),
            old(host).output_state(old(self).output_id()).callback ==> r is Delivered,
    {
        let armed = host.output_callback_armed(self.output.handle.index());
        if !armed {
            return Delivery::Ignored;
        }
        let outcome = self.handler.scheduled_playback_has_stopped(host);
        match outcome {
            Ok(()) => Delivery::Delivered(S_OK),
            Err(e) => Delivery::Delivered(e.result),
        }
    }
}

} // verus!
