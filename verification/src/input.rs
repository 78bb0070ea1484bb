//! The capture endpoint, its callback registration, and the capture
//! trampolines.

use vstd::prelude::*;
use crate::Error;
use crate::bridge::Delivery;
use crate::catalog::{
    DetectedVideoInputFormatFlags, DisplayMode, PixelFormat, VideoInputFlags,
    VideoInputFormatChangedEvents,
};
use crate::display::{DisplayModeInfo, DisplayModeIterator};
use crate::frame::{AudioInputPacket, VideoFrame, VideoInputFrame};
use crate::handle::NativeHandle;
use crate::host::{appended_object, drop_ref, EnumState, Host};
use crate::result::{E_FAIL, S_OK};

verus! {

/// The capture endpoint of one device: one owned reference.
pub struct Input {
    handle: NativeHandle,
}

impl Input {
    /// The table index of the underlying native object.
    pub closed spec fn id(self) -> int {
        self.handle.id()
    }

    /// The facade references a live capture endpoint of `host`.
    pub open spec fn wf(self, host: Host) -> bool {
        host.live(self.id()) && host.body_of(self.id()) is Input
    }

    /// Wraps a freshly-owned reference.
    pub(crate) fn from_handle(handle: NativeHandle) -> (r: Input)
        ensures
            r.id() == handle.id(),
    {
        Input { handle }
    }

    /// Releases this facade's reference, exactly once.
    pub fn release(self, host: &mut Host)
        requires
            old(host).live(self.id()),
        ensures
            final(host).objects@ == drop_ref(old(host).objects@, self.id()),
            final(host).same_config(*old(host)),
    {
        self.handle.release(host);
    }

    /// A fresh one-shot enumerator over the endpoint's display modes.
    pub fn get_display_mode_iterator(&self, host: &mut Host) -> (r: Result<
        DisplayModeIterator,
        Error,
    >)
        requires
            self.wf(*old(host)),
        ensures
            r matches Ok(it) && it.wf(*final(host)) && appended_object(
                *old(host),
                *final(host),
                it.id() as usize,
            ) && it.id() == old(host).objects@.len() && final(host).enum_state(it.id()) == (
            EnumState {
                items: old(host).endpoint_modes_of(self.id()),
                pos: 0,
                done: false,
                fault: None,
            }),
    {
        let e = host.create_display_mode_enumerator(self.handle.index());
        Ok(DisplayModeIterator::from_handle(NativeHandle::attach(e)))
    }

    /// Arms or clears the callback registration slot.  The native call is
    /// synchronous and always succeeds: once it returns with `active`
    /// false, no further trampoline invocation reaches a handler.
    pub fn set_callback(&self, host: &mut Host, active: bool) -> (r: Result<(), Error>)
        requires
            self.wf(*old(host)),
        ensures
            r == Ok::<(), Error>(()),
            final(host).entry_mutated(*old(host), self.id()),
            final(host).body_of(self.id()) is Input,
            final(host).input_state(self.id()) == old(host).input_state(self.id()).with_callback(
                active,
            ),
    {
        host.set_input_callback(self.handle.index(), active);
        Ok(())
    }

    /// Registers a handler: arms the slot and moves the handler into a
    /// wrapper that guarantees the registration is cleared before the
    /// endpoint itself can be released.
    pub fn with_callback<T: InputCallback>(self, host: &mut Host, handler: T) -> (r:
        InputWithCallback<T>)
        requires
            self.wf(*old(host)),
        ensures
            r.input_id() == self.id(),
            r.handler_spec() == handler,
            final(host).entry_mutated(*old(host), self.id()),
            final(host).body_of(self.id()) is Input,
            final(host).input_state(self.id()) == old(host).input_state(self.id()).with_callback(
                true,
            ),
    {
        match self.set_callback(host, true) {
            Ok(()) => {},
            Err(_) => {
                proof {
                    assert(false);
                }
            },
        }
        InputWithCallback { input: self, handler }
    }

    /// Makes the endpoint ready to capture in the given mode.
    pub fn enable_video_input(
        &self,
        host: &mut Host,
        display_mode: DisplayMode,
        pixel_format: PixelFormat,
        flags: VideoInputFlags,
    ) -> (r: Result<(), Error>)
        requires
            self.wf(*old(host)),
        ensures
            r == Ok::<(), Error>(()),
            final(host).entry_mutated(*old(host), self.id()),
            final(host).body_of(self.id()) is Input,
            final(host).input_state(self.id()) == old(host).input_state(self.id()).with_video(
                true,
            ),
    {
        let code = host.enable_video_input(
            self.handle.index(),
            display_mode.0,
            pixel_format.0,
            flags.bits,
        );
        crate::result::void_result(code)
    }

    /// Disables video capture.
    pub fn disable_video_input(&self, host: &mut Host) -> (r: Result<(), Error>)
        requires
            self.wf(*old(host)),
        ensures
            r == Ok::<(), Error>(()),
            final(host).entry_mutated(*old(host), self.id()),
            final(host).body_of(self.id()) is Input,
            final(host).input_state(self.id()) == old(host).input_state(self.id()).with_video(
                false,
            ),
    {
        let code = host.disable_video_input(self.handle.index());
        crate::result::void_result(code)
    }

    /// Disables audio capture.
    pub fn disable_audio_input(&self, host: &mut Host) -> (r: Result<(), Error>)
        requires
            self.wf(*old(host)),
        ensures
            r == Ok::<(), Error>(()),
            final(host).entry_mutated(*old(host), self.id()),
            final(host).body_of(self.id()) is Input,
            final(host).input_state(self.id()) == old(host).input_state(self.id()).with_audio(
                false,
            ),
    {
        let code = host.disable_audio_input(self.handle.index());
        crate::result::void_result(code)
    }

    /// Starts the streams: succeeds exactly when video input is enabled
    /// and streams are not already running; any other state is a native
    /// failure, surfaced verbatim, changing nothing.
    pub fn start_streams(&self, host: &mut Host) -> (r: Result<(), Error>)
        requires
            self.wf(*old(host)),
        ensures
            final(host).same_config(*old(host)),
            old(host).input_state(self.id()).video_enabled && !old(host).input_state(
                self.id(),
            ).running ==> (r == Ok::<(), Error>(()) && final(host).entry_mutated(
                *old(host),
                self.id(),
            ) && final(host).body_of(self.id()) is Input && final(host).input_state(self.id())
                == old(host).input_state(self.id()).with_running(true)),
            !(old(host).input_state(self.id()).video_enabled && !old(host).input_state(
                self.id(),
            ).running) ==> (r matches Err(e) && e.result == E_FAIL && final(host).objects@ == old(host).objects@),
    {
        let code = host.start_streams(self.handle.index());
        crate::result::void_result(code)
    }

    /// Stops the streams: succeeds exactly when they are running, and
    /// leaves the paused state behind as well.
    pub fn stop_streams(&self, host: &mut Host) -> (r: Result<(), Error>)
        requires
            self.wf(*old(host)),
        ensures
            final(host).same_config(*old(host)),
            old(host).input_state(self.id()).running ==> (r == Ok::<(), Error>(()) && final(host).entry_mutated(*old(host), self.id()) && final(host).body_of(self.id()) is Input
                && final(host).input_state(self.id()) == old(host).input_state(
                self.id(),
            ).with_running(false).with_paused(false)),
            !old(host).input_state(self.id()).running ==> (r matches Err(e) && e.result == E_FAIL
                && final(host).objects@ == old(host).objects@),
    {
        let code = host.stop_streams(self.handle.index());
        crate::result::void_result(code)
    }

    /// Toggles the paused state of running streams; fails — changing
    /// nothing — when streams are not running.
    pub fn pause_streams(&self, host: &mut Host) -> (r: Result<(), Error>)
        requires
            self.wf(*old(host)),
        ensures
            final(host).same_config(*old(host)),
            old(host).input_state(self.id()).running ==> (r == Ok::<(), Error>(()) && final(host).entry_mutated(*old(host), self.id()) && final(host).body_of(self.id()) is Input
                && final(host).input_state(self.id()) == old(host).input_state(
                self.id(),
            ).with_paused(!old(host).input_state(self.id()).paused)),
            !old(host).input_state(self.id()).running ==> (r matches Err(e) && e.result == E_FAIL
                && final(host).objects@ == old(host).objects@),
    {
        let code = host.pause_streams(self.handle.index());
        crate::result::void_result(code)
    }

    /// Discards buffered data: succeeds exactly when video input is
    /// enabled, and changes no observable state.
    pub fn flush_streams(&self, host: &mut Host) -> (r: Result<(), Error>)
        requires
            self.wf(*old(host)),
        ensures
            final(host).objects@ == old(host).objects@,
            final(host).same_config(*old(host)),
            old(host).input_state(self.id()).video_enabled ==> r == Ok::<(), Error>(()),
            !old(host).input_state(self.id()).video_enabled ==> (r matches Err(e) && e.result
                == E_FAIL),
    {
        let code = host.flush_streams(self.handle.index());
        crate::result::void_result(code)
    }
}

/// The capability set a capture handler implements.  Handlers are invoked
/// from the vendor side's own thread; each received facade carries its
/// own fresh reference, which the handler is responsible for releasing.
pub trait InputCallback: Sized {
    /// The input format changed.
    fn video_input_format_changed(
        &mut self,
        host: &mut Host,
        notification_events: VideoInputFormatChangedEvents,
        new_display_mode: DisplayModeInfo,
        detected_signal_flags: DetectedVideoInputFormatFlags,
    ) -> (r: Result<(), Error>)
        requires
            new_display_mode.wf(*old(host)),
    ;

    /// A frame (and possibly an audio packet) arrived.
    fn video_input_frame_arrived(
        &mut self,
        host: &mut Host,
        video_frame: Option<VideoInputFrame>,
        audio_packet: Option<AudioInputPacket>,
    ) -> (r: Result<(), Error>)
        requires
            video_frame matches Some(f) ==> old(host).live(f.id()) && old(host).body_of(
                f.id(),
            ) is Frame,
            audio_packet matches Some(p) ==> p.wf(*old(host)),
    ;
}

/// A capture endpoint with an armed callback registration.  The wrapper
/// owns the handler for as long as the vendor side might invoke it, and
/// the registration is cleared — synchronously — before the endpoint can
/// be taken back out.
pub struct InputWithCallback<T> {
    input: Input,
    handler: T,
}

impl<T: InputCallback> InputWithCallback<T> {
    /// The table index of the underlying capture endpoint.
    pub closed spec fn input_id(self) -> int {
        self.input.id()
    }

    /// The owned handler.
    pub closed spec fn handler_spec(self) -> T {
        self.handler
    }

    /// The wrapper references a live capture endpoint of `host`.
    pub open spec fn wf(self, host: Host) -> bool {
        host.live(self.input_id()) && host.body_of(self.input_id()) is Input
    }

    /// The wrapped endpoint, for its other operations (transparent
    /// delegation).
    pub fn input(&self) -> (r: &Input)
        ensures
            r.id() == self.input_id(),
    {
        &self.input
    }

    /// The owned handler, for inspection.
    pub fn handler(&self) -> (r: &T)
        ensures
            *r == self.handler_spec(),
    {
        &self.handler
    }

    /// Clears the registration — after this returns, no further
    /// trampoline invocation occurs — and hands the endpoint back.  The
    /// handler is dropped only once the registration is gone.
    pub fn into_inner(self, host: &mut Host) -> (r: Input)
        requires
            self.wf(*old(host)),
        ensures
            r.id() == self.input_id(),
            final(host).entry_mutated(*old(host), self.input_id()),
            final(host).body_of(self.input_id()) is Input,
            final(host).input_state(self.input_id()) == old(host).input_state(
                self.input_id(),
            ).with_callback(false),
    {
        let InputWithCallback { input, handler } = self;
        match input.set_callback(host, false) {
            Ok(()) => {},
            Err(_) => {
                proof {
                    assert(false);
                }
            },
        }
        let _ = handler;
        input
    }

    /// The format-changed trampoline.  The vendor side consults the
    /// registration slot first: with the slot cleared the event is
    /// ignored and the handler is not reached.  Otherwise each native
    /// argument is wrapped — the display mode behind a fresh reference of
    /// its own — and the handler's outcome becomes the reported code.
    pub fn deliver_format_changed(
        &mut self,
        host: &mut Host,
        notification_events: u32,
        new_display_mode: usize,
        detected_signal_flags: u32,
    ) -> (r: Delivery)
        requires
            old(self).wf(*old(host)),
            old(host).live(new_display_mode as int),
            old(host).body_of(new_display_mode as int) is ModeInfo,
            old(host).refs_of(new_display_mode as int) < u64::MAX,
        ensures
            final(self).input_id() == old(self).input_id(),
            !old(host).input_state(old(self).input_id()).callback ==> (r == Delivery::Ignored
                && final(host).objects@ == old(host).objects@ && final(host).same_config(
                *old(host),
            ) && final(self).handler_spec() == old(self).handler_spec()),
            old(host).input_state(old(self).input_id()).callback ==> r is Delivered,
    {
        let armed = host.input_callback_armed(self.input.handle.index());
        if !armed {
            return Delivery::Ignored;
        }
        let handle = NativeHandle::attach(new_display_mode);
        let owned = handle.add_reference(host);
        let mode = DisplayModeInfo::from_handle(owned);
        let outcome = self.handler.video_input_format_changed(
            host,
            VideoInputFormatChangedEvents::from_bits_truncate(notification_events),
            mode,
            DetectedVideoInputFormatFlags::from_bits_truncate(detected_signal_flags),
        );
        match outcome {
            Ok(()) => Delivery::Delivered(S_OK),
            Err(e) => Delivery::Delivered(e.result),
        }
    }

    /// The frame-arrived trampoline.  The vendor side consults the
    /// registration slot first: with the slot cleared the event is
    /// ignored and the handler is not reached.  Otherwise each non-null
    /// native argument is wrapped behind a fresh reference of its own,
    /// and the handler's outcome becomes the reported code.
    pub fn deliver_frame_arrived(
        &mut self,
        host: &mut Host,
        video_frame: Option<usize>,
        audio_packet: Option<usize>,
    ) -> (r: Delivery)
        requires
            old(self).wf(*old(host)),
            video_frame matches Some(f) ==> old(host).live(f as int) && old(host).body_of(
                f as int,
            ) is Frame && old(host).refs_of(f as int) < u64::MAX,
            audio_packet matches Some(p) ==> old(host).live(p as int) && old(host).body_of(
                p as int,
            ) is AudioPacket && old(host).refs_of(p as int) < u64::MAX,
            video_frame matches Some(f) && audio_packet matches Some(p) ==> f != p,
        ensures
            final(self).input_id() == old(self).input_id(),
            !old(host).input_state(old(self).input_id()).callback ==> (r == Delivery::Ignored
                && final(host).objects@ == old(host).objects@ && final(host).same_config(
                *old(host),
            ) && final(self).handler_spec() == old(self).handler_spec()),
            old(host).input_state(old(self).input_id()).callback ==> r is Delivered,
    {
        let armed = host.input_callback_armed(self.input.handle.index());
        if !armed {
            return Delivery::Ignored;
        }
        let frame = match video_frame {
            Some(f) => {
                let handle = NativeHandle::attach(f);
                let owned = handle.add_reference(host);
                Some(VideoInputFrame::from_handle(owned))
            },
            None => None,
        };
        let packet = match audio_packet {
            Some(p) => {
                let handle = NativeHandle::attach(p);
                let owned = handle.add_reference(host);
                Some(AudioInputPacket::from_handle(owned))
            },
            None => None,
        };
        let outcome = self.handler.video_input_frame_arrived(host, frame, packet);
        match outcome {
            Ok(()) => Delivery::Delivered(S_OK),
            Err(e) => Delivery::Delivered(e.result),
        }
    }
}

} // verus!
