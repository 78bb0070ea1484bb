use decklink::bridge::Delivery;
use decklink::catalog::{
    DetectedVideoInputFormatFlags, OutputFrameCompletionResult, TimecodeFormat,
    VideoInputFormatChangedEvents,
};
use decklink::device::{input_interface_id, output_interface_id};
use decklink::display::DisplayModeInfo;
use decklink::frame::{AudioInputPacket, MutableVideoFrame, VideoFrame, VideoInputFrame};
use decklink::host::{Host, ObjectBody};
use decklink::input::{Input, InputCallback};
use decklink::iterate::DeviceIterator;
use decklink::output::{Output, VideoOutputCallback};
use decklink::Error;

struct Recorder {
    frames_seen: usize,
    packets_seen: usize,
    format_changes: usize,
    last_mode: u32,
    last_components: (u8, u8, u8, u8),
    fail_with: Option<i32>,
}

impl Recorder {
    fn new() -> Recorder {
        Recorder {
            frames_seen: 0,
            packets_seen: 0,
            format_changes: 0,
            last_mode: 0,
            last_components: (0, 0, 0, 0),
            fail_with: None,
        }
    }
}

impl InputCallback for Recorder {
    fn video_input_format_changed(
        &mut self,
        host: &mut Host,
        _notification_events: VideoInputFormatChangedEvents,
        new_display_mode: DisplayModeInfo,
        _detected_signal_flags: DetectedVideoInputFormatFlags,
    ) -> Result<(), Error> {
        self.format_changes += 1;
        self.last_mode = new_display_mode.get_display_mode(host).0;
        new_display_mode.release(host);
        match self.fail_with {
            Some(code) => Err(Error { result: code }),
            None => Ok(()),
        }
    }

    fn video_input_frame_arrived(
        &mut self,
        host: &mut Host,
        video_frame: Option<VideoInputFrame>,
        audio_packet: Option<AudioInputPacket>,
    ) -> Result<(), Error> {
        if let Some(frame) = video_frame {
            self.frames_seen += 1;
            if let Ok(Some(tc)) = frame.get_timecode(host, TimecodeFormat::format_vitc()) {
                self.last_components = tc.get_components(host).unwrap();
                tc.release(host);
            }
            frame.release(host);
        }
        if let Some(packet) = audio_packet {
            self.packets_seen += 1;
            packet.release(host);
        }
        match self.fail_with {
            Some(code) => Err(Error { result: code }),
            None => Ok(()),
        }
    }
}

fn capture_host() -> (Host, Input) {
    let mut host = Host::new();
    let inp = host.install(ObjectBody::Input {
        callback: false,
        display_modes: vec![],
        video_enabled: false,
        audio_enabled: true,
        running: false,
        paused: false,
    });
    let dev = host.install(ObjectBody::Device {
        model_name: b"Capture\0".to_vec(),
        ifaces: vec![(input_interface_id(), inp)],
    });
    host.register_device(dev);
    let iterator = DeviceIterator::new(&mut host).unwrap();
    let device = iterator.next(&mut host).unwrap().unwrap();
    iterator.release(&mut host);
    let input = device.query_input(&mut host).unwrap();
    device.release(&mut host);
    (host, input)
}

#[test]
fn delivery_reaches_an_armed_handler() {
    let (mut host, input) = capture_host();
    let tc = host.install(ObjectBody::Timecode {
        hours: 10,
        minutes: 20,
        seconds: 30,
        frames: 12,
        text: b"10:20:30:12\0".to_vec(),
    });
    let frame = host.install_frame(2, 2, 4, 0, 0, vec![0; 8], vec![(
        TimecodeFormat::format_vitc().0,
        tc,
    )]);
    let packet = host.install(ObjectBody::AudioPacket { bytes: vec![1, 2, 3] });
    let mut registration = input.with_callback(&mut host, Recorder::new());
    let outcome = registration.deliver_frame_arrived(&mut host, Some(frame), Some(packet));
    assert_eq!(outcome, Delivery::Delivered(0));
    assert_eq!(registration.handler().frames_seen, 1);
    assert_eq!(registration.handler().packets_seen, 1);
    assert_eq!(registration.handler().last_components, (10, 20, 30, 12));
    // The trampoline's fresh references were all released by the handler.
    assert_eq!(host.objects[frame].refs, 1);
    assert_eq!(host.objects[packet].refs, 1);
    assert_eq!(host.objects[tc].refs, 1);
    let input = registration.into_inner(&mut host);
    input.release(&mut host);
}

#[test]
fn no_delivery_after_unregistration() {
    let (mut host, input) = capture_host();
    let frame = host.install_frame(2, 2, 4, 0, 0, vec![0; 8], vec![]);
    let mut registration = input.with_callback(&mut host, Recorder::new());
    // Clear the registration through the endpoint itself, as the
    // synchronous native call would.
    registration.input().set_callback(&mut host, false).unwrap();
    let refs_before: Vec<u64> = host.objects.iter().map(|o| o.refs).collect();
    let outcome = registration.deliver_frame_arrived(&mut host, Some(frame), None);
    assert_eq!(outcome, Delivery::Ignored);
    assert_eq!(registration.handler().frames_seen, 0);
    let refs_after: Vec<u64> = host.objects.iter().map(|o| o.refs).collect();
    assert_eq!(refs_before, refs_after);
    let outcome = registration.deliver_format_changed(&mut host, 1, frame, 0);
    assert_eq!(outcome, Delivery::Ignored);
    assert_eq!(registration.handler().format_changes, 0);
}

#[test]
fn no_delivery_after_registration_owner_teardown() {
    let (mut host, input) = capture_host();
    let registration = input.with_callback(&mut host, Recorder::new());
    let input = registration.into_inner(&mut host);
    // The slot is cleared synchronously: a fresh registration sees it
    // armed again only after with_callback.
    let inp_ix = 0;
    match &host.objects[inp_ix].body {
        ObjectBody::Input { callback, .. } => assert!(!callback),
        _ => panic!("expected the capture endpoint"),
    }
    input.release(&mut host);
}

#[test]
fn format_change_reaches_the_handler_with_a_fresh_mode_reference() {
    let (mut host, input) = capture_host();
    let mode = host.install(ObjectBody::ModeInfo {
        mode: 0x48703530,
        name: b"1080p50\0".to_vec(),
        width: 1920,
        height: 1080,
        frame_duration: 1000,
        time_scale: 50000,
    });
    let mut registration = input.with_callback(&mut host, Recorder::new());
    let outcome = registration.deliver_format_changed(&mut host, 1, mode, 1);
    assert_eq!(outcome, Delivery::Delivered(0));
    assert_eq!(registration.handler().format_changes, 1);
    assert_eq!(registration.handler().last_mode, 0x48703530);
    assert_eq!(host.objects[mode].refs, 1);
}

#[test]
fn handler_failure_becomes_the_reported_code() {
    let (mut host, input) = capture_host();
    let frame = host.install_frame(2, 2, 4, 0, 0, vec![0; 8], vec![]);
    let mut recorder = Recorder::new();
    recorder.fail_with = Some(-7);
    let mut registration = input.with_callback(&mut host, recorder);
    let outcome = registration.deliver_frame_arrived(&mut host, Some(frame), None);
    assert_eq!(outcome, Delivery::Delivered(-7));
}

struct Completion {
    completed: usize,
    stopped: usize,
    last_result: u32,
    last_bytes: Vec<u8>,
}

impl VideoOutputCallback for Completion {
    fn scheduled_frame_completed(
        &mut self,
        host: &mut Host,
        completed_frame: MutableVideoFrame,
        result: OutputFrameCompletionResult,
    ) -> Result<(), Error> {
        self.completed += 1;
        self.last_result = result.0;
        self.last_bytes = completed_frame.get_bytes(host).unwrap();
        completed_frame.release(host);
        Ok(())
    }

    fn scheduled_playback_has_stopped(&mut self, _host: &mut Host) -> Result<(), Error> {
        self.stopped += 1;
        Ok(())
    }
}

fn playback_host() -> (Host, Output) {
    let mut host = Host::new();
    let out = host.install(ObjectBody::Output {
        callback: false,
        display_modes: vec![],
        video_enabled: false,
        playback_started: false,
        scheduled: vec![],
    });
    let dev = host.install(ObjectBody::Device {
        model_name: b"Playback\0".to_vec(),
        ifaces: vec![(output_interface_id(), out)],
    });
    host.register_device(dev);
    let iterator = DeviceIterator::new(&mut host).unwrap();
    let device = iterator.next(&mut host).unwrap().unwrap();
    iterator.release(&mut host);
    let output = device.query_output(&mut host).unwrap();
    device.release(&mut host);
    (host, output)
}

#[test]
fn completion_hands_the_scheduled_frame_back_in_order() {
    let (mut host, output) = playback_host();
    output
        .enable_video_output(
            &mut host,
            decklink::catalog::DisplayMode::mode_hd1080p50(),
            decklink::catalog::VideoOutputFlags::empty(),
        )
        .unwrap();
    let frame = output
        .create_video_frame(
            &mut host,
            2,
            1,
            4,
            decklink::catalog::PixelFormat::format_8bit_bgra(),
            decklink::catalog::FrameFlags::empty(),
        )
        .unwrap();
    frame.write_bytes(&mut host, &[5, 6, 7, 8]).unwrap();
    let completion = Completion { completed: 0, stopped: 0, last_result: 9, last_bytes: vec![] };
    let mut registration = output.with_callback(&mut host, completion);
    registration
        .output()
        .schedule_video_frame(&mut host, frame, 0, 1000, 50000)
        .unwrap();
    let outcome = registration
        .deliver_frame_completed(&mut host, OutputFrameCompletionResult::completed());
    assert_eq!(outcome, Delivery::Delivered(0));
    assert_eq!(registration.handler().completed, 1);
    assert_eq!(registration.handler().last_result, 0);
    assert_eq!(registration.handler().last_bytes, vec![5, 6, 7, 8]);
    let outcome = registration.deliver_playback_stopped(&mut host);
    assert_eq!(outcome, Delivery::Delivered(0));
    assert_eq!(registration.handler().stopped, 1);
    let output = registration.into_inner(&mut host);
    // A cleared completion registration ignores further deliveries.
    let mut registration = output.with_callback(&mut host, Completion {
        completed: 0,
        stopped: 0,
        last_result: 0,
        last_bytes: vec![],
    });
    registration
        .output()
        .set_scheduled_frame_completion_callback(&mut host, false)
        .unwrap();
    let outcome = registration.deliver_playback_stopped(&mut host);
    assert_eq!(outcome, Delivery::Ignored);
    assert_eq!(registration.handler().stopped, 0);
}

#[test]
fn completion_with_empty_queue_is_ignored() {
    let (mut host, output) = playback_host();
    let mut registration = output.with_callback(&mut host, Completion {
        completed: 0,
        stopped: 0,
        last_result: 0,
        last_bytes: vec![],
    });
    let outcome = registration
        .deliver_frame_completed(&mut host, OutputFrameCompletionResult::flushed());
    assert_eq!(outcome, Delivery::Ignored);
    assert_eq!(registration.handler().completed, 0);
}
