use decklink::catalog::{DisplayMode, PixelFormat, VideoInputFlags, VideoOutputFlags, FrameFlags};
use decklink::device::{input_interface_id, output_interface_id};
use decklink::host::{Host, ObjectBody};
use decklink::input::Input;
use decklink::iterate::DeviceIterator;
use decklink::output::Output;
use decklink::result::E_FAIL;

fn endpoints_host() -> (Host, Input, Output) {
    let mut host = Host::new();
    let inp = host.install(ObjectBody::Input {
        callback: false,
        display_modes: vec![],
        video_enabled: false,
        audio_enabled: true,
        running: false,
        paused: false,
    });
    let out = host.install(ObjectBody::Output {
        callback: false,
        display_modes: vec![],
        video_enabled: false,
        playback_started: false,
        scheduled: vec![],
    });
    let dev = host.install(ObjectBody::Device {
        model_name: b"Duplex\0".to_vec(),
        ifaces: vec![(input_interface_id(), inp), (output_interface_id(), out)],
    });
    host.register_device(dev);
    let iterator = DeviceIterator::new(&mut host).unwrap();
    let device = iterator.next(&mut host).unwrap().unwrap();
    iterator.release(&mut host);
    let input = device.query_input(&mut host).unwrap();
    let output = device.query_output(&mut host).unwrap();
    device.release(&mut host);
    (host, input, output)
}

#[test]
fn streams_start_only_when_video_input_is_enabled() {
    let (mut host, input, _output) = endpoints_host();
    let err = match input.start_streams(&mut host) {
        Err(e) => e,
        Ok(_) => panic!("expected a failure"),
    };
    assert_eq!(err.result, E_FAIL);
    input
        .enable_video_input(
            &mut host,
            DisplayMode::mode_hd1080p25(),
            PixelFormat::format_8bit_yuv(),
            VideoInputFlags::enable_format_detection(),
        )
        .unwrap();
    input.start_streams(&mut host).unwrap();
    // Starting again while running is a native failure.
    let err = match input.start_streams(&mut host) {
        Err(e) => e,
        Ok(_) => panic!("expected a failure"),
    };
    assert_eq!(err.result, E_FAIL);
    input.stop_streams(&mut host).unwrap();
    // Stopping stopped streams is a native failure as well.
    let err = match input.stop_streams(&mut host) {
        Err(e) => e,
        Ok(_) => panic!("expected a failure"),
    };
    assert_eq!(err.result, E_FAIL);
}

#[test]
fn pause_toggles_and_requires_running_streams() {
    let (mut host, input, _output) = endpoints_host();
    let err = match input.pause_streams(&mut host) {
        Err(e) => e,
        Ok(_) => panic!("expected a failure"),
    };
    assert_eq!(err.result, E_FAIL);
    input
        .enable_video_input(
            &mut host,
            DisplayMode::mode_pal(),
            PixelFormat::format_10bit_yuv(),
            VideoInputFlags::empty(),
        )
        .unwrap();
    input.start_streams(&mut host).unwrap();
    input.pause_streams(&mut host).unwrap();
    match &host.objects[0].body {
        ObjectBody::Input { paused, .. } => assert!(*paused),
        _ => panic!("expected the capture endpoint"),
    }
    input.pause_streams(&mut host).unwrap();
    match &host.objects[0].body {
        ObjectBody::Input { paused, .. } => assert!(!*paused),
        _ => panic!("expected the capture endpoint"),
    }
}

#[test]
fn flush_and_disable_follow_the_enabled_state() {
    let (mut host, input, _output) = endpoints_host();
    let err = match input.flush_streams(&mut host) {
        Err(e) => e,
        Ok(_) => panic!("expected a failure"),
    };
    assert_eq!(err.result, E_FAIL);
    input
        .enable_video_input(
            &mut host,
            DisplayMode::mode_ntsc(),
            PixelFormat::format_8bit_yuv(),
            VideoInputFlags::empty(),
        )
        .unwrap();
    input.flush_streams(&mut host).unwrap();
    input.disable_video_input(&mut host).unwrap();
    let err = match input.flush_streams(&mut host) {
        Err(e) => e,
        Ok(_) => panic!("expected a failure"),
    };
    assert_eq!(err.result, E_FAIL);
    input.disable_audio_input(&mut host).unwrap();
    match &host.objects[0].body {
        ObjectBody::Input { audio_enabled, .. } => assert!(!*audio_enabled),
        _ => panic!("expected the capture endpoint"),
    }
}

#[test]
fn scheduled_playback_requires_enabled_video_output() {
    let (mut host, _input, output) = endpoints_host();
    let err = match output.start_scheduled_playback(&mut host, 0, 50000) {
        Err(e) => e,
        Ok(_) => panic!("expected a failure"),
    };
    assert_eq!(err.result, E_FAIL);
    output
        .enable_video_output(&mut host, DisplayMode::mode_hd1080p50(), VideoOutputFlags::empty())
        .unwrap();
    output.start_scheduled_playback(&mut host, 0, 50000).unwrap();
    output.disable_video_output(&mut host).unwrap();
}

#[test]
fn scheduling_on_a_disabled_output_releases_the_frame() {
    let (mut host, _input, output) = endpoints_host();
    output
        .enable_video_output(&mut host, DisplayMode::mode_hd1080p50(), VideoOutputFlags::empty())
        .unwrap();
    let frame = output
        .create_video_frame(&mut host, 2, 1, 4, PixelFormat::format_8bit_bgra(), FrameFlags::empty())
        .unwrap();
    let frame_ix = host.objects.len() - 1;
    output.disable_video_output(&mut host).unwrap();
    let err = match output
        .schedule_video_frame(&mut host, frame, 0, 1000, 50000)
         {
        Err(e) => e,
        Ok(_) => panic!("expected a failure"),
    };
    assert_eq!(err.result, E_FAIL);
    // The consumed frame's reference was released exactly once.
    assert_eq!(host.objects[frame_ix].refs, 0);
}

#[test]
fn scheduling_on_an_enabled_output_queues_the_frame() {
    let (mut host, _input, output) = endpoints_host();
    output
        .enable_video_output(&mut host, DisplayMode::mode_hd1080p50(), VideoOutputFlags::empty())
        .unwrap();
    let frame = output
        .create_video_frame(&mut host, 2, 1, 4, PixelFormat::format_8bit_bgra(), FrameFlags::empty())
        .unwrap();
    let frame_ix = host.objects.len() - 1;
    output
        .schedule_video_frame(&mut host, frame, 0, 1000, 50000)
        .unwrap();
    match &host.objects[1].body {
        ObjectBody::Output { scheduled, .. } => assert_eq!(scheduled, &vec![frame_ix]),
        _ => panic!("expected the playback endpoint"),
    }
    // The frame's reference moved into the queue: still exactly one.
    assert_eq!(host.objects[frame_ix].refs, 1);
}
