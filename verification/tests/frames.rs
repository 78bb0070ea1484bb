use decklink::catalog::{FrameFlags, PixelFormat, TimecodeFormat};
use decklink::convert::VideoConversion;
use decklink::device::output_interface_id;
use decklink::frame::VideoFrame;
use decklink::host::{Host, ObjectBody};
use decklink::iterate::DeviceIterator;
use decklink::output::Output;
use decklink::result::E_INVALIDARG;

fn output_host() -> (Host, Output) {
    let mut host = Host::new();
    let out = host.install(ObjectBody::Output {
        callback: false,
        display_modes: vec![],
        video_enabled: false,
        playback_started: false,
        scheduled: vec![],
    });
    let dev = host.install(ObjectBody::Device {
        model_name: b"Playback\0".to_vec(),
        ifaces: vec![(output_interface_id(), out)],
    });
    host.register_device(dev);
    let iterator = DeviceIterator::new(&mut host).unwrap();
    let device = iterator.next(&mut host).unwrap().unwrap();
    iterator.release(&mut host);
    let output = device.query_output(&mut host).unwrap();
    device.release(&mut host);
    (host, output)
}

#[test]
fn written_bytes_read_back_identically() {
    let (mut host, output) = output_host();
    let frame = output
        .create_video_frame(&mut host, 2, 2, 4, PixelFormat::format_8bit_bgra(), FrameFlags::empty())
        .unwrap();
    assert_eq!(frame.get_bytes(&host).unwrap(), vec![0u8; 8]);
    let payload: Vec<u8> = vec![10, 20, 30, 40, 50, 60, 70, 80];
    frame.write_bytes(&mut host, &payload).unwrap();
    assert_eq!(frame.get_bytes(&host).unwrap(), payload);
    frame.release(&mut host);
}

#[test]
fn frame_geometry_is_reported_back() {
    let (mut host, output) = output_host();
    let frame = output
        .create_video_frame(&mut host, 3, 2, 12, PixelFormat::format_8bit_yuv(), FrameFlags::flip_vertical())
        .unwrap();
    assert_eq!(frame.get_width(&host), 3);
    assert_eq!(frame.get_height(&host), 2);
    assert_eq!(frame.get_row_bytes(&host), 12);
    assert_eq!(frame.get_pixel_format(&host), PixelFormat::format_8bit_yuv());
    assert_eq!(frame.get_flags(&host), FrameFlags::flip_vertical());
    frame.release(&mut host);
}

#[test]
fn wrong_length_write_is_a_native_error() {
    let (mut host, output) = output_host();
    let frame = output
        .create_video_frame(&mut host, 2, 2, 4, PixelFormat::format_8bit_bgra(), FrameFlags::empty())
        .unwrap();
    let err = match frame.write_bytes(&mut host, &[1, 2, 3]) {
        Err(e) => e,
        Ok(_) => panic!("expected a failure"),
    };
    assert_eq!(err.result, E_INVALIDARG);
    assert_eq!(frame.get_bytes(&host).unwrap(), vec![0u8; 8]);
    frame.release(&mut host);
}

#[test]
fn bad_geometry_is_a_native_error() {
    let (mut host, output) = output_host();
    let err = match output
        .create_video_frame(&mut host, 0, 2, 4, PixelFormat::format_8bit_bgra(), FrameFlags::empty())
         {
        Err(e) => e,
        Ok(_) => panic!("expected a failure"),
    };
    assert_eq!(err.result, E_INVALIDARG);
    let err = match output
        .create_video_frame(&mut host, 2, -1, 4, PixelFormat::format_8bit_bgra(), FrameFlags::empty())
         {
        Err(e) => e,
        Ok(_) => panic!("expected a failure"),
    };
    assert_eq!(err.result, E_INVALIDARG);
}

#[test]
fn conversion_carries_bytes_into_the_destination() {
    let (mut host, output) = output_host();
    let src = output
        .create_video_frame(&mut host, 2, 1, 4, PixelFormat::format_8bit_bgra(), FrameFlags::empty())
        .unwrap();
    let dst = output
        .create_video_frame(&mut host, 2, 2, 4, PixelFormat::format_8bit_yuv(), FrameFlags::empty())
        .unwrap();
    src.write_bytes(&mut host, &[9, 8, 7, 6]).unwrap();
    let conversion = VideoConversion::new(&mut host).unwrap();
    conversion.convert_frame(&mut host, &src, &dst).unwrap();
    // The source, truncated or zero-padded to the destination's size.
    assert_eq!(dst.get_bytes(&host).unwrap(), vec![9, 8, 7, 6, 0, 0, 0, 0]);
    conversion.release(&mut host);
    src.release(&mut host);
    dst.release(&mut host);
}

#[test]
fn missing_driver_fails_converter_creation() {
    let mut host = Host::new();
    host.set_conversion_available(false);
    let err = match VideoConversion::new(&mut host) {
        Err(e) => e,
        Ok(_) => panic!("expected a failure"),
    };
    assert!(err.message.contains("drivers"));
}

#[test]
fn timecode_lookup_and_absence() {
    let mut host = Host::new();
    let tc = host.install(ObjectBody::Timecode {
        hours: 1,
        minutes: 2,
        seconds: 3,
        frames: 4,
        text: b"01:02:03:04\0".to_vec(),
    });
    let vitc = TimecodeFormat::format_vitc();
    let frame_ix = host.install_frame(1, 1, 4, 0, 0, vec![0; 4], vec![(vitc.0, tc)]);
    // Reach the frame through the playback path so the facade is typed.
    let (mut host2, output) = {
        let out = host.install(ObjectBody::Output {
            callback: false,
            display_modes: vec![],
            video_enabled: true,
            playback_started: false,
            scheduled: vec![],
        });
        let dev = host.install(ObjectBody::Device {
            model_name: b"T\0".to_vec(),
            ifaces: vec![(output_interface_id(), out)],
        });
        host.register_device(dev);
        let iterator = DeviceIterator::new(&mut host).unwrap();
        let device = iterator.next(&mut host).unwrap().unwrap();
        let output = device.query_output(&mut host).unwrap();
        (host, output)
    };
    let frame = output
        .create_video_frame(&mut host2, 1, 1, 4, PixelFormat::format_8bit_bgra(), FrameFlags::empty())
        .unwrap();
    // The created frame carries no timecode: the reserved "no value"
    // outcome, not an error.
    assert_eq!(
        frame.get_timecode(&mut host2, vitc).unwrap().is_none(),
        true
    );
    // The installed frame carries one, found by format.
    let raw = host2.frame_get_timecode(frame_ix, vitc.0).unwrap();
    assert_eq!(raw, tc);
    assert_eq!(host2.timecode_get_components(tc), (1, 2, 3, 4));
    assert_eq!(host2.objects[tc].refs, 2);
    frame.release(&mut host2);
}
