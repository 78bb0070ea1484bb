use decklink::catalog::{
    DeviceBusyState, DisplayMode, DisplayModeFlags, PixelFormat, TimecodeFormat, VideoIOSupport,
};
use decklink::device::input_interface_id;
use decklink::host::{Host, ObjectBody};
use decklink::input::Input;
use decklink::iterate::DeviceIterator;

fn modes_host() -> (Host, Input) {
    let mut host = Host::new();
    let pal = host.install(ObjectBody::ModeInfo {
        mode: DisplayMode::mode_pal().0,
        name: b"PAL\0".to_vec(),
        width: 720,
        height: 576,
        frame_duration: 1000,
        time_scale: 25000,
    });
    let hd = host.install(ObjectBody::ModeInfo {
        mode: DisplayMode::mode_hd1080p50().0,
        name: b"1080p50\0".to_vec(),
        width: 1920,
        height: 1080,
        frame_duration: 1000,
        time_scale: 50000,
    });
    let inp = host.install(ObjectBody::Input {
        callback: false,
        display_modes: vec![pal, hd],
        video_enabled: false,
        audio_enabled: false,
        running: false,
        paused: false,
    });
    let dev = host.install(ObjectBody::Device {
        model_name: b"Modes\0".to_vec(),
        ifaces: vec![(input_interface_id(), inp)],
    });
    host.register_device(dev);
    let iterator = DeviceIterator::new(&mut host).unwrap();
    let device = iterator.next(&mut host).unwrap().unwrap();
    iterator.release(&mut host);
    let input = device.query_input(&mut host).unwrap();
    device.release(&mut host);
    (host, input)
}

#[test]
fn display_modes_enumerate_in_order_and_read_back() {
    let (mut host, input) = modes_host();
    let iterator = input.get_display_mode_iterator(&mut host).unwrap();
    let pal = iterator.next(&mut host).unwrap().unwrap();
    assert_eq!(pal.get_display_mode(&host), DisplayMode::mode_pal());
    assert_eq!(pal.get_name(&mut host).unwrap(), "PAL");
    assert_eq!(pal.get_width(&host), 720);
    assert_eq!(pal.get_height(&host), 576);
    assert_eq!(pal.get_frame_rate(&host).unwrap(), (1000, 25000));
    let hd = iterator.next(&mut host).unwrap().unwrap();
    assert_eq!(hd.get_name(&mut host).unwrap(), "1080p50");
    assert_eq!(hd.get_frame_rate(&host).unwrap(), (1000, 50000));
    assert!(iterator.next(&mut host).unwrap().is_none());
    assert!(iterator.next(&mut host).unwrap().is_none());
    pal.release(&mut host);
    hd.release(&mut host);
    iterator.release(&mut host);
}

#[test]
fn each_endpoint_iterator_is_independent_and_one_shot() {
    let (mut host, input) = modes_host();
    let first = input.get_display_mode_iterator(&mut host).unwrap();
    let m = first.next(&mut host).unwrap().unwrap();
    m.release(&mut host);
    let second = input.get_display_mode_iterator(&mut host).unwrap();
    // The first iterator's position does not affect the second's.
    let m0 = second.next(&mut host).unwrap().unwrap();
    assert_eq!(m0.get_display_mode(&host), DisplayMode::mode_pal());
    m0.release(&mut host);
    first.release(&mut host);
    second.release(&mut host);
}

#[test]
fn catalogue_values_are_the_native_ones() {
    assert_eq!(PixelFormat::format_8bit_yuv().0, 0x32767579);
    assert_eq!(PixelFormat::format_8bit_argb().0, 32);
    assert_eq!(PixelFormat::format_10bit_rgb().0, 0x72323130);
    assert_eq!(DisplayMode::mode_ntsc().0, 0x6E747363);
    assert_eq!(DisplayMode::mode_pal().0, 0x70616C20);
    assert_eq!(TimecodeFormat::format_rp188_any().0, 0x72703138);
    assert_eq!(VideoIOSupport::capture().bits, 1);
    assert_eq!(VideoIOSupport::playback().bits, 2);
    assert_eq!(DeviceBusyState::serial_port_busy().bits, 4);
}

#[test]
fn bit_fields_truncate_and_test_membership() {
    let both = VideoIOSupport::from_bits_truncate(0xFFFF_FFFF);
    assert_eq!(both.bits, 0x3);
    assert!(both.contains(VideoIOSupport::capture()));
    assert!(both.contains(VideoIOSupport::playback()));
    let none = VideoIOSupport::empty();
    assert!(!none.contains(VideoIOSupport::capture()));
    assert_eq!(none.with(VideoIOSupport::capture()).bits, 1);
    let flags = DisplayModeFlags::from_bits_truncate(0x5);
    assert!(flags.contains(DisplayModeFlags::supports_3d()));
    assert!(flags.contains(DisplayModeFlags::colorspace_rec709()));
    assert!(!flags.contains(DisplayModeFlags::colorspace_rec601()));
}
