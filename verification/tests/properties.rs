use decklink::attributes::{
    ATTR_PERSISTENT_ID, ATTR_SUPPORTS_HDR_METADATA, ATTR_SUPPORTS_INTERNAL_KEYING,
    ATTR_VIDEO_IO_SUPPORT, Attributes,
};
use decklink::catalog::{DeviceBusyState, DisplayMode, VideoIOSupport};
use decklink::device::{attributes_interface_id, status_interface_id};
use decklink::host::{Host, ObjectBody, PropTable};
use decklink::iterate::DeviceIterator;
use decklink::result::{void_option_result, void_result, E_FAIL, E_INVALIDARG, S_NO_VALUE, S_OK};
use decklink::status::{
    STATUS_BUSY, STATUS_DETECTED_VIDEO_INPUT_MODE, STATUS_VIDEO_INPUT_SIGNAL_LOCKED, Status,
};

#[test]
fn result_codes_follow_the_convention() {
    assert_eq!(void_result(S_OK), Ok(()));
    assert_eq!(void_result(E_FAIL).unwrap_err().result, E_FAIL);
    assert_eq!(void_option_result(S_OK), Ok(Some(())));
    // The reserved "no value" code is an optional-empty result, not an
    // error.
    assert_eq!(void_option_result(S_NO_VALUE), Ok(None));
    assert_eq!(void_option_result(-3).unwrap_err().result, -3);
    assert_eq!(decklink::Error::new().result, E_FAIL);
}

fn stores_host(attrs: PropTable, status: PropTable) -> (Host, Attributes, Status) {
    let mut host = Host::new();
    let a = host.install(ObjectBody::Attributes { props: attrs });
    let s = host.install(ObjectBody::Status { props: status });
    let dev = host.install(ObjectBody::Device {
        model_name: b"Props\0".to_vec(),
        ifaces: vec![(attributes_interface_id(), a), (status_interface_id(), s)],
    });
    host.register_device(dev);
    let iterator = DeviceIterator::new(&mut host).unwrap();
    let device = iterator.next(&mut host).unwrap().unwrap();
    iterator.release(&mut host);
    let attributes = device.query_attributes(&mut host).unwrap();
    let status = device.query_status(&mut host).unwrap();
    device.release(&mut host);
    (host, attributes, status)
}

#[test]
fn boolean_attributes_read_their_stored_value() {
    let (host, attributes, _status) = stores_host(
        PropTable {
            flags: vec![
                (ATTR_SUPPORTS_INTERNAL_KEYING, true),
                (ATTR_SUPPORTS_HDR_METADATA, false),
            ],
            ints: vec![],
            strings: vec![],
        },
        PropTable { flags: vec![], ints: vec![], strings: vec![] },
    );
    assert_eq!(attributes.get_supports_internal_keying(&host), Ok(true));
    assert_eq!(attributes.get_supports_hdr_metadata(&host), Ok(false));
    // An identifier with no stored value is a native error, verbatim.
    let err = match attributes.get_supports_external_keying(&host) {
        Err(e) => e,
        Ok(_) => panic!("expected a failure"),
    };
    assert_eq!(err.result, E_INVALIDARG);
}

#[test]
fn integer_attributes_read_their_stored_value() {
    let (host, attributes, _status) = stores_host(
        PropTable {
            flags: vec![],
            ints: vec![(ATTR_PERSISTENT_ID, 0x1234_5678_9ABC)],
            strings: vec![],
        },
        PropTable { flags: vec![], ints: vec![], strings: vec![] },
    );
    assert_eq!(attributes.get_persistent_id(&host), Ok(0x1234_5678_9ABC));
}

#[test]
fn video_io_support_truncates_to_the_known_bits() {
    let (host, attributes, _status) = stores_host(
        PropTable {
            flags: vec![],
            ints: vec![(ATTR_VIDEO_IO_SUPPORT, 0x7F)],
            strings: vec![],
        },
        PropTable { flags: vec![], ints: vec![], strings: vec![] },
    );
    let support = attributes.get_video_io_support(&host).unwrap();
    assert_eq!(support.bits, 0x3);
    assert!(support.contains(VideoIOSupport::capture()));
    assert!(support.contains(VideoIOSupport::playback()));
}

#[test]
fn status_flags_and_modes_read_back() {
    let (host, _attributes, status) = stores_host(
        PropTable { flags: vec![], ints: vec![], strings: vec![] },
        PropTable {
            flags: vec![(STATUS_VIDEO_INPUT_SIGNAL_LOCKED, true)],
            ints: vec![
                (STATUS_DETECTED_VIDEO_INPUT_MODE, DisplayMode::mode_hd1080i50().0 as i64),
                (STATUS_BUSY, 0x5),
            ],
            strings: vec![],
        },
    );
    assert_eq!(status.get_video_input_signal_locked(&host), Ok(true));
    assert_eq!(
        status.get_detected_video_input_mode(&host).unwrap(),
        DisplayMode::mode_hd1080i50()
    );
    let busy = status.get_busy(&host).unwrap();
    assert!(busy.contains(DeviceBusyState::capture_busy()));
    assert!(busy.contains(DeviceBusyState::serial_port_busy()));
    assert!(!busy.contains(DeviceBusyState::playback_busy()));
    // An identifier with no stored value is a native error, verbatim.
    let err = match status.get_reference_signal_locked(&host) {
        Err(e) => e,
        Ok(_) => panic!("expected a failure"),
    };
    assert_eq!(err.result, E_INVALIDARG);
}
