use decklink::attributes::ATTR_MAXIMUM_AUDIO_CHANNELS;
use decklink::device::{attributes_interface_id, status_interface_id, Device};
use decklink::guid::InterfaceId;
use decklink::host::{Host, ObjectBody, PropTable};
use decklink::iterate::DeviceIterator;
use decklink::result::E_NOINTERFACE;
use decklink::status::STATUS_DEVICE_TEMPERATURE;

fn full_device_host() -> (Host, Device) {
    let mut host = Host::new();
    let attrs = host.install(ObjectBody::Attributes {
        props: PropTable {
            flags: vec![],
            ints: vec![(ATTR_MAXIMUM_AUDIO_CHANNELS, 16)],
            strings: vec![],
        },
    });
    let status = host.install(ObjectBody::Status {
        props: PropTable {
            flags: vec![],
            ints: vec![(STATUS_DEVICE_TEMPERATURE, 55)],
            strings: vec![],
        },
    });
    let dev = host.install(ObjectBody::Device {
        model_name: b"DeckLink Duo\0".to_vec(),
        ifaces: vec![
            (attributes_interface_id(), attrs),
            (status_interface_id(), status),
        ],
    });
    host.register_device(dev);
    let iterator = DeviceIterator::new(&mut host).unwrap();
    let device = iterator.next(&mut host).unwrap().unwrap();
    iterator.release(&mut host);
    (host, device)
}

#[test]
fn query_supported_capability_returns_typed_handle() {
    let (mut host, device) = full_device_host();
    let attributes = device.query_attributes(&mut host).unwrap();
    let channels = attributes.get_maximum_audio_channels(&host).unwrap();
    assert_eq!(channels, 16);
    attributes.release(&mut host);
}

#[test]
fn query_leaves_source_usable_and_counts_unchanged() {
    let (mut host, device) = full_device_host();
    let before: Vec<u64> = host.objects.iter().map(|o| o.refs).collect();
    let err = match device.query_input(&mut host) {
        Err(e) => e,
        Ok(_) => panic!("expected a failure"),
    };
    assert_eq!(err.result, E_NOINTERFACE);
    let after: Vec<u64> = host.objects.iter().map(|o| o.refs).collect();
    assert_eq!(before, after);
    // The source handle remains fully usable afterwards.
    let name = device.get_model_name(&mut host).unwrap();
    assert_eq!(name, "DeckLink Duo");
    let status = device.query_status(&mut host).unwrap();
    assert_eq!(status.get_device_temperature(&host).unwrap(), 55);
    status.release(&mut host);
    device.release(&mut host);
}

#[test]
fn unrecognized_identifier_yields_no_interface_code() {
    let (mut host, device) = full_device_host();
    // An identifier the device does not serve, given by its sixteen bytes.
    let unknown = InterfaceId::new([
        0x01, 0x23, 0x45, 0x67, 0x89, 0xAB, 0xCD, 0xEF, 0x01, 0x23, 0x45, 0x67, 0x89, 0xAB,
        0xCD, 0xEF,
    ]);
    let dev_ix = 2;
    assert!(matches!(&host.objects[dev_ix].body, ObjectBody::Device { .. }));
    let before: Vec<u64> = host.objects.iter().map(|o| o.refs).collect();
    let outcome = host.query_interface(dev_ix, unknown);
    assert_eq!(outcome, Err(E_NOINTERFACE));
    let after: Vec<u64> = host.objects.iter().map(|o| o.refs).collect();
    assert_eq!(before, after);
    // The source handle is still usable.
    assert_eq!(device.get_model_name(&mut host).unwrap(), "DeckLink Duo");
}

#[test]
fn each_successful_query_takes_one_fresh_reference() {
    let (mut host, device) = full_device_host();
    let attrs_ix = 0;
    assert_eq!(host.objects[attrs_ix].refs, 1);
    let a1 = device.query_attributes(&mut host).unwrap();
    let a2 = device.query_attributes(&mut host).unwrap();
    assert_eq!(host.objects[attrs_ix].refs, 3);
    a1.release(&mut host);
    a2.release(&mut host);
    assert_eq!(host.objects[attrs_ix].refs, 1);
    device.release(&mut host);
}

#[test]
fn maximum_audio_channels_reads_sixteen() {
    let (mut host, device) = full_device_host();
    let attributes = device.query_attributes(&mut host).unwrap();
    assert_eq!(attributes.get_maximum_audio_channels(&host), Ok(16));
    attributes.release(&mut host);
    device.release(&mut host);
}

#[test]
fn query_on_device_without_output_capability_fails() {
    let mut host = Host::new();
    let dev = host.install(ObjectBody::Device { model_name: b"Bare\0".to_vec(), ifaces: vec![] });
    host.register_device(dev);
    let iterator = DeviceIterator::new(&mut host).unwrap();
    let device = iterator.next(&mut host).unwrap().unwrap();
    let err = match device.query_output(&mut host) {
        Err(e) => e,
        Ok(_) => panic!("expected a failure"),
    };
    assert_eq!(err.result, E_NOINTERFACE);
}
