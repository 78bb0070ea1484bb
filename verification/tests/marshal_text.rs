use decklink::host::{Host, ObjectBody, PropTable};
use decklink::attributes::ATTR_VENDOR_NAME;
use decklink::device::attributes_interface_id;
use decklink::iterate::DeviceIterator;
use decklink::result::E_INVALIDARG;
use decklink::text::{c_string_prefix, utf8_to_string};

#[test]
fn buffer_round_trip_yields_owned_string_and_one_release() {
    let mut host = Host::new();
    let dev = host.install(ObjectBody::Device {
        model_name: b"DeckLink Duo\0".to_vec(),
        ifaces: vec![],
    });
    host.register_device(dev);
    let iterator = DeviceIterator::new(&mut host).unwrap();
    let device = iterator.next(&mut host).unwrap().unwrap();
    iterator.release(&mut host);

    let before = host.objects.len();
    let name = device.get_model_name(&mut host).unwrap();
    assert_eq!(name, "DeckLink Duo");
    // Exactly one transient buffer was created, and released exactly once.
    assert_eq!(host.objects.len(), before + 1);
    assert_eq!(host.objects[before].refs, 0);
    device.release(&mut host);
}

#[test]
fn raw_buffer_data_round_trip() {
    let mut host = Host::new();
    let b = host.install(ObjectBody::Buffer { bytes: b"DeckLink Duo".to_vec() });
    let data = host.buffer_data(b);
    assert_eq!(data, b"DeckLink Duo".to_vec());
    host.release(b);
    assert_eq!(host.objects[b].refs, 0);
}

fn attributes_host(strings: Vec<(u32, Vec<u8>)>) -> Host {
    let mut host = Host::new();
    let attrs = host.install(ObjectBody::Attributes {
        props: PropTable { flags: vec![], ints: vec![], strings },
    });
    let dev = host.install(ObjectBody::Device {
        model_name: b"X\0".to_vec(),
        ifaces: vec![(attributes_interface_id(), attrs)],
    });
    host.register_device(dev);
    host
}

#[test]
fn string_property_is_decoded_up_to_the_first_nul() {
    let mut host = attributes_host(vec![(ATTR_VENDOR_NAME, b"Blackmagic\0junk".to_vec())]);
    let iterator = DeviceIterator::new(&mut host).unwrap();
    let device = iterator.next(&mut host).unwrap().unwrap();
    let attributes = device.query_attributes(&mut host).unwrap();
    assert_eq!(attributes.get_vendor_name(&mut host).unwrap(), "Blackmagic");
    // An identifier with no stored value is a native error, verbatim.
    let err = match attributes.get_display_name(&mut host) {
        Err(e) => e,
        Ok(_) => panic!("expected a failure"),
    };
    assert_eq!(err.result, E_INVALIDARG);
}

#[test]
fn malformed_vendor_string_degrades_to_empty() {
    let mut host = attributes_host(vec![(ATTR_VENDOR_NAME, vec![0xFF, 0xFE, 0x41])]);
    let iterator = DeviceIterator::new(&mut host).unwrap();
    let device = iterator.next(&mut host).unwrap().unwrap();
    let attributes = device.query_attributes(&mut host).unwrap();
    assert_eq!(attributes.get_vendor_name(&mut host).unwrap(), "");
}

#[test]
fn multibyte_names_survive_decoding() {
    let mut host = attributes_host(vec![(ATTR_VENDOR_NAME, "Geräte-Hersteller\0".as_bytes().to_vec())]);
    let iterator = DeviceIterator::new(&mut host).unwrap();
    let device = iterator.next(&mut host).unwrap().unwrap();
    let attributes = device.query_attributes(&mut host).unwrap();
    assert_eq!(attributes.get_vendor_name(&mut host).unwrap(), "Geräte-Hersteller");
}

#[test]
fn utf8_decoder_accepts_each_sequence_length() {
    assert_eq!(utf8_to_string(b"plain"), Some("plain".to_string()));
    assert_eq!(utf8_to_string("é".as_bytes()), Some("é".to_string()));
    assert_eq!(utf8_to_string("€".as_bytes()), Some("€".to_string()));
    assert_eq!(utf8_to_string("𝄞".as_bytes()), Some("𝄞".to_string()));
    assert_eq!(utf8_to_string(&[0xF4, 0x8F, 0xBF, 0xBF]), Some("\u{10FFFF}".to_string()));
    assert_eq!(utf8_to_string(&[]), Some(String::new()));
}

#[test]
fn utf8_decoder_rejects_malformed_sequences() {
    // A lone continuation byte.
    assert_eq!(utf8_to_string(&[0x80]), None);
    // An overlong two-byte encoding of an ASCII character.
    assert_eq!(utf8_to_string(&[0xC0, 0x80]), None);
    assert_eq!(utf8_to_string(&[0xC1, 0xBF]), None);
    // An encoded surrogate.
    assert_eq!(utf8_to_string(&[0xED, 0xA0, 0x80]), None);
    // Just past the last code point.
    assert_eq!(utf8_to_string(&[0xF4, 0x90, 0x80, 0x80]), None);
    // A truncated sequence.
    assert_eq!(utf8_to_string(&[0xE2, 0x82]), None);
    // An overlong three-byte encoding.
    assert_eq!(utf8_to_string(&[0xE0, 0x80, 0xA0]), None);
    // An overlong four-byte encoding.
    assert_eq!(utf8_to_string(&[0xF0, 0x80, 0x80, 0x80]), None);
}

#[test]
fn c_string_prefix_stops_at_the_first_nul() {
    assert_eq!(c_string_prefix(b"abc\0def"), b"abc".to_vec());
    assert_eq!(c_string_prefix(b"\0abc"), Vec::<u8>::new());
    assert_eq!(c_string_prefix(b"abc"), b"abc".to_vec());
    assert_eq!(c_string_prefix(b""), Vec::<u8>::new());
}
