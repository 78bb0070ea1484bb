use decklink::host::{EnumOutcome, Host, ObjectBody};
use decklink::iterate::DeviceIterator;

fn host_with_devices(n: usize) -> Host {
    let mut host = Host::new();
    for i in 0..n {
        let name = format!("Device {}\0", i).into_bytes();
        let dev = host.install(ObjectBody::Device { model_name: name, ifaces: vec![] });
        host.register_device(dev);
    }
    host
}

#[test]
fn empty_enumeration_is_not_an_error() {
    let mut host = host_with_devices(0);
    let iterator = DeviceIterator::new(&mut host).unwrap();
    assert!(iterator.next(&mut host).unwrap().is_none());
    iterator.release(&mut host);
}

#[test]
fn exhaustion_is_terminal() {
    let mut host = host_with_devices(2);
    let iterator = DeviceIterator::new(&mut host).unwrap();
    let first = iterator.next(&mut host).unwrap().unwrap();
    let second = iterator.next(&mut host).unwrap().unwrap();
    assert!(iterator.next(&mut host).unwrap().is_none());
    assert!(iterator.next(&mut host).unwrap().is_none());
    assert!(iterator.next(&mut host).unwrap().is_none());
    let name_a = first.get_model_name(&mut host).unwrap();
    let name_b = second.get_model_name(&mut host).unwrap();
    assert_ne!(name_a, name_b);
    iterator.release(&mut host);
    first.release(&mut host);
    second.release(&mut host);
}

#[test]
fn each_item_carries_its_own_reference() {
    let mut host = host_with_devices(2);
    let iterator = DeviceIterator::new(&mut host).unwrap();
    let first = iterator.next(&mut host).unwrap().unwrap();
    let second = iterator.next(&mut host).unwrap().unwrap();
    // Each device: one native reference plus the one the enumerator took.
    assert_eq!(host.objects[0].refs, 2);
    assert_eq!(host.objects[1].refs, 2);
    first.release(&mut host);
    second.release(&mut host);
    assert_eq!(host.objects[0].refs, 1);
    assert_eq!(host.objects[1].refs, 1);
    iterator.release(&mut host);
}

#[test]
fn iterator_handle_released_exactly_once_at_teardown() {
    let mut host = host_with_devices(1);
    let iterator = DeviceIterator::new(&mut host).unwrap();
    let enum_ix = host.objects.len() - 1;
    assert!(matches!(&host.objects[enum_ix].body, ObjectBody::Enumerator { .. }));
    assert_eq!(host.objects[enum_ix].refs, 1);
    let item = iterator.next(&mut host).unwrap().unwrap();
    iterator.release(&mut host);
    assert_eq!(host.objects[enum_ix].refs, 0);
    item.release(&mut host);
}

#[test]
fn missing_driver_gives_descriptive_creation_failure() {
    let mut host = host_with_devices(1);
    host.set_iterator_available(false);
    let err = match DeviceIterator::new(&mut host) {
        Err(e) => e,
        Ok(_) => panic!("expected a failure"),
    };
    assert!(err.message.contains("drivers"));
}

#[test]
fn genuine_fault_surfaces_as_a_failure_through_the_facade() {
    let mut host = host_with_devices(2);
    let iterator = DeviceIterator::new(&mut host).unwrap();
    let enum_ix = host.objects.len() - 1;
    let first = iterator.next(&mut host).unwrap().unwrap();
    host.set_enumerator_fault(enum_ix, -42);
    let err = match iterator.next(&mut host) {
        Err(e) => e,
        Ok(_) => panic!("expected a failure"),
    };
    assert_eq!(err.result, -42);
    // The failure ends the sequence: later advances report exhaustion.
    assert!(iterator.next(&mut host).unwrap().is_none());
    first.release(&mut host);
    iterator.release(&mut host);
}

#[test]
fn genuine_fault_terminates_enumeration() {
    let mut host = Host::new();
    let item = host.install(ObjectBody::Buffer { bytes: vec![] });
    let e = host.install(ObjectBody::Enumerator {
        items: vec![item],
        pos: 0,
        done: false,
        fault: Some(-2147467259),
    });
    assert_eq!(host.enumerator_next(e), EnumOutcome::Failed(-2147467259));
    // The fault ended the sequence: no resumption, even with items left.
    assert_eq!(host.enumerator_next(e), EnumOutcome::Exhausted);
    assert_eq!(host.enumerator_next(e), EnumOutcome::Exhausted);
}

#[test]
fn advance_yields_items_in_order_then_exhausts() {
    let mut host = Host::new();
    let a = host.install(ObjectBody::Buffer { bytes: vec![1] });
    let b = host.install(ObjectBody::Buffer { bytes: vec![2] });
    let e = host.install(ObjectBody::Enumerator {
        items: vec![a, b],
        pos: 0,
        done: false,
        fault: None,
    });
    assert_eq!(host.enumerator_next(e), EnumOutcome::Item(a));
    assert_eq!(host.enumerator_next(e), EnumOutcome::Item(b));
    assert_eq!(host.enumerator_next(e), EnumOutcome::Exhausted);
    // A yielded item carries one fresh reference each.
    assert_eq!(host.objects[a].refs, 2);
    assert_eq!(host.objects[b].refs, 2);
}
