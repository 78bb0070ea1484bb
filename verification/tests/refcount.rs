use decklink::host::{Host, Object, ObjectBody, PropTable};

fn buffer_host() -> (Host, usize) {
    let mut host = Host::new();
    let ix = host.install(ObjectBody::Buffer { bytes: b"payload".to_vec() });
    (host, ix)
}

#[test]
fn install_starts_with_one_reference() {
    let (host, ix) = buffer_host();
    assert_eq!(host.objects[ix].refs, 1);
}

#[test]
fn add_reference_then_release_preserves_original() {
    let (mut host, ix) = buffer_host();
    host.add_reference(ix);
    assert_eq!(host.objects[ix].refs, 2);
    host.release(ix);
    assert_eq!(host.objects[ix].refs, 1);
    // The original handle still reaches a live object.
    let data = host.buffer_data(ix);
    assert_eq!(data, b"payload".to_vec());
}

#[test]
fn release_of_last_reference_destroys() {
    let (mut host, ix) = buffer_host();
    host.release(ix);
    assert_eq!(host.objects[ix].refs, 0);
}

#[test]
fn aliases_count_independently() {
    let (mut host, ix) = buffer_host();
    host.add_reference(ix);
    host.add_reference(ix);
    assert_eq!(host.objects[ix].refs, 3);
    host.release(ix);
    host.release(ix);
    assert_eq!(host.objects[ix].refs, 1);
}

#[test]
fn distinct_objects_do_not_interfere() {
    let mut host = Host::new();
    let a = host.install(ObjectBody::Buffer { bytes: vec![1, 2] });
    let b = host.install(ObjectBody::Attributes {
        props: PropTable { flags: vec![], ints: vec![], strings: vec![] },
    });
    host.add_reference(a);
    host.release(b);
    let objects: &Vec<Object> = &host.objects;
    assert_eq!(objects[a].refs, 2);
    assert_eq!(objects[b].refs, 0);
}
