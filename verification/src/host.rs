//! In-process model of the native subsystem.
//!
//! The vendor side manages a table of opaque, reference-counted objects.
//! [`Host`] makes that table explicit: each entry holds a reference count
//! and a class-specific body (a device with its interface table, a property
//! store, an enumerator with its remaining items, a byte buffer, a video
//! frame, a timecode, a callback slot).  Every native entry point of the
//! fixed ABI — add reference, release, query interface, enumerator advance,
//! property access, buffer access, streaming control, callback registration
//! — is an operation on this table with an exact contract.
//!
//! Entries are never removed, so an object's index is stable for the life
//! of the host; a reference count of zero marks the object as destroyed.

use vstd::prelude::*;
use crate::result::{E_FAIL, E_INVALIDARG, E_NOINTERFACE, S_OK};
use crate::guid::InterfaceId;

verus! {

/// One property store: boolean, 64-bit integer and byte-string values,
/// each keyed by a small integer identifier.
pub struct PropTable {
    pub flags: Vec<(u32, bool)>,
    pub ints: Vec<(u32, i64)>,
    pub strings: Vec<(u32, Vec<u8>)>,
}

/// The class-specific payload of a native object.
pub enum ObjectBody {
    /// A device: its model name (raw bytes as the vendor reports them) and
    /// the interface table mapping capability identifiers to the object
    /// that serves that capability.
    Device { model_name: Vec<u8>, ifaces: Vec<(InterfaceId, usize)> },
    /// A device's attribute store.
    Attributes { props: PropTable },
    /// A device's status store.
    Status { props: PropTable },
    /// A capture endpoint: the callback slot, the display modes it offers,
    /// and the video-input state driven by the streaming calls.
    Input {
        callback: bool,
        display_modes: Vec<usize>,
        video_enabled: bool,
        audio_enabled: bool,
        running: bool,
        paused: bool,
    },
    /// A playback endpoint: the completion-callback slot, the display modes
    /// it offers, the video-output state, and the queue of scheduled frames.
    Output {
        callback: bool,
        display_modes: Vec<usize>,
        video_enabled: bool,
        playback_started: bool,
        scheduled: Vec<usize>,
    },
    /// A one-shot enumerator over other objects.  `pos` is the cursor into
    /// `items`; once `done` holds, every advance reports exhaustion.
    /// A pending fault, when set, is reported by the next advance as a
    /// genuine error code and also terminates the enumeration.
    Enumerator { items: Vec<usize>, pos: usize, done: bool, fault: Option<i32> },
    /// A display mode description.
    ModeInfo {
        mode: u32,
        name: Vec<u8>,
        width: i32,
        height: i32,
        frame_duration: i64,
        time_scale: i64,
    },
    /// A native-owned, immutable byte region.
    Buffer { bytes: Vec<u8> },
    /// A video frame and its pixel buffer; `bytes` always holds exactly
    /// `row_bytes * height` bytes.  `timecodes` maps a timecode format to
    /// the timecode object carried by the frame in that format.
    Frame {
        width: i32,
        height: i32,
        row_bytes: i32,
        pixel_format: u32,
        frame_flags: u32,
        bytes: Vec<u8>,
        timecodes: Vec<(u32, usize)>,
    },
    /// An audio packet delivered alongside captured frames.
    AudioPacket { bytes: Vec<u8> },
    /// A timecode: its four components and its textual rendering.
    Timecode { hours: u8, minutes: u8, seconds: u8, frames: u8, text: Vec<u8> },
    /// A pixel-format converter instance.
    Converter,
}

/// One native object: its reference count and its payload.
/// A count of zero means the object has been destroyed.
pub struct Object {
    pub refs: u64,
    pub body: ObjectBody,
}

/// The native subsystem's object table, plus the two top-level factory
/// switches: whether the device enumerator and the frame converter can be
/// created (a disabled factory models a missing driver), and the list of
/// devices the enumerator will produce.
pub struct Host {
    pub objects: Vec<Object>,
    pub devices: Vec<usize>,
    pub iterator_available: bool,
    pub conversion_available: bool,
}

/// What one advance of an enumerator reports: the next item, exhaustion,
/// or a genuine native error code.
#[derive(Clone, Copy, Debug, PartialEq, Eq, Structural)]
pub enum EnumOutcome {
    Item(usize),
    Exhausted,
    Failed(i32),
}

/// The value associated with `key` at or after position `i`, first match
/// wins.
pub open spec fn assoc_from<K, T>(s: Seq<(K, T)>, key: K, i: int) -> Option<T>
    decreases s.len() - i,
{
    if i < 0 || i >= s.len() {
        None
    } else if s[i].0 == key {
        Some(s[i].1)
    } else {
        assoc_from(s, key, i + 1)
    }
}

/// The value associated with `key` in an association list, first match
/// wins.
pub open spec fn assoc<K, T>(s: Seq<(K, T)>, key: K) -> Option<T> {
    assoc_from(s, key, 0)
}

/// The position of the first entry for `id`, if any.
fn assoc_position<T>(entries: &Vec<(u32, T)>, id: u32) -> (r: Option<usize>)
    ensures
        match r {
            Some(j) => j < entries@.len() && entries@[j as int].0 == id && assoc(
                entries@,
                id,
            ) == Some(entries@[j as int].1),
            None => assoc(entries@, id) is None,
        },
{
    let mut j: usize = 0;
    while j < entries.len()
        invariant
            j <= entries@.len(),
            assoc(entries@, id) == assoc_from(entries@, id, j as int),
        decreases entries@.len() - j,
    {
        if entries[j].0 == id {
            return Some(j);
        }
        j = j + 1;
    }
    None
}

/// The object that serves `iid` in an interface table, if any.
fn iface_lookup(entries: &Vec<(InterfaceId, usize)>, iid: InterfaceId) -> (r: Option<usize>)
    ensures
        r == assoc(entries@, iid),
{
    let mut j: usize = 0;
    while j < entries.len()
        invariant
            j <= entries@.len(),
            assoc(entries@, iid) == assoc_from(entries@, iid, j as int),
        decreases entries@.len() - j,
    {
        if entries[j].0 == iid {
            return Some(entries[j].1);
        }
        j = j + 1;
    }
    None
}

/// An owned copy of a byte slice.
fn copy_bytes(src: &[u8]) -> (r: Vec<u8>)
    ensures
        r@ == src@,
{
    let mut out: Vec<u8> = Vec::new();
    let mut i: usize = 0;
    while i < src.len()
        invariant
            i <= src@.len(),
            out@ == src@.take(i as int),
        decreases src@.len() - i,
    {
        out.push(src[i]);
        proof {
            assert(out@ =~= src@.take((i + 1) as int));
        }
        i = i + 1;
    }
    proof {
        assert(src@.take(src@.len() as int) =~= src@);
    }
    out
}

/// `o` with its reference count replaced.
pub open spec fn with_refs(o: Object, refs: u64) -> Object {
    Object { refs, body: o.body }
}

/// The table after one "add reference" on entry `i`.
pub open spec fn bump(s: Seq<Object>, i: int) -> Seq<Object> {
    s.update(i, with_refs(s[i], (s[i].refs + 1) as u64))
}

/// The table after one "release" of entry `i`.
pub open spec fn drop_ref(s: Seq<Object>, i: int) -> Seq<Object> {
    s.update(i, with_refs(s[i], (s[i].refs - 1) as u64))
}

/// Both tables have the same length and agree everywhere but at `i`.
pub open spec fn others_same(s1: Seq<Object>, s2: Seq<Object>, i: int) -> bool {
    &&& s1.len() == s2.len()
    &&& forall|j: int| 0 <= j < s1.len() && j != i ==> s1[j] == s2[j]
}

/// The observable state of a capture endpoint, for contracts.
pub struct InputState {
    pub callback: bool,
    pub modes: Seq<usize>,
    pub video_enabled: bool,
    pub audio_enabled: bool,
    pub running: bool,
    pub paused: bool,
}

/// The observable state of a playback endpoint, for contracts.
pub struct OutputState {
    pub callback: bool,
    pub modes: Seq<usize>,
    pub video_enabled: bool,
    pub playback_started: bool,
    pub queue: Seq<usize>,
}

/// The observable state of a video frame, for contracts.
pub struct FrameState {
    pub width: i32,
    pub height: i32,
    pub row_bytes: i32,
    pub pixel_format: u32,
    pub frame_flags: u32,
    pub bytes: Seq<u8>,
    pub timecodes: Seq<(u32, usize)>,
}

/// The observable state of an enumerator, for contracts.
pub struct EnumState {
    pub items: Seq<usize>,
    pub pos: usize,
    pub done: bool,
    pub fault: Option<i32>,
}

/// The observable state of a timecode, for contracts.
pub struct TimecodeState {
    pub hours: u8,
    pub minutes: u8,
    pub seconds: u8,
    pub frames: u8,
    pub text: Seq<u8>,
}

/// `post` is `pre` with exactly one fresh object appended at index `b`,
/// carrying one reference.
pub open spec fn appended_object(pre: Host, post: Host, b: usize) -> bool {
    &&& b == pre.objects@.len()
    &&& post.objects@.len() == pre.objects@.len() + 1
    &&& post.objects@.take(b as int) == pre.objects@
    &&& post.refs_of(b as int) == 1
    &&& post.same_config(pre)
}

/// A pixel conversion in the model: the source bytes carried over into a
/// buffer of the destination's size, truncated or zero-padded.
pub open spec fn converted(src: Seq<u8>, n: nat) -> Seq<u8> {
    Seq::new(
        n,
        |i: int|
            if i < src.len() {
                src[i]
            } else {
                0u8
            },
    )
}

impl InputState {
    /// This state with the callback slot replaced.
    pub open spec fn with_callback(self, callback: bool) -> InputState {
        InputState { callback, ..self }
    }

    /// This state with the video-enabled switch replaced.
    pub open spec fn with_video(self, video_enabled: bool) -> InputState {
        InputState { video_enabled, ..self }
    }

    /// This state with the audio-enabled switch replaced.
    pub open spec fn with_audio(self, audio_enabled: bool) -> InputState {
        InputState { audio_enabled, ..self }
    }

    /// This state with the running switch replaced.
    pub open spec fn with_running(self, running: bool) -> InputState {
        InputState { running, ..self }
    }

    /// This state with the paused switch replaced.
    pub open spec fn with_paused(self, paused: bool) -> InputState {
        InputState { paused, ..self }
    }
}

impl OutputState {
    /// This state with the callback slot replaced.
    pub open spec fn with_callback(self, callback: bool) -> OutputState {
        OutputState { callback, ..self }
    }

    /// This state with the video-enabled switch replaced.
    pub open spec fn with_video(self, video_enabled: bool) -> OutputState {
        OutputState { video_enabled, ..self }
    }

    /// This state with the playback switch replaced.
    pub open spec fn with_playback(self, playback_started: bool) -> OutputState {
        OutputState { playback_started, ..self }
    }

    /// This state with the scheduled queue replaced.
    pub open spec fn with_queue(self, queue: Seq<usize>) -> OutputState {
        OutputState { queue, ..self }
    }
}

impl FrameState {
    /// This state with the pixel buffer replaced.
    pub open spec fn with_bytes(self, bytes: Seq<u8>) -> FrameState {
        FrameState { bytes, ..self }
    }
}

impl EnumState {
    /// This state with the pending fault replaced.
    pub open spec fn with_fault(self, fault: Option<i32>) -> EnumState {
        EnumState { fault, ..self }
    }
}

/// A vector of `n` zero bytes.
fn zero_bytes(n: usize) -> (r: Vec<u8>)
    ensures
        r@ == Seq::new(n as nat, |i: int| 0u8),
{
    let mut out: Vec<u8> = Vec::new();
    let mut i: usize = 0;
    while i < n
        invariant
            i <= n,
            out@.len() == i,
            forall|k: int| 0 <= k < i ==> out@[k] == 0u8,
        decreases n - i,
    {
        out.push(0u8);
        i = i + 1;
    }
    proof {
        assert(out@ =~= Seq::new(n as nat, |i: int| 0u8));
    }
    out
}

/// An owned copy of a vector of object indices.
fn copy_indices(src: &Vec<usize>) -> (r: Vec<usize>)
    ensures
        r@ == src@,
{
    let mut out: Vec<usize> = Vec::new();
    let mut i: usize = 0;
    while i < src.len()
        invariant
            i <= src@.len(),
            out@ == src@.take(i as int),
        decreases src@.len() - i,
    {
        out.push(src[i]);
        proof {
            assert(out@ =~= src@.take((i + 1) as int));
        }
        i = i + 1;
    }
    proof {
        assert(src@.take(src@.len() as int) =~= src@);
    }
    out
}

/// One advance of an enumerator body: the body afterwards and what the
/// advance reports.  Exhaustion is terminal: a `done` enumerator stays
/// exactly as it is and keeps reporting exhaustion.  A pending fault is
/// reported once as a genuine error and likewise terminates the
/// enumeration.
pub open spec fn enum_step(b: ObjectBody) -> (ObjectBody, EnumOutcome) {
    match b {
        ObjectBody::Enumerator { items, pos, done, fault } => {
            if done {
                (b, EnumOutcome::Exhausted)
            } else {
                match fault {
                    Some(code) => (
                        ObjectBody::Enumerator { items, pos, done: true, fault: None },
                        EnumOutcome::Failed(code),
                    ),
                    None => if pos < items@.len() {
                        (
                            ObjectBody::Enumerator {
                                items,
                                pos: (pos + 1) as usize,
                                done,
                                fault,
                            },
                            EnumOutcome::Item(items@[pos as int]),
                        )
                    } else {
                        (
                            ObjectBody::Enumerator { items, pos, done: true, fault },
                            EnumOutcome::Exhausted,
                        )
                    },
                }
            }
        },
        _ => (b, EnumOutcome::Failed(E_FAIL)),
    }
}

/// The enumerator body after `n` further advances.
pub open spec fn enum_step_n(b: ObjectBody, n: nat) -> ObjectBody
    decreases n,
{
    if n == 0 {
        b
    } else {
        enum_step(enum_step_n(b, (n - 1) as nat)).0
    }
}

/// After `k` advances, a fresh enumerator's cursor stands at `k`, with
/// nothing else about it changed.
pub proof fn lemma_fresh_enumerator_cursor(b: ObjectBody, k: nat)
    requires
        b matches ObjectBody::Enumerator { items: _, pos: 0, done: false, fault: None },
        k <= b->items@.len(),
    ensures
        enum_step_n(b, k) matches ObjectBody::Enumerator { items, pos, done: false, fault: None }
            && items == b->items && pos == k,
    decreases k,
{
    broadcast use vstd::std_specs::vec::axiom_spec_len;

    assert(vstd::std_specs::vec::spec_vec_len(&b->items) == b->items@.len());
    if k > 0 {
        lemma_fresh_enumerator_cursor(b, (k - 1) as nat);
    }
}

/// A fresh enumerator over `n` items produces exactly those `n` items, in
/// order — the advance after `k` of them yields item `k` — and the
/// advance after all `n` reports exhaustion.
pub proof fn lemma_enumeration_is_exact(b: ObjectBody, k: nat)
    requires
        b matches ObjectBody::Enumerator { items: _, pos: 0, done: false, fault: None },
        k <= b->items@.len(),
    ensures
        k < b->items@.len() ==> enum_step(enum_step_n(b, k)).1 == EnumOutcome::Item(
            b->items@[k as int],
        ),
        k == b->items@.len() ==> enum_step(enum_step_n(b, k)).1 is Exhausted,
{
    lemma_fresh_enumerator_cursor(b, k);
}

/// Once an advance reports exhaustion, the enumerator is `done`, and a
/// `done` enumerator is left untouched by a further advance, which reports
/// exhaustion again.
pub proof fn lemma_exhaustion_is_terminal(b: ObjectBody)
    requires
        b is Enumerator,
        enum_step(b).1 is Exhausted,
    ensures
        enum_step(b).0 is Enumerator,
        enum_step(b).0->done,
        enum_step(enum_step(b).0) == (enum_step(b).0, EnumOutcome::Exhausted),
{
}

/// The table of `post` is the table of `pre` after one advance of
/// enumerator `i`: the enumerator body stepped, and the yielded item — if
/// the advance yielded one — carrying one fresh reference.
pub open spec fn enum_advanced(pre: Host, post: Host, i: int) -> bool {
    let stepped = pre.objects@.update(
        i,
        Object { refs: pre.refs_of(i), body: enum_step(pre.body_of(i)).0 },
    );
    match enum_step(pre.body_of(i)).1 {
        EnumOutcome::Item(t) => post.objects@ == bump(stepped, t as int),
        _ => post.objects@ == stepped,
    }
}

/// Every advance after a reported exhaustion — however many — reports
/// exhaustion as well: the sequence does not resume.
pub proof fn lemma_exhaustion_is_terminal_forever(b: ObjectBody, n: nat)
    requires
        b is Enumerator,
        enum_step(b).1 is Exhausted,
    ensures
        enum_step_n(enum_step(b).0, n) == enum_step(b).0,
        enum_step(enum_step_n(enum_step(b).0, n)).1 is Exhausted,
    decreases n,
{
    if n > 0 {
        lemma_exhaustion_is_terminal_forever(b, (n - 1) as nat);
    }
}

impl Host {
    /// `i` denotes a live (not yet destroyed) object.
    pub open spec fn live(self, i: int) -> bool {
        0 <= i < self.objects@.len() && self.objects@[i].refs >= 1
    }

    /// The reference count of entry `i`.
    pub open spec fn refs_of(self, i: int) -> u64 {
        self.objects@[i].refs
    }

    /// The body of entry `i`.
    pub open spec fn body_of(self, i: int) -> ObjectBody {
        self.objects@[i].body
    }

    /// Everything except the object table is unchanged.
    pub open spec fn same_config(self, other: Host) -> bool {
        &&& self.devices@ == other.devices@
        &&& self.iterator_available == other.iterator_available
        &&& self.conversion_available == other.conversion_available
    }

    /// A fresh, empty subsystem with both factories available.
    pub fn new() -> (r: Host)
        ensures
            r.objects@.len() == 0,
            r.devices@.len() == 0,
            r.iterator_available,
            r.conversion_available,
    {
        Host {
            objects: Vec::new(),
            devices: Vec::new(),
            iterator_available: true,
            conversion_available: true,
        }
    }

    /// Installs a new object with one (native-held) reference and returns
    /// its index.
    pub fn install(&mut self, body: ObjectBody) -> (ix: usize)
        ensures
            ix == old(self).objects@.len(),
            final(self).objects@ == old(self).objects@.push(Object { refs: 1, body }),
            final(self).same_config(*old(self)),
    {
        let ix = self.objects.len();
        self.objects.push(Object { refs: 1, body });
        ix
    }

    /// Native `add_reference`: one more owner of entry `ix`.
    pub fn add_reference(&mut self, ix: usize)
        requires
            old(self).live(ix as int),
            old(self).refs_of(ix as int) < u64::MAX,
        ensures
            final(self).objects@ == bump(old(self).objects@, ix as int),
            final(self).same_config(*old(self)),
    {
        let refs = self.objects[ix].refs;
        self.objects[ix].refs = refs + 1;
        assert(self.objects@ =~= bump(old(self).objects@, ix as int));
    }

    /// Native `release`: one owner of entry `ix` is gone; the count that
    /// reaches zero destroys the object.
    pub fn release(&mut self, ix: usize)
        requires
            old(self).live(ix as int),
        ensures
            final(self).objects@ == drop_ref(old(self).objects@, ix as int),
            final(self).same_config(*old(self)),
    {
        let refs = self.objects[ix].refs;
        self.objects[ix].refs = refs - 1;
        assert(self.objects@ =~= drop_ref(old(self).objects@, ix as int));
    }

    /// The property store of entry `i`, for the classes that have one.
    pub open spec fn props_of(self, i: int) -> Option<PropTable> {
        match self.objects@[i].body {
            ObjectBody::Attributes { props } => Some(props),
            ObjectBody::Status { props } => Some(props),
            _ => None,
        }
    }

    /// The boolean property `id` of entry `i`.
    pub open spec fn flag_prop(self, i: int, id: u32) -> Option<bool> {
        match self.props_of(i) {
            Some(p) => assoc(p.flags@, id),
            None => None,
        }
    }

    /// The integer property `id` of entry `i`.
    pub open spec fn int_prop(self, i: int, id: u32) -> Option<i64> {
        match self.props_of(i) {
            Some(p) => assoc(p.ints@, id),
            None => None,
        }
    }

    /// The byte-string property `id` of entry `i`.
    pub open spec fn string_prop(self, i: int, id: u32) -> Option<Seq<u8>> {
        match self.props_of(i) {
            Some(p) => match assoc(p.strings@, id) {
                Some(v) => Some(v@),
                None => None,
            },
            None => None,
        }
    }

    /// The contents of buffer object `i`.
    pub open spec fn buffer_bytes(self, i: int) -> Seq<u8> {
        match self.objects@[i].body {
            ObjectBody::Buffer { bytes } => bytes@,
            _ => Seq::empty(),
        }
    }

    /// The object serving capability `iid` on device `i`, if supported.
    pub open spec fn iface_target(self, i: int, iid: InterfaceId) -> Option<usize> {
        match self.objects@[i].body {
            ObjectBody::Device { ifaces, .. } => assoc(ifaces@, iid),
            _ => None,
        }
    }

    /// Native `get_flag`: reads the boolean property `id`; an unknown
    /// identifier is a native error, surfaced verbatim.
    pub fn get_flag(&self, ix: usize, id: u32) -> (r: Result<bool, i32>)
        requires
            self.live(ix as int),
            self.props_of(ix as int) is Some,
        ensures
            match self.flag_prop(ix as int, id) {
                Some(v) => r == Ok::<bool, i32>(v),
                None => r == Err::<bool, i32>(E_INVALIDARG),
            },
    {
        match &self.objects[ix].body {
            ObjectBody::Attributes { props } => lookup_flag(props, id),
            ObjectBody::Status { props } => lookup_flag(props, id),
            _ => Err(E_INVALIDARG),
        }
    }

    /// Native `get_int`: reads the integer property `id`; an unknown
    /// identifier is a native error, surfaced verbatim.
    pub fn get_int(&self, ix: usize, id: u32) -> (r: Result<i64, i32>)
        requires
            self.live(ix as int),
            self.props_of(ix as int) is Some,
        ensures
            match self.int_prop(ix as int, id) {
                Some(v) => r == Ok::<i64, i32>(v),
                None => r == Err::<i64, i32>(E_INVALIDARG),
            },
    {
        match &self.objects[ix].body {
            ObjectBody::Attributes { props } => lookup_int(props, id),
            ObjectBody::Status { props } => lookup_int(props, id),
            _ => Err(E_INVALIDARG),
        }
    }

    /// Native `get_string`: on success the vendor side fills a fresh buffer
    /// object — holding a copy of the property's bytes, owned by the caller
    /// — and hands its handle out.
    pub fn get_string_buffer(&mut self, ix: usize, id: u32) -> (r: Result<usize, i32>)
        requires
            old(self).live(ix as int),
            old(self).props_of(ix as int) is Some,
        ensures
            match old(self).string_prop(ix as int, id) {
                Some(bytes) => {
                    &&& r matches Ok(b) && b == old(self).objects@.len()
                    &&& final(self).objects@.len() == old(self).objects@.len() + 1
                    &&& final(self).objects@[old(self).objects@.len() as int].refs == 1
                    &&& final(self).buffer_bytes(old(self).objects@.len() as int) == bytes
                    &&& final(self).objects@[old(self).objects@.len() as int].body is Buffer
                    &&& final(self).objects@.take(old(self).objects@.len() as int) == old(self).objects@
                },
                None => r == Err::<usize, i32>(E_INVALIDARG) && final(self).objects@ == old(self).objects@,
            },
            final(self).same_config(*old(self)),
    {
        let copied: Result<Vec<u8>, i32> = match &self.objects[ix].body {
            ObjectBody::Attributes { props } => lookup_string_copy(props, id),
            ObjectBody::Status { props } => lookup_string_copy(props, id),
            _ => Err(E_INVALIDARG),
        };
        match copied {
            Ok(bytes) => {
                let b = self.install(ObjectBody::Buffer { bytes });
                proof {
                    assert(self.objects@.take(old(self).objects@.len() as int) =~= old(self).objects@);
                }
                Ok(b)
            },
            Err(code) => Err(code),
        }
    }

    /// Native `buffer_data`: the bytes held by buffer object `ix`, as an
    /// owned copy.
    pub fn buffer_data(&self, ix: usize) -> (r: Vec<u8>)
        requires
            self.live(ix as int),
            self.body_of(ix as int) is Buffer,
        ensures
            r@ == self.buffer_bytes(ix as int),
    {
        match &self.objects[ix].body {
            ObjectBody::Buffer { bytes } => copy_bytes(bytes.as_slice()),
            _ => Vec::new(),
        }
    }

    /// Native `query_interface`: a supported capability yields the serving
    /// object with a fresh reference — the source handle is not consumed —
    /// and an unsupported one yields the "no such interface" code and
    /// leaves every reference count unchanged.
    pub fn query_interface(&mut self, ix: usize, iid: InterfaceId) -> (r: Result<usize, i32>)
        requires
            old(self).live(ix as int),
            old(self).body_of(ix as int) is Device,
            old(self).iface_target(ix as int, iid) matches Some(t) ==> old(self).live(t as int)
                && old(self).refs_of(t as int) < u64::MAX,
        ensures
            match old(self).iface_target(ix as int, iid) {
                Some(t) => r == Ok::<usize, i32>(t) && final(self).objects@ == bump(
                    old(self).objects@,
                    t as int,
                ),
                None => r == Err::<usize, i32>(E_NOINTERFACE) && final(self).objects@ == old(self).objects@,
            },
            final(self).same_config(*old(self)),
    {
        let target: Option<usize> = match &self.objects[ix].body {
            ObjectBody::Device { ifaces, .. } => iface_lookup(ifaces, iid),
            _ => None,
        };
        match target {
            Some(t) => {
                self.add_reference(t);
                Ok(t)
            },
            None => Err(E_NOINTERFACE),
        }
    }

    /// Native `enumerator_next`: one advance of enumerator `ix`.  A yielded
    /// item carries a fresh reference of its own; exhaustion and faults
    /// follow [`enum_step`].
    pub fn enumerator_next(&mut self, ix: usize) -> (r: EnumOutcome)
        requires
            old(self).live(ix as int),
            old(self).body_of(ix as int) is Enumerator,
            enum_step(old(self).body_of(ix as int)).1 matches EnumOutcome::Item(t) ==> old(self).live(t as int) && old(self).refs_of(t as int) < u64::MAX && t != ix,
        ensures
            r == enum_step(old(self).body_of(ix as int)).1,
            enum_advanced(*old(self), *final(self), ix as int),
            final(self).same_config(*old(self)),
    {
        let ghost stepped_body = enum_step(old(self).body_of(ix as int)).0;
        let mut outcome: EnumOutcome = EnumOutcome::Exhausted;
        match &mut self.objects[ix].body {
            ObjectBody::Enumerator { items, pos, done, fault } => {
                if *done {
                    outcome = EnumOutcome::Exhausted;
                } else {
                    match *fault {
                        Some(code) => {
                            *done = true;
                            *fault = None;
                            outcome = EnumOutcome::Failed(code);
                        },
                        None => {
                            if *pos < items.len() {
                                let t = items[*pos];
                                *pos = *pos + 1;
                                outcome = EnumOutcome::Item(t);
                            } else {
                                *done = true;
                                outcome = EnumOutcome::Exhausted;
                            }
                        },
                    }
                }
            },
            _ => {
                proof {
                    assert(false);
                }
            },
        }
        proof {
            assert(self.objects@ =~= old(self).objects@.update(
                ix as int,
                Object { refs: old(self).refs_of(ix as int), body: stepped_body },
            ));
        }
        match outcome {
            EnumOutcome::Item(t) => {
                self.add_reference(t);
            },
            _ => {},
        }
        outcome
    }

    /// The state of capture endpoint `i`.
    pub open spec fn input_state(self, i: int) -> InputState {
        match self.objects@[i].body {
            ObjectBody::Input {
                callback,
                display_modes,
                video_enabled,
                audio_enabled,
                running,
                paused,
            } => InputState {
                callback,
                modes: display_modes@,
                video_enabled,
                audio_enabled,
                running,
                paused,
            },
            _ => InputState {
                callback: false,
                modes: Seq::empty(),
                video_enabled: false,
                audio_enabled: false,
                running: false,
                paused: false,
            },
        }
    }

    /// The state of playback endpoint `i`.
    pub open spec fn output_state(self, i: int) -> OutputState {
        match self.objects@[i].body {
            ObjectBody::Output {
                callback,
                display_modes,
                video_enabled,
                playback_started,
                scheduled,
            } => OutputState {
                callback,
                modes: display_modes@,
                video_enabled,
                playback_started,
                queue: scheduled@,
            },
            _ => OutputState {
                callback: false,
                modes: Seq::empty(),
                video_enabled: false,
                playback_started: false,
                queue: Seq::empty(),
            },
        }
    }

    /// The state of frame `i`.
    pub open spec fn frame_state(self, i: int) -> FrameState {
        match self.objects@[i].body {
            ObjectBody::Frame {
                width,
                height,
                row_bytes,
                pixel_format,
                frame_flags,
                bytes,
                timecodes,
            } => FrameState {
                width,
                height,
                row_bytes,
                pixel_format,
                frame_flags,
                bytes: bytes@,
                timecodes: timecodes@,
            },
            _ => FrameState {
                width: 0,
                height: 0,
                row_bytes: 0,
                pixel_format: 0,
                frame_flags: 0,
                bytes: Seq::empty(),
                timecodes: Seq::empty(),
            },
        }
    }

    /// A callback registration is armed on endpoint `i`.
    pub open spec fn callback_armed(self, i: int) -> bool {
        self.input_state(i).callback || self.output_state(i).callback
    }

    /// Only entry `i` may differ between the tables, and its reference
    /// count is unchanged.
    pub open spec fn entry_mutated(self, pre: Host, i: int) -> bool {
        &&& others_same(pre.objects@, self.objects@, i)
        &&& self.refs_of(i) == pre.refs_of(i)
        &&& self.same_config(pre)
    }

    /// Native `set_callback` on a capture endpoint: arms or clears the
    /// registration slot.  After clearing, no further delivery reaches a
    /// handler (see the dispatch operations).  The native call always
    /// succeeds.
    pub fn set_input_callback(&mut self, ix: usize, active: bool)
        requires
            old(self).live(ix as int),
            old(self).body_of(ix as int) is Input,
        ensures
            final(self).entry_mutated(*old(self), ix as int),
            final(self).body_of(ix as int) is Input,
            final(self).input_state(ix as int) == old(self).input_state(ix as int).with_callback(active),
    {
        match &mut self.objects[ix].body {
            ObjectBody::Input { callback, .. } => {
                *callback = active;
            },
            _ => {
                proof {
                    assert(false);
                }
            },
        }
    }

    /// What the vendor side reads before invoking a capture trampoline:
    /// whether a callback registration is armed on the endpoint.
    pub fn input_callback_armed(&self, ix: usize) -> (r: bool)
        requires
            self.live(ix as int),
            self.body_of(ix as int) is Input,
        ensures
            r == self.input_state(ix as int).callback,
    {
        match &self.objects[ix].body {
            ObjectBody::Input { callback, .. } => *callback,
            _ => {
                proof {
                    assert(false);
                }
                false
            },
        }
    }

    /// What the vendor side reads before invoking a playback trampoline:
    /// whether a completion-callback registration is armed.
    pub fn output_callback_armed(&self, ix: usize) -> (r: bool)
        requires
            self.live(ix as int),
            self.body_of(ix as int) is Output,
        ensures
            r == self.output_state(ix as int).callback,
    {
        match &self.objects[ix].body {
            ObjectBody::Output { callback, .. } => *callback,
            _ => {
                proof {
                    assert(false);
                }
                false
            },
        }
    }

    /// Native `enable_video_input`: makes the endpoint ready to capture in
    /// the given mode.  The model records only that video input is
    /// enabled; the mode, pixel format and flags are accepted as the
    /// vendor side would.
    pub fn enable_video_input(
        &mut self,
        ix: usize,
        display_mode: u32,
        pixel_format: u32,
        flags: u32,
    ) -> (r: i32)
        requires
            old(self).live(ix as int),
            old(self).body_of(ix as int) is Input,
        ensures
            r == S_OK,
            final(self).entry_mutated(*old(self), ix as int),
            final(self).body_of(ix as int) is Input,
            final(self).input_state(ix as int) == old(self).input_state(ix as int).with_video(true),
    {
        let _ = display_mode;
        let _ = pixel_format;
        let _ = flags;
        match &mut self.objects[ix].body {
            ObjectBody::Input { video_enabled, .. } => {
                *video_enabled = true;
            },
            _ => {
                proof {
                    assert(false);
                }
            },
        }
        S_OK
    }

    /// Native `disable_video_input`.
    pub fn disable_video_input(&mut self, ix: usize) -> (r: i32)
        requires
            old(self).live(ix as int),
            old(self).body_of(ix as int) is Input,
        ensures
            r == S_OK,
            final(self).entry_mutated(*old(self), ix as int),
            final(self).body_of(ix as int) is Input,
            final(self).input_state(ix as int) == old(self).input_state(ix as int).with_video(false),
    {
        match &mut self.objects[ix].body {
            ObjectBody::Input { video_enabled, .. } => {
                *video_enabled = false;
            },
            _ => {
                proof {
                    assert(false);
                }
            },
        }
        S_OK
    }

    /// Native `disable_audio_input`.
    pub fn disable_audio_input(&mut self, ix: usize) -> (r: i32)
        requires
            old(self).live(ix as int),
            old(self).body_of(ix as int) is Input,
        ensures
            r == S_OK,
            final(self).entry_mutated(*old(self), ix as int),
            final(self).body_of(ix as int) is Input,
            final(self).input_state(ix as int) == old(self).input_state(ix as int).with_audio(false),
    {
        match &mut self.objects[ix].body {
            ObjectBody::Input { audio_enabled, .. } => {
                *audio_enabled = false;
            },
            _ => {
                proof {
                    assert(false);
                }
            },
        }
        S_OK
    }

    /// Native `start_streams`: succeeds exactly when video input is
    /// enabled and streams are not already running.
    pub fn start_streams(&mut self, ix: usize) -> (r: i32)
        requires
            old(self).live(ix as int),
            old(self).body_of(ix as int) is Input,
        ensures
            final(self).same_config(*old(self)),
            old(self).input_state(ix as int).video_enabled && !old(self).input_state(
                ix as int,
            ).running ==> r == S_OK && final(self).entry_mutated(*old(self), ix as int) && final(self).body_of(ix as int) is Input && final(self).input_state(ix as int) == old(self).input_state(ix as int).with_running(true),
            !(old(self).input_state(ix as int).video_enabled && !old(self).input_state(
                ix as int,
            ).running) ==> r == E_FAIL && final(self).objects@ == old(self).objects@,
    {
        match &mut self.objects[ix].body {
            ObjectBody::Input { video_enabled, running, .. } => {
                if *video_enabled && !*running {
                    *running = true;
                    S_OK
                } else {
                    E_FAIL
                }
            },
            _ => {
                proof {
                    assert(false);
                }
                E_FAIL
            },
        }
    }

    /// Native `stop_streams`: succeeds exactly when streams are running;
    /// stopping also leaves the paused state behind.
    pub fn stop_streams(&mut self, ix: usize) -> (r: i32)
        requires
            old(self).live(ix as int),
            old(self).body_of(ix as int) is Input,
        ensures
            final(self).same_config(*old(self)),
            old(self).input_state(ix as int).running ==> r == S_OK && final(self).entry_mutated(
                *old(self),
                ix as int,
            ) && final(self).body_of(ix as int) is Input && final(self).input_state(ix as int)
                == old(self).input_state(ix as int).with_running(false).with_paused(false),
            !old(self).input_state(ix as int).running ==> r == E_FAIL && final(self).objects@
                == old(self).objects@,
    {
        match &mut self.objects[ix].body {
            ObjectBody::Input { running, paused, .. } => {
                if *running {
                    *running = false;
                    *paused = false;
                    S_OK
                } else {
                    E_FAIL
                }
            },
            _ => {
                proof {
                    assert(false);
                }
                E_FAIL
            },
        }
    }

    /// Native `pause_streams`: toggles the paused state of running
    /// streams; fails when streams are not running.
    pub fn pause_streams(&mut self, ix: usize) -> (r: i32)
        requires
            old(self).live(ix as int),
            old(self).body_of(ix as int) is Input,
        ensures
            final(self).same_config(*old(self)),
            old(self).input_state(ix as int).running ==> r == S_OK && final(self).entry_mutated(
                *old(self),
                ix as int,
            ) && final(self).body_of(ix as int) is Input && final(self).input_state(ix as int)
                == old(self).input_state(ix as int).with_paused(!old(self).input_state(ix as int).paused),
            !old(self).input_state(ix as int).running ==> r == E_FAIL && final(self).objects@
                == old(self).objects@,
    {
        match &mut self.objects[ix].body {
            ObjectBody::Input { running, paused, .. } => {
                if *running {
                    *paused = !*paused;
                    S_OK
                } else {
                    E_FAIL
                }
            },
            _ => {
                proof {
                    assert(false);
                }
                E_FAIL
            },
        }
    }

    /// Native `flush_streams`: discards buffered data; succeeds exactly
    /// when video input is enabled, and changes no observable state.
    pub fn flush_streams(&mut self, ix: usize) -> (r: i32)
        requires
            old(self).live(ix as int),
            old(self).body_of(ix as int) is Input,
        ensures
            final(self).objects@ == old(self).objects@,
            final(self).same_config(*old(self)),
            r == if old(self).input_state(ix as int).video_enabled {
                S_OK
            } else {
                E_FAIL
            },
    {
        match &self.objects[ix].body {
            ObjectBody::Input { video_enabled, .. } => {
                if *video_enabled {
                    S_OK
                } else {
                    E_FAIL
                }
            },
            _ => {
                proof {
                    assert(false);
                }
                E_FAIL
            },
        }
    }

    /// Native `set_callback` on a playback endpoint: arms or clears the
    /// completion-callback slot.  The native call always succeeds.
    pub fn set_output_callback(&mut self, ix: usize, active: bool)
        requires
            old(self).live(ix as int),
            old(self).body_of(ix as int) is Output,
        ensures
            final(self).entry_mutated(*old(self), ix as int),
            final(self).body_of(ix as int) is Output,
            final(self).output_state(ix as int) == old(self).output_state(ix as int).with_callback(active),
    {
        match &mut self.objects[ix].body {
            ObjectBody::Output { callback, .. } => {
                *callback = active;
            },
            _ => {
                proof {
                    assert(false);
                }
            },
        }
    }

    /// Native `enable_video_output`.  As with capture, the model records
    /// only that video output is enabled.
    pub fn enable_video_output(&mut self, ix: usize, display_mode: u32, flags: u32) -> (r: i32)
        requires
            old(self).live(ix as int),
            old(self).body_of(ix as int) is Output,
        ensures
            r == S_OK,
            final(self).entry_mutated(*old(self), ix as int),
            final(self).body_of(ix as int) is Output,
            final(self).output_state(ix as int) == old(self).output_state(ix as int).with_video(true),
    {
        let _ = display_mode;
        let _ = flags;
        match &mut self.objects[ix].body {
            ObjectBody::Output { video_enabled, .. } => {
                *video_enabled = true;
            },
            _ => {
                proof {
                    assert(false);
                }
            },
        }
        S_OK
    }

    /// Native `disable_video_output`.
    pub fn disable_video_output(&mut self, ix: usize) -> (r: i32)
        requires
            old(self).live(ix as int),
            old(self).body_of(ix as int) is Output,
        ensures
            r == S_OK,
            final(self).entry_mutated(*old(self), ix as int),
            final(self).body_of(ix as int) is Output,
            final(self).output_state(ix as int) == old(self).output_state(ix as int).with_video(false),
    {
        match &mut self.objects[ix].body {
            ObjectBody::Output { video_enabled, .. } => {
                *video_enabled = false;
            },
            _ => {
                proof {
                    assert(false);
                }
            },
        }
        S_OK
    }

    /// Native `start_scheduled_playback`: succeeds exactly when video
    /// output is enabled.  The start time and time scale are accepted as
    /// the vendor side would; the model records only that playback began.
    pub fn start_scheduled_playback(
        &mut self,
        ix: usize,
        playback_start_time: i64,
        time_scale: i64,
    ) -> (r: i32)
        requires
            old(self).live(ix as int),
            old(self).body_of(ix as int) is Output,
        ensures
            final(self).same_config(*old(self)),
            old(self).output_state(ix as int).video_enabled ==> r == S_OK && final(self).entry_mutated(*old(self), ix as int) && final(self).body_of(ix as int) is Output
                && final(self).output_state(ix as int) == old(self).output_state(ix as int).with_playback(true),
            !old(self).output_state(ix as int).video_enabled ==> r == E_FAIL && final(self).objects@ == old(self).objects@,
    {
        let _ = playback_start_time;
        let _ = time_scale;
        match &mut self.objects[ix].body {
            ObjectBody::Output { video_enabled, playback_started, .. } => {
                if *video_enabled {
                    *playback_started = true;
                    S_OK
                } else {
                    E_FAIL
                }
            },
            _ => {
                proof {
                    assert(false);
                }
                E_FAIL
            },
        }
    }

    /// Native `schedule_video_frame`: queues the frame for playback,
    /// taking over the caller's reference; fails — leaving every count
    /// unchanged — when video output is not enabled.
    pub fn schedule_video_frame(&mut self, ix: usize, frame: usize) -> (r: i32)
        requires
            old(self).live(ix as int),
            old(self).body_of(ix as int) is Output,
            old(self).live(frame as int),
            old(self).body_of(frame as int) is Frame,
        ensures
            final(self).same_config(*old(self)),
            old(self).output_state(ix as int).video_enabled ==> r == S_OK && final(self).entry_mutated(*old(self), ix as int) && final(self).body_of(ix as int) is Output
                && final(self).output_state(ix as int) == old(self).output_state(ix as int).with_queue(old(self).output_state(ix as int).queue.push(frame)),
            !old(self).output_state(ix as int).video_enabled ==> r == E_FAIL && final(self).objects@ == old(self).objects@,
    {
        match &mut self.objects[ix].body {
            ObjectBody::Output { video_enabled, scheduled, .. } => {
                if *video_enabled {
                    scheduled.push(frame);
                    S_OK
                } else {
                    E_FAIL
                }
            },
            _ => {
                proof {
                    assert(false);
                }
                E_FAIL
            },
        }
    }

    /// The completion side of scheduled playback: the vendor side takes
    /// the oldest queued frame off the queue (handing its reference to the
    /// caller) when it finishes with it.
    pub fn take_scheduled(&mut self, ix: usize) -> (r: Option<usize>)
        requires
            old(self).live(ix as int),
            old(self).body_of(ix as int) is Output,
        ensures
            final(self).same_config(*old(self)),
            old(self).output_state(ix as int).queue.len() > 0 ==> r == Some(
                old(self).output_state(ix as int).queue[0],
            ) && final(self).entry_mutated(*old(self), ix as int) && final(self).body_of(
                ix as int,
            ) is Output && final(self).output_state(ix as int) == old(self).output_state(ix as int).with_queue(old(self).output_state(ix as int).queue.drop_first()),
            old(self).output_state(ix as int).queue.len() == 0 ==> r is None && final(self).objects@ == old(self).objects@,
    {
        match &mut self.objects[ix].body {
            ObjectBody::Output { scheduled, .. } => {
                if scheduled.len() > 0 {
                    let f = scheduled.remove(0);
                    proof {
                        assert(scheduled@ =~= old(self).output_state(
                            ix as int,
                        ).queue.drop_first());
                    }
                    Some(f)
                } else {
                    None
                }
            },
            _ => {
                proof {
                    assert(false);
                }
                None
            },
        }
    }

    /// The model name of device `i`.
    pub open spec fn device_name_of(self, i: int) -> Seq<u8> {
        match self.objects@[i].body {
            ObjectBody::Device { model_name, .. } => model_name@,
            _ => Seq::empty(),
        }
    }

    /// The state of enumerator `i`.
    pub open spec fn enum_state(self, i: int) -> EnumState {
        match self.objects@[i].body {
            ObjectBody::Enumerator { items, pos, done, fault } => EnumState {
                items: items@,
                pos,
                done,
                fault,
            },
            _ => EnumState { items: Seq::empty(), pos: 0, done: true, fault: None },
        }
    }

    /// The state of timecode `i`.
    pub open spec fn timecode_state(self, i: int) -> TimecodeState {
        match self.objects@[i].body {
            ObjectBody::Timecode { hours, minutes, seconds, frames, text } => TimecodeState {
                hours,
                minutes,
                seconds,
                frames,
                text: text@,
            },
            _ => TimecodeState { hours: 0, minutes: 0, seconds: 0, frames: 0, text: Seq::empty() },
        }
    }

    /// The display mode value of mode description `i`.
    pub open spec fn mode_value_of(self, i: int) -> u32 {
        match self.objects@[i].body {
            ObjectBody::ModeInfo { mode, .. } => mode,
            _ => 0,
        }
    }

    /// The name of mode description `i`.
    pub open spec fn mode_name_of(self, i: int) -> Seq<u8> {
        match self.objects@[i].body {
            ObjectBody::ModeInfo { name, .. } => name@,
            _ => Seq::empty(),
        }
    }

    /// The frame width of mode description `i`.
    pub open spec fn mode_width_of(self, i: int) -> i32 {
        match self.objects@[i].body {
            ObjectBody::ModeInfo { width, .. } => width,
            _ => 0,
        }
    }

    /// The frame height of mode description `i`.
    pub open spec fn mode_height_of(self, i: int) -> i32 {
        match self.objects@[i].body {
            ObjectBody::ModeInfo { height, .. } => height,
            _ => 0,
        }
    }

    /// The frame rate of mode description `i`, as duration and scale.
    pub open spec fn mode_rate_of(self, i: int) -> (i64, i64) {
        match self.objects@[i].body {
            ObjectBody::ModeInfo { frame_duration, time_scale, .. } => (
                frame_duration,
                time_scale,
            ),
            _ => (0, 0),
        }
    }

    /// The display modes offered by endpoint `i` (capture or playback).
    pub open spec fn endpoint_modes_of(self, i: int) -> Seq<usize> {
        match self.objects@[i].body {
            ObjectBody::Input { display_modes, .. } => display_modes@,
            ObjectBody::Output { display_modes, .. } => display_modes@,
            _ => Seq::empty(),
        }
    }

    /// Native `get_model_name` on a device: the vendor side fills a fresh
    /// buffer object with the model name and hands its handle out.
    pub fn device_name_buffer(&mut self, ix: usize) -> (r: usize)
        requires
            old(self).live(ix as int),
            old(self).body_of(ix as int) is Device,
        ensures
            appended_object(*old(self), *final(self), r),
            final(self).body_of(r as int) is Buffer,
            final(self).buffer_bytes(r as int) == old(self).device_name_of(ix as int),
    {
        let copied: Vec<u8> = match &self.objects[ix].body {
            ObjectBody::Device { model_name, .. } => copy_bytes(model_name.as_slice()),
            _ => Vec::new(),
        };
        let b = self.install(ObjectBody::Buffer { bytes: copied });
        proof {
            assert(self.objects@.take(old(self).objects@.len() as int) =~= old(self).objects@);
        }
        b
    }

    /// Native `GetName` on a display mode: likewise through a fresh
    /// buffer.
    pub fn mode_name_buffer(&mut self, ix: usize) -> (r: usize)
        requires
            old(self).live(ix as int),
            old(self).body_of(ix as int) is ModeInfo,
        ensures
            appended_object(*old(self), *final(self), r),
            final(self).body_of(r as int) is Buffer,
            final(self).buffer_bytes(r as int) == old(self).mode_name_of(ix as int),
    {
        let copied: Vec<u8> = match &self.objects[ix].body {
            ObjectBody::ModeInfo { name, .. } => copy_bytes(name.as_slice()),
            _ => Vec::new(),
        };
        let b = self.install(ObjectBody::Buffer { bytes: copied });
        proof {
            assert(self.objects@.take(old(self).objects@.len() as int) =~= old(self).objects@);
        }
        b
    }

    /// Native `GetString` on a timecode: its textual rendering, through a
    /// fresh buffer.
    pub fn timecode_text_buffer(&mut self, ix: usize) -> (r: usize)
        requires
            old(self).live(ix as int),
            old(self).body_of(ix as int) is Timecode,
        ensures
            appended_object(*old(self), *final(self), r),
            final(self).body_of(r as int) is Buffer,
            final(self).buffer_bytes(r as int) == old(self).timecode_state(ix as int).text,
    {
        let copied: Vec<u8> = match &self.objects[ix].body {
            ObjectBody::Timecode { text, .. } => copy_bytes(text.as_slice()),
            _ => Vec::new(),
        };
        let b = self.install(ObjectBody::Buffer { bytes: copied });
        proof {
            assert(self.objects@.take(old(self).objects@.len() as int) =~= old(self).objects@);
        }
        b
    }

    /// Native `GetComponents` on a timecode.
    pub fn timecode_get_components(&self, ix: usize) -> (r: (u8, u8, u8, u8))
        requires
            self.live(ix as int),
            self.body_of(ix as int) is Timecode,
        ensures
            r.0 == self.timecode_state(ix as int).hours,
            r.1 == self.timecode_state(ix as int).minutes,
            r.2 == self.timecode_state(ix as int).seconds,
            r.3 == self.timecode_state(ix as int).frames,
    {
        match &self.objects[ix].body {
            ObjectBody::Timecode { hours, minutes, seconds, frames, .. } => (
                *hours,
                *minutes,
                *seconds,
                *frames,
            ),
            _ => {
                proof {
                    assert(false);
                }
                (0, 0, 0, 0)
            },
        }
    }

    /// Native `GetDisplayMode` on a mode description.
    pub fn mode_get_value(&self, ix: usize) -> (r: u32)
        requires
            self.live(ix as int),
            self.body_of(ix as int) is ModeInfo,
        ensures
            r == self.mode_value_of(ix as int),
    {
        match &self.objects[ix].body {
            ObjectBody::ModeInfo { mode, .. } => *mode,
            _ => {
                proof {
                    assert(false);
                }
                0
            },
        }
    }

    /// Native `GetWidth` on a mode description.
    pub fn mode_get_width(&self, ix: usize) -> (r: i32)
        requires
            self.live(ix as int),
            self.body_of(ix as int) is ModeInfo,
        ensures
            r == self.mode_width_of(ix as int),
    {
        match &self.objects[ix].body {
            ObjectBody::ModeInfo { width, .. } => *width,
            _ => {
                proof {
                    assert(false);
                }
                0
            },
        }
    }

    /// Native `GetHeight` on a mode description.
    pub fn mode_get_height(&self, ix: usize) -> (r: i32)
        requires
            self.live(ix as int),
            self.body_of(ix as int) is ModeInfo,
        ensures
            r == self.mode_height_of(ix as int),
    {
        match &self.objects[ix].body {
            ObjectBody::ModeInfo { height, .. } => *height,
            _ => {
                proof {
                    assert(false);
                }
                0
            },
        }
    }

    /// Native `GetFrameRate` on a mode description: frame duration and
    /// time scale.
    pub fn mode_get_frame_rate(&self, ix: usize) -> (r: (i64, i64))
        requires
            self.live(ix as int),
            self.body_of(ix as int) is ModeInfo,
        ensures
            r == self.mode_rate_of(ix as int),
    {
        match &self.objects[ix].body {
            ObjectBody::ModeInfo { frame_duration, time_scale, .. } => (
                *frame_duration,
                *time_scale,
            ),
            _ => {
                proof {
                    assert(false);
                }
                (0, 0)
            },
        }
    }

    /// Native `GetDisplayModeIterator` on a capture or playback endpoint:
    /// a fresh one-shot enumerator over the endpoint's display modes.
    pub fn create_display_mode_enumerator(&mut self, ix: usize) -> (r: usize)
        requires
            old(self).live(ix as int),
            old(self).body_of(ix as int) is Input || old(self).body_of(ix as int) is Output,
        ensures
            appended_object(*old(self), *final(self), r),
            final(self).body_of(r as int) is Enumerator,
            final(self).enum_state(r as int) == (EnumState {
                items: old(self).endpoint_modes_of(ix as int),
                pos: 0,
                done: false,
                fault: None,
            }),
    {
        let items: Vec<usize> = match &self.objects[ix].body {
            ObjectBody::Input { display_modes, .. } => copy_indices(display_modes),
            ObjectBody::Output { display_modes, .. } => copy_indices(display_modes),
            _ => Vec::new(),
        };
        let e = self.install(
            ObjectBody::Enumerator { items, pos: 0, done: false, fault: None },
        );
        proof {
            assert(self.objects@.take(old(self).objects@.len() as int) =~= old(self).objects@);
        }
        e
    }

    /// The top-level device-enumerator factory: `None` models a missing or
    /// outdated driver; otherwise a fresh one-shot enumerator over the
    /// subsystem's devices.
    pub fn create_device_enumerator(&mut self) -> (r: Option<usize>)
        ensures
            !old(self).iterator_available ==> r is None && final(self).objects@ == old(self).objects@ && final(self).same_config(*old(self)),
            old(self).iterator_available ==> (r matches Some(e) && appended_object(
                *old(self),
                *final(self),
                e,
            ) && final(self).body_of(e as int) is Enumerator && final(self).enum_state(e as int)
                == (EnumState {
                items: old(self).devices@,
                pos: 0,
                done: false,
                fault: None,
            })),
    {
        if !self.iterator_available {
            return None;
        }
        let items = copy_indices(&self.devices);
        let e = self.install(
            ObjectBody::Enumerator { items, pos: 0, done: false, fault: None },
        );
        proof {
            assert(self.objects@.take(old(self).objects@.len() as int) =~= old(self).objects@);
        }
        Some(e)
    }

    /// The top-level converter factory: `None` models a missing or
    /// outdated driver.
    pub fn create_converter(&mut self) -> (r: Option<usize>)
        ensures
            !old(self).conversion_available ==> r is None && final(self).objects@ == old(self).objects@ && final(self).same_config(*old(self)),
            old(self).conversion_available ==> (r matches Some(c) && appended_object(
                *old(self),
                *final(self),
                c,
            ) && final(self).body_of(c as int) is Converter),
    {
        if !self.conversion_available {
            return None;
        }
        let c = self.install(ObjectBody::Converter);
        proof {
            assert(self.objects@.take(old(self).objects@.len() as int) =~= old(self).objects@);
        }
        Some(c)
    }

    /// The geometry is one a frame can be created with: positive sizes
    /// whose pixel buffer fits comfortably in memory.
    pub open spec fn frame_geometry_ok(width: i32, height: i32, row_bytes: i32) -> bool {
        0 < width && 0 < height && 0 < row_bytes && row_bytes * height <= 0x7FFF_FFFF
    }

    /// Native `CreateVideoFrame`: a fresh mutable frame with a zeroed
    /// pixel buffer of exactly `row_bytes * height` bytes; bad geometry is
    /// a native error.
    pub fn create_video_frame(
        &mut self,
        ix: usize,
        width: i32,
        height: i32,
        row_bytes: i32,
        pixel_format: u32,
        frame_flags: u32,
    ) -> (r: Result<usize, i32>)
        requires
            old(self).live(ix as int),
            old(self).body_of(ix as int) is Output,
        ensures
            Host::frame_geometry_ok(width, height, row_bytes) ==> (r matches Ok(b)
                && appended_object(*old(self), *final(self), b) && final(self).body_of(
                b as int,
            ) is Frame && final(self).frame_state(b as int) == (FrameState {
                width,
                height,
                row_bytes,
                pixel_format,
                frame_flags,
                bytes: Seq::new((row_bytes * height) as nat, |i: int| 0u8),
                timecodes: Seq::empty(),
            })),
            !Host::frame_geometry_ok(width, height, row_bytes) ==> r == Err::<usize, i32>(
                E_INVALIDARG,
            ) && final(self).objects@ == old(self).objects@ && final(self).same_config(
                *old(self),
            ),
    {
        if width <= 0 || height <= 0 || row_bytes <= 0 {
            return Err(E_INVALIDARG);
        }
        proof {
            assert((row_bytes as int) * (height as int) <= 0x7FFF_FFFF * 0x7FFF_FFFF)
                by (nonlinear_arith)
                requires
                    0 < row_bytes <= 0x7FFF_FFFF,
                    0 < height <= 0x7FFF_FFFF,
            ;
        }
        let total: i64 = (row_bytes as i64) * (height as i64);
        if total > 0x7FFF_FFFF {
            return Err(E_INVALIDARG);
        }
        let bytes = zero_bytes(total as usize);
        let timecodes: Vec<(u32, usize)> = Vec::new();
        let b = self.install(
            ObjectBody::Frame {
                width,
                height,
                row_bytes,
                pixel_format,
                frame_flags,
                bytes,
                timecodes,
            },
        );
        proof {
            assert(self.objects@.take(old(self).objects@.len() as int) =~= old(self).objects@);
        }
        Ok(b)
    }

    /// Installs a captured frame, as the vendor side does before it
    /// delivers the frame to a registered handler.  The pixel buffer must
    /// match the geometry; the timecode entries must name live timecode
    /// objects.
    pub fn install_frame(
        &mut self,
        width: i32,
        height: i32,
        row_bytes: i32,
        pixel_format: u32,
        frame_flags: u32,
        bytes: Vec<u8>,
        timecodes: Vec<(u32, usize)>,
    ) -> (r: usize)
        requires
            Host::frame_geometry_ok(width, height, row_bytes),
            bytes@.len() == row_bytes * height,
        ensures
            appended_object(*old(self), *final(self), r),
            final(self).body_of(r as int) is Frame,
            final(self).frame_state(r as int) == (FrameState {
                width,
                height,
                row_bytes,
                pixel_format,
                frame_flags,
                bytes: bytes@,
                timecodes: timecodes@,
            }),
    {
        let b = self.install(
            ObjectBody::Frame {
                width,
                height,
                row_bytes,
                pixel_format,
                frame_flags,
                bytes,
                timecodes,
            },
        );
        proof {
            assert(self.objects@.take(old(self).objects@.len() as int) =~= old(self).objects@);
        }
        b
    }

    /// Native `GetWidth` on a frame.
    pub fn frame_get_width(&self, ix: usize) -> (r: i32)
        requires
            self.live(ix as int),
            self.body_of(ix as int) is Frame,
        ensures
            r == self.frame_state(ix as int).width,
    {
        match &self.objects[ix].body {
            ObjectBody::Frame { width, .. } => *width,
            _ => {
                proof {
                    assert(false);
                }
                0
            },
        }
    }

    /// Native `GetHeight` on a frame.
    pub fn frame_get_height(&self, ix: usize) -> (r: i32)
        requires
            self.live(ix as int),
            self.body_of(ix as int) is Frame,
        ensures
            r == self.frame_state(ix as int).height,
    {
        match &self.objects[ix].body {
            ObjectBody::Frame { height, .. } => *height,
            _ => {
                proof {
                    assert(false);
                }
                0
            },
        }
    }

    /// Native `GetRowBytes` on a frame.
    pub fn frame_get_row_bytes(&self, ix: usize) -> (r: i32)
        requires
            self.live(ix as int),
            self.body_of(ix as int) is Frame,
        ensures
            r == self.frame_state(ix as int).row_bytes,
    {
        match &self.objects[ix].body {
            ObjectBody::Frame { row_bytes, .. } => *row_bytes,
            _ => {
                proof {
                    assert(false);
                }
                0
            },
        }
    }

    /// Native `GetPixelFormat` on a frame.
    pub fn frame_get_pixel_format(&self, ix: usize) -> (r: u32)
        requires
            self.live(ix as int),
            self.body_of(ix as int) is Frame,
        ensures
            r == self.frame_state(ix as int).pixel_format,
    {
        match &self.objects[ix].body {
            ObjectBody::Frame { pixel_format, .. } => *pixel_format,
            _ => {
                proof {
                    assert(false);
                }
                0
            },
        }
    }

    /// Native `GetFlags` on a frame.
    pub fn frame_get_flags(&self, ix: usize) -> (r: u32)
        requires
            self.live(ix as int),
            self.body_of(ix as int) is Frame,
        ensures
            r == self.frame_state(ix as int).frame_flags,
    {
        match &self.objects[ix].body {
            ObjectBody::Frame { frame_flags, .. } => *frame_flags,
            _ => {
                proof {
                    assert(false);
                }
                0
            },
        }
    }

    /// Native `GetBytes` for reading: an owned copy of the frame's pixel
    /// buffer.
    pub fn frame_get_bytes(&self, ix: usize) -> (r: Vec<u8>)
        requires
            self.live(ix as int),
            self.body_of(ix as int) is Frame,
        ensures
            r@ == self.frame_state(ix as int).bytes,
    {
        match &self.objects[ix].body {
            ObjectBody::Frame { bytes, .. } => copy_bytes(bytes.as_slice()),
            _ => {
                proof {
                    assert(false);
                }
                Vec::new()
            },
        }
    }

    /// Native `GetBytes` for writing: replaces the frame's pixel buffer
    /// wholesale.  Data of any other length than the buffer's own is a
    /// native error and changes nothing.
    pub fn frame_write_bytes(&mut self, ix: usize, data: &[u8]) -> (r: Result<(), i32>)
        requires
            old(self).live(ix as int),
            old(self).body_of(ix as int) is Frame,
        ensures
            data@.len() == old(self).frame_state(ix as int).bytes.len() ==> (r matches Ok(())
                && final(self).entry_mutated(*old(self), ix as int) && final(self).body_of(
                ix as int,
            ) is Frame && final(self).frame_state(ix as int) == old(self).frame_state(
                ix as int,
            ).with_bytes(data@)),
            data@.len() != old(self).frame_state(ix as int).bytes.len() ==> r == Err::<(), i32>(
                E_INVALIDARG,
            ) && final(self).objects@ == old(self).objects@ && final(self).same_config(
                *old(self),
            ),
    {
        match &mut self.objects[ix].body {
            ObjectBody::Frame { bytes, .. } => {
                if data.len() == bytes.len() {
                    *bytes = copy_bytes(data);
                    Ok(())
                } else {
                    Err(E_INVALIDARG)
                }
            },
            _ => {
                proof {
                    assert(false);
                }
                Err(E_INVALIDARG)
            },
        }
    }

    /// Native `GetTimecode`: the frame's timecode in the given format, as
    /// a fresh owned reference, or the "no value" outcome when the frame
    /// carries none.
    pub fn frame_get_timecode(&mut self, ix: usize, format: u32) -> (r: Option<usize>)
        requires
            old(self).live(ix as int),
            old(self).body_of(ix as int) is Frame,
            assoc(old(self).frame_state(ix as int).timecodes, format) matches Some(t) ==> old(self).live(t as int) && old(self).refs_of(t as int) < u64::MAX,
        ensures
            match assoc(old(self).frame_state(ix as int).timecodes, format) {
                Some(t) => r == Some(t) && final(self).objects@ == bump(
                    old(self).objects@,
                    t as int,
                ),
                None => r is None && final(self).objects@ == old(self).objects@,
            },
            final(self).same_config(*old(self)),
    {
        let found: Option<usize> = match &self.objects[ix].body {
            ObjectBody::Frame { timecodes, .. } => match assoc_position(timecodes, format) {
                Some(j) => Some(timecodes[j].1),
                None => None,
            },
            _ => None,
        };
        match found {
            Some(t) => {
                self.add_reference(t);
                Some(t)
            },
            None => None,
        }
    }

    /// Native `ConvertFrame`: the destination's pixel buffer becomes the
    /// model conversion of the source's, in the destination's own size;
    /// nothing else changes.
    pub fn convert_frame(&mut self, conv: usize, src: usize, dst: usize) -> (r: i32)
        requires
            old(self).live(conv as int),
            old(self).body_of(conv as int) is Converter,
            old(self).live(src as int),
            old(self).body_of(src as int) is Frame,
            old(self).live(dst as int),
            old(self).body_of(dst as int) is Frame,
            src != dst,
        ensures
            r == S_OK,
            final(self).entry_mutated(*old(self), dst as int),
            final(self).body_of(dst as int) is Frame,
            final(self).frame_state(dst as int) == old(self).frame_state(dst as int).with_bytes(
                converted(
                    old(self).frame_state(src as int).bytes,
                    old(self).frame_state(dst as int).bytes.len(),
                ),
            ),
    {
        let src_bytes: Vec<u8> = self.frame_get_bytes(src);
        let n: usize = match &self.objects[dst].body {
            ObjectBody::Frame { bytes, .. } => bytes.len(),
            _ => {
                proof {
                    assert(false);
                }
                0
            },
        };
        let mut out: Vec<u8> = Vec::new();
        let mut i: usize = 0;
        while i < n
            invariant
                i <= n,
                out@.len() == i,
                src_bytes@ == old(self).frame_state(src as int).bytes,
                forall|k: int|
                    0 <= k < i ==> out@[k] == (if k < src_bytes@.len() {
                        src_bytes@[k]
                    } else {
                        0u8
                    }),
            decreases n - i,
        {
            if i < src_bytes.len() {
                out.push(src_bytes[i]);
            } else {
                out.push(0u8);
            }
            i = i + 1;
        }
        proof {
            assert(out@ =~= converted(
                old(self).frame_state(src as int).bytes,
                old(self).frame_state(dst as int).bytes.len(),
            ));
        }
        match &mut self.objects[dst].body {
            ObjectBody::Frame { bytes, .. } => {
                *bytes = out;
            },
            _ => {
                proof {
                    assert(false);
                }
            },
        }
        S_OK
    }

    /// Arms a fault on an enumerator: its next advance reports this code
    /// as a genuine error.
    pub fn set_enumerator_fault(&mut self, ix: usize, code: i32)
        requires
            old(self).live(ix as int),
            old(self).body_of(ix as int) is Enumerator,
        ensures
            final(self).entry_mutated(*old(self), ix as int),
            final(self).body_of(ix as int) is Enumerator,
            final(self).enum_state(ix as int) == old(self).enum_state(ix as int).with_fault(
                Some(code),
            ),
    {
        match &mut self.objects[ix].body {
            ObjectBody::Enumerator { fault, .. } => {
                *fault = Some(code);
            },
            _ => {
                proof {
                    assert(false);
                }
            },
        }
    }

    /// Adds a device to the list the device enumerator will produce.
    pub fn register_device(&mut self, ix: usize)
        requires
            old(self).live(ix as int),
            old(self).body_of(ix as int) is Device,
        ensures
            final(self).objects@ == old(self).objects@,
            final(self).devices@ == old(self).devices@.push(ix),
            final(self).iterator_available == old(self).iterator_available,
            final(self).conversion_available == old(self).conversion_available,
    {
        self.devices.push(ix);
    }

    /// Switches the device-enumerator factory on or off (off models a
    /// missing driver).
    pub fn set_iterator_available(&mut self, available: bool)
        ensures
            final(self).objects@ == old(self).objects@,
            final(self).devices@ == old(self).devices@,
            final(self).iterator_available == available,
            final(self).conversion_available == old(self).conversion_available,
    {
        self.iterator_available = available;
    }

    /// Switches the converter factory on or off (off models a missing
    /// driver).
    pub fn set_conversion_available(&mut self, available: bool)
        ensures
            final(self).objects@ == old(self).objects@,
            final(self).devices@ == old(self).devices@,
            final(self).iterator_available == old(self).iterator_available,
            final(self).conversion_available == available,
    {
        self.conversion_available = available;
    }
}

/// The boolean property `id` in one property store.
fn lookup_flag(props: &PropTable, id: u32) -> (r: Result<bool, i32>)
    ensures
        match assoc(props.flags@, id) {
            Some(v) => r == Ok::<bool, i32>(v),
            None => r == Err::<bool, i32>(E_INVALIDARG),
        },
{
    match assoc_position(&props.flags, id) {
        Some(j) => Ok(props.flags[j].1),
        None => Err(E_INVALIDARG),
    }
}

/// The integer property `id` in one property store.
fn lookup_int(props: &PropTable, id: u32) -> (r: Result<i64, i32>)
    ensures
        match assoc(props.ints@, id) {
            Some(v) => r == Ok::<i64, i32>(v),
            None => r == Err::<i64, i32>(E_INVALIDARG),
        },
{
    match assoc_position(&props.ints, id) {
        Some(j) => Ok(props.ints[j].1),
        None => Err(E_INVALIDARG),
    }
}

/// An owned copy of the byte-string property `id` in one property store.
fn lookup_string_copy(props: &PropTable, id: u32) -> (r: Result<Vec<u8>, i32>)
    ensures
        match assoc(props.strings@, id) {
            Some(v) => r matches Ok(b) && b@ == v@,
            None => r == Err::<Vec<u8>, i32>(E_INVALIDARG),
        },
{
    match assoc_position(&props.strings, id) {
        Some(j) => Ok(copy_bytes(props.strings[j].1.as_slice())),
        None => Err(E_INVALIDARG),
    }
}

} // verus!
