//! Marshalling of native-owned buffers.
//!
//! A native buffer is borrowed only long enough to copy its contents and
//! is then released, in one operation: the caller only ever sees an owned
//! copy, never a view that could outlive the release.

use vstd::prelude::*;
use crate::handle::NativeHandle;
use crate::host::{drop_ref, Host};
use crate::text::{decode_c_string, text_of};

verus! {

/// Fetches a native buffer's contents as an owned byte copy and releases
/// the buffer — its one reference is given up exactly once, by this call.
pub fn buffer_to_bytes(host: &mut Host, buffer: NativeHandle) -> (r: Vec<u8>)
    requires
        buffer.wf(*old(host)),
        old(host).body_of(buffer.id()) is Buffer,
    ensures
        r@ == old(host).buffer_bytes(buffer.id()),
        final(host).objects@ == drop_ref(old(host).objects@, buffer.id()),
        final(host).same_config(*old(host)),
{
    let data = host.buffer_data(buffer.index());
    buffer.release(host);
    data
}

/// Fetches a native buffer's contents as an owned string — the prefix
/// before the first NUL, read as UTF-8, degrading to the empty string
/// where malformed — and releases the buffer exactly once.
pub fn buffer_to_string(host: &mut Host, buffer: NativeHandle) -> (r: String)
    requires
        buffer.wf(*old(host)),
        old(host).body_of(buffer.id()) is Buffer,
    ensures
        text_of(r@, old(host).buffer_bytes(buffer.id())),
        final(host).objects@ == drop_ref(old(host).objects@, buffer.id()),
        final(host).same_config(*old(host)),
{
    let data = host.buffer_data(buffer.index());
    let text = decode_c_string(data.as_slice());
    buffer.release(host);
    text
}

} // verus!
