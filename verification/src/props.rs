//! The uniform property-getter pattern shared by the capability facades.
//!
//! Every attribute or status accessor issues the native "get property by
//! identifier" call, maps a zero result to success and any other result to
//! a typed failure carrying the native code verbatim.  String properties
//! arrive in a fresh native buffer, which is copied and released on the
//! spot.

use vstd::prelude::*;
use crate::Error;
use crate::handle::NativeHandle;
use crate::host::Host;
use crate::marshal::buffer_to_string;
use crate::result::E_INVALIDARG;
use crate::text::text_of;

verus! {

/// What a boolean property read returns: the stored value, or the native
/// error for an unknown identifier, carried verbatim.
pub open spec fn flag_result(host: Host, ix: int, id: u32, r: Result<bool, Error>) -> bool {
    match host.flag_prop(ix, id) {
        Some(v) => r == Ok::<bool, Error>(v),
        None => r == Err::<bool, Error>(Error { result: E_INVALIDARG }),
    }
}

/// What an integer property read returns.
pub open spec fn int_result(host: Host, ix: int, id: u32, r: Result<i64, Error>) -> bool {
    match host.int_prop(ix, id) {
        Some(v) => r == Ok::<i64, Error>(v),
        None => r == Err::<i64, Error>(Error { result: E_INVALIDARG }),
    }
}

/// What a string property read returns and leaves behind: on success the
/// decoded text, with the transient native buffer created and released
/// again (one more table entry, no reference left); on an unknown
/// identifier the native error, with nothing changed.
pub open spec fn string_result(
    pre: Host,
    post: Host,
    ix: int,
    id: u32,
    r: Result<String, Error>,
) -> bool {
    match pre.string_prop(ix, id) {
        Some(bytes) => {
            &&& r matches Ok(s) && text_of(s@, bytes)
            &&& post.objects@.len() == pre.objects@.len() + 1
            &&& post.objects@.take(pre.objects@.len() as int) == pre.objects@
            &&& post.refs_of(pre.objects@.len() as int) == 0
            &&& post.same_config(pre)
        },
        None => {
            &&& r == Err::<String, Error>(Error { result: E_INVALIDARG })
            &&& post.objects@ == pre.objects@
            &&& post.same_config(pre)
        },
    }
}

/// Reads a boolean property.
pub fn read_flag(host: &Host, ix: usize, id: u32) -> (r: Result<bool, Error>)
    requires
        host.live(ix as int),
        host.props_of(ix as int) is Some,
    ensures
        flag_result(*host, ix as int, id, r),
{
    match host.get_flag(ix, id) {
        Ok(v) => Ok(v),
        Err(code) => Err(Error { result: code }),
    }
}

/// Reads an integer property.
pub fn read_int(host: &Host, ix: usize, id: u32) -> (r: Result<i64, Error>)
    requires
        host.live(ix as int),
        host.props_of(ix as int) is Some,
    ensures
        int_result(*host, ix as int, id, r),
{
    match host.get_int(ix, id) {
        Ok(v) => Ok(v),
        Err(code) => Err(Error { result: code }),
    }
}

/// Reads a string property: fetch the native buffer, copy and decode it,
/// release it — all in one step.
pub fn read_string(host: &mut Host, ix: usize, id: u32) -> (r: Result<String, Error>)
    requires
        old(host).live(ix as int),
        old(host).props_of(ix as int) is Some,
    ensures
        string_result(*old(host), *final(host), ix as int, id, r),
{
    match host.get_string_buffer(ix, id) {
        Ok(b) => {
            let buffer = NativeHandle::attach(b);
            let text = buffer_to_string(host, buffer);
            proof {
                assert(host.objects@.take(old(host).objects@.len() as int) =~= old(host).objects@);
            }
            Ok(text)
        },
        Err(code) => Err(Error { result: code }),
    }
}

} // verus!
