//! Safe, verified layer over a reference-counted, interface-queryable
//! device object model for professional video capture and playback hardware.
//!
//! The native subsystem is represented by an explicit in-process object
//! table, [`host::Host`]: every opaque object the vendor side would manage
//! lives there with its reference count, its interface table, its property
//! tables and its callback slot.  The typed facades (`Device`, `Attributes`,
//! `Status`, `Input`, `Output`, frames, timecodes) are verified against that
//! model: each holds exactly one reference, every release decrements exactly
//! one count, interface queries never disturb the source handle, enumerators
//! terminate exactly once, and callback delivery after unregistration is
//! provably rejected.

pub mod attributes;
pub mod bridge;
pub mod catalog;
pub mod convert;
pub mod device;
pub mod display;
pub mod frame;
pub mod guid;
pub mod handle;
pub mod host;
pub mod input;
pub mod iterate;
pub mod marshal;
pub mod output;
pub mod props;
pub mod result;
pub mod status;
pub mod text;

use vstd::prelude::*;

verus! {

/// Failure of a native call, carrying the raw native result code verbatim.
#[derive(Clone, Copy, Debug, PartialEq, Eq, Structural)]
pub struct Error {
    pub result: i32,
}

impl Error {
    /// The generic failure value, used where no more specific code exists.
    pub fn new() -> (r: Error)
        ensures
            r.result == crate::result::E_FAIL,
    {
        Error { result: crate::result::E_FAIL }
    }
}

/// Failure of a top-level factory: the vendor subsystem could not create
/// the requested instance at all, which points at the environment — a
/// missing or outdated driver — rather than at the call site.
#[derive(Clone, Copy, Debug)]
pub struct CreationError {
    pub message: &'static str,
}

} // verus!
