//! Capability interface identifiers.
//!
//! A capability is selected by a 128-bit identifier compared by byte
//! equality.  The identifier is carried as one 128-bit integer holding the
//! sixteen bytes in order, most significant byte first, so that equality of
//! the packed integers coincides with byte equality.

use vstd::prelude::*;

verus! {

/// A 128-bit capability identifier.
#[derive(Clone, Copy, Debug, PartialEq, Eq, Structural)]
pub struct InterfaceId(pub u128);

/// The sixteen bytes of `b` packed into one integer, first byte most
/// significant.
pub open spec fn packed_bytes(b: Seq<u8>) -> u128
    recommends
        b.len() == 16,
{
    ((b[0] as u128) << 120) | ((b[1] as u128) << 112) | ((b[2] as u128) << 104)
        | ((b[3] as u128) << 96) | ((b[4] as u128) << 88) | ((b[5] as u128) << 80)
        | ((b[6] as u128) << 72) | ((b[7] as u128) << 64) | ((b[8] as u128) << 56)
        | ((b[9] as u128) << 48) | ((b[10] as u128) << 40) | ((b[11] as u128) << 32)
        | ((b[12] as u128) << 24) | ((b[13] as u128) << 16) | ((b[14] as u128) << 8)
        | (b[15] as u128)
}

impl InterfaceId {
    /// Builds the identifier from its sixteen bytes, as they appear in the
    /// vendor's interface tables.
    pub fn new(b: [u8; 16]) -> (r: InterfaceId)
        ensures
            r.0 == packed_bytes(b@),
    {
        let v: u128 = ((b[0] as u128) << 120) | ((b[1] as u128) << 112)
            | ((b[2] as u128) << 104) | ((b[3] as u128) << 96) | ((b[4] as u128) << 88)
            | ((b[5] as u128) << 80) | ((b[6] as u128) << 72) | ((b[7] as u128) << 64)
            | ((b[8] as u128) << 56) | ((b[9] as u128) << 48) | ((b[10] as u128) << 40)
            | ((b[11] as u128) << 32) | ((b[12] as u128) << 24) | ((b[13] as u128) << 16)
            | ((b[14] as u128) << 8) | (b[15] as u128);
        InterfaceId(v)
    }
}

} // verus!
