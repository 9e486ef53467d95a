//! The numeric side of the device-tree width/height lookup.
//!
//! The kernel exposes `display-width-chars` and `display-height-chars` as
//! big-endian 32-bit attributes.  Reading the attribute files is I/O and
//! lives with the transport; turning their four bytes into a number is
//! logic and is proved here.

use vstd::prelude::*;

verus! {

/// The value of four bytes read as one big-endian 32-bit integer.
pub open spec fn spec_u32_be(bytes: Seq<u8>) -> nat {
    (bytes[0] * 0x0100_0000 + bytes[1] * 0x1_0000 + bytes[2] * 0x100 + bytes[3]) as nat
}

/// Read a big-endian 32-bit integer from four bytes, as a device-tree
/// attribute stores it.
pub fn u32_from_be(bytes: &[u8; 4]) -> (r: u32)
    ensures
        r == spec_u32_be(bytes@),
{
    (bytes[0] as u32) * 0x0100_0000 + (bytes[1] as u32) * 0x1_0000 + (bytes[2] as u32) * 0x100 + (
    bytes[3] as u32)
}

} // verus!
