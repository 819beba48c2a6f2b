//! Checksum of the RPC frame codec.

use vstd::prelude::*;

verus! {

/// CRC-32 (IEEE, the zlib polynomial) of a byte sequence.  The value is a
/// function of the bytes alone; the codec states its contracts through this
/// name and never unfolds it.
pub uninterp spec fn crc32_of(data: Seq<u8>) -> u32;

/// Relies on crc32fast::hash: the CRC-32 (IEEE) checksum of the buffer,
/// a function of the bytes alone.
#[verifier::external_body]
pub(crate) fn crc32(data: &[u8]) -> (r: u32)
    ensures
        r == crc32_of(data@),
{
    crc32fast::hash(data)
}

} // verus!
