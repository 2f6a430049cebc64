use vstd::prelude::*;

verus! {

/// The CRC-32 (IEEE) checksum of a byte sequence.
pub uninterp spec fn crc32_of(bytes: Seq<u8>) -> u32;

/// Relies on `crc32fast::hash`: the CRC-32 of the bytes, which depends on
/// the bytes alone.
#[verifier::external_body]
fn crc32(bytes: &[u8]) -> (r: u32)
    ensures
        r == crc32_of(bytes@),
{
    crc32fast::hash(bytes)
}

/// The fingerprint of a map buffer: its CRC-32.
pub fn fingerprint(bytes: &[u8]) -> (r: u32)
    ensures
        r == crc32_of(bytes@),
{
    crc32(bytes)
}

/// Fingerprinting is deterministic: equal contents give equal fingerprints.
pub proof fn lemma_fingerprint_deterministic(a: Seq<u8>, b: Seq<u8>)
    requires
        a == b,
    ensures
        crc32_of(a) == crc32_of(b),
{
}

} // verus!
