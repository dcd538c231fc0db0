//! Content fingerprints used as deduplication keys.
use vstd::prelude::*;
use vstd::utf8::encode_utf8;

verus! {

/// The 128-bit SipHash-1-3 digest (zero keys) of a byte string.
pub uninterp spec fn sip128_of(bytes: Seq<u8>) -> u128;

/// Relies on siphasher's `SipHasher13::hash`: the digest of the bytes under
/// zero keys, which depends on the bytes alone.
#[verifier::external_body]
fn sip128(bytes: &[u8]) -> (r: u128)
    ensures
        r == sip128_of(bytes@),
{
    siphasher::sip128::SipHasher13::new().hash(bytes).as_u128()
}

/// A fingerprint of a resource's exact bytes.
#[derive(Clone, Copy, Debug, PartialEq, Eq, Hash, Structural)]
pub struct PathHash(pub u128);

impl PathHash {
    /// The fingerprint of `bytes`: equal bytes give equal fingerprints.
    pub fn of_bytes(bytes: &[u8]) -> (r: PathHash)
        ensures
            r.0 == sip128_of(bytes@),
    {
        PathHash(sip128(bytes))
    }

    /// The fingerprint of a text's UTF-8 encoding.
    pub fn new(source: &str) -> (r: PathHash)
        ensures
            r.0 == sip128_of(encode_utf8(source@)),
    {
        PathHash::of_bytes(source.as_bytes())
    }
}

} // verus!
