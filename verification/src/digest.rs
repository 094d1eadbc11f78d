//! The content hash by which two READMEs are compared.

use vstd::prelude::*;

verus! {

/// The SHA-1 digest of `data`, as `sha1::Sha1` computes it: twenty bytes.
pub uninterp spec fn sha1_digest(data: Seq<u8>) -> Seq<u8>;

/// Feeds `data` to a fresh `sha1::Sha1` (`Sha1::from`) and returns the
/// bytes of its digest (`Sha1::digest`, `Digest::bytes`).
#[verifier::external_body]
fn sha1_of(data: &[u8]) -> (d: [u8; 20])
    ensures
        d@ == sha1_digest(data@),
{
    sha1::Sha1::from(data).digest().bytes()
}

/// The SHA-1 digest of `data`.
pub fn content_digest(data: &[u8]) -> (d: Vec<u8>)
    ensures
        d@ == sha1_digest(data@),
{
    let digest = sha1_of(data);
    let mut d: Vec<u8> = Vec::new();
    let mut i: usize = 0;
    while i < 20
        invariant
            i <= 20,
            d@ == digest@.take(i as int),
        decreases 20 - i,
    {
        d.push(digest[i]);
        i += 1;
    }
    d
}

} // verus!
