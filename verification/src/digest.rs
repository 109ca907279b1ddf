//! The tagged SHA-256 hash that taproot commitments are built from.

use commit_verify::{DigestExt, Sha256};
use vstd::prelude::*;

verus! {

/// The 32-byte tagged SHA-256 digest of `msg` under `tag`, as commit_verify's
/// `Sha256` engine computes it when created with `DigestExt::from_tag(tag)`
/// and fed `msg`.
pub uninterp spec fn tagged_sha256(tag: Seq<u8>, msg: Seq<u8>) -> Seq<u8>;

/// Trusted: runs commit_verify's `Sha256::from_tag(tag)`, then
/// `DigestExt::input_raw(msg)`, then `DigestExt::finish()`. The contract
/// claims that the digest is the named value of the tag and the message; a
/// digest engine fed its input in several pieces gives the digest of their
/// concatenation, so the callers hand it the whole message at once.
#[verifier::external_body]
pub(crate) fn tagged_hash(tag: &[u8], msg: &[u8]) -> (digest: [u8; 32])
    ensures
        digest@ == tagged_sha256(tag@, msg@),
{
    let mut engine = Sha256::from_tag(tag);
    engine.input_raw(msg);
    engine.finish()
}

} // verus!
