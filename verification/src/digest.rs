//! The digest by which equal files are recognised.
use crate::hexadecimal;
use sha2::Digest;
use vstd::prelude::*;

verus! {

/// The SHA-256 digest of `data`, as `sha2` computes it.
pub uninterp spec fn sha256(data: Seq<u8>) -> Seq<u8>;

/// Calls `sha2::Sha256::digest`. Claimed of it: the result depends on the bytes alone and is 32
/// bytes long.
#[verifier::external_body]
fn sha256_digest(data: &[u8]) -> (digest: Vec<u8>)
    ensures
        digest@ == sha256(data@),
        digest@.len() == 32,
{
    sha2::Sha256::digest(data).to_vec()
}

/// The hash that is recorded for a file with this content: its SHA-256 digest in hexadecimal.
pub fn hash_content(content: &[u8]) -> (hash: String)
    ensures
        hash@ == hexadecimal::hex_text(sha256(content@)),
        hash@.len() == 64,
{
    let digest = sha256_digest(content);
    hexadecimal::to_hex(digest.as_slice())
}

} // verus!
