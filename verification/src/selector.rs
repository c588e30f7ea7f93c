use vstd::prelude::*;

verus! {

/// The Keccak-256 digest of `bytes`.
pub uninterp spec fn keccak256(bytes: Seq<u8>) -> Seq<u8>;

/// Calls `stylus_sdk::crypto::keccak`, which hashes the bytes it is given
/// with Keccak-256 and hands back the digest of 32 bytes. Nothing more is
/// claimed of the digest than that it is the one of these bytes.
#[verifier::external_body]
fn keccak(bytes: &Vec<u8>) -> (digest: [u8; 32])
    ensures
        digest@ == keccak256(bytes@),
{
    stylus_sdk::crypto::keccak(bytes).0
}

/// The number that the first four of the bytes spell, the first byte the
/// most significant: the selector at the head of a digest or of call data.
pub open spec fn leading_selector(bytes: Seq<u8>) -> u32 {
    (bytes[0] * 0x100_0000 + bytes[1] * 0x1_0000 + bytes[2] * 0x100 + bytes[3]) as u32
}

/// The selector of the method with the signature `signature`.
pub open spec fn signature_selector(signature: Seq<u8>) -> u32 {
    leading_selector(keccak256(signature))
}

/// Reads the selector at the head of `bytes`, if there are four bytes to
/// read.
pub fn read_selector(bytes: &[u8]) -> (r: Option<u32>)
    ensures
        r is Some <==> bytes@.len() >= 4,
        r matches Some(selector) ==> selector == leading_selector(bytes@),
{
    if bytes.len() < 4 {
        return None;
    }
    let b0: u32 = bytes[0] as u32;
    let b1: u32 = bytes[1] as u32;
    let b2: u32 = bytes[2] as u32;
    let b3: u32 = bytes[3] as u32;
    Some(b0 * 0x100_0000 + b1 * 0x1_0000 + b2 * 0x100 + b3)
}

/// Reads the selector off a digest.
pub fn selector_from_digest(digest: &[u8; 32]) -> (selector: u32)
    ensures
        selector == leading_selector(digest@),
{
    let b0: u32 = digest[0] as u32;
    let b1: u32 = digest[1] as u32;
    let b2: u32 = digest[2] as u32;
    let b3: u32 = digest[3] as u32;
    b0 * 0x100_0000 + b1 * 0x1_0000 + b2 * 0x100 + b3
}

/// Computes the selector of the method with the signature `signature`.
pub fn selector_of_signature(signature: &Vec<u8>) -> (selector: u32)
    ensures
        selector == signature_selector(signature@),
{
    let digest = keccak(signature);
    selector_from_digest(&digest)
}

} // verus!
