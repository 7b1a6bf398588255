//! Commitments of sealed bids: the Keccak-256 digest of a bid and a nonce.
use vstd::bytes::{spec_u64_to_le_bytes, u64_to_le_bytes};
use vstd::prelude::*;

verus! {

/// The Keccak-256 digest of a sequence of bytes.
pub uninterp spec fn keccak256(data: Seq<u8>) -> Seq<u8>;

/// `anchor_lang::solana_program::keccak::hash`, followed by `Hash::to_bytes`:
/// the 32 bytes that come back are the Keccak-256 digest of `data`, and depend
/// on nothing but `data`. Nothing is claimed about which bytes they are.
#[verifier::external_body]
fn keccak_hash(data: &[u8]) -> (digest: [u8; 32])
    ensures
        digest@ == keccak256(data@),
{
    anchor_lang::solana_program::keccak::hash(data).to_bytes()
}

/// What is hashed for a sealed bid: the eight bytes of the bid, then the eight
/// bytes of the nonce, each with the least significant byte first.
pub open spec fn bid_preimage(bid: u64, nonce: u64) -> Seq<u8> {
    spec_u64_to_le_bytes(bid) + spec_u64_to_le_bytes(nonce)
}

/// The commitment that binds a bidder to `bid` and `nonce`.
pub open spec fn bid_commitment(bid: u64, nonce: u64) -> Seq<u8> {
    keccak256(bid_preimage(bid, nonce))
}

/// Computes the commitment for `bid` and `nonce`.
pub fn compute_bid_hash(bid: u64, nonce: u64) -> (hash: [u8; 32])
    ensures
        hash@ == bid_commitment(bid, nonce),
{
    let mut data = u64_to_le_bytes(bid);
    let mut tail = u64_to_le_bytes(nonce);
    data.append(&mut tail);
    keccak_hash(data.as_slice())
}

/// Whether two digests agree in every byte.
pub fn same_digest(a: &[u8; 32], b: &[u8; 32]) -> (same: bool)
    ensures
        same == (a@ == b@),
{
    let mut i: usize = 0;
    while i < 32
        invariant
            i <= 32,
            forall|j: int| 0 <= j < i ==> a[j] == b[j],
        decreases 32 - i,
    {
        if a[i] != b[i] {
            return false;
        }
        i += 1;
    }
    assert(a@ =~= b@);
    true
}

/// Whether `bid` and `nonce` open the stored commitment.
pub fn opens_commitment(stored: &[u8; 32], bid: u64, nonce: u64) -> (opens: bool)
    ensures
        opens == (stored@ == bid_commitment(bid, nonce)),
{
    let proposed = compute_bid_hash(bid, nonce);
    same_digest(stored, &proposed)
}

} // verus!
