//! Titles of auctions and the address seed made of them.
use vstd::prelude::*;
use vstd::slice::slice_subrange;
use vstd::string::StringSliceAdditionalSpecFns;

verus! {

/// The largest number of characters a title may have.
pub const MAX_TITLE_CHARS: usize = 50;

/// The largest number of bytes of a title that go into an address seed.
pub const MAX_SEED_BYTES: usize = 32;

/// The bytes of a title that go into the auction's address: its UTF-8 bytes,
/// cut after the first 32.
pub open spec fn spec_name_seed(name: &str) -> Seq<u8> {
    if name.spec_bytes().len() > MAX_SEED_BYTES {
        name.spec_bytes().subrange(0, MAX_SEED_BYTES as int)
    } else {
        name.spec_bytes()
    }
}

/// The seed bytes of a title.
pub fn name_seed(name: &str) -> (seed: &[u8])
    ensures
        seed@ == spec_name_seed(name),
{
    let b = name.as_bytes();
    if b.len() > MAX_SEED_BYTES {
        slice_subrange(b, 0, MAX_SEED_BYTES)
    } else {
        b
    }
}

} // verus!
