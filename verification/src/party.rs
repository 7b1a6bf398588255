//! Identities of parties.
use vstd::prelude::*;
use vstd::std_specs::cmp::PartialEqSpecImpl;

verus! {

/// Fixed-width identifier of a party, or of the asset that is on sale. Two
/// identifiers name the same thing exactly when all 32 bytes agree.
#[derive(Clone, Copy, Debug)]
pub struct PartyId {
    pub bytes: [u8; 32],
}

impl PartialEq for PartyId {
    fn eq(&self, other: &Self) -> (r: bool) {
        let mut i: usize = 0;
        while i < 32
            invariant
                i <= 32,
                forall|j: int| 0 <= j < i ==> self.bytes[j] == other.bytes[j],
            decreases 32 - i,
        {
            if self.bytes[i] != other.bytes[i] {
                return false;
            }
            i += 1;
        }
        assert(self.bytes =~= other.bytes);
        true
    }
}

impl Eq for PartyId {

}

impl PartialEqSpecImpl for PartyId {
    open spec fn obeys_eq_spec() -> bool {
        true
    }

    open spec fn eq_spec(&self, other: &Self) -> bool {
        *self == *other
    }
}

impl PartyId {
    /// The identifier made of the given bytes.
    pub fn new(bytes: [u8; 32]) -> (id: PartyId)
        ensures
            id.bytes == bytes,
    {
        PartyId { bytes }
    }

    /// The bytes of the identifier.
    pub fn to_bytes(&self) -> (bytes: [u8; 32])
        ensures
            bytes == self.bytes,
    {
        self.bytes
    }
}

/// Whether `slot` holds exactly the party `who`.
pub fn holds_party(slot: &Option<PartyId>, who: &PartyId) -> (r: bool)
    ensures
        r == (*slot == Some(*who)),
{
    match slot {
        Some(p) => *p == *who,
        None => false,
    }
}

} // verus!
