//! Account identifiers and the unit of value.

use vstd::prelude::*;

verus! {

/// A count of indivisible token units.
pub type Balance = u128;

/// An opaque, fixed-size identifier of a participant that can hold value.
///
/// Identifiers are only ever compared for equality and used as keys; no
/// arithmetic is defined on them.
#[derive(Clone, Copy, Debug, Hash)]
pub struct AccountId {
    bytes: [u8; 32],
}

impl View for AccountId {
    type V = Seq<u8>;

    closed spec fn view(&self) -> Seq<u8> {
        self.bytes@
    }
}

impl AccountId {
    /// The raw bytes of the identifier.
    pub fn to_bytes(&self) -> (bytes: [u8; 32])
        ensures
            bytes@ == self@,
    {
        self.bytes
    }

    /// An identifier is its 32 bytes and nothing else: two identifiers are
    /// the same exactly when their bytes are.
    pub proof fn lemma_equal_iff_same_bytes(a: AccountId, b: AccountId)
        ensures
            a@.len() == 32,
            (a@ == b@) <==> (a == b),
    {
        if a@ == b@ {
            assert(a.bytes =~= b.bytes);
        }
    }
}

impl PartialEq for AccountId {
    /// Compares the identifiers byte by byte.
    fn eq(&self, other: &Self) -> (same: bool) {
        let mut i: usize = 0;
        while i < 32
            invariant
                i <= 32,
                forall|j: int| 0 <= j < i ==> self.bytes[j] == other.bytes[j],
            decreases 32 - i,
        {
            if self.bytes[i] != other.bytes[i] {
                return false;
            }
            i += 1;
        }
        proof {
            assert(self.bytes =~= other.bytes);
        }
        true
    }
}

impl vstd::std_specs::cmp::PartialEqSpecImpl for AccountId {
    open spec fn obeys_eq_spec() -> bool {
        true
    }

    open spec fn eq_spec(&self, other: &Self) -> bool {
        *self == *other
    }
}

impl Eq for AccountId {}

impl From<[u8; 32]> for AccountId {
    /// The identifier with the given bytes.
    fn from(bytes: [u8; 32]) -> (id: Self)
        ensures
            id@ == bytes@,
    {
        AccountId { bytes }
    }
}

impl vstd::std_specs::convert::FromSpecImpl<[u8; 32]> for AccountId {
    open spec fn obeys_from_spec() -> bool {
        true
    }

    closed spec fn from_spec(bytes: [u8; 32]) -> Self {
        AccountId { bytes }
    }
}

} // verus!
