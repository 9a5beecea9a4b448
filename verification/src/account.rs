//! Account identifiers.

use vstd::prelude::*;
use vstd::std_specs::cmp::PartialEqSpecImpl;

verus! {

/// The 32-byte identifier of an account: a token, the pool's factory, or a
/// holder of tokens or shares.
#[derive(Clone, Copy, Debug, Eq, Hash)]
pub struct AccountId(pub [u8; 32]);

impl PartialEq for AccountId {
    fn eq(&self, other: &Self) -> (r: bool) {
        let mut i: usize = 0;
        while i < 32
            invariant
                i <= 32,
                forall|j: int| 0 <= j < i ==> self.0[j] == other.0[j],
            decreases 32 - i,
        {
            if self.0[i] != other.0[i] {
                return false;
            }
            i += 1;
        }
        assert(self.0 =~= other.0);
        true
    }
}

impl PartialEqSpecImpl for AccountId {
    open spec fn obeys_eq_spec() -> bool {
        true
    }

    open spec fn eq_spec(&self, other: &Self) -> bool {
        *self == *other
    }
}

impl AccountId {
    /// The account whose bytes are all zero. Nobody holds its key, so what
    /// it is given can never be moved again.
    pub open spec fn spec_zero() -> AccountId {
        AccountId(vstd::array::spec_array_fill_for_copy_type::<u8, 32>(0u8))
    }

    /// Returns the all-zero account.
    #[verifier::when_used_as_spec(spec_zero)]
    pub fn zero() -> (id: AccountId)
        ensures
            id == Self::spec_zero(),
    {
        AccountId([0u8; 32])
    }
}

} // verus!
