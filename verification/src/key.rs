//! 32-byte account addresses as the lending rules see them.
use vstd::prelude::*;

verus! {

/// The address of an on-chain account: 32 bytes, compared byte by byte.
#[derive(Debug, Clone, Copy)]
pub struct AccountKey {
    pub bytes: [u8; 32],
}

impl View for AccountKey {
    type V = Seq<u8>;

    open spec fn view(&self) -> Seq<u8> {
        self.bytes@
    }
}

/// The all-zero address, which marks an account field that was never set.
pub open spec fn spec_zero_key() -> Seq<u8> {
    Seq::new(32, |i: int| 0u8)
}

impl AccountKey {
    /// Wraps 32 raw bytes.
    pub fn new_from_array(bytes: [u8; 32]) -> (r: AccountKey)
        ensures
            r@ == bytes@,
    {
        AccountKey { bytes }
    }

    /// The raw bytes of the address.
    pub fn to_bytes(&self) -> (r: [u8; 32])
        ensures
            r@ == self@,
    {
        self.bytes
    }

    /// The all-zero address (the default of an unset address field).
    pub fn zero() -> (r: AccountKey)
        ensures
            r@ == spec_zero_key(),
    {
        let r = AccountKey { bytes: [0u8; 32] };
        proof {
            assert(r@ =~= spec_zero_key());
        }
        r
    }

    /// Whether this is the all-zero address.
    pub fn is_zero(&self) -> (r: bool)
        ensures
            r == (self@ == spec_zero_key()),
    {
        let zero = AccountKey::zero();
        self.eq(&zero)
    }
}

impl PartialEq for AccountKey {
    fn eq(&self, other: &Self) -> (r: bool) {
        let mut i: usize = 0;
        while i < 32
            invariant
                i <= 32,
                self@.len() == 32,
                other@.len() == 32,
                forall|j: int| 0 <= j < i ==> self@[j] == other@[j],
            decreases 32 - i,
        {
            if self.bytes[i] != other.bytes[i] {
                return false;
            }
            i += 1;
        }
        proof {
            assert(self@ =~= other@);
        }
        true
    }
}

impl vstd::std_specs::cmp::PartialEqSpecImpl for AccountKey {
    open spec fn obeys_eq_spec() -> bool {
        true
    }

    open spec fn eq_spec(&self, other: &AccountKey) -> bool {
        self@ == other@
    }
}

impl Eq for AccountKey {
}

} // verus!
