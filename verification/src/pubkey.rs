//! Identities on the ledger: 32-byte keys.

use vstd::prelude::*;
use vstd::std_specs::cmp::PartialEqSpecImpl;

verus! {

/// The identity of an account, a mint or a program: 32 bytes.
#[derive(Clone, Copy, Debug, Eq)]
pub struct Pubkey {
    pub bytes: [u8; 32],
}

impl View for Pubkey {
    type V = Seq<u8>;

    open spec fn view(&self) -> Seq<u8> {
        self.bytes@
    }
}

impl PartialEq for Pubkey {
    /// Two identities are equal where their bytes are.
    fn eq(&self, other: &Pubkey) -> (r: bool) {
        let mut i: usize = 0;
        while i < 32
            invariant
                0 <= i <= 32,
                forall|j: int| 0 <= j < i ==> self.bytes@[j] == other.bytes@[j],
            decreases 32 - i,
        {
            if self.bytes[i] != other.bytes[i] {
                return false;
            }
            i += 1;
        }
        assert(self.bytes@ =~= other.bytes@);
        true
    }
}

impl PartialEqSpecImpl for Pubkey {
    open spec fn obeys_eq_spec() -> bool {
        true
    }

    open spec fn eq_spec(&self, other: &Pubkey) -> bool {
        self@ == other@
    }
}

impl Default for Pubkey {
    /// The all-zero sentinel.
    fn default() -> (r: Pubkey)
        ensures
            r@ == Pubkey::zero_spec(),
    {
        let r = Pubkey { bytes: [0u8; 32] };
        assert(r@ =~= Pubkey::zero_spec());
        r
    }
}

impl Pubkey {
    /// The all-zero sentinel, which marks an empty slot.
    pub open spec fn zero_spec() -> Seq<u8> {
        Seq::new(32, |i: int| 0u8)
    }

    /// The identity with the given bytes.
    pub fn new_from_array(bytes: [u8; 32]) -> (r: Pubkey)
        ensures
            r.bytes == bytes,
    {
        Pubkey { bytes }
    }

    /// The bytes of the identity.
    pub fn to_bytes(self) -> (r: [u8; 32])
        ensures
            r == self.bytes,
    {
        self.bytes
    }
}

/// What an instruction reads of an account that it was handed.
#[derive(Clone, Copy, Debug)]
pub struct AccountView {
    /// Identity of the account.
    pub key: Pubkey,
    /// Identity of the program that owns the account.
    pub owner: Pubkey,
    /// Whether the account signed the transaction.
    pub is_signer: bool,
}

} // verus!
