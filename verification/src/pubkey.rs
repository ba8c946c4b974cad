//! The identity of a party or of an account.

use vstd::prelude::*;
use vstd::std_specs::cmp::PartialEqSpecImpl;

verus! {

/// A 32-byte address: of a wallet, of an asset or of an account.
#[derive(Clone, Copy, Debug, Eq, Hash)]
pub struct Pubkey(pub [u8; 32]);

/// The text that base-58 encoding, in the Bitcoin alphabet, gives for `bytes`.
pub uninterp spec fn base58_text(bytes: Seq<u8>) -> Seq<char>;

impl PartialEq for Pubkey {
    fn eq(&self, other: &Self) -> (equal: bool) {
        let mut i: usize = 0;
        while i < 32
            invariant
                i <= 32,
                forall|j: int| 0 <= j < i ==> self.0[j] == other.0[j],
            decreases 32 - i,
        {
            if self.0[i] != other.0[i] {
                return false;
            }
            i += 1;
        }
        proof {
            assert(self.0 =~= other.0);
        }
        true
    }
}

impl PartialEqSpecImpl for Pubkey {
    open spec fn obeys_eq_spec() -> bool {
        true
    }

    open spec fn eq_spec(&self, other: &Self) -> bool {
        *self == *other
    }
}

impl Pubkey {
    /// The address whose bytes are all zero.
    pub open spec fn zero() -> Pubkey {
        Pubkey(vstd::array::spec_array_fill_for_copy_type::<u8, 32>(0u8))
    }

    /// The address made of `bytes`.
    pub fn new_from_array(bytes: [u8; 32]) -> (key: Pubkey)
        ensures
            key == Pubkey(bytes),
    {
        Pubkey(bytes)
    }

    /// The 32 bytes of the address.
    pub fn to_bytes(&self) -> (bytes: [u8; 32])
        ensures
            bytes == self.0,
    {
        self.0
    }

    /// The address as text. Calls `to_string` on
    /// `anchor_lang::prelude::Pubkey`, whose `Display` writes the base-58
    /// encoding of the 32 bytes. Not proved: the contract takes on trust that
    /// the text depends on the bytes alone, gives it a name, and claims
    /// nothing else of it.
    #[verifier::external_body]
    pub(crate) fn to_base58(&self) -> (text: String)
        ensures
            text@ == base58_text(self.0@),
    {
        anchor_lang::prelude::Pubkey::new_from_array(self.0).to_string()
    }
}

impl Default for Pubkey {
    /// The address whose bytes are all zero.
    fn default() -> (key: Self)
        ensures
            key == Pubkey::zero(),
    {
        Pubkey([0u8; 32])
    }
}

} // verus!
