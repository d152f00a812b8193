//! Account addresses.

use vstd::prelude::*;

verus! {

/// The address of an account or the identity of a signer: 32 raw bytes.
///
/// Two addresses are the same address exactly when their views are equal.
#[derive(Clone, Copy, Debug, PartialEq, Eq)]
pub struct Pubkey {
    pub bytes: [u8; 32],
}

impl View for Pubkey {
    type V = Seq<u8>;

    open spec fn view(&self) -> Seq<u8> {
        self.bytes@
    }
}

/// The text that `solana_program::pubkey::Pubkey` displays for the address
/// made of `key`: its base58 form, as ASCII bytes.
pub uninterp spec fn base58_text(key: Seq<u8>) -> Seq<u8>;

/// Calls `Display` of `solana_program::pubkey::Pubkey` (through `to_string`)
/// on the address built from the same 32 bytes by `new_from_array`.
///
/// Trusted: the text depends on the bytes alone, so it is named `base58_text`
/// of them. Nothing else is claimed of it.
#[verifier::external_body]
fn display_base58(key: &Pubkey) -> (text: Vec<u8>)
    ensures
        text@ == base58_text(key@),
{
    solana_program::pubkey::Pubkey::new_from_array(key.bytes).to_string().into_bytes()
}

impl Pubkey {
    /// The address whose bytes are `bytes`.
    pub fn new_from_array(bytes: [u8; 32]) -> (key: Pubkey)
        ensures
            key@ == bytes@,
            key.bytes == bytes,
    {
        Pubkey { bytes }
    }

    /// The address of 32 zero bytes.
    pub fn zeroed() -> (key: Pubkey)
        ensures
            key@ == Seq::new(32, |i: int| 0u8),
    {
        let key = Pubkey { bytes: [0u8; 32] };
        assert(key@ =~= Seq::new(32, |i: int| 0u8));
        key
    }

    /// The raw bytes of the address.
    pub fn to_bytes(&self) -> (bytes: [u8; 32])
        ensures
            bytes@ == self@,
    {
        self.bytes
    }

    /// Whether `self` and `other` are the same address.
    pub fn same_as(&self, other: &Pubkey) -> (same: bool)
        ensures
            same == (self@ == other@),
    {
        let mut i: usize = 0;
        while i < 32
            invariant
                i <= 32,
                forall|j: int| 0 <= j < i ==> self.bytes@[j] == other.bytes@[j],
            decreases 32 - i,
        {
            if self.bytes[i] != other.bytes[i] {
                return false;
            }
            i += 1;
        }
        assert(self@ =~= other@);
        true
    }

    /// The address as it is written in messages: base58, as ASCII bytes.
    pub fn to_base58(&self) -> (text: Vec<u8>)
        ensures
            text@ == base58_text(self@),
    {
        display_base58(self)
    }
}

} // verus!
