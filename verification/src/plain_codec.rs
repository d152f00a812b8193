//! A stand-in for the network's cipher, for development and tests.
//!
//! It writes a balance into a 32-byte slot as eight little-endian bytes
//! followed by zeros. This hides nothing. The instruction handlers never call
//! it: they pass slots on unread. It exists so that a local stand-in for the
//! network can be written against the same slots.

use vstd::prelude::*;
use vstd::bytes::{
    lemma_auto_spec_u64_to_from_le_bytes, spec_u64_from_le_bytes, spec_u64_to_le_bytes,
    u64_from_le_bytes, u64_to_le_bytes,
};
use crate::error::ErrorCode;

verus! {

/// The slot that stands for `balance`.
pub open spec fn encoded_balance(balance: u64) -> Seq<u8> {
    spec_u64_to_le_bytes(balance) + Seq::new(24, |i: int| 0u8)
}

/// The balance that a slot stands for: its first eight bytes, little-endian.
pub open spec fn decoded_balance(slot: Seq<u8>) -> u64 {
    spec_u64_from_le_bytes(slot.subrange(0, 8))
}

/// Decoding undoes encoding.
pub proof fn decode_undoes_encode(balance: u64)
    ensures
        encoded_balance(balance).len() == 32,
        decoded_balance(encoded_balance(balance)) == balance,
{
    lemma_auto_spec_u64_to_from_le_bytes();
    assert(encoded_balance(balance).subrange(0, 8) =~= spec_u64_to_le_bytes(balance));
}

/// The slot of 32 zero bytes, which a balance holds before the first write,
/// stands for a balance of zero.
pub proof fn zero_slot_is_zero_balance(slot: Seq<u8>)
    requires
        slot == Seq::new(32, |i: int| 0u8),
    ensures
        decoded_balance(slot) == 0,
{
    lemma_auto_spec_u64_to_from_le_bytes();
    let zero = spec_u64_to_le_bytes(0);
    assert(zero.len() == 8);
    assert(spec_u64_from_le_bytes(zero) == 0);
    assert(zero =~= slot.subrange(0, 8)) by {
        vstd::bytes::spec_u64_to_le_bytes_to_open(0);
        assert(vstd::bytes::spec_u64_to_le_bytes_open(0) =~= Seq::new(8, |i: int| 0u8)) by {
            assert(0u64 & 0xff == 0) by (bit_vector);
            assert((0u64 >> 8) & 0xff == 0) by (bit_vector);
            assert((0u64 >> 16) & 0xff == 0) by (bit_vector);
            assert((0u64 >> 24) & 0xff == 0) by (bit_vector);
            assert((0u64 >> 32) & 0xff == 0) by (bit_vector);
            assert((0u64 >> 40) & 0xff == 0) by (bit_vector);
            assert((0u64 >> 48) & 0xff == 0) by (bit_vector);
            assert((0u64 >> 56) & 0xff == 0) by (bit_vector);
        }
    }
}

/// Reads the balance that a slot stands for. It never fails.
pub fn deserialize_encrypted_balance(encrypted: &[u8; 32]) -> (balance: Result<u64, ErrorCode>)
    ensures
        balance == Ok::<u64, ErrorCode>(decoded_balance(encrypted@)),
{
    let mut head: Vec<u8> = Vec::new();
    let mut i: usize = 0;
    while i < 8
        invariant
            i <= 8,
            head@ == encrypted@.subrange(0, i as int),
        decreases 8 - i,
    {
        head.push(encrypted[i]);
        assert(head@ =~= encrypted@.subrange(0, i as int + 1));
        i += 1;
    }
    Ok(u64_from_le_bytes(head.as_slice()))
}

/// Writes the slot that stands for `balance`.
pub fn serialize_encrypted_balance(balance: u64) -> (result: [u8; 32])
    ensures
        result@ == encoded_balance(balance),
        decoded_balance(result@) == balance,
{
    let mut result = [0u8; 32];
    let bytes = u64_to_le_bytes(balance);
    let mut i: usize = 0;
    while i < 8
        invariant
            i <= 8,
            bytes@.len() == 8,
            forall|j: int| 0 <= j < i ==> result@[j] == bytes@[j],
            forall|j: int| i <= j < 32 ==> result@[j] == 0,
        decreases 8 - i,
    {
        result[i] = bytes[i];
        i += 1;
    }
    proof {
        assert(result@ =~= encoded_balance(balance));
        decode_undoes_encode(balance);
    }
    result
}

} // verus!
