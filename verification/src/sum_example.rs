//! The smallest round trip through the network: two encrypted bytes go out,
//! their encrypted sum comes back and is published as an event.

use vstd::prelude::*;
use vstd::bytes::{spec_u128_to_le_bytes, u128_to_le_bytes};
use crate::computation::{
    circuit_offset, queued, Argument, Circuit, ComputationOutputs, QueuedComputation,
};
use crate::error::ErrorCode;
use crate::pubkey::Pubkey;
use crate::state::SumEvent;

verus! {

/// The account with which the program signs what it queues.
#[derive(Clone, Copy, Debug, PartialEq, Eq, Structural)]
pub struct SignerAccount {
    pub bump: u8,
}

/// What `add_together` is given.
#[derive(Clone, Copy, Debug, PartialEq, Eq)]
pub struct AddTogether {
    pub payer: Pubkey,
    pub sign_pda_account: SignerAccount,
    pub sign_pda_bump: u8,
}

/// What `add_together_callback` is given.
#[derive(Clone, Copy, Debug, PartialEq, Eq)]
pub struct AddTogetherCallback {
    pub payer: Pubkey,
}

/// What `init_add_together_comp_def` is given.
#[derive(Clone, Copy, Debug, PartialEq, Eq)]
pub struct InitAddTogetherCompDef {
    pub payer: Pubkey,
}

/// A value encrypted for its owner: the key it was encrypted to, the nonce,
/// and the ciphertext.
#[derive(Clone, Copy, Debug, PartialEq, Eq)]
pub struct SharedEncryptedStruct {
    pub encryption_key: [u8; 32],
    pub nonce: u128,
    pub ciphertexts: [[u8; 32]; 1],
}

/// The network's answer to the sum.
#[derive(Clone, Copy, Debug, PartialEq, Eq)]
pub struct AddTogetherOutput {
    pub field_0: SharedEncryptedStruct,
}

/// How the definition of a circuit is registered.
#[derive(Clone, Copy, Debug, PartialEq, Eq, Structural)]
pub struct CompDefInit {
    pub circuit: Circuit,
    pub comp_def_offset: u32,
    pub finalize_during_callback: bool,
    pub cu_amount: u64,
}

/// Says how the definition of the sum circuit is to be registered: stored on
/// the ledger, finalized with the first callback.
pub fn init_add_together_comp_def(ctx: &InitAddTogetherCompDef) -> (init: Result<
    CompDefInit,
    ErrorCode,
>)
    ensures
        init == Ok::<CompDefInit, ErrorCode>(
            CompDefInit {
                circuit: Circuit::AddTogether,
                comp_def_offset: circuit_offset(Circuit::AddTogether.spec_name()),
                finalize_during_callback: true,
                cu_amount: 0,
            },
        ),
{
    Ok(
        CompDefInit {
            circuit: Circuit::AddTogether,
            comp_def_offset: Circuit::AddTogether.comp_def_offset(),
            finalize_during_callback: true,
            cu_amount: 0,
        },
    )
}

/// Queues the sum of two encrypted bytes: the arguments are the key and the
/// nonce of the encryption, then the two ciphertexts.
pub fn add_together(
    ctx: &mut AddTogether,
    computation_offset: u64,
    ciphertext_0: [u8; 32],
    ciphertext_1: [u8; 32],
    pub_key: [u8; 32],
    nonce: u128,
) -> (queued_up: Result<QueuedComputation, ErrorCode>)
    ensures
        *final(ctx) == (AddTogether {
            sign_pda_account: SignerAccount { bump: old(ctx).sign_pda_bump },
            ..*old(ctx)
        }),
        queued_up matches Ok(q) && q@ == queued(
            Circuit::AddTogether,
            computation_offset,
            seq![
                Argument::ArcisPubkey(pub_key),
                Argument::PlaintextU128(nonce),
                Argument::EncryptedU8(ciphertext_0),
                Argument::EncryptedU8(ciphertext_1),
            ],
        ),
{
    let mut args: Vec<Argument> = Vec::new();
    args.push(Argument::ArcisPubkey(pub_key));
    args.push(Argument::PlaintextU128(nonce));
    args.push(Argument::EncryptedU8(ciphertext_0));
    args.push(Argument::EncryptedU8(ciphertext_1));
    assert(args@ =~= seq![
        Argument::ArcisPubkey(pub_key),
        Argument::PlaintextU128(nonce),
        Argument::EncryptedU8(ciphertext_0),
        Argument::EncryptedU8(ciphertext_1),
    ]);
    ctx.sign_pda_account.bump = ctx.sign_pda_bump;
    Ok(QueuedComputation::new(Circuit::AddTogether, computation_offset, args))
}

/// The sixteen little-endian bytes of a nonce.
pub fn nonce_bytes(nonce: u128) -> (bytes: [u8; 16])
    ensures
        bytes@ == spec_u128_to_le_bytes(nonce),
{
    let le = u128_to_le_bytes(nonce);
    let mut bytes = [0u8; 16];
    let mut i: usize = 0;
    while i < 16
        invariant
            i <= 16,
            le@.len() == 16,
            forall|j: int| 0 <= j < i ==> bytes@[j] == le@[j],
        decreases 16 - i,
    {
        bytes[i] = le[i];
        i += 1;
    }
    assert(bytes@ =~= spec_u128_to_le_bytes(nonce));
    bytes
}

/// Turns the network's answer into the event to publish: the encrypted sum
/// and the nonce it was encrypted with. A fault is an error.
pub fn add_together_callback(ctx: &AddTogetherCallback, output: ComputationOutputs<
    AddTogetherOutput,
>) -> (event: Result<SumEvent, ErrorCode>)
    ensures
        output is Failure ==> event == Err::<SumEvent, ErrorCode>(
            ErrorCode::MpcComputationFailed,
        ),
        output matches ComputationOutputs::Success(o) ==> event matches Ok(e) && e.sum
            == o.field_0.ciphertexts[0] && e.nonce@ == spec_u128_to_le_bytes(o.field_0.nonce),
{
    let o = match output {
        ComputationOutputs::Success(AddTogetherOutput { field_0 }) => field_0,
        ComputationOutputs::Failure => {
            return Err(ErrorCode::MpcComputationFailed);
        },
    };
    Ok(SumEvent { sum: o.ciphertexts[0], nonce: nonce_bytes(o.nonce) })
}

} // verus!
