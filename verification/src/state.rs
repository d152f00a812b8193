//! The records that the ledger keeps.

use vstd::prelude::*;
use crate::pubkey::Pubkey;

verus! {

/// The ciphertext of a balance of zero: what a balance holds before the
/// network has written to it.
pub open spec fn zero_ciphertext() -> Seq<u8> {
    Seq::new(32, |i: int| 0u8)
}

/// A record together with the address under which the ledger keeps it.
#[derive(Clone, Debug, PartialEq, Eq)]
pub struct Account<T> {
    pub key: Pubkey,
    pub data: T,
}

/// The two readings of the ledger's clock that the rules depend on.
#[derive(Clone, Copy, Debug, PartialEq, Eq)]
pub struct Clock {
    pub slot: u64,
    pub unix_timestamp: i64,
}

/// Who may change the oracle, and the oracle's key.
#[derive(Clone, Copy, Debug, PartialEq, Eq)]
pub struct OracleConfig {
    pub authority: Pubkey,
    pub oracle_pubkey: Pubkey,
    pub bump: u8,
}

/// A user's public deposit.
#[derive(Clone, Copy, Debug, PartialEq, Eq)]
pub struct UserDeposit {
    pub owner: Pubkey,
    pub deposited_amount: u64,
    pub bump: u8,
}

/// A public pool.
#[derive(Clone, Debug, PartialEq, Eq)]
pub struct GroupPool {
    pub admin: Pubkey,
    pub group_id: String,
    pub group_name: String,
    pub total_locked: u64,
    pub is_active: bool,
    pub bump: u8,
}

/// A user's confidential balance. `encrypted_balance` is a ciphertext: it is
/// stored and handed on, never read.
#[derive(Clone, Copy, Debug, PartialEq, Eq)]
pub struct ConfidentialUserDeposit {
    pub owner: Pubkey,
    pub encrypted_balance: [u8; 32],
    pub last_update_slot: u64,
    pub is_active: bool,
    pub bump: u8,
}

/// A confidential pool. Of what is in it, only `participant_count` is public.
#[derive(Clone, Debug, PartialEq, Eq)]
pub struct ConfidentialGroupPool {
    pub admin: Pubkey,
    pub group_id: String,
    pub group_name: String,
    pub encrypted_total: [u8; 32],
    pub participant_count: u32,
    pub is_active: bool,
    pub meets_minimum_threshold: bool,
    pub bump: u8,
}

/// How a request stands.
#[derive(Clone, Copy, Debug, PartialEq, Eq, Structural)]
pub enum MpcRequestStatus {
    Pending,
    Completed,
    Failed,
}

/// One delegated computation: who asked, which balance it will write (and,
/// for a transfer, which second balance), how it stands, and when it was
/// queued. `requester` and `created_slot` together identify it.
#[derive(Clone, Copy, Debug, PartialEq, Eq)]
pub struct MpcRequest {
    pub requester: Pubkey,
    pub target_account: Pubkey,
    pub second_target: Option<Pubkey>,
    pub status: MpcRequestStatus,
    pub created_slot: u64,
    pub bump: u8,
}

/// The encrypted sum of the example, with the nonce it was encrypted with.
#[derive(Clone, Copy, Debug, PartialEq, Eq)]
pub struct SumEvent {
    pub sum: [u8; 32],
    pub nonce: [u8; 16],
}

impl ConfidentialUserDeposit {
    /// The stored ciphertext, as it is.
    pub fn read(&self) -> (ciphertext: [u8; 32])
        ensures
            ciphertext == self.encrypted_balance,
    {
        self.encrypted_balance
    }

    /// Replaces the stored ciphertext and notes when.
    pub fn write(&mut self, ciphertext: [u8; 32], slot: u64)
        ensures
            *final(self) == (ConfidentialUserDeposit {
                encrypted_balance: ciphertext,
                last_update_slot: slot,
                ..*old(self)
            }),
    {
        self.encrypted_balance = ciphertext;
        self.last_update_slot = slot;
    }
}

impl ConfidentialGroupPool {
    /// The stored ciphertext of the pool's total, as it is.
    pub fn read(&self) -> (ciphertext: [u8; 32])
        ensures
            ciphertext == self.encrypted_total,
    {
        self.encrypted_total
    }

    /// Replaces the stored ciphertext of the pool's total.
    pub fn write(&mut self, ciphertext: [u8; 32])
        ensures
            *final(self) == (ConfidentialGroupPool { encrypted_total: ciphertext, ..*old(self) }),
    {
        self.encrypted_total = ciphertext;
    }
}

} // verus!
