//! Token transfers that an instruction asks the token program to make.

use vstd::prelude::*;
use vstd::utf8::encode_utf8;
use crate::pubkey::Pubkey;

verus! {

/// Seed prefix of a user's public vault.
pub open spec fn user_vault_seed() -> Seq<char> {
    "user_vault"@
}

/// Seed prefix of a group's public vault.
pub open spec fn group_vault_seed() -> Seq<char> {
    "group_vault"@
}

/// Seed prefix of a user's confidential vault.
pub open spec fn confidential_vault_seed() -> Seq<char> {
    "confidential_vault"@
}

/// Seed prefix of a confidential pool's vault.
pub open spec fn confidential_group_vault_seed() -> Seq<char> {
    "confidential_group_vault"@
}

/// The seeds with which the program signs for a vault it owns: a prefix that
/// names the kind of vault, what the vault belongs to, and the bump.
#[derive(Clone, Debug, PartialEq, Eq)]
pub struct SignerSeeds {
    pub prefix: Vec<u8>,
    pub id: Vec<u8>,
    pub bump: u8,
}

/// A transfer of `amount` tokens from one token account to another, on the
/// word of `authority`. `signer` is there where the authority is a vault of
/// the program.
#[derive(Clone, Debug, PartialEq, Eq)]
pub struct TokenTransfer {
    pub from: Pubkey,
    pub to: Pubkey,
    pub authority: Pubkey,
    pub amount: u64,
    pub signer: Option<SignerSeeds>,
}

/// Signer seeds as sequences of bytes.
pub struct SeedsView {
    pub prefix: Seq<u8>,
    pub id: Seq<u8>,
    pub bump: u8,
}

/// A transfer with its addresses and seeds as sequences of bytes.
pub struct TransferView {
    pub from: Seq<u8>,
    pub to: Seq<u8>,
    pub authority: Seq<u8>,
    pub amount: u64,
    pub signer: Option<SeedsView>,
}

impl View for SignerSeeds {
    type V = SeedsView;

    open spec fn view(&self) -> SeedsView {
        SeedsView { prefix: self.prefix@, id: self.id@, bump: self.bump }
    }
}

impl View for TokenTransfer {
    type V = TransferView;

    open spec fn view(&self) -> TransferView {
        TransferView {
            from: self.from@,
            to: self.to@,
            authority: self.authority@,
            amount: self.amount,
            signer: match self.signer {
                Some(seeds) => Some(seeds@),
                None => None,
            },
        }
    }
}

/// A transfer that its authority signs in person.
pub open spec fn signed_transfer(from: Pubkey, to: Pubkey, authority: Pubkey, amount: u64)
    -> TransferView {
    TransferView { from: from@, to: to@, authority: authority@, amount, signer: None }
}

/// A transfer out of the vault `from`, which is its own authority and for
/// which the program signs with the seeds `prefix`, `id`, `bump`.
pub open spec fn vault_transfer(
    from: Pubkey,
    to: Pubkey,
    amount: u64,
    prefix: Seq<char>,
    id: Seq<u8>,
    bump: u8,
) -> TransferView {
    TransferView {
        from: from@,
        to: to@,
        authority: from@,
        amount,
        signer: Some(SeedsView { prefix: encode_utf8(prefix), id, bump }),
    }
}

impl TokenTransfer {
    /// A transfer that `authority` signs in person.
    pub fn signed(from: Pubkey, to: Pubkey, authority: Pubkey, amount: u64) -> (transfer:
        TokenTransfer)
        ensures
            transfer@ == signed_transfer(from, to, authority, amount),
    {
        TokenTransfer { from, to, authority, amount, signer: None }
    }

    /// A transfer out of a vault of the program, signed with the vault's seeds.
    pub fn from_vault(from: Pubkey, to: Pubkey, amount: u64, prefix: &str, id: &[u8], bump: u8)
        -> (transfer: TokenTransfer)
        ensures
            transfer@ == vault_transfer(from, to, amount, prefix@, id@, bump),
    {
        let mut prefix_bytes: Vec<u8> = Vec::new();
        prefix_bytes.extend_from_slice(prefix.as_bytes());
        let mut id_bytes: Vec<u8> = Vec::new();
        id_bytes.extend_from_slice(id);
        assert(prefix_bytes@ =~= encode_utf8(prefix@));
        assert(id_bytes@ =~= id@);
        TokenTransfer {
            from,
            to,
            authority: from,
            amount,
            signer: Some(SignerSeeds { prefix: prefix_bytes, id: id_bytes, bump }),
        }
    }
}

} // verus!
