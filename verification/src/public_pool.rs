//! The public instructions: deposits and pools whose amounts are in the
//! open. An amount is checked against the recorded balance right here, and
//! the tokens move in the same step.

use vstd::prelude::*;
use vstd::utf8::encode_utf8;
use crate::auth::{
    authorizes, bucket_of, subject_at, time_bucket, verify_oracle_signature,
    AuthorizationStatement, ExpectedSubject, Operation,
};
use crate::error::ErrorCode;
use crate::pubkey::Pubkey;
use crate::state::{Account, Clock, GroupPool, UserDeposit};
use crate::transfer::{
    group_vault_seed, signed_transfer, user_vault_seed, vault_transfer, TokenTransfer,
};

verus! {

/// What `initialize_user_deposit` is given.
#[derive(Clone, Debug, PartialEq, Eq)]
pub struct InitializeUserDeposit {
    pub user_deposit: Account<UserDeposit>,
    pub user: Pubkey,
    pub bump: u8,
}

/// What `deposit_to_user_pda` is given.
#[derive(Clone, Debug, PartialEq, Eq)]
pub struct DepositToUserPda {
    pub user_deposit: Account<UserDeposit>,
    pub user_vault: Pubkey,
    pub user_token_account: Pubkey,
    pub user: Pubkey,
    pub owner: Pubkey,
}

/// What `withdraw_from_user_pda` is given.
#[derive(Clone, Debug, PartialEq, Eq)]
pub struct WithdrawFromUserPda {
    pub user_deposit: Account<UserDeposit>,
    pub user_vault: Pubkey,
    pub user_token_account: Pubkey,
    pub user: Pubkey,
    pub owner: Pubkey,
}

/// What `create_group_pool` is given.
#[derive(Clone, Debug, PartialEq, Eq)]
pub struct CreateGroupPool {
    pub group_pool: Account<GroupPool>,
    pub admin: Pubkey,
    pub bump: u8,
}

/// What `release_funds_to_group` is given.
#[derive(Clone, Debug, PartialEq, Eq)]
pub struct ReleaseFundsToGroup {
    pub user_deposit: Account<UserDeposit>,
    pub user_vault: Pubkey,
    pub group_pool: Account<GroupPool>,
    pub group_vault: Pubkey,
    pub user: Pubkey,
}

/// What `release_funds_from_group` is given.
#[derive(Clone, Debug, PartialEq, Eq)]
pub struct ReleaseFundsFromGroup {
    pub user_deposit: Account<UserDeposit>,
    pub user_vault: Pubkey,
    pub group_pool: Account<GroupPool>,
    pub group_vault: Pubkey,
    pub user: Pubkey,
}

/// Sets up a user's public deposit record, empty.
pub fn initialize_user_deposit(ctx: &mut InitializeUserDeposit) -> (done: Result<(), ErrorCode>)
    ensures
        done is Ok,
        *final(ctx) == (InitializeUserDeposit {
            user_deposit: Account {
                key: old(ctx).user_deposit.key,
                data: UserDeposit {
                    owner: old(ctx).user,
                    deposited_amount: 0,
                    bump: old(ctx).bump,
                },
            },
            ..*old(ctx)
        }),
{
    ctx.user_deposit.data.owner = ctx.user;
    ctx.user_deposit.data.deposited_amount = 0;
    ctx.user_deposit.data.bump = ctx.bump;
    Ok(())
}

/// Why a public deposit is refused, if it is.
pub open spec fn deposit_to_user_pda_refusal(ctx: DepositToUserPda, amount: u64) -> Option<
    ErrorCode,
> {
    if ctx.user_deposit.data.owner@ != ctx.owner@ {
        Some(ErrorCode::Unauthorized)
    } else if amount == 0 {
        Some(ErrorCode::InvalidAmount)
    } else {
        None
    }
}

/// Records a public deposit and says which tokens to move into the vault.
pub fn deposit_to_user_pda(ctx: &mut DepositToUserPda, amount: u64) -> (moved: Result<
    TokenTransfer,
    ErrorCode,
>)
    requires
        deposit_to_user_pda_refusal(*old(ctx), amount) is None
            ==> old(ctx).user_deposit.data.deposited_amount + amount <= u64::MAX,
    ensures
        match deposit_to_user_pda_refusal(*old(ctx), amount) {
            Some(reason) => moved matches Err(e) && e == reason && *final(ctx) == *old(ctx),
            None => (moved matches Ok(t) && t@ == signed_transfer(
                old(ctx).user_token_account,
                old(ctx).user_vault,
                old(ctx).user,
                amount,
            )) && *final(ctx) == (DepositToUserPda {
                user_deposit: Account {
                    key: old(ctx).user_deposit.key,
                    data: UserDeposit {
                        deposited_amount: (old(ctx).user_deposit.data.deposited_amount
                            + amount) as u64,
                        ..old(ctx).user_deposit.data
                    },
                },
                ..*old(ctx)
            }),
        },
{
    if !ctx.user_deposit.data.owner.same_as(&ctx.owner) {
        return Err(ErrorCode::Unauthorized);
    }
    if amount == 0 {
        return Err(ErrorCode::InvalidAmount);
    }
    let transfer = TokenTransfer::signed(ctx.user_token_account, ctx.user_vault, ctx.user, amount);
    ctx.user_deposit.data.deposited_amount = ctx.user_deposit.data.deposited_amount + amount;
    Ok(transfer)
}

/// Why a public withdrawal is refused, if it is.
pub open spec fn withdraw_from_user_pda_refusal(
    ctx: WithdrawFromUserPda,
    amount: u64,
    statement: AuthorizationStatement,
    signature_verified: bool,
    clock: Clock,
) -> Option<ErrorCode> {
    if ctx.user_deposit.data.owner@ != ctx.owner@ {
        Some(ErrorCode::Unauthorized)
    } else if amount == 0 {
        Some(ErrorCode::InvalidAmount)
    } else if amount > ctx.user_deposit.data.deposited_amount {
        Some(ErrorCode::InsufficientBalance)
    } else if !authorizes(
        statement,
        subject_at(Operation::Withdraw, ctx.user, amount, None, clock),
        signature_verified,
    ) {
        Some(ErrorCode::Unauthorized)
    } else {
        None
    }
}

/// Takes an authorized amount off a user's public deposit and says which
/// tokens to hand back from the vault.
pub fn withdraw_from_user_pda(
    ctx: &mut WithdrawFromUserPda,
    amount: u64,
    statement: &AuthorizationStatement,
    signature_verified: bool,
    clock: &Clock,
) -> (moved: Result<TokenTransfer, ErrorCode>)
    ensures
        statement.time_bucket != bucket_of(clock.unix_timestamp) ==> moved is Err,
        match withdraw_from_user_pda_refusal(
            *old(ctx),
            amount,
            *statement,
            signature_verified,
            *clock,
        ) {
            Some(reason) => moved matches Err(e) && e == reason && *final(ctx) == *old(ctx),
            None => (moved matches Ok(t) && t@ == vault_transfer(
                old(ctx).user_vault,
                old(ctx).user_token_account,
                amount,
                user_vault_seed(),
                old(ctx).user@,
                old(ctx).user_deposit.data.bump,
            )) && *final(ctx) == (WithdrawFromUserPda {
                user_deposit: Account {
                    key: old(ctx).user_deposit.key,
                    data: UserDeposit {
                        deposited_amount: (old(ctx).user_deposit.data.deposited_amount
                            - amount) as u64,
                        ..old(ctx).user_deposit.data
                    },
                },
                ..*old(ctx)
            }),
        },
{
    if !ctx.user_deposit.data.owner.same_as(&ctx.owner) {
        return Err(ErrorCode::Unauthorized);
    }
    if amount == 0 {
        return Err(ErrorCode::InvalidAmount);
    }
    if amount > ctx.user_deposit.data.deposited_amount {
        return Err(ErrorCode::InsufficientBalance);
    }
    let expected = ExpectedSubject {
        operation: Operation::Withdraw,
        actor: ctx.user,
        amount,
        pool_id: None,
        time_bucket: time_bucket(clock.unix_timestamp),
    };
    verify_oracle_signature(statement, &expected, signature_verified)?;
    let transfer = TokenTransfer::from_vault(
        ctx.user_vault,
        ctx.user_token_account,
        amount,
        "user_vault",
        ctx.user.bytes.as_slice(),
        ctx.user_deposit.data.bump,
    );
    ctx.user_deposit.data.deposited_amount = ctx.user_deposit.data.deposited_amount - amount;
    Ok(transfer)
}

/// Sets up a public pool: active and empty.
pub fn create_group_pool(ctx: &mut CreateGroupPool, group_id: String, group_name: String) -> (done:
    Result<(), ErrorCode>)
    ensures
        done is Ok,
        final(ctx).admin == old(ctx).admin,
        final(ctx).bump == old(ctx).bump,
        final(ctx).group_pool.key == old(ctx).group_pool.key,
        final(ctx).group_pool.data.admin == old(ctx).admin,
        final(ctx).group_pool.data.group_id@ == group_id@,
        final(ctx).group_pool.data.group_name@ == group_name@,
        final(ctx).group_pool.data.total_locked == 0,
        final(ctx).group_pool.data.is_active,
        final(ctx).group_pool.data.bump == old(ctx).bump,
{
    ctx.group_pool.data = GroupPool {
        admin: ctx.admin,
        group_id,
        group_name,
        total_locked: 0,
        is_active: true,
        bump: ctx.bump,
    };
    Ok(())
}

/// Why a public release into a pool is refused, if it is.
pub open spec fn release_funds_to_group_refusal(
    ctx: ReleaseFundsToGroup,
    amount: u64,
    statement: AuthorizationStatement,
    signature_verified: bool,
    clock: Clock,
) -> Option<ErrorCode> {
    if amount == 0 {
        Some(ErrorCode::InvalidAmount)
    } else if amount > ctx.user_deposit.data.deposited_amount {
        Some(ErrorCode::InsufficientBalance)
    } else if !ctx.group_pool.data.is_active {
        Some(ErrorCode::PoolNotActive)
    } else if !authorizes(
        statement,
        subject_at(
            Operation::ReleaseToGroup,
            ctx.user,
            amount,
            Some(ctx.group_pool.data.group_id),
            clock,
        ),
        signature_verified,
    ) {
        Some(ErrorCode::Unauthorized)
    } else {
        None
    }
}

/// Moves an authorized amount from a user's public deposit into a pool.
pub fn release_funds_to_group(
    ctx: &mut ReleaseFundsToGroup,
    amount: u64,
    statement: &AuthorizationStatement,
    signature_verified: bool,
    clock: &Clock,
) -> (moved: Result<TokenTransfer, ErrorCode>)
    requires
        release_funds_to_group_refusal(
            *old(ctx),
            amount,
            *statement,
            signature_verified,
            *clock,
        ) is None ==> old(ctx).group_pool.data.total_locked + amount <= u64::MAX,
    ensures
        statement.time_bucket != bucket_of(clock.unix_timestamp) ==> moved is Err,
        match release_funds_to_group_refusal(
            *old(ctx),
            amount,
            *statement,
            signature_verified,
            *clock,
        ) {
            Some(reason) => moved matches Err(e) && e == reason && *final(ctx) == *old(ctx),
            None => (moved matches Ok(t) && t@ == vault_transfer(
                old(ctx).user_vault,
                old(ctx).group_vault,
                amount,
                user_vault_seed(),
                old(ctx).user@,
                old(ctx).user_deposit.data.bump,
            )) && *final(ctx) == (ReleaseFundsToGroup {
                user_deposit: Account {
                    key: old(ctx).user_deposit.key,
                    data: UserDeposit {
                        deposited_amount: (old(ctx).user_deposit.data.deposited_amount
                            - amount) as u64,
                        ..old(ctx).user_deposit.data
                    },
                },
                group_pool: Account {
                    key: old(ctx).group_pool.key,
                    data: GroupPool {
                        total_locked: (old(ctx).group_pool.data.total_locked + amount) as u64,
                        ..old(ctx).group_pool.data
                    },
                },
                ..*old(ctx)
            }),
        },
{
    if amount == 0 {
        return Err(ErrorCode::InvalidAmount);
    }
    if amount > ctx.user_deposit.data.deposited_amount {
        return Err(ErrorCode::InsufficientBalance);
    }
    if !ctx.group_pool.data.is_active {
        return Err(ErrorCode::PoolNotActive);
    }
    let expected = ExpectedSubject {
        operation: Operation::ReleaseToGroup,
        actor: ctx.user,
        amount,
        pool_id: Some(ctx.group_pool.data.group_id.clone()),
        time_bucket: time_bucket(clock.unix_timestamp),
    };
    verify_oracle_signature(statement, &expected, signature_verified)?;
    let transfer = TokenTransfer::from_vault(
        ctx.user_vault,
        ctx.group_vault,
        amount,
        "user_vault",
        ctx.user.bytes.as_slice(),
        ctx.user_deposit.data.bump,
    );
    ctx.user_deposit.data.deposited_amount = ctx.user_deposit.data.deposited_amount - amount;
    ctx.group_pool.data.total_locked = ctx.group_pool.data.total_locked + amount;
    Ok(transfer)
}

/// Why a public release out of a pool is refused, if it is.
pub open spec fn release_funds_from_group_refusal(
    ctx: ReleaseFundsFromGroup,
    amount: u64,
    statement: AuthorizationStatement,
    signature_verified: bool,
    clock: Clock,
) -> Option<ErrorCode> {
    if amount == 0 {
        Some(ErrorCode::InvalidAmount)
    } else if amount > ctx.group_pool.data.total_locked {
        Some(ErrorCode::InsufficientBalance)
    } else if !authorizes(
        statement,
        subject_at(
            Operation::ReleaseFromGroup,
            ctx.user,
            amount,
            Some(ctx.group_pool.data.group_id),
            clock,
        ),
        signature_verified,
    ) {
        Some(ErrorCode::Unauthorized)
    } else {
        None
    }
}

/// Moves an authorized amount from a pool back to a user's public deposit.
pub fn release_funds_from_group(
    ctx: &mut ReleaseFundsFromGroup,
    amount: u64,
    statement: &AuthorizationStatement,
    signature_verified: bool,
    clock: &Clock,
) -> (moved: Result<TokenTransfer, ErrorCode>)
    requires
        release_funds_from_group_refusal(
            *old(ctx),
            amount,
            *statement,
            signature_verified,
            *clock,
        ) is None ==> old(ctx).user_deposit.data.deposited_amount + amount <= u64::MAX,
    ensures
        statement.time_bucket != bucket_of(clock.unix_timestamp) ==> moved is Err,
        match release_funds_from_group_refusal(
            *old(ctx),
            amount,
            *statement,
            signature_verified,
            *clock,
        ) {
            Some(reason) => moved matches Err(e) && e == reason && *final(ctx) == *old(ctx),
            None => (moved matches Ok(t) && t@ == vault_transfer(
                old(ctx).group_vault,
                old(ctx).user_vault,
                amount,
                group_vault_seed(),
                encode_utf8(old(ctx).group_pool.data.group_id@),
                old(ctx).group_pool.data.bump,
            )) && *final(ctx) == (ReleaseFundsFromGroup {
                user_deposit: Account {
                    key: old(ctx).user_deposit.key,
                    data: UserDeposit {
                        deposited_amount: (old(ctx).user_deposit.data.deposited_amount
                            + amount) as u64,
                        ..old(ctx).user_deposit.data
                    },
                },
                group_pool: Account {
                    key: old(ctx).group_pool.key,
                    data: GroupPool {
                        total_locked: (old(ctx).group_pool.data.total_locked - amount) as u64,
                        ..old(ctx).group_pool.data
                    },
                },
                ..*old(ctx)
            }),
        },
{
    if amount == 0 {
        return Err(ErrorCode::InvalidAmount);
    }
    if amount > ctx.group_pool.data.total_locked {
        return Err(ErrorCode::InsufficientBalance);
    }
    let expected = ExpectedSubject {
        operation: Operation::ReleaseFromGroup,
        actor: ctx.user,
        amount,
        pool_id: Some(ctx.group_pool.data.group_id.clone()),
        time_bucket: time_bucket(clock.unix_timestamp),
    };
    verify_oracle_signature(statement, &expected, signature_verified)?;
    let transfer = TokenTransfer::from_vault(
        ctx.group_vault,
        ctx.user_vault,
        amount,
        "group_vault",
        ctx.group_pool.data.group_id.as_str().as_bytes(),
        ctx.group_pool.data.bump,
    );
    ctx.group_pool.data.total_locked = ctx.group_pool.data.total_locked - amount;
    ctx.user_deposit.data.deposited_amount = ctx.user_deposit.data.deposited_amount + amount;
    Ok(transfer)
}

} // verus!
