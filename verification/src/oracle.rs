//! The oracle's configuration: who may change it, and whose signature the
//! authorization gate is asked about.

use vstd::prelude::*;
use crate::error::ErrorCode;
use crate::pubkey::Pubkey;
use crate::state::{Account, OracleConfig};

verus! {

/// What `initialize_oracle` is given.
#[derive(Clone, Debug, PartialEq, Eq)]
pub struct InitializeOracle {
    pub oracle_config: Account<OracleConfig>,
    pub authority: Pubkey,
    pub oracle_pubkey: Pubkey,
    pub bump: u8,
}

/// What `update_oracle` is given.
#[derive(Clone, Debug, PartialEq, Eq)]
pub struct UpdateOracle {
    pub oracle_config: Account<OracleConfig>,
    pub authority: Pubkey,
}

/// Writes the first configuration: the signer becomes its authority.
pub fn initialize_oracle(ctx: &mut InitializeOracle) -> (done: Result<(), ErrorCode>)
    ensures
        done is Ok,
        *final(ctx) == (InitializeOracle {
            oracle_config: Account {
                key: old(ctx).oracle_config.key,
                data: OracleConfig {
                    authority: old(ctx).authority,
                    oracle_pubkey: old(ctx).oracle_pubkey,
                    bump: old(ctx).bump,
                },
            },
            ..*old(ctx)
        }),
{
    ctx.oracle_config.data.authority = ctx.authority;
    ctx.oracle_config.data.oracle_pubkey = ctx.oracle_pubkey;
    ctx.oracle_config.data.bump = ctx.bump;
    Ok(())
}

/// Replaces the oracle's key, for the configuration's authority only.
pub fn update_oracle(ctx: &mut UpdateOracle, new_oracle_pubkey: Pubkey) -> (done: Result<
    (),
    ErrorCode,
>)
    ensures
        old(ctx).oracle_config.data.authority@ != old(ctx).authority@ ==> (done matches Err(e)
            && e == ErrorCode::Unauthorized) && *final(ctx) == *old(ctx),
        old(ctx).oracle_config.data.authority@ == old(ctx).authority@ ==> done is Ok
            && *final(ctx) == (UpdateOracle {
            oracle_config: Account {
                key: old(ctx).oracle_config.key,
                data: OracleConfig {
                    oracle_pubkey: new_oracle_pubkey,
                    ..old(ctx).oracle_config.data
                },
            },
            ..*old(ctx)
        }),
{
    if !ctx.oracle_config.data.authority.same_as(&ctx.authority) {
        return Err(ErrorCode::Unauthorized);
    }
    ctx.oracle_config.data.oracle_pubkey = new_oracle_pubkey;
    Ok(())
}

} // verus!
