//! The confidential instructions: queue an intent, apply the network's answer.
//!
//! A queue instruction checks the intent, opens a request in the ledger and
//! says what to hand to the network. It reads the stored ciphertexts only to
//! pass them on. A callback instruction is accepted from the configured
//! network authority alone, and only for a request that is still pending and
//! was queued for the very accounts it is about to write. An answer that
//! reports a fault or a refusal fails the request and leaves the balances as
//! they were; any other answer is written and completes the request.

use vstd::prelude::*;
use crate::auth::{
    authorizes, bucket_of, subject_at, time_bucket, verify_oracle_signature,
    AuthorizationStatement, ExpectedSubject, Operation,
};
use crate::computation::{queued, Argument, Circuit, ComputationOutputs, QueuedComputation};
use crate::error::ErrorCode;
use crate::ledger::{
    admits, extends, one_record_per_id, overdue_count, pending, settled, swept, RequestId,
    RequestLedger,
};
use crate::pubkey::Pubkey;
use crate::state::{
    zero_ciphertext, Account, Clock, ConfidentialGroupPool, ConfidentialUserDeposit, MpcRequest,
    MpcRequestStatus,
};
use crate::transfer::{
    confidential_group_vault_seed, confidential_vault_seed, signed_transfer, vault_transfer,
    TokenTransfer,
};

verus! {

/// What the instructions are configured with: the one identity from which
/// callbacks are accepted, and for how many slots a request may stay pending
/// before a sweep fails it.
#[derive(Clone, Copy, Debug, PartialEq, Eq)]
pub struct OrchestratorConfig {
    pub mpc_authority: Pubkey,
    pub request_timeout: u64,
}

/// The network's answer to a deposit: the new balance, encrypted.
#[derive(Clone, Copy, Debug, PartialEq, Eq)]
pub struct DepositOutput {
    pub new_balance: [u8; 32],
    pub success: bool,
}

/// The network's answer to a withdrawal: the new balance, encrypted, and the
/// amount that may leave the vault.
#[derive(Clone, Copy, Debug, PartialEq, Eq)]
pub struct WithdrawOutput {
    pub new_balance: [u8; 32],
    pub success: bool,
    pub error_code: u8,
    pub amount: u64,
}

/// The network's answer to a transfer: both new balances, encrypted, and the
/// amount that moves between the vaults.
#[derive(Clone, Copy, Debug, PartialEq, Eq)]
pub struct TransferOutput {
    pub new_user_balance: [u8; 32],
    pub new_pool_balance: [u8; 32],
    pub transfer_success: bool,
    pub amount: u64,
}

/// What a queue instruction leaves to be done: tokens to move now, where the
/// deposit is public, and the computation to hand to the network for the
/// request that was opened.
#[derive(Clone, Debug, PartialEq, Eq)]
pub struct Queued {
    pub transfer: Option<TokenTransfer>,
    pub computation: QueuedComputation,
    pub request: MpcRequest,
}

/// How an accepted callback ended.
#[derive(Clone, Debug, PartialEq, Eq)]
pub enum CallbackOutcome {
    /// The answer was written and the request completed.
    Applied { transfer: Option<TokenTransfer> },
    /// The request failed; no balance was written.
    Failed { reason: ErrorCode },
}

/// What `initialize_confidential_deposit` is given.
#[derive(Clone, Debug, PartialEq, Eq)]
pub struct InitializeConfidentialDeposit {
    pub confidential_deposit: Account<ConfidentialUserDeposit>,
    pub user: Pubkey,
    pub bump: u8,
}

/// What `confidential_deposit` is given.
#[derive(Clone, Debug, PartialEq, Eq)]
pub struct ConfidentialDeposit {
    pub confidential_deposit: Account<ConfidentialUserDeposit>,
    pub user_vault: Pubkey,
    pub user_token_account: Pubkey,
    pub user: Pubkey,
    pub request_bump: u8,
}

/// What `confidential_deposit_callback` is given.
#[derive(Clone, Debug, PartialEq, Eq)]
pub struct ConfidentialDepositCallback {
    pub confidential_deposit: Account<ConfidentialUserDeposit>,
    pub mpc_signer: Pubkey,
}

/// What `confidential_withdraw` is given.
#[derive(Clone, Debug, PartialEq, Eq)]
pub struct ConfidentialWithdraw {
    pub confidential_deposit: Account<ConfidentialUserDeposit>,
    pub user_vault: Pubkey,
    pub user_token_account: Pubkey,
    pub user: Pubkey,
    pub request_bump: u8,
}

/// What `confidential_withdraw_callback` is given.
#[derive(Clone, Debug, PartialEq, Eq)]
pub struct ConfidentialWithdrawCallback {
    pub confidential_deposit: Account<ConfidentialUserDeposit>,
    pub user_vault: Pubkey,
    pub user_token_account: Pubkey,
    pub user: Pubkey,
    pub mpc_signer: Pubkey,
}

/// What `create_confidential_group_pool` is given.
#[derive(Clone, Debug, PartialEq, Eq)]
pub struct CreateConfidentialGroupPool {
    pub confidential_pool: Account<ConfidentialGroupPool>,
    pub admin: Pubkey,
    pub bump: u8,
}

/// What `confidential_release_to_group` is given.
#[derive(Clone, Debug, PartialEq, Eq)]
pub struct ConfidentialReleaseToGroup {
    pub confidential_deposit: Account<ConfidentialUserDeposit>,
    pub user_vault: Pubkey,
    pub confidential_pool: Account<ConfidentialGroupPool>,
    pub group_vault: Pubkey,
    pub user: Pubkey,
    pub request_bump: u8,
}

/// What `confidential_transfer_to_pool_callback` is given.
#[derive(Clone, Debug, PartialEq, Eq)]
pub struct ConfidentialTransferCallback {
    pub confidential_deposit: Account<ConfidentialUserDeposit>,
    pub user_vault: Pubkey,
    pub confidential_pool: Account<ConfidentialGroupPool>,
    pub group_vault: Pubkey,
    pub user: Pubkey,
    pub mpc_signer: Pubkey,
}

/// What `confidential_release_from_group` is given.
#[derive(Clone, Debug, PartialEq, Eq)]
pub struct ConfidentialReleaseFromGroup {
    pub confidential_deposit: Account<ConfidentialUserDeposit>,
    pub user_vault: Pubkey,
    pub confidential_pool: Account<ConfidentialGroupPool>,
    pub group_vault: Pubkey,
    pub user: Pubkey,
    pub request_bump: u8,
}

/// What `confidential_transfer_from_pool_callback` is given.
#[derive(Clone, Debug, PartialEq, Eq)]
pub struct ConfidentialTransferFromPoolCallback {
    pub confidential_deposit: Account<ConfidentialUserDeposit>,
    pub user_vault: Pubkey,
    pub confidential_pool: Account<ConfidentialGroupPool>,
    pub group_vault: Pubkey,
    pub user: Pubkey,
    pub mpc_signer: Pubkey,
}

/// The request that a queue instruction opens.
pub open spec fn new_request(
    requester: Pubkey,
    target_account: Pubkey,
    second_target: Option<Pubkey>,
    clock: Clock,
    bump: u8,
) -> MpcRequest {
    MpcRequest {
        requester,
        target_account,
        second_target,
        status: MpcRequestStatus::Pending,
        created_slot: clock.slot,
        bump,
    }
}

/// The id under which `requester` queues at `clock`.
pub open spec fn request_id_at(requester: Pubkey, clock: Clock) -> RequestId {
    RequestId { requester, created_slot: clock.slot }
}

/// Sets up a user's confidential balance: active, owned by the user, holding
/// the ciphertext of zero.
pub fn initialize_confidential_deposit(
    ctx: &mut InitializeConfidentialDeposit,
    clock: &Clock,
) -> (done: Result<(), ErrorCode>)
    ensures
        done is Ok,
        final(ctx).user == old(ctx).user,
        final(ctx).bump == old(ctx).bump,
        final(ctx).confidential_deposit.key == old(ctx).confidential_deposit.key,
        final(ctx).confidential_deposit.data.owner == old(ctx).user,
        final(ctx).confidential_deposit.data.encrypted_balance@ == zero_ciphertext(),
        final(ctx).confidential_deposit.data.last_update_slot == clock.slot,
        final(ctx).confidential_deposit.data.is_active,
        final(ctx).confidential_deposit.data.bump == old(ctx).bump,
{
    let zero = [0u8; 32];
    assert(zero@ =~= zero_ciphertext());
    ctx.confidential_deposit.data = ConfidentialUserDeposit {
        owner: ctx.user,
        encrypted_balance: zero,
        last_update_slot: clock.slot,
        is_active: true,
        bump: ctx.bump,
    };
    Ok(())
}

/// Why a deposit is not queued, if it is not.
pub open spec fn deposit_refusal(
    ctx: ConfidentialDeposit,
    requests: Seq<MpcRequest>,
    deposit_amount: u64,
    clock: Clock,
) -> Option<ErrorCode> {
    if ctx.confidential_deposit.data.owner@ != ctx.user@ {
        Some(ErrorCode::Unauthorized)
    } else if deposit_amount == 0 {
        Some(ErrorCode::InvalidAmount)
    } else if !admits(
        requests,
        request_id_at(ctx.user, clock),
        ctx.confidential_deposit.key@,
        None,
    ) {
        Some(ErrorCode::RequestInFlight)
    } else {
        None
    }
}

/// Queues a deposit. The tokens move in the open; the balance is updated by
/// the network, which gets the stored ciphertext and the amount.
pub fn confidential_deposit(
    ctx: &ConfidentialDeposit,
    ledger: &mut RequestLedger,
    deposit_amount: u64,
    clock: &Clock,
) -> (queued_up: Result<Queued, ErrorCode>)
    requires
        old(ledger).wf(),
    ensures
        final(ledger).wf(),
        extends(old(ledger)@, final(ledger)@),
        match deposit_refusal(*ctx, old(ledger)@, deposit_amount, *clock) {
            Some(reason) => queued_up matches Err(e) && e == reason && final(ledger)@
                == old(ledger)@,
            None => queued_up matches Ok(q) && q.request == new_request(
                ctx.user,
                ctx.confidential_deposit.key,
                None,
                *clock,
                ctx.request_bump,
            ) && final(ledger)@ == old(ledger)@.push(q.request) && (q.transfer matches Some(t)
                && t@ == signed_transfer(
                ctx.user_token_account,
                ctx.user_vault,
                ctx.user,
                deposit_amount,
            )) && q.computation@ == queued(
                Circuit::AddToBalance,
                clock.slot,
                seq![
                    Argument::EncryptedU64(ctx.confidential_deposit.data.encrypted_balance),
                    Argument::PlaintextU64(deposit_amount),
                ],
            ),
        },
{
    if !ctx.confidential_deposit.data.owner.same_as(&ctx.user) {
        return Err(ErrorCode::Unauthorized);
    }
    if deposit_amount == 0 {
        return Err(ErrorCode::InvalidAmount);
    }
    let request = ledger.open(
        ctx.user,
        ctx.confidential_deposit.key,
        None,
        clock.slot,
        ctx.request_bump,
    )?;
    let transfer = TokenTransfer::signed(
        ctx.user_token_account,
        ctx.user_vault,
        ctx.user,
        deposit_amount,
    );
    let mut args: Vec<Argument> = Vec::new();
    args.push(Argument::EncryptedU64(ctx.confidential_deposit.data.read()));
    args.push(Argument::PlaintextU64(deposit_amount));
    assert(args@ =~= seq![
        Argument::EncryptedU64(ctx.confidential_deposit.data.encrypted_balance),
        Argument::PlaintextU64(deposit_amount),
    ]);
    let computation = QueuedComputation::new(Circuit::AddToBalance, clock.slot, args);
    Ok(Queued { transfer: Some(transfer), computation, request })
}

/// The bytes of an address that may be absent.
pub open spec fn key_view(key: Option<Pubkey>) -> Option<Seq<u8>> {
    match key {
        Some(k) => Some(k@),
        None => None,
    }
}

/// Whether the request `id` is pending and was queued for exactly these
/// accounts.
pub open spec fn pending_on(
    requests: Seq<MpcRequest>,
    id: RequestId,
    target: Seq<u8>,
    second_target: Option<Seq<u8>>,
) -> bool {
    exists|i: int|
        0 <= i < requests.len() && (#[trigger] requests[i]).has_id(id) && requests[i].is_pending()
            && requests[i].target_account@ == target && key_view(requests[i].second_target)
            == second_target
}

/// Why a callback is turned away untouched, if it is: it does not come from
/// the network authority, or its request is unknown or no longer pending, or
/// the request was queued for other accounts than the ones presented.
pub open spec fn callback_refusal(
    config: OrchestratorConfig,
    mpc_signer: Pubkey,
    requests: Seq<MpcRequest>,
    id: RequestId,
    target: Seq<u8>,
    second_target: Option<Seq<u8>>,
) -> Option<ErrorCode> {
    if mpc_signer@ != config.mpc_authority@ {
        Some(ErrorCode::InvalidMpcSigner)
    } else if !pending(requests, id) {
        Some(ErrorCode::UnknownOrStaleRequest)
    } else if !pending_on(requests, id, target, second_target) {
        Some(ErrorCode::Unauthorized)
    } else {
        None
    }
}

/// Checks a callback before anything is written.
pub fn admit_callback(
    config: &OrchestratorConfig,
    mpc_signer: &Pubkey,
    ledger: &RequestLedger,
    request_id: &RequestId,
    target: &Pubkey,
    second_target: Option<&Pubkey>,
) -> (admitted: Result<(), ErrorCode>)
    requires
        ledger.wf(),
    ensures
        match callback_refusal(
            *config,
            *mpc_signer,
            ledger@,
            *request_id,
            target@,
            match second_target {
                Some(k) => Some(k@),
                None => None,
            },
        ) {
            Some(reason) => admitted == Err::<(), ErrorCode>(reason),
            None => admitted == Ok::<(), ErrorCode>(()),
        },
{
    if !mpc_signer.same_as(&config.mpc_authority) {
        return Err(ErrorCode::InvalidMpcSigner);
    }
    let request = match ledger.get_pending(request_id) {
        Some(request) => request,
        None => {
            return Err(ErrorCode::UnknownOrStaleRequest);
        },
    };
    let second_matches = match (&request.second_target, second_target) {
        (Some(recorded), Some(presented)) => recorded.same_as(presented),
        (None, None) => true,
        _ => false,
    };
    let matches = request.target_account.same_as(target) && second_matches;
    proof {
        let requests = ledger@;
        let second_view: Option<Seq<u8>> = match second_target {
            Some(k) => Some(k@),
            None => None,
        };
        let k = choose|k: int| 0 <= k < requests.len() && requests[k] == request;
        assert(requests[k].has_id(*request_id) && requests[k].is_pending());
        if !matches {
            assert forall|i: int|
                0 <= i < requests.len() && (#[trigger] requests[i]).has_id(*request_id)
                    && requests[i].is_pending() implies !(requests[i].target_account@ == target@
                && key_view(requests[i].second_target) == second_view) by {
                one_record_per_id(requests, *request_id, i, k);
            }
        }
    }
    if matches {
        Ok(())
    } else {
        Err(ErrorCode::Unauthorized)
    }
}

/// The answer to a deposit that is to be written: one that reports success.
pub open spec fn accepted_deposit(output: ComputationOutputs<DepositOutput>) -> Option<
    DepositOutput,
> {
    match output {
        ComputationOutputs::Success(answer) => if answer.success {
            Some(answer)
        } else {
            None
        },
        ComputationOutputs::Failure => None,
    }
}

/// Applies the network's answer to a deposit.
///
/// A callback for a request that is not pending is turned away and changes
/// nothing.
pub fn confidential_deposit_callback(
    ctx: &mut ConfidentialDepositCallback,
    ledger: &mut RequestLedger,
    config: &OrchestratorConfig,
    request_id: &RequestId,
    output: ComputationOutputs<DepositOutput>,
    clock: &Clock,
) -> (outcome: Result<CallbackOutcome, ErrorCode>)
    requires
        old(ledger).wf(),
    ensures
        final(ledger).wf(),
        extends(old(ledger)@, final(ledger)@),
        !pending(old(ledger)@, *request_id) ==> outcome is Err && *final(ctx) == *old(ctx)
            && final(ledger)@ == old(ledger)@,
        match callback_refusal(
            *config,
            old(ctx).mpc_signer,
            old(ledger)@,
            *request_id,
            old(ctx).confidential_deposit.key@,
            None,
        ) {
            Some(reason) => outcome matches Err(e) && e == reason && *final(ctx) == *old(ctx)
                && final(ledger)@ == old(ledger)@,
            None => match accepted_deposit(output) {
                Some(answer) => {
                    &&& outcome matches Ok(CallbackOutcome::Applied { transfer })
                        && transfer is None
                    &&& *final(ctx) == (ConfidentialDepositCallback {
                        confidential_deposit: Account {
                            key: old(ctx).confidential_deposit.key,
                            data: written_deposit(
                                old(ctx).confidential_deposit.data,
                                answer.new_balance,
                                clock.slot,
                            ),
                        },
                        ..*old(ctx)
                    })
                    &&& final(ledger)@ == settled(
                        old(ledger)@,
                        *request_id,
                        MpcRequestStatus::Completed,
                    )
                },
                None => {
                    &&& outcome matches Ok(CallbackOutcome::Failed { reason }) && reason
                        == ErrorCode::MpcComputationFailed
                    &&& *final(ctx) == *old(ctx)
                    &&& final(ledger)@ == settled(
                        old(ledger)@,
                        *request_id,
                        MpcRequestStatus::Failed,
                    )
                },
            },
        },
{
    admit_callback(
        config,
        &ctx.mpc_signer,
        ledger,
        request_id,
        &ctx.confidential_deposit.key,
        None,
    )?;
    let accepted = match output {
        ComputationOutputs::Success(answer) => if answer.success {
            Some(answer)
        } else {
            None
        },
        ComputationOutputs::Failure => None,
    };
    match accepted {
        Some(answer) => {
            ledger.complete(request_id)?;
            ctx.confidential_deposit.data.write(answer.new_balance, clock.slot);
            Ok(CallbackOutcome::Applied { transfer: None })
        },
        None => {
            ledger.fail(request_id)?;
            Ok(CallbackOutcome::Failed { reason: ErrorCode::MpcComputationFailed })
        },
    }
}

/// Why a withdrawal is not queued, if it is not.
pub open spec fn withdraw_refusal(
    ctx: ConfidentialWithdraw,
    requests: Seq<MpcRequest>,
    withdraw_amount: u64,
    statement: AuthorizationStatement,
    signature_verified: bool,
    clock: Clock,
) -> Option<ErrorCode> {
    if ctx.confidential_deposit.data.owner@ != ctx.user@ {
        Some(ErrorCode::Unauthorized)
    } else if withdraw_amount == 0 {
        Some(ErrorCode::InvalidAmount)
    } else if !authorizes(
        statement,
        subject_at(Operation::ConfidentialWithdraw, ctx.user, withdraw_amount, None, clock),
        signature_verified,
    ) {
        Some(ErrorCode::Unauthorized)
    } else if !admits(
        requests,
        request_id_at(ctx.user, clock),
        ctx.confidential_deposit.key@,
        None,
    ) {
        Some(ErrorCode::RequestInFlight)
    } else {
        None
    }
}

/// Queues a withdrawal that the oracle has authorized. Whether the balance
/// covers it is for the network to find out; no tokens move before it has.
pub fn confidential_withdraw(
    ctx: &ConfidentialWithdraw,
    ledger: &mut RequestLedger,
    withdraw_amount: u64,
    statement: &AuthorizationStatement,
    signature_verified: bool,
    clock: &Clock,
) -> (queued_up: Result<Queued, ErrorCode>)
    requires
        old(ledger).wf(),
    ensures
        final(ledger).wf(),
        extends(old(ledger)@, final(ledger)@),
        statement.time_bucket != bucket_of(clock.unix_timestamp) ==> queued_up is Err,
        match withdraw_refusal(
            *ctx,
            old(ledger)@,
            withdraw_amount,
            *statement,
            signature_verified,
            *clock,
        ) {
            Some(reason) => queued_up matches Err(e) && e == reason && final(ledger)@
                == old(ledger)@,
            None => queued_up matches Ok(q) && q.request == new_request(
                ctx.user,
                ctx.confidential_deposit.key,
                None,
                *clock,
                ctx.request_bump,
            ) && final(ledger)@ == old(ledger)@.push(q.request) && q.transfer is None
                && q.computation@ == queued(
                Circuit::SubtractFromBalance,
                clock.slot,
                seq![
                    Argument::EncryptedU64(ctx.confidential_deposit.data.encrypted_balance),
                    Argument::PlaintextU64(withdraw_amount),
                ],
            ),
        },
{
    if !ctx.confidential_deposit.data.owner.same_as(&ctx.user) {
        return Err(ErrorCode::Unauthorized);
    }
    if withdraw_amount == 0 {
        return Err(ErrorCode::InvalidAmount);
    }
    let expected = ExpectedSubject {
        operation: Operation::ConfidentialWithdraw,
        actor: ctx.user,
        amount: withdraw_amount,
        pool_id: None,
        time_bucket: time_bucket(clock.unix_timestamp),
    };
    verify_oracle_signature(statement, &expected, signature_verified)?;
    let request = ledger.open(
        ctx.user,
        ctx.confidential_deposit.key,
        None,
        clock.slot,
        ctx.request_bump,
    )?;
    let mut args: Vec<Argument> = Vec::new();
    args.push(Argument::EncryptedU64(ctx.confidential_deposit.data.read()));
    args.push(Argument::PlaintextU64(withdraw_amount));
    assert(args@ =~= seq![
        Argument::EncryptedU64(ctx.confidential_deposit.data.encrypted_balance),
        Argument::PlaintextU64(withdraw_amount),
    ]);
    let computation = QueuedComputation::new(Circuit::SubtractFromBalance, clock.slot, args);
    Ok(Queued { transfer: None, computation, request })
}

/// The answer to a withdrawal that is to be written: one that reports success.
pub open spec fn accepted_withdrawal(output: ComputationOutputs<WithdrawOutput>) -> Option<
    WithdrawOutput,
> {
    match output {
        ComputationOutputs::Success(answer) => if answer.success {
            Some(answer)
        } else {
            None
        },
        ComputationOutputs::Failure => None,
    }
}

/// Why a withdrawal failed in the network: a fault, or a balance that did not
/// cover the amount.
pub open spec fn withdrawal_failure(output: ComputationOutputs<WithdrawOutput>) -> ErrorCode {
    match output {
        ComputationOutputs::Success(_) => ErrorCode::InsufficientBalance,
        ComputationOutputs::Failure => ErrorCode::MpcComputationFailed,
    }
}

/// Applies the network's answer to a withdrawal. Tokens leave the vault only
/// with an answer that reports success, and then in the amount it names.
///
/// A callback for a request that is not pending is turned away and changes
/// nothing.
pub fn confidential_withdraw_callback(
    ctx: &mut ConfidentialWithdrawCallback,
    ledger: &mut RequestLedger,
    config: &OrchestratorConfig,
    request_id: &RequestId,
    output: ComputationOutputs<WithdrawOutput>,
    clock: &Clock,
) -> (outcome: Result<CallbackOutcome, ErrorCode>)
    requires
        old(ledger).wf(),
    ensures
        final(ledger).wf(),
        extends(old(ledger)@, final(ledger)@),
        !pending(old(ledger)@, *request_id) ==> outcome is Err && *final(ctx) == *old(ctx)
            && final(ledger)@ == old(ledger)@,
        match callback_refusal(
            *config,
            old(ctx).mpc_signer,
            old(ledger)@,
            *request_id,
            old(ctx).confidential_deposit.key@,
            None,
        ) {
            Some(reason) => outcome matches Err(e) && e == reason && *final(ctx) == *old(ctx)
                && final(ledger)@ == old(ledger)@,
            None => match accepted_withdrawal(output) {
                Some(answer) => {
                    &&& outcome matches Ok(CallbackOutcome::Applied { transfer: Some(t) }) && t@
                        == vault_transfer(
                        old(ctx).user_vault,
                        old(ctx).user_token_account,
                        answer.amount,
                        confidential_vault_seed(),
                        old(ctx).user@,
                        old(ctx).confidential_deposit.data.bump,
                    )
                    &&& *final(ctx) == (ConfidentialWithdrawCallback {
                        confidential_deposit: Account {
                            key: old(ctx).confidential_deposit.key,
                            data: written_deposit(
                                old(ctx).confidential_deposit.data,
                                answer.new_balance,
                                clock.slot,
                            ),
                        },
                        ..*old(ctx)
                    })
                    &&& final(ledger)@ == settled(
                        old(ledger)@,
                        *request_id,
                        MpcRequestStatus::Completed,
                    )
                },
                None => {
                    &&& outcome matches Ok(CallbackOutcome::Failed { reason }) && reason
                        == withdrawal_failure(output)
                    &&& *final(ctx) == *old(ctx)
                    &&& final(ledger)@ == settled(
                        old(ledger)@,
                        *request_id,
                        MpcRequestStatus::Failed,
                    )
                },
            },
        },
{
    admit_callback(
        config,
        &ctx.mpc_signer,
        ledger,
        request_id,
        &ctx.confidential_deposit.key,
        None,
    )?;
    match output {
        ComputationOutputs::Success(answer) => {
            if answer.success {
                ledger.complete(request_id)?;
                ctx.confidential_deposit.data.write(answer.new_balance, clock.slot);
                let transfer = TokenTransfer::from_vault(
                    ctx.user_vault,
                    ctx.user_token_account,
                    answer.amount,
                    "confidential_vault",
                    ctx.user.bytes.as_slice(),
                    ctx.confidential_deposit.data.bump,
                );
                Ok(CallbackOutcome::Applied { transfer: Some(transfer) })
            } else {
                ledger.fail(request_id)?;
                Ok(CallbackOutcome::Failed { reason: ErrorCode::InsufficientBalance })
            }
        },
        ComputationOutputs::Failure => {
            ledger.fail(request_id)?;
            Ok(CallbackOutcome::Failed { reason: ErrorCode::MpcComputationFailed })
        },
    }
}

/// Sets up a confidential pool: active, empty, with no participants.
pub fn create_confidential_group_pool(
    ctx: &mut CreateConfidentialGroupPool,
    group_id: String,
    group_name: String,
) -> (done: Result<(), ErrorCode>)
    ensures
        done is Ok,
        final(ctx).admin == old(ctx).admin,
        final(ctx).bump == old(ctx).bump,
        final(ctx).confidential_pool.key == old(ctx).confidential_pool.key,
        final(ctx).confidential_pool.data.admin == old(ctx).admin,
        final(ctx).confidential_pool.data.group_id@ == group_id@,
        final(ctx).confidential_pool.data.group_name@ == group_name@,
        final(ctx).confidential_pool.data.encrypted_total@ == zero_ciphertext(),
        final(ctx).confidential_pool.data.participant_count == 0,
        final(ctx).confidential_pool.data.is_active,
        !final(ctx).confidential_pool.data.meets_minimum_threshold,
        final(ctx).confidential_pool.data.bump == old(ctx).bump,
{
    let zero = [0u8; 32];
    assert(zero@ =~= zero_ciphertext());
    ctx.confidential_pool.data = ConfidentialGroupPool {
        admin: ctx.admin,
        group_id,
        group_name,
        encrypted_total: zero,
        participant_count: 0,
        is_active: true,
        meets_minimum_threshold: false,
        bump: ctx.bump,
    };
    Ok(())
}

/// Why a release into the pool is not queued, if it is not.
pub open spec fn release_to_group_refusal(
    ctx: ConfidentialReleaseToGroup,
    requests: Seq<MpcRequest>,
    transfer_amount: u64,
    statement: AuthorizationStatement,
    signature_verified: bool,
    clock: Clock,
) -> Option<ErrorCode> {
    if ctx.confidential_deposit.data.owner@ != ctx.user@ {
        Some(ErrorCode::Unauthorized)
    } else if transfer_amount == 0 {
        Some(ErrorCode::InvalidAmount)
    } else if !ctx.confidential_pool.data.is_active {
        Some(ErrorCode::PoolNotActive)
    } else if !authorizes(
        statement,
        subject_at(
            Operation::ConfidentialRelease,
            ctx.user,
            transfer_amount,
            Some(ctx.confidential_pool.data.group_id),
            clock,
        ),
        signature_verified,
    ) {
        Some(ErrorCode::Unauthorized)
    } else if !admits(
        requests,
        request_id_at(ctx.user, clock),
        ctx.confidential_deposit.key@,
        Some(ctx.confidential_pool.key),
    ) {
        Some(ErrorCode::RequestInFlight)
    } else {
        None
    }
}

/// Queues a transfer from a user's confidential balance into a pool. The
/// request is for both balances.
pub fn confidential_release_to_group(
    ctx: &ConfidentialReleaseToGroup,
    ledger: &mut RequestLedger,
    transfer_amount: u64,
    statement: &AuthorizationStatement,
    signature_verified: bool,
    clock: &Clock,
) -> (queued_up: Result<Queued, ErrorCode>)
    requires
        old(ledger).wf(),
    ensures
        final(ledger).wf(),
        extends(old(ledger)@, final(ledger)@),
        statement.time_bucket != bucket_of(clock.unix_timestamp) ==> queued_up is Err,
        match release_to_group_refusal(
            *ctx,
            old(ledger)@,
            transfer_amount,
            *statement,
            signature_verified,
            *clock,
        ) {
            Some(reason) => queued_up matches Err(e) && e == reason && final(ledger)@
                == old(ledger)@,
            None => queued_up matches Ok(q) && q.request == new_request(
                ctx.user,
                ctx.confidential_deposit.key,
                Some(ctx.confidential_pool.key),
                *clock,
                ctx.request_bump,
            ) && final(ledger)@ == old(ledger)@.push(q.request) && q.transfer is None
                && q.computation@ == queued(
                Circuit::TransferToPool,
                clock.slot,
                seq![
                    Argument::EncryptedU64(ctx.confidential_deposit.data.encrypted_balance),
                    Argument::EncryptedU64(ctx.confidential_pool.data.encrypted_total),
                    Argument::PlaintextU64(transfer_amount),
                ],
            ),
        },
{
    if !ctx.confidential_deposit.data.owner.same_as(&ctx.user) {
        return Err(ErrorCode::Unauthorized);
    }
    if transfer_amount == 0 {
        return Err(ErrorCode::InvalidAmount);
    }
    if !ctx.confidential_pool.data.is_active {
        return Err(ErrorCode::PoolNotActive);
    }
    let expected = ExpectedSubject {
        operation: Operation::ConfidentialRelease,
        actor: ctx.user,
        amount: transfer_amount,
        pool_id: Some(ctx.confidential_pool.data.group_id.clone()),
        time_bucket: time_bucket(clock.unix_timestamp),
    };
    verify_oracle_signature(statement, &expected, signature_verified)?;
    let request = ledger.open(
        ctx.user,
        ctx.confidential_deposit.key,
        Some(ctx.confidential_pool.key),
        clock.slot,
        ctx.request_bump,
    )?;
    let computation = QueuedComputation::new(
        Circuit::TransferToPool,
        clock.slot,
        transfer_args(
            ctx.confidential_deposit.data.read(),
            ctx.confidential_pool.data.read(),
            transfer_amount,
        ),
    );
    Ok(Queued { transfer: None, computation, request })
}

/// The arguments of a transfer circuit: the user's balance, the pool's total,
/// the amount.
fn transfer_args(user_balance: [u8; 32], pool_total: [u8; 32], amount: u64) -> (args: Vec<
    Argument,
>)
    ensures
        args@ == seq![
            Argument::EncryptedU64(user_balance),
            Argument::EncryptedU64(pool_total),
            Argument::PlaintextU64(amount),
        ],
{
    let mut args: Vec<Argument> = Vec::new();
    args.push(Argument::EncryptedU64(user_balance));
    args.push(Argument::EncryptedU64(pool_total));
    args.push(Argument::PlaintextU64(amount));
    assert(args@ =~= seq![
        Argument::EncryptedU64(user_balance),
        Argument::EncryptedU64(pool_total),
        Argument::PlaintextU64(amount),
    ]);
    args
}

/// The answer to a transfer that is to be written: one that reports success.
pub open spec fn accepted_transfer(output: ComputationOutputs<TransferOutput>) -> Option<
    TransferOutput,
> {
    match output {
        ComputationOutputs::Success(answer) => if answer.transfer_success {
            Some(answer)
        } else {
            None
        },
        ComputationOutputs::Failure => None,
    }
}

/// Why a transfer failed in the network: a fault, or a refusal.
pub open spec fn transfer_failure(output: ComputationOutputs<TransferOutput>) -> ErrorCode {
    match output {
        ComputationOutputs::Success(_) => ErrorCode::TransferFailed,
        ComputationOutputs::Failure => ErrorCode::MpcComputationFailed,
    }
}

/// Applies the network's answer to a transfer into a pool: both balances are
/// written, the pool counts one participant more, and the tokens follow.
///
/// A callback for a request that is not pending is turned away and changes
/// nothing.
pub fn confidential_transfer_to_pool_callback(
    ctx: &mut ConfidentialTransferCallback,
    ledger: &mut RequestLedger,
    config: &OrchestratorConfig,
    request_id: &RequestId,
    output: ComputationOutputs<TransferOutput>,
    clock: &Clock,
) -> (outcome: Result<CallbackOutcome, ErrorCode>)
    requires
        old(ledger).wf(),
        callback_refusal(
            *config,
            old(ctx).mpc_signer,
            old(ledger)@,
            *request_id,
            old(ctx).confidential_deposit.key@,
            Some(old(ctx).confidential_pool.key@),
        ) is None && accepted_transfer(output) is Some
            ==> old(ctx).confidential_pool.data.participant_count < u32::MAX,
    ensures
        final(ledger).wf(),
        extends(old(ledger)@, final(ledger)@),
        !pending(old(ledger)@, *request_id) ==> outcome is Err && *final(ctx) == *old(ctx)
            && final(ledger)@ == old(ledger)@,
        match callback_refusal(
            *config,
            old(ctx).mpc_signer,
            old(ledger)@,
            *request_id,
            old(ctx).confidential_deposit.key@,
            Some(old(ctx).confidential_pool.key@),
        ) {
            Some(reason) => outcome matches Err(e) && e == reason && *final(ctx) == *old(ctx)
                && final(ledger)@ == old(ledger)@,
            None => match accepted_transfer(output) {
                Some(answer) => {
                    &&& outcome matches Ok(CallbackOutcome::Applied { transfer: Some(t) }) && t@
                        == vault_transfer(
                        old(ctx).user_vault,
                        old(ctx).group_vault,
                        answer.amount,
                        confidential_vault_seed(),
                        old(ctx).user@,
                        old(ctx).confidential_deposit.data.bump,
                    )
                    &&& *final(ctx) == (ConfidentialTransferCallback {
                        confidential_deposit: Account {
                            key: old(ctx).confidential_deposit.key,
                            data: written_deposit(
                                old(ctx).confidential_deposit.data,
                                answer.new_user_balance,
                                clock.slot,
                            ),
                        },
                        confidential_pool: Account {
                            key: old(ctx).confidential_pool.key,
                            data: pool_joined(
                                old(ctx).confidential_pool.data,
                                answer.new_pool_balance,
                            ),
                        },
                        ..*old(ctx)
                    })
                    &&& final(ledger)@ == settled(
                        old(ledger)@,
                        *request_id,
                        MpcRequestStatus::Completed,
                    )
                },
                None => {
                    &&& outcome matches Ok(CallbackOutcome::Failed { reason }) && reason
                        == transfer_failure(output)
                    &&& *final(ctx) == *old(ctx)
                    &&& final(ledger)@ == settled(
                        old(ledger)@,
                        *request_id,
                        MpcRequestStatus::Failed,
                    )
                },
            },
        },
{
    admit_callback(
        config,
        &ctx.mpc_signer,
        ledger,
        request_id,
        &ctx.confidential_deposit.key,
        Some(&ctx.confidential_pool.key),
    )?;
    match output {
        ComputationOutputs::Success(answer) => {
            if answer.transfer_success {
                ledger.complete(request_id)?;
                ctx.confidential_deposit.data.write(answer.new_user_balance, clock.slot);
                ctx.confidential_pool.data.write(answer.new_pool_balance);
                ctx.confidential_pool.data.participant_count =
                    ctx.confidential_pool.data.participant_count + 1;
                let transfer = TokenTransfer::from_vault(
                    ctx.user_vault,
                    ctx.group_vault,
                    answer.amount,
                    "confidential_vault",
                    ctx.user.bytes.as_slice(),
                    ctx.confidential_deposit.data.bump,
                );
                Ok(CallbackOutcome::Applied { transfer: Some(transfer) })
            } else {
                ledger.fail(request_id)?;
                Ok(CallbackOutcome::Failed { reason: ErrorCode::TransferFailed })
            }
        },
        ComputationOutputs::Failure => {
            ledger.fail(request_id)?;
            Ok(CallbackOutcome::Failed { reason: ErrorCode::MpcComputationFailed })
        },
    }
}

/// Why a release out of the pool is not queued, if it is not.
pub open spec fn release_from_group_refusal(
    ctx: ConfidentialReleaseFromGroup,
    requests: Seq<MpcRequest>,
    transfer_amount: u64,
    statement: AuthorizationStatement,
    signature_verified: bool,
    clock: Clock,
) -> Option<ErrorCode> {
    if ctx.confidential_deposit.data.owner@ != ctx.user@ {
        Some(ErrorCode::Unauthorized)
    } else if transfer_amount == 0 {
        Some(ErrorCode::InvalidAmount)
    } else if !authorizes(
        statement,
        subject_at(
            Operation::ConfidentialReleaseFrom,
            ctx.user,
            transfer_amount,
            Some(ctx.confidential_pool.data.group_id),
            clock,
        ),
        signature_verified,
    ) {
        Some(ErrorCode::Unauthorized)
    } else if !admits(
        requests,
        request_id_at(ctx.user, clock),
        ctx.confidential_pool.key@,
        Some(ctx.confidential_deposit.key),
    ) {
        Some(ErrorCode::RequestInFlight)
    } else {
        None
    }
}

/// Queues a transfer from a pool back to a user's confidential balance. The
/// request is for both balances, the pool's first.
pub fn confidential_release_from_group(
    ctx: &ConfidentialReleaseFromGroup,
    ledger: &mut RequestLedger,
    transfer_amount: u64,
    statement: &AuthorizationStatement,
    signature_verified: bool,
    clock: &Clock,
) -> (queued_up: Result<Queued, ErrorCode>)
    requires
        old(ledger).wf(),
    ensures
        final(ledger).wf(),
        extends(old(ledger)@, final(ledger)@),
        statement.time_bucket != bucket_of(clock.unix_timestamp) ==> queued_up is Err,
        match release_from_group_refusal(
            *ctx,
            old(ledger)@,
            transfer_amount,
            *statement,
            signature_verified,
            *clock,
        ) {
            Some(reason) => queued_up matches Err(e) && e == reason && final(ledger)@
                == old(ledger)@,
            None => queued_up matches Ok(q) && q.request == new_request(
                ctx.user,
                ctx.confidential_pool.key,
                Some(ctx.confidential_deposit.key),
                *clock,
                ctx.request_bump,
            ) && final(ledger)@ == old(ledger)@.push(q.request) && q.transfer is None
                && q.computation@ == queued(
                Circuit::TransferFromPool,
                clock.slot,
                seq![
                    Argument::EncryptedU64(ctx.confidential_deposit.data.encrypted_balance),
                    Argument::EncryptedU64(ctx.confidential_pool.data.encrypted_total),
                    Argument::PlaintextU64(transfer_amount),
                ],
            ),
        },
{
    if !ctx.confidential_deposit.data.owner.same_as(&ctx.user) {
        return Err(ErrorCode::Unauthorized);
    }
    if transfer_amount == 0 {
        return Err(ErrorCode::InvalidAmount);
    }
    let expected = ExpectedSubject {
        operation: Operation::ConfidentialReleaseFrom,
        actor: ctx.user,
        amount: transfer_amount,
        pool_id: Some(ctx.confidential_pool.data.group_id.clone()),
        time_bucket: time_bucket(clock.unix_timestamp),
    };
    verify_oracle_signature(statement, &expected, signature_verified)?;
    let request = ledger.open(
        ctx.user,
        ctx.confidential_pool.key,
        Some(ctx.confidential_deposit.key),
        clock.slot,
        ctx.request_bump,
    )?;
    let computation = QueuedComputation::new(
        Circuit::TransferFromPool,
        clock.slot,
        transfer_args(
            ctx.confidential_deposit.data.read(),
            ctx.confidential_pool.data.read(),
            transfer_amount,
        ),
    );
    Ok(Queued { transfer: None, computation, request })
}

/// Applies the network's answer to a transfer out of a pool: both balances
/// are written and the tokens follow, from the pool's vault to the user's.
///
/// A callback for a request that is not pending is turned away and changes
/// nothing.
pub fn confidential_transfer_from_pool_callback(
    ctx: &mut ConfidentialTransferFromPoolCallback,
    ledger: &mut RequestLedger,
    config: &OrchestratorConfig,
    request_id: &RequestId,
    output: ComputationOutputs<TransferOutput>,
    clock: &Clock,
) -> (outcome: Result<CallbackOutcome, ErrorCode>)
    requires
        old(ledger).wf(),
    ensures
        final(ledger).wf(),
        extends(old(ledger)@, final(ledger)@),
        !pending(old(ledger)@, *request_id) ==> outcome is Err && *final(ctx) == *old(ctx)
            && final(ledger)@ == old(ledger)@,
        match callback_refusal(
            *config,
            old(ctx).mpc_signer,
            old(ledger)@,
            *request_id,
            old(ctx).confidential_pool.key@,
            Some(old(ctx).confidential_deposit.key@),
        ) {
            Some(reason) => outcome matches Err(e) && e == reason && *final(ctx) == *old(ctx)
                && final(ledger)@ == old(ledger)@,
            None => match accepted_transfer(output) {
                Some(answer) => {
                    &&& outcome matches Ok(CallbackOutcome::Applied { transfer: Some(t) }) && t@
                        == vault_transfer(
                        old(ctx).group_vault,
                        old(ctx).user_vault,
                        answer.amount,
                        confidential_group_vault_seed(),
                        vstd::utf8::encode_utf8(old(ctx).confidential_pool.data.group_id@),
                        old(ctx).confidential_pool.data.bump,
                    )
                    &&& *final(ctx) == (ConfidentialTransferFromPoolCallback {
                        confidential_deposit: Account {
                            key: old(ctx).confidential_deposit.key,
                            data: written_deposit(
                                old(ctx).confidential_deposit.data,
                                answer.new_user_balance,
                                clock.slot,
                            ),
                        },
                        confidential_pool: Account {
                            key: old(ctx).confidential_pool.key,
                            data: written_pool(
                                old(ctx).confidential_pool.data,
                                answer.new_pool_balance,
                            ),
                        },
                        ..*old(ctx)
                    })
                    &&& final(ledger)@ == settled(
                        old(ledger)@,
                        *request_id,
                        MpcRequestStatus::Completed,
                    )
                },
                None => {
                    &&& outcome matches Ok(CallbackOutcome::Failed { reason }) && reason
                        == transfer_failure(output)
                    &&& *final(ctx) == *old(ctx)
                    &&& final(ledger)@ == settled(
                        old(ledger)@,
                        *request_id,
                        MpcRequestStatus::Failed,
                    )
                },
            },
        },
{
    admit_callback(
        config,
        &ctx.mpc_signer,
        ledger,
        request_id,
        &ctx.confidential_pool.key,
        Some(&ctx.confidential_deposit.key),
    )?;
    match output {
        ComputationOutputs::Success(answer) => {
            if answer.transfer_success {
                ledger.complete(request_id)?;
                ctx.confidential_deposit.data.write(answer.new_user_balance, clock.slot);
                ctx.confidential_pool.data.write(answer.new_pool_balance);
                let transfer = TokenTransfer::from_vault(
                    ctx.group_vault,
                    ctx.user_vault,
                    answer.amount,
                    "confidential_group_vault",
                    ctx.confidential_pool.data.group_id.as_str().as_bytes(),
                    ctx.confidential_pool.data.bump,
                );
                Ok(CallbackOutcome::Applied { transfer: Some(transfer) })
            } else {
                ledger.fail(request_id)?;
                Ok(CallbackOutcome::Failed { reason: ErrorCode::TransferFailed })
            }
        },
        ComputationOutputs::Failure => {
            ledger.fail(request_id)?;
            Ok(CallbackOutcome::Failed { reason: ErrorCode::MpcComputationFailed })
        },
    }
}

/// A user's balance after an answer has been written to it: the new
/// ciphertext and the slot of the write, everything else as it was.
pub open spec fn written_deposit(
    before: ConfidentialUserDeposit,
    ciphertext: [u8; 32],
    slot: u64,
) -> ConfidentialUserDeposit {
    ConfidentialUserDeposit { encrypted_balance: ciphertext, last_update_slot: slot, ..before }
}

/// A pool after an answer has been written to it: the new ciphertext,
/// everything else as it was.
pub open spec fn written_pool(before: ConfidentialGroupPool, ciphertext: [u8; 32])
    -> ConfidentialGroupPool {
    ConfidentialGroupPool { encrypted_total: ciphertext, ..before }
}

/// A pool after a transfer into it has been applied: the new ciphertext and
/// one participant more, everything else as it was.
pub open spec fn pool_joined(before: ConfidentialGroupPool, ciphertext: [u8; 32])
    -> ConfidentialGroupPool {
    ConfidentialGroupPool {
        encrypted_total: ciphertext,
        participant_count: (before.participant_count + 1) as u32,
        ..before
    }
}

/// Whether two pools read the same to anyone: they agree in all but the
/// ciphertext of their total.
pub open spec fn same_in_the_open(first: ConfidentialGroupPool, second: ConfidentialGroupPool)
    -> bool {
    &&& first.admin == second.admin
    &&& first.group_id == second.group_id
    &&& first.group_name == second.group_name
    &&& first.participant_count == second.participant_count
    &&& first.is_active == second.is_active
    &&& first.meets_minimum_threshold == second.meets_minimum_threshold
    &&& first.bump == second.bump
}

/// Whether two balances read the same to anyone: they agree in all but the
/// ciphertext.
pub open spec fn same_balance_in_the_open(
    first: ConfidentialUserDeposit,
    second: ConfidentialUserDeposit,
) -> bool {
    &&& first.owner == second.owner
    &&& first.last_update_slot == second.last_update_slot
    &&& first.is_active == second.is_active
    &&& first.bump == second.bump
}

/// What an applied answer leaves in the open does not depend on the balances
/// it carries: two answers written to the same records leave them the same
/// to read, whatever their ciphertexts. Of a transfer into a pool only the
/// count of participants tells, which moves by one whatever the amount.
pub proof fn applied_answers_differ_in_ciphertexts_only(
    deposit: ConfidentialUserDeposit,
    pool: ConfidentialGroupPool,
    first: TransferOutput,
    second: TransferOutput,
    slot: u64,
)
    ensures
        same_balance_in_the_open(
            written_deposit(deposit, first.new_user_balance, slot),
            written_deposit(deposit, second.new_user_balance, slot),
        ),
        same_in_the_open(
            pool_joined(pool, first.new_pool_balance),
            pool_joined(pool, second.new_pool_balance),
        ),
        same_in_the_open(
            written_pool(pool, first.new_pool_balance),
            written_pool(pool, second.new_pool_balance),
        ),
        same_in_the_open(written_pool(pool, first.new_pool_balance), pool),
{
}

/// A deposit of any amount above zero into the user's own balance is queued
/// wherever the ledger admits the request, and so on every ledger without
/// records.
pub proof fn deposit_into_a_free_balance_is_queued(
    ctx: ConfidentialDeposit,
    requests: Seq<MpcRequest>,
    deposit_amount: u64,
    clock: Clock,
)
    requires
        ctx.confidential_deposit.data.owner@ == ctx.user@,
        deposit_amount > 0,
    ensures
        admits(requests, request_id_at(ctx.user, clock), ctx.confidential_deposit.key@, None)
            ==> deposit_refusal(ctx, requests, deposit_amount, clock) is None,
        requests.len() == 0 ==> deposit_refusal(ctx, requests, deposit_amount, clock) is None,
{
}

/// An authorized withdrawal from the user's own balance is queued wherever
/// the ledger admits the request, whatever the balance holds: queueing never
/// looks into the ciphertext.
pub proof fn withdrawal_is_queued_whatever_the_balance(
    ctx: ConfidentialWithdraw,
    requests: Seq<MpcRequest>,
    withdraw_amount: u64,
    statement: AuthorizationStatement,
    signature_verified: bool,
    clock: Clock,
    other_balance: [u8; 32],
)
    ensures
        withdraw_refusal(ctx, requests, withdraw_amount, statement, signature_verified, clock)
            == withdraw_refusal(
            ConfidentialWithdraw {
                confidential_deposit: Account {
                    key: ctx.confidential_deposit.key,
                    data: ConfidentialUserDeposit {
                        encrypted_balance: other_balance,
                        ..ctx.confidential_deposit.data
                    },
                },
                ..ctx
            },
            requests,
            withdraw_amount,
            statement,
            signature_verified,
            clock,
        ),
        ctx.confidential_deposit.data.owner@ == ctx.user@ && withdraw_amount > 0 && authorizes(
            statement,
            subject_at(Operation::ConfidentialWithdraw, ctx.user, withdraw_amount, None, clock),
            signature_verified,
        ) && admits(
            requests,
            request_id_at(ctx.user, clock),
            ctx.confidential_deposit.key@,
            None,
        ) ==> withdraw_refusal(
            ctx,
            requests,
            withdraw_amount,
            statement,
            signature_verified,
            clock,
        ) is None,
{
}

/// Fails the requests that have been pending for longer than the configured
/// number of slots, so that their targets can be queued for again. No balance
/// is touched.
pub fn sweep_stale_requests(ledger: &mut RequestLedger, config: &OrchestratorConfig, clock: &Clock)
    -> (expired: usize)
    requires
        old(ledger).wf(),
    ensures
        final(ledger).wf(),
        extends(old(ledger)@, final(ledger)@),
        final(ledger)@ == swept(old(ledger)@, clock.slot, config.request_timeout),
        expired == overdue_count(old(ledger)@, clock.slot, config.request_timeout),
{
    ledger.sweep_expired(clock.slot, config.request_timeout)
}

} // verus!
