use solcircle_arcium::auth::{AuthorizationStatement, ExpectedSubject, Operation};
use solcircle_arcium::computation::{Argument, Circuit, ComputationOutputs};
use solcircle_arcium::confidential::{
    admit_callback, confidential_deposit, confidential_deposit_callback,
    confidential_release_from_group, confidential_release_to_group,
    confidential_transfer_from_pool_callback, confidential_transfer_to_pool_callback,
    confidential_withdraw, confidential_withdraw_callback, create_confidential_group_pool,
    initialize_confidential_deposit, sweep_stale_requests, CallbackOutcome, ConfidentialDeposit,
    ConfidentialDepositCallback, ConfidentialReleaseFromGroup, ConfidentialReleaseToGroup,
    ConfidentialTransferCallback, ConfidentialTransferFromPoolCallback, ConfidentialWithdraw,
    ConfidentialWithdrawCallback, CreateConfidentialGroupPool, DepositOutput,
    InitializeConfidentialDeposit, OrchestratorConfig, TransferOutput, WithdrawOutput,
};
use solcircle_arcium::error::ErrorCode;
use solcircle_arcium::ledger::{RequestId, RequestLedger};
use solcircle_arcium::local_network::{
    run_deposit, run_transfer_from_pool, run_transfer_to_pool, run_withdrawal,
};
use solcircle_arcium::plain_codec::{deserialize_encrypted_balance, serialize_encrypted_balance};
use solcircle_arcium::pubkey::Pubkey;
use solcircle_arcium::state::{
    Account, Clock, ConfidentialGroupPool, ConfidentialUserDeposit, MpcRequest, MpcRequestStatus,
};
use solcircle_arcium::transfer::{SignerSeeds, TokenTransfer};

const USER: u8 = 1;
const DEPOSIT: u8 = 10;
const POOL: u8 = 20;
const USER_VAULT: u8 = 30;
const USER_TOKENS: u8 = 31;
const GROUP_VAULT: u8 = 32;
const NETWORK: u8 = 99;

fn conf_key(n: u8) -> Pubkey {
    Pubkey { bytes: [n; 32] }
}

fn conf_config() -> OrchestratorConfig {
    OrchestratorConfig { mpc_authority: conf_key(NETWORK), request_timeout: 100 }
}

fn at(slot: u64, unix_timestamp: i64) -> Clock {
    Clock { slot, unix_timestamp }
}

fn user_deposit(balance: u64) -> Account<ConfidentialUserDeposit> {
    Account {
        key: conf_key(DEPOSIT),
        data: ConfidentialUserDeposit {
            owner: conf_key(USER),
            encrypted_balance: serialize_encrypted_balance(balance),
            last_update_slot: 0,
            is_active: true,
            bump: 250,
        },
    }
}

fn pool_account(total: u64, participants: u32) -> Account<ConfidentialGroupPool> {
    Account {
        key: conf_key(POOL),
        data: ConfidentialGroupPool {
            admin: conf_key(2),
            group_id: String::from("circle-7"),
            group_name: String::from("Seven"),
            encrypted_total: serialize_encrypted_balance(total),
            participant_count: participants,
            is_active: true,
            meets_minimum_threshold: false,
            bump: 249,
        },
    }
}

fn signed_statement(
    operation: Operation,
    amount: u64,
    pool_id: Option<&str>,
    bucket: i64,
) -> AuthorizationStatement {
    let subject = ExpectedSubject {
        operation,
        actor: conf_key(USER),
        amount,
        pool_id: pool_id.map(String::from),
        time_bucket: bucket,
    };
    AuthorizationStatement {
        subject_message: subject.subject_message(),
        signature: [5u8; 64],
        time_bucket: bucket,
    }
}

fn deposit_ctx(balance: u64) -> ConfidentialDeposit {
    ConfidentialDeposit {
        confidential_deposit: user_deposit(balance),
        user_vault: conf_key(USER_VAULT),
        user_token_account: conf_key(USER_TOKENS),
        user: conf_key(USER),
        request_bump: 7,
    }
}

fn withdraw_ctx(balance: u64) -> ConfidentialWithdraw {
    ConfidentialWithdraw {
        confidential_deposit: user_deposit(balance),
        user_vault: conf_key(USER_VAULT),
        user_token_account: conf_key(USER_TOKENS),
        user: conf_key(USER),
        request_bump: 7,
    }
}

fn release_to_ctx(balance: u64, total: u64) -> ConfidentialReleaseToGroup {
    ConfidentialReleaseToGroup {
        confidential_deposit: user_deposit(balance),
        user_vault: conf_key(USER_VAULT),
        confidential_pool: pool_account(total, 0),
        group_vault: conf_key(GROUP_VAULT),
        user: conf_key(USER),
        request_bump: 7,
    }
}

fn release_from_ctx(balance: u64, total: u64) -> ConfidentialReleaseFromGroup {
    ConfidentialReleaseFromGroup {
        confidential_deposit: user_deposit(balance),
        user_vault: conf_key(USER_VAULT),
        confidential_pool: pool_account(total, 1),
        group_vault: conf_key(GROUP_VAULT),
        user: conf_key(USER),
        request_bump: 7,
    }
}

fn deposit_callback_ctx(deposit: Account<ConfidentialUserDeposit>) -> ConfidentialDepositCallback {
    ConfidentialDepositCallback { confidential_deposit: deposit, mpc_signer: conf_key(NETWORK) }
}

fn withdraw_callback_ctx(deposit: Account<ConfidentialUserDeposit>) -> ConfidentialWithdrawCallback {
    ConfidentialWithdrawCallback {
        confidential_deposit: deposit,
        user_vault: conf_key(USER_VAULT),
        user_token_account: conf_key(USER_TOKENS),
        user: conf_key(USER),
        mpc_signer: conf_key(NETWORK),
    }
}

fn to_pool_callback_ctx(balance: u64, total: u64, participants: u32) -> ConfidentialTransferCallback {
    ConfidentialTransferCallback {
        confidential_deposit: user_deposit(balance),
        user_vault: conf_key(USER_VAULT),
        confidential_pool: pool_account(total, participants),
        group_vault: conf_key(GROUP_VAULT),
        user: conf_key(USER),
        mpc_signer: conf_key(NETWORK),
    }
}

fn from_pool_callback_ctx(balance: u64, total: u64) -> ConfidentialTransferFromPoolCallback {
    ConfidentialTransferFromPoolCallback {
        confidential_deposit: user_deposit(balance),
        user_vault: conf_key(USER_VAULT),
        confidential_pool: pool_account(total, 1),
        group_vault: conf_key(GROUP_VAULT),
        user: conf_key(USER),
        mpc_signer: conf_key(NETWORK),
    }
}

fn request_of(slot: u64) -> RequestId {
    RequestId { requester: conf_key(USER), created_slot: slot }
}

fn status_of(ledger: &RequestLedger, slot: u64) -> MpcRequestStatus {
    ledger.get(&request_of(slot)).unwrap().status
}

#[test]
fn confidential_deposit_account_starts_at_zero() {
    let mut ctx = InitializeConfidentialDeposit {
        confidential_deposit: Account {
            key: conf_key(DEPOSIT),
            data: ConfidentialUserDeposit {
                owner: conf_key(0),
                encrypted_balance: [9u8; 32],
                last_update_slot: 0,
                is_active: false,
                bump: 0,
            },
        },
        user: conf_key(USER),
        bump: 250,
    };
    assert_eq!(initialize_confidential_deposit(&mut ctx, &at(12, 0)), Ok(()));
    assert_eq!(
        ctx.confidential_deposit.data,
        ConfidentialUserDeposit {
            owner: conf_key(USER),
            encrypted_balance: [0u8; 32],
            last_update_slot: 12,
            is_active: true,
            bump: 250,
        }
    );
    assert_eq!(ctx.confidential_deposit.key, conf_key(DEPOSIT));
    assert_eq!(deserialize_encrypted_balance(&ctx.confidential_deposit.data.encrypted_balance), Ok(0));
}

#[test]
fn confidential_pool_starts_empty() {
    let mut ctx = CreateConfidentialGroupPool {
        confidential_pool: pool_account(77, 3),
        admin: conf_key(2),
        bump: 249,
    };
    ctx.confidential_pool.data.is_active = false;
    ctx.confidential_pool.data.meets_minimum_threshold = true;
    let done =
        create_confidential_group_pool(&mut ctx, String::from("circle-8"), String::from("Eight"));
    assert_eq!(done, Ok(()));
    assert_eq!(
        ctx.confidential_pool.data,
        ConfidentialGroupPool {
            admin: conf_key(2),
            group_id: String::from("circle-8"),
            group_name: String::from("Eight"),
            encrypted_total: [0u8; 32],
            participant_count: 0,
            is_active: true,
            meets_minimum_threshold: false,
            bump: 249,
        }
    );
    assert_eq!(ctx.confidential_pool.key, conf_key(POOL));
}

#[test]
fn deposit_is_queued_with_the_stored_ciphertext() {
    let ctx = deposit_ctx(40);
    let mut ledger = RequestLedger::new();
    let queued = confidential_deposit(&ctx, &mut ledger, 500, &at(10, 0)).unwrap();
    let request = MpcRequest {
        requester: conf_key(USER),
        target_account: conf_key(DEPOSIT),
        second_target: None,
        status: MpcRequestStatus::Pending,
        created_slot: 10,
        bump: 7,
    };
    assert_eq!(queued.request, request);
    assert_eq!(ledger.records(), vec![request]);
    assert_eq!(
        queued.transfer,
        Some(TokenTransfer {
            from: conf_key(USER_TOKENS),
            to: conf_key(USER_VAULT),
            authority: conf_key(USER),
            amount: 500,
            signer: None,
        })
    );
    assert_eq!(queued.computation.circuit, Circuit::AddToBalance);
    assert_eq!(
        queued.computation.comp_def_offset,
        arcium_anchor::comp_def_offset("add_to_balance")
    );
    assert_eq!(queued.computation.computation_offset, 10);
    assert_eq!(
        queued.computation.args,
        vec![
            Argument::EncryptedU64(serialize_encrypted_balance(40)),
            Argument::PlaintextU64(500),
        ]
    );
}

#[test]
fn deposit_of_nothing_is_refused() {
    let mut ledger = RequestLedger::new();
    assert_eq!(
        confidential_deposit(&deposit_ctx(40), &mut ledger, 0, &at(10, 0)),
        Err(ErrorCode::InvalidAmount)
    );
    assert_eq!(ledger.len(), 0);
}

#[test]
fn deposit_into_another_users_account_is_refused() {
    let mut ctx = deposit_ctx(40);
    ctx.user = conf_key(2);
    let mut ledger = RequestLedger::new();
    assert_eq!(
        confidential_deposit(&ctx, &mut ledger, 500, &at(10, 0)),
        Err(ErrorCode::Unauthorized)
    );
    assert_eq!(confidential_deposit(&ctx, &mut ledger, 0, &at(10, 0)), Err(ErrorCode::Unauthorized));
    assert_eq!(ledger.len(), 0);
}

#[test]
fn second_request_for_a_busy_balance_is_refused() {
    let mut ledger = RequestLedger::new();
    confidential_deposit(&deposit_ctx(40), &mut ledger, 500, &at(10, 0)).unwrap();
    let before = ledger.records();
    assert_eq!(
        confidential_deposit(&deposit_ctx(40), &mut ledger, 1, &at(11, 0)),
        Err(ErrorCode::RequestInFlight)
    );
    let statement = signed_statement(Operation::ConfidentialWithdraw, 5, None, 0);
    assert_eq!(
        confidential_withdraw(&withdraw_ctx(40), &mut ledger, 5, &statement, true, &at(11, 0)),
        Err(ErrorCode::RequestInFlight)
    );
    let statement = signed_statement(Operation::ConfidentialRelease, 5, Some("circle-7"), 0);
    assert_eq!(
        confidential_release_to_group(
            &release_to_ctx(40, 0),
            &mut ledger,
            5,
            &statement,
            true,
            &at(11, 0)
        ),
        Err(ErrorCode::RequestInFlight)
    );
    assert_eq!(ledger.records(), before);
}

#[test]
fn deposit_callback_writes_the_new_ciphertext() {
    let mut ledger = RequestLedger::new();
    let queue_ctx = deposit_ctx(40);
    confidential_deposit(&queue_ctx, &mut ledger, 500, &at(10, 0)).unwrap();
    let mut ctx = deposit_callback_ctx(queue_ctx.confidential_deposit);
    let output =
        ComputationOutputs::Success(DepositOutput { new_balance: [0xaau8; 32], success: true });
    let outcome = confidential_deposit_callback(
        &mut ctx,
        &mut ledger,
        &conf_config(),
        &request_of(10),
        output,
        &at(14, 0),
    );
    assert_eq!(outcome, Ok(CallbackOutcome::Applied { transfer: None }));
    assert_eq!(ctx.confidential_deposit.data.encrypted_balance, [0xaau8; 32]);
    assert_eq!(ctx.confidential_deposit.data.last_update_slot, 14);
    assert_eq!(ctx.confidential_deposit.data.owner, conf_key(USER));
    assert_eq!(status_of(&ledger, 10), MpcRequestStatus::Completed);
}

#[test]
fn callback_from_another_signer_is_refused_and_the_request_stays_pending() {
    let mut ledger = RequestLedger::new();
    let queue_ctx = deposit_ctx(40);
    confidential_deposit(&queue_ctx, &mut ledger, 500, &at(10, 0)).unwrap();
    let mut ctx = deposit_callback_ctx(queue_ctx.confidential_deposit);
    ctx.mpc_signer = conf_key(USER);
    let before = (ctx.clone(), ledger.records());
    let output =
        ComputationOutputs::Success(DepositOutput { new_balance: [0xaau8; 32], success: true });
    let outcome = confidential_deposit_callback(
        &mut ctx,
        &mut ledger,
        &conf_config(),
        &request_of(10),
        output,
        &at(14, 0),
    );
    assert_eq!(outcome, Err(ErrorCode::InvalidMpcSigner));
    assert_eq!((ctx, ledger.records()), before);
    assert_eq!(status_of(&ledger, 10), MpcRequestStatus::Pending);
}

#[test]
fn callback_for_an_unknown_request_changes_nothing() {
    let mut ledger = RequestLedger::new();
    let queue_ctx = deposit_ctx(40);
    confidential_deposit(&queue_ctx, &mut ledger, 500, &at(10, 0)).unwrap();
    let mut ctx = deposit_callback_ctx(queue_ctx.confidential_deposit);
    let before = (ctx.clone(), ledger.records());
    let output =
        ComputationOutputs::Success(DepositOutput { new_balance: [0xaau8; 32], success: true });
    for id in [request_of(11), RequestId { requester: conf_key(2), created_slot: 10 }] {
        let outcome = confidential_deposit_callback(
            &mut ctx,
            &mut ledger,
            &conf_config(),
            &id,
            output,
            &at(14, 0),
        );
        assert_eq!(outcome, Err(ErrorCode::UnknownOrStaleRequest));
        assert_eq!((ctx.clone(), ledger.records()), before);
    }
}

#[test]
fn callback_for_a_settled_request_changes_nothing() {
    let mut ledger = RequestLedger::new();
    let queue_ctx = deposit_ctx(40);
    confidential_deposit(&queue_ctx, &mut ledger, 500, &at(10, 0)).unwrap();
    let mut ctx = deposit_callback_ctx(queue_ctx.confidential_deposit);
    let first =
        ComputationOutputs::Success(DepositOutput { new_balance: [0xaau8; 32], success: true });
    confidential_deposit_callback(
        &mut ctx,
        &mut ledger,
        &conf_config(),
        &request_of(10),
        first,
        &at(14, 0),
    )
    .unwrap();
    let before = (ctx.clone(), ledger.records());
    let replay =
        ComputationOutputs::Success(DepositOutput { new_balance: [0xbbu8; 32], success: true });
    let outcome = confidential_deposit_callback(
        &mut ctx,
        &mut ledger,
        &conf_config(),
        &request_of(10),
        replay,
        &at(15, 0),
    );
    assert_eq!(outcome, Err(ErrorCode::UnknownOrStaleRequest));
    assert_eq!((ctx.clone(), ledger.records()), before);

    let mut withdraw_ctx = withdraw_callback_ctx(ctx.confidential_deposit);
    let before = withdraw_ctx.clone();
    let outcome = confidential_withdraw_callback(
        &mut withdraw_ctx,
        &mut ledger,
        &conf_config(),
        &request_of(10),
        ComputationOutputs::Success(WithdrawOutput {
            new_balance: [0u8; 32],
            success: true,
            error_code: 0,
            amount: 1_000_000,
        }),
        &at(16, 0),
    );
    assert_eq!(outcome, Err(ErrorCode::UnknownOrStaleRequest));
    assert_eq!(withdraw_ctx, before);
}

#[test]
fn callback_for_other_accounts_than_were_queued_is_refused() {
    let mut ledger = RequestLedger::new();
    confidential_deposit(&deposit_ctx(40), &mut ledger, 500, &at(10, 0)).unwrap();
    let mut other = user_deposit(0);
    other.key = conf_key(11);
    let mut ctx = deposit_callback_ctx(other);
    let before = (ctx.clone(), ledger.records());
    let outcome = confidential_deposit_callback(
        &mut ctx,
        &mut ledger,
        &conf_config(),
        &request_of(10),
        ComputationOutputs::Success(DepositOutput { new_balance: [0xaau8; 32], success: true }),
        &at(14, 0),
    );
    assert_eq!(outcome, Err(ErrorCode::Unauthorized));
    assert_eq!((ctx, ledger.records()), before);

    // A deposit request does not admit a transfer callback on the same balance.
    let mut transfer_ctx = to_pool_callback_ctx(40, 0, 0);
    let outcome = confidential_transfer_to_pool_callback(
        &mut transfer_ctx,
        &mut ledger,
        &conf_config(),
        &request_of(10),
        ComputationOutputs::Failure,
        &at(14, 0),
    );
    assert_eq!(outcome, Err(ErrorCode::Unauthorized));
    assert_eq!(status_of(&ledger, 10), MpcRequestStatus::Pending);
}

#[test]
fn admit_callback_gives_the_first_reason_that_applies() {
    let mut ledger = RequestLedger::new();
    confidential_deposit(&deposit_ctx(40), &mut ledger, 500, &at(10, 0)).unwrap();
    let config = conf_config();
    let network = conf_key(NETWORK);
    assert_eq!(
        admit_callback(&config, &conf_key(USER), &ledger, &request_of(11), &conf_key(11), None),
        Err(ErrorCode::InvalidMpcSigner)
    );
    assert_eq!(
        admit_callback(&config, &network, &ledger, &request_of(11), &conf_key(11), None),
        Err(ErrorCode::UnknownOrStaleRequest)
    );
    assert_eq!(
        admit_callback(&config, &network, &ledger, &request_of(10), &conf_key(11), None),
        Err(ErrorCode::Unauthorized)
    );
    assert_eq!(
        admit_callback(
            &config,
            &network,
            &ledger,
            &request_of(10),
            &conf_key(DEPOSIT),
            Some(&conf_key(POOL))
        ),
        Err(ErrorCode::Unauthorized)
    );
    assert_eq!(
        admit_callback(&config, &network, &ledger, &request_of(10), &conf_key(DEPOSIT), None),
        Ok(())
    );
}

#[test]
fn deposit_fault_fails_the_request_and_keeps_the_balance() {
    for output in [
        ComputationOutputs::Failure,
        ComputationOutputs::Success(DepositOutput { new_balance: [0xaau8; 32], success: false }),
    ] {
        let mut ledger = RequestLedger::new();
        let queue_ctx = deposit_ctx(40);
        confidential_deposit(&queue_ctx, &mut ledger, 500, &at(10, 0)).unwrap();
        let mut ctx = deposit_callback_ctx(queue_ctx.confidential_deposit);
        let before = ctx.clone();
        let outcome = confidential_deposit_callback(
            &mut ctx,
            &mut ledger,
            &conf_config(),
            &request_of(10),
            output,
            &at(14, 0),
        );
        assert_eq!(
            outcome,
            Ok(CallbackOutcome::Failed { reason: ErrorCode::MpcComputationFailed })
        );
        assert_eq!(ctx, before);
        assert_eq!(status_of(&ledger, 10), MpcRequestStatus::Failed);
    }
}

#[test]
fn withdraw_is_queued_once_authorized() {
    let ctx = withdraw_ctx(900);
    let mut ledger = RequestLedger::new();
    let statement = signed_statement(Operation::ConfidentialWithdraw, 600, None, 17);
    let queued =
        confidential_withdraw(&ctx, &mut ledger, 600, &statement, true, &at(11, 17 * 300 + 5))
            .unwrap();
    assert_eq!(queued.transfer, None);
    assert_eq!(queued.request.target_account, conf_key(DEPOSIT));
    assert_eq!(queued.request.second_target, None);
    assert_eq!(queued.request.created_slot, 11);
    assert_eq!(queued.computation.circuit, Circuit::SubtractFromBalance);
    assert_eq!(
        queued.computation.args,
        vec![
            Argument::EncryptedU64(serialize_encrypted_balance(900)),
            Argument::PlaintextU64(600),
        ]
    );
    assert_eq!(ledger.records(), vec![queued.request]);
}

#[test]
fn withdraw_is_refused_without_a_good_statement() {
    let ctx = withdraw_ctx(900);
    let now = at(11, 17 * 300 + 5);
    let good = signed_statement(Operation::ConfidentialWithdraw, 600, None, 17);
    let mut ledger = RequestLedger::new();
    // Signature does not verify.
    assert_eq!(
        confidential_withdraw(&ctx, &mut ledger, 600, &good, false, &now),
        Err(ErrorCode::Unauthorized)
    );
    // Signed for another amount.
    assert_eq!(
        confidential_withdraw(&ctx, &mut ledger, 601, &good, true, &now),
        Err(ErrorCode::Unauthorized)
    );
    // Signed for another operation.
    let other = signed_statement(Operation::Withdraw, 600, None, 17);
    assert_eq!(
        confidential_withdraw(&ctx, &mut ledger, 600, &other, true, &now),
        Err(ErrorCode::Unauthorized)
    );
    assert_eq!(
        confidential_withdraw(&ctx, &mut ledger, 0, &good, true, &now),
        Err(ErrorCode::InvalidAmount)
    );
    assert_eq!(ledger.len(), 0);
}

#[test]
fn withdraw_with_a_statement_from_another_bucket_is_refused() {
    let ctx = withdraw_ctx(900);
    let statement = signed_statement(Operation::ConfidentialWithdraw, 600, None, 17);
    let mut ledger = RequestLedger::new();
    for unix_timestamp in [18 * 300, 16 * 300 + 299, 0, -1] {
        assert_eq!(
            confidential_withdraw(&ctx, &mut ledger, 600, &statement, true, &at(11, unix_timestamp)),
            Err(ErrorCode::Unauthorized)
        );
    }
    assert_eq!(ledger.len(), 0);
    assert!(
        confidential_withdraw(&ctx, &mut ledger, 600, &statement, true, &at(11, 17 * 300 + 299))
            .is_ok()
    );
}

#[test]
fn withdraw_callback_releases_the_amount_of_the_answer() {
    let mut ledger = RequestLedger::new();
    let queue_ctx = withdraw_ctx(900);
    let statement = signed_statement(Operation::ConfidentialWithdraw, 600, None, 17);
    confidential_withdraw(&queue_ctx, &mut ledger, 600, &statement, true, &at(11, 17 * 300))
        .unwrap();
    let mut ctx = withdraw_callback_ctx(queue_ctx.confidential_deposit);
    let outcome = confidential_withdraw_callback(
        &mut ctx,
        &mut ledger,
        &conf_config(),
        &request_of(11),
        ComputationOutputs::Success(WithdrawOutput {
            new_balance: [0xccu8; 32],
            success: true,
            error_code: 0,
            amount: 600,
        }),
        &at(13, 17 * 300),
    );
    assert_eq!(
        outcome,
        Ok(CallbackOutcome::Applied {
            transfer: Some(TokenTransfer {
                from: conf_key(USER_VAULT),
                to: conf_key(USER_TOKENS),
                authority: conf_key(USER_VAULT),
                amount: 600,
                signer: Some(SignerSeeds {
                    prefix: b"confidential_vault".to_vec(),
                    id: vec![USER; 32],
                    bump: 250,
                }),
            })
        })
    );
    assert_eq!(ctx.confidential_deposit.data.encrypted_balance, [0xccu8; 32]);
    assert_eq!(ctx.confidential_deposit.data.last_update_slot, 13);
    assert_eq!(status_of(&ledger, 11), MpcRequestStatus::Completed);
}

#[test]
fn withdraw_refused_by_the_network_fails_the_request() {
    let cases = [
        (
            ComputationOutputs::Success(WithdrawOutput {
                new_balance: [0xccu8; 32],
                success: false,
                error_code: 1,
                amount: 600,
            }),
            ErrorCode::InsufficientBalance,
        ),
        (ComputationOutputs::Failure, ErrorCode::MpcComputationFailed),
    ];
    for (output, reason) in cases {
        let mut ledger = RequestLedger::new();
        let queue_ctx = withdraw_ctx(500);
        let statement = signed_statement(Operation::ConfidentialWithdraw, 600, None, 17);
        confidential_withdraw(&queue_ctx, &mut ledger, 600, &statement, true, &at(11, 17 * 300))
            .unwrap();
        let mut ctx = withdraw_callback_ctx(queue_ctx.confidential_deposit);
        let before = ctx.clone();
        let outcome = confidential_withdraw_callback(
            &mut ctx,
            &mut ledger,
            &conf_config(),
            &request_of(11),
            output,
            &at(13, 17 * 300),
        );
        assert_eq!(outcome, Ok(CallbackOutcome::Failed { reason }));
        assert_eq!(ctx, before);
        assert_eq!(status_of(&ledger, 11), MpcRequestStatus::Failed);
    }
}

#[test]
fn release_to_group_is_queued_for_both_balances() {
    let ctx = release_to_ctx(900, 100);
    let mut ledger = RequestLedger::new();
    let statement = signed_statement(Operation::ConfidentialRelease, 250, Some("circle-7"), 17);
    let queued =
        confidential_release_to_group(&ctx, &mut ledger, 250, &statement, true, &at(12, 17 * 300))
            .unwrap();
    assert_eq!(queued.transfer, None);
    assert_eq!(queued.request.target_account, conf_key(DEPOSIT));
    assert_eq!(queued.request.second_target, Some(conf_key(POOL)));
    assert_eq!(queued.computation.circuit, Circuit::TransferToPool);
    assert_eq!(
        queued.computation.args,
        vec![
            Argument::EncryptedU64(serialize_encrypted_balance(900)),
            Argument::EncryptedU64(serialize_encrypted_balance(100)),
            Argument::PlaintextU64(250),
        ]
    );
    assert!(ledger.has_pending_for(&conf_key(DEPOSIT)));
    assert!(ledger.has_pending_for(&conf_key(POOL)));
}

#[test]
fn release_to_group_checks_amount_pool_and_statement() {
    let now = at(12, 17 * 300);
    let statement = signed_statement(Operation::ConfidentialRelease, 250, Some("circle-7"), 17);
    let mut ledger = RequestLedger::new();
    let ctx = release_to_ctx(900, 100);
    assert_eq!(
        confidential_release_to_group(&ctx, &mut ledger, 0, &statement, true, &now),
        Err(ErrorCode::InvalidAmount)
    );
    let mut inactive = release_to_ctx(900, 100);
    inactive.confidential_pool.data.is_active = false;
    assert_eq!(
        confidential_release_to_group(&inactive, &mut ledger, 250, &statement, true, &now),
        Err(ErrorCode::PoolNotActive)
    );
    // A statement for another pool.
    let other = signed_statement(Operation::ConfidentialRelease, 250, Some("circle-8"), 17);
    assert_eq!(
        confidential_release_to_group(&ctx, &mut ledger, 250, &other, true, &now),
        Err(ErrorCode::Unauthorized)
    );
    // A statement without a pool.
    let none = signed_statement(Operation::ConfidentialRelease, 250, None, 17);
    assert_eq!(
        confidential_release_to_group(&ctx, &mut ledger, 250, &none, true, &now),
        Err(ErrorCode::Unauthorized)
    );
    // A statement from the bucket before.
    let stale = signed_statement(Operation::ConfidentialRelease, 250, Some("circle-7"), 16);
    assert_eq!(
        confidential_release_to_group(&ctx, &mut ledger, 250, &stale, true, &now),
        Err(ErrorCode::Unauthorized)
    );
    assert_eq!(ledger.len(), 0);
}

#[test]
fn transfer_to_pool_callback_writes_both_and_counts_the_participant() {
    let mut ledger = RequestLedger::new();
    let statement = signed_statement(Operation::ConfidentialRelease, 250, Some("circle-7"), 17);
    confidential_release_to_group(
        &release_to_ctx(900, 100),
        &mut ledger,
        250,
        &statement,
        true,
        &at(12, 17 * 300),
    )
    .unwrap();
    let mut ctx = to_pool_callback_ctx(900, 100, 4);
    let outcome = confidential_transfer_to_pool_callback(
        &mut ctx,
        &mut ledger,
        &conf_config(),
        &request_of(12),
        ComputationOutputs::Success(TransferOutput {
            new_user_balance: [0x11u8; 32],
            new_pool_balance: [0x22u8; 32],
            transfer_success: true,
            amount: 250,
        }),
        &at(15, 17 * 300),
    );
    assert_eq!(
        outcome,
        Ok(CallbackOutcome::Applied {
            transfer: Some(TokenTransfer {
                from: conf_key(USER_VAULT),
                to: conf_key(GROUP_VAULT),
                authority: conf_key(USER_VAULT),
                amount: 250,
                signer: Some(SignerSeeds {
                    prefix: b"confidential_vault".to_vec(),
                    id: vec![USER; 32],
                    bump: 250,
                }),
            })
        })
    );
    assert_eq!(ctx.confidential_deposit.data.encrypted_balance, [0x11u8; 32]);
    assert_eq!(ctx.confidential_deposit.data.last_update_slot, 15);
    assert_eq!(ctx.confidential_pool.data.encrypted_total, [0x22u8; 32]);
    assert_eq!(ctx.confidential_pool.data.participant_count, 5);
    assert_eq!(ctx.confidential_pool.data.group_id, "circle-7");
    assert_eq!(status_of(&ledger, 12), MpcRequestStatus::Completed);
    assert!(!ledger.has_pending_for(&conf_key(POOL)));
}

#[test]
fn transfer_declined_by_the_network_fails_the_request() {
    let cases = [
        (
            ComputationOutputs::Success(TransferOutput {
                new_user_balance: [0x11u8; 32],
                new_pool_balance: [0x22u8; 32],
                transfer_success: false,
                amount: 250,
            }),
            ErrorCode::TransferFailed,
        ),
        (ComputationOutputs::Failure, ErrorCode::MpcComputationFailed),
    ];
    for (output, reason) in cases {
        let mut ledger = RequestLedger::new();
        let statement = signed_statement(Operation::ConfidentialRelease, 250, Some("circle-7"), 17);
        confidential_release_to_group(
            &release_to_ctx(900, 100),
            &mut ledger,
            250,
            &statement,
            true,
            &at(12, 17 * 300),
        )
        .unwrap();
        let mut ctx = to_pool_callback_ctx(900, 100, 4);
        let before = ctx.clone();
        let outcome = confidential_transfer_to_pool_callback(
            &mut ctx,
            &mut ledger,
            &conf_config(),
            &request_of(12),
            output,
            &at(15, 17 * 300),
        );
        assert_eq!(outcome, Ok(CallbackOutcome::Failed { reason }));
        assert_eq!(ctx, before);
        assert_eq!(status_of(&ledger, 12), MpcRequestStatus::Failed);
    }
}

#[test]
fn release_from_group_is_queued_for_the_pool_first() {
    let ctx = release_from_ctx(5, 1_000);
    let mut ledger = RequestLedger::new();
    let statement = signed_statement(Operation::ConfidentialReleaseFrom, 400, Some("circle-7"), 17);
    let queued =
        confidential_release_from_group(&ctx, &mut ledger, 400, &statement, true, &at(13, 17 * 300))
            .unwrap();
    assert_eq!(queued.request.target_account, conf_key(POOL));
    assert_eq!(queued.request.second_target, Some(conf_key(DEPOSIT)));
    assert_eq!(queued.computation.circuit, Circuit::TransferFromPool);
    assert_eq!(
        queued.computation.args,
        vec![
            Argument::EncryptedU64(serialize_encrypted_balance(5)),
            Argument::EncryptedU64(serialize_encrypted_balance(1_000)),
            Argument::PlaintextU64(400),
        ]
    );
    assert_eq!(
        confidential_release_from_group(&ctx, &mut ledger, 0, &statement, true, &at(14, 17 * 300)),
        Err(ErrorCode::InvalidAmount)
    );
    let to_group = signed_statement(Operation::ConfidentialRelease, 400, Some("circle-7"), 17);
    assert_eq!(
        confidential_release_from_group(&ctx, &mut ledger, 400, &to_group, true, &at(14, 17 * 300)),
        Err(ErrorCode::Unauthorized)
    );
}

#[test]
fn transfer_from_pool_callback_pays_out_of_the_pools_vault() {
    let mut ledger = RequestLedger::new();
    let statement = signed_statement(Operation::ConfidentialReleaseFrom, 400, Some("circle-7"), 17);
    confidential_release_from_group(
        &release_from_ctx(5, 1_000),
        &mut ledger,
        400,
        &statement,
        true,
        &at(13, 17 * 300),
    )
    .unwrap();
    let mut ctx = from_pool_callback_ctx(5, 1_000);
    let outcome = confidential_transfer_from_pool_callback(
        &mut ctx,
        &mut ledger,
        &conf_config(),
        &request_of(13),
        ComputationOutputs::Success(TransferOutput {
            new_user_balance: [0x33u8; 32],
            new_pool_balance: [0x44u8; 32],
            transfer_success: true,
            amount: 400,
        }),
        &at(16, 17 * 300),
    );
    assert_eq!(
        outcome,
        Ok(CallbackOutcome::Applied {
            transfer: Some(TokenTransfer {
                from: conf_key(GROUP_VAULT),
                to: conf_key(USER_VAULT),
                authority: conf_key(GROUP_VAULT),
                amount: 400,
                signer: Some(SignerSeeds {
                    prefix: b"confidential_group_vault".to_vec(),
                    id: b"circle-7".to_vec(),
                    bump: 249,
                }),
            })
        })
    );
    assert_eq!(ctx.confidential_deposit.data.encrypted_balance, [0x33u8; 32]);
    assert_eq!(ctx.confidential_pool.data.encrypted_total, [0x44u8; 32]);
    assert_eq!(ctx.confidential_pool.data.participant_count, 1);
    assert_eq!(status_of(&ledger, 13), MpcRequestStatus::Completed);

    // A to-pool callback does not fit a from-pool request.
    let mut ledger = RequestLedger::new();
    confidential_release_from_group(
        &release_from_ctx(5, 1_000),
        &mut ledger,
        400,
        &statement,
        true,
        &at(13, 17 * 300),
    )
    .unwrap();
    let mut wrong = to_pool_callback_ctx(5, 1_000, 1);
    assert_eq!(
        confidential_transfer_to_pool_callback(
            &mut wrong,
            &mut ledger,
            &conf_config(),
            &request_of(13),
            ComputationOutputs::Failure,
            &at(16, 17 * 300),
        ),
        Err(ErrorCode::Unauthorized)
    );
}

#[test]
fn stale_requests_are_swept_after_the_configured_time() {
    let mut ledger = RequestLedger::new();
    confidential_deposit(&deposit_ctx(40), &mut ledger, 500, &at(10, 0)).unwrap();
    let config = conf_config();
    assert_eq!(sweep_stale_requests(&mut ledger, &config, &at(110, 0)), 0);
    assert_eq!(status_of(&ledger, 10), MpcRequestStatus::Pending);
    assert_eq!(sweep_stale_requests(&mut ledger, &config, &at(111, 0)), 1);
    assert_eq!(status_of(&ledger, 10), MpcRequestStatus::Failed);
    // The late answer is turned away, and the balance can be queued for again.
    let mut ctx = deposit_callback_ctx(user_deposit(40));
    let before = ctx.clone();
    assert_eq!(
        confidential_deposit_callback(
            &mut ctx,
            &mut ledger,
            &config,
            &request_of(10),
            ComputationOutputs::Success(DepositOutput { new_balance: [1u8; 32], success: true }),
            &at(112, 0),
        ),
        Err(ErrorCode::UnknownOrStaleRequest)
    );
    assert_eq!(ctx, before);
    assert!(confidential_deposit(&deposit_ctx(40), &mut ledger, 500, &at(112, 0)).is_ok());
}

#[test]
fn local_network_answers_as_the_circuits_do() {
    let slot = serialize_encrypted_balance(500);
    assert_eq!(
        run_deposit(&slot, 25),
        ComputationOutputs::Success(DepositOutput {
            new_balance: serialize_encrypted_balance(525),
            success: true,
        })
    );
    assert_eq!(run_deposit(&serialize_encrypted_balance(u64::MAX), 1), ComputationOutputs::Failure);
    assert_eq!(
        run_withdrawal(&slot, 500),
        ComputationOutputs::Success(WithdrawOutput {
            new_balance: serialize_encrypted_balance(0),
            success: true,
            error_code: 0,
            amount: 500,
        })
    );
    assert_eq!(
        run_withdrawal(&slot, 501),
        ComputationOutputs::Success(WithdrawOutput {
            new_balance: slot,
            success: false,
            error_code: 1,
            amount: 0,
        })
    );
    let pool = serialize_encrypted_balance(100);
    assert_eq!(
        run_transfer_to_pool(&slot, &pool, 200),
        ComputationOutputs::Success(TransferOutput {
            new_user_balance: serialize_encrypted_balance(300),
            new_pool_balance: serialize_encrypted_balance(300),
            transfer_success: true,
            amount: 200,
        })
    );
    assert_eq!(
        run_transfer_from_pool(&slot, &pool, 200),
        ComputationOutputs::Success(TransferOutput {
            new_user_balance: slot,
            new_pool_balance: pool,
            transfer_success: false,
            amount: 0,
        })
    );
    assert_eq!(
        run_transfer_from_pool(&slot, &pool, 100),
        ComputationOutputs::Success(TransferOutput {
            new_user_balance: serialize_encrypted_balance(600),
            new_pool_balance: serialize_encrypted_balance(0),
            transfer_success: true,
            amount: 100,
        })
    );
    assert_eq!(
        run_transfer_to_pool(&slot, &serialize_encrypted_balance(u64::MAX), 1),
        ComputationOutputs::Failure
    );
}

#[test]
fn deposit_then_overdrawn_withdrawal_end_to_end() {
    let config = conf_config();
    let mut ledger = RequestLedger::new();

    // A user with a balance of zero.
    let mut init = InitializeConfidentialDeposit {
        confidential_deposit: user_deposit(123),
        user: conf_key(USER),
        bump: 250,
    };
    initialize_confidential_deposit(&mut init, &at(1, 0)).unwrap();
    let mut account = init.confidential_deposit;
    assert_eq!(deserialize_encrypted_balance(&account.data.read()), Ok(0));

    // Deposit 500: queued, answered, applied.
    let queue_ctx = ConfidentialDeposit { confidential_deposit: account.clone(), ..deposit_ctx(0) };
    let queued = confidential_deposit(&queue_ctx, &mut ledger, 500, &at(10, 3_000)).unwrap();
    let answer = match (&queued.computation.args[0], &queued.computation.args[1]) {
        (Argument::EncryptedU64(balance), Argument::PlaintextU64(amount)) => {
            run_deposit(balance, *amount)
        }
        _ => unreachable!(),
    };
    let mut callback = deposit_callback_ctx(account.clone());
    let outcome = confidential_deposit_callback(
        &mut callback,
        &mut ledger,
        &config,
        &queued.request.id(),
        answer,
        &at(12, 3_010),
    );
    assert_eq!(outcome, Ok(CallbackOutcome::Applied { transfer: None }));
    account = callback.confidential_deposit;
    assert_eq!(deserialize_encrypted_balance(&account.data.read()), Ok(500));
    assert_eq!(status_of(&ledger, 10), MpcRequestStatus::Completed);

    // Withdraw 600: queued, refused by the network, balance as it was.
    let queue_ctx = ConfidentialWithdraw { confidential_deposit: account.clone(), ..withdraw_ctx(0) };
    let statement = signed_statement(Operation::ConfidentialWithdraw, 600, None, 10);
    let queued =
        confidential_withdraw(&queue_ctx, &mut ledger, 600, &statement, true, &at(20, 3_020))
            .unwrap();
    let answer = match (&queued.computation.args[0], &queued.computation.args[1]) {
        (Argument::EncryptedU64(balance), Argument::PlaintextU64(amount)) => {
            run_withdrawal(balance, *amount)
        }
        _ => unreachable!(),
    };
    match answer {
        ComputationOutputs::Success(output) => {
            assert!(!output.success);
            assert_eq!(output.error_code, 1);
        }
        ComputationOutputs::Failure => panic!("a refusal is an answer, not a fault"),
    }
    let mut callback = withdraw_callback_ctx(account.clone());
    let outcome = confidential_withdraw_callback(
        &mut callback,
        &mut ledger,
        &config,
        &queued.request.id(),
        answer,
        &at(22, 3_030),
    );
    assert_eq!(outcome, Ok(CallbackOutcome::Failed { reason: ErrorCode::InsufficientBalance }));
    assert_eq!(callback.confidential_deposit, account);
    assert_eq!(deserialize_encrypted_balance(&callback.confidential_deposit.data.read()), Ok(500));
    assert_eq!(status_of(&ledger, 20), MpcRequestStatus::Failed);
}

#[test]
fn transfer_callback_on_a_full_pool_is_still_refused_or_failed_untouched() {
    let statement = signed_statement(Operation::ConfidentialRelease, 250, Some("circle-7"), 17);
    let accepted = ComputationOutputs::Success(TransferOutput {
        new_user_balance: [0x11u8; 32],
        new_pool_balance: [0x22u8; 32],
        transfer_success: true,
        amount: 250,
    });
    let declined = ComputationOutputs::Success(TransferOutput {
        new_user_balance: [0x11u8; 32],
        new_pool_balance: [0x22u8; 32],
        transfer_success: false,
        amount: 250,
    });

    // Another signer: refused, request still pending.
    let mut ledger = RequestLedger::new();
    confidential_release_to_group(
        &release_to_ctx(900, 100),
        &mut ledger,
        250,
        &statement,
        true,
        &at(12, 17 * 300),
    )
    .unwrap();
    let mut ctx = to_pool_callback_ctx(900, 100, u32::MAX);
    ctx.mpc_signer = conf_key(USER);
    let before = (ctx.clone(), ledger.records());
    assert_eq!(
        confidential_transfer_to_pool_callback(
            &mut ctx,
            &mut ledger,
            &conf_config(),
            &request_of(12),
            accepted,
            &at(15, 17 * 300),
        ),
        Err(ErrorCode::InvalidMpcSigner)
    );
    assert_eq!((ctx.clone(), ledger.records()), before);
    assert_eq!(status_of(&ledger, 12), MpcRequestStatus::Pending);

    // An unknown request: refused.
    ctx.mpc_signer = conf_key(NETWORK);
    let before = (ctx.clone(), ledger.records());
    assert_eq!(
        confidential_transfer_to_pool_callback(
            &mut ctx,
            &mut ledger,
            &conf_config(),
            &request_of(13),
            accepted,
            &at(15, 17 * 300),
        ),
        Err(ErrorCode::UnknownOrStaleRequest)
    );
    assert_eq!((ctx.clone(), ledger.records()), before);

    // A declined answer: failed, accounts and count untouched.
    let untouched = ctx.clone();
    assert_eq!(
        confidential_transfer_to_pool_callback(
            &mut ctx,
            &mut ledger,
            &conf_config(),
            &request_of(12),
            declined,
            &at(15, 17 * 300),
        ),
        Ok(CallbackOutcome::Failed { reason: ErrorCode::TransferFailed })
    );
    assert_eq!(ctx, untouched);
    assert_eq!(ctx.confidential_pool.data.participant_count, u32::MAX);
    assert_eq!(status_of(&ledger, 12), MpcRequestStatus::Failed);

    // The settled request: refused.
    assert_eq!(
        confidential_transfer_to_pool_callback(
            &mut ctx,
            &mut ledger,
            &conf_config(),
            &request_of(12),
            accepted,
            &at(16, 17 * 300),
        ),
        Err(ErrorCode::UnknownOrStaleRequest)
    );
    assert_eq!(ctx, untouched);
}
