//! A network of one, without secrets.
//!
//! It answers a queued computation the way the real network does, except
//! that its "ciphertexts" are the plain slots of `plain_codec`: it decodes
//! the inputs, evaluates the circuit and encodes the result. It is meant for
//! tests and for running the instructions end to end on a developer's
//! machine.

use vstd::prelude::*;
use crate::circuits::{
    add_to_balance, confidential_transfer_from_pool, confidential_transfer_to_pool,
    deposit_policy, subtract_from_balance, transfer_from_pool_policy, transfer_to_pool_policy,
    withdraw_policy, DepositInput, TransferInput, TransferResult, WithdrawInput,
};
use crate::computation::ComputationOutputs;
use crate::confidential::{DepositOutput, TransferOutput, WithdrawOutput};
use crate::plain_codec::{
    decode_undoes_encode, decoded_balance, deserialize_encrypted_balance, encoded_balance,
    serialize_encrypted_balance,
};

verus! {

/// Whether `out` is the answer to a deposit of `amount` on the balance in
/// `slot`.
pub open spec fn answers_deposit(slot: Seq<u8>, amount: u64, out: ComputationOutputs<DepositOutput>)
    -> bool {
    match deposit_policy(
        DepositInput { current_balance: decoded_balance(slot), deposit_amount: amount },
    ) {
        ComputationOutputs::Success(result) => out matches ComputationOutputs::Success(answer)
            && answer.new_balance@ == encoded_balance(result.new_balance) && answer.success
            == result.success,
        ComputationOutputs::Failure => out is Failure,
    }
}

/// Answers a deposit of `amount` on the balance in `balance`.
pub fn run_deposit(balance: &[u8; 32], amount: u64) -> (out: ComputationOutputs<DepositOutput>)
    ensures
        answers_deposit(balance@, amount, out),
        out matches ComputationOutputs::Success(answer) ==> answer.success && decoded_balance(
            answer.new_balance@,
        ) == decoded_balance(balance@) + amount,
{
    proof {
        if decoded_balance(balance@) + amount <= u64::MAX {
            decode_undoes_encode((decoded_balance(balance@) + amount) as u64);
        }
    }
    let current_balance = match deserialize_encrypted_balance(balance) {
        Ok(value) => value,
        Err(_) => {
            return ComputationOutputs::Failure;
        },
    };
    match add_to_balance(DepositInput { current_balance, deposit_amount: amount }) {
        ComputationOutputs::Success(result) => ComputationOutputs::Success(
            DepositOutput {
                new_balance: serialize_encrypted_balance(result.new_balance),
                success: result.success,
            },
        ),
        ComputationOutputs::Failure => ComputationOutputs::Failure,
    }
}

/// Whether `out` is the answer to a withdrawal of `amount` from the balance
/// in `slot`. The answer names the amount where the withdrawal goes through,
/// and zero where it does not.
pub open spec fn answers_withdrawal(
    slot: Seq<u8>,
    amount: u64,
    out: ComputationOutputs<WithdrawOutput>,
) -> bool {
    let result = withdraw_policy(
        WithdrawInput { current_balance: decoded_balance(slot), withdraw_amount: amount },
    );
    out matches ComputationOutputs::Success(answer) && answer.new_balance@ == encoded_balance(
        result.new_balance,
    ) && answer.success == result.success && answer.error_code == result.error_code
        && answer.amount == if result.success {
        amount
    } else {
        0
    }
}

/// Answers a withdrawal of `amount` from the balance in `balance`.
pub fn run_withdrawal(balance: &[u8; 32], amount: u64) -> (out: ComputationOutputs<WithdrawOutput>)
    ensures
        answers_withdrawal(balance@, amount, out),
        out matches ComputationOutputs::Success(answer) ==> (!answer.success ==> decoded_balance(
            answer.new_balance@,
        ) == decoded_balance(balance@)) && (answer.success ==> decoded_balance(
            answer.new_balance@,
        ) == decoded_balance(balance@) - amount),
{
    proof {
        let current = decoded_balance(balance@);
        decode_undoes_encode(current);
        if current >= amount {
            decode_undoes_encode((current - amount) as u64);
        }
    }
    let current_balance = match deserialize_encrypted_balance(balance) {
        Ok(value) => value,
        Err(_) => {
            return ComputationOutputs::Failure;
        },
    };
    let result = subtract_from_balance(WithdrawInput { current_balance, withdraw_amount: amount });
    ComputationOutputs::Success(
        WithdrawOutput {
            new_balance: serialize_encrypted_balance(result.new_balance),
            success: result.success,
            error_code: result.error_code,
            amount: if result.success {
                amount
            } else {
                0
            },
        },
    )
}

/// Whether `out` carries `result`, encoded, for a transfer of `amount`.
pub open spec fn carries_transfer(
    result: ComputationOutputs<TransferResult>,
    amount: u64,
    out: ComputationOutputs<TransferOutput>,
) -> bool {
    match result {
        ComputationOutputs::Success(result) => out matches ComputationOutputs::Success(answer)
            && answer.new_user_balance@ == encoded_balance(result.new_user_balance)
            && answer.new_pool_balance@ == encoded_balance(result.new_pool_balance)
            && answer.transfer_success == result.transfer_success && answer.amount
            == if result.transfer_success {
            amount
        } else {
            0
        },
        ComputationOutputs::Failure => out is Failure,
    }
}

fn seal_transfer(result: ComputationOutputs<TransferResult>, amount: u64) -> (out:
    ComputationOutputs<TransferOutput>)
    ensures
        carries_transfer(result, amount, out),
{
    match result {
        ComputationOutputs::Success(result) => ComputationOutputs::Success(
            TransferOutput {
                new_user_balance: serialize_encrypted_balance(result.new_user_balance),
                new_pool_balance: serialize_encrypted_balance(result.new_pool_balance),
                transfer_success: result.transfer_success,
                amount: if result.transfer_success {
                    amount
                } else {
                    0
                },
            },
        ),
        ComputationOutputs::Failure => ComputationOutputs::Failure,
    }
}

fn open_transfer(user_balance: &[u8; 32], pool_balance: &[u8; 32], amount: u64) -> (input:
    TransferInput)
    ensures
        input == (TransferInput {
            user_balance: decoded_balance(user_balance@),
            pool_balance: decoded_balance(pool_balance@),
            transfer_amount: amount,
        }),
{
    let user = match deserialize_encrypted_balance(user_balance) {
        Ok(value) => value,
        Err(_) => 0,
    };
    let pool = match deserialize_encrypted_balance(pool_balance) {
        Ok(value) => value,
        Err(_) => 0,
    };
    TransferInput { user_balance: user, pool_balance: pool, transfer_amount: amount }
}

/// Answers a transfer of `amount` from the user's balance to the pool's.
pub fn run_transfer_to_pool(
    user_balance: &[u8; 32],
    pool_balance: &[u8; 32],
    amount: u64,
) -> (out: ComputationOutputs<TransferOutput>)
    ensures
        carries_transfer(
            transfer_to_pool_policy(
                TransferInput {
                    user_balance: decoded_balance(user_balance@),
                    pool_balance: decoded_balance(pool_balance@),
                    transfer_amount: amount,
                },
            ),
            amount,
            out,
        ),
{
    let input = open_transfer(user_balance, pool_balance, amount);
    seal_transfer(confidential_transfer_to_pool(input), amount)
}

/// Answers a transfer of `amount` from the pool's balance to the user's.
pub fn run_transfer_from_pool(
    user_balance: &[u8; 32],
    pool_balance: &[u8; 32],
    amount: u64,
) -> (out: ComputationOutputs<TransferOutput>)
    ensures
        carries_transfer(
            transfer_from_pool_policy(
                TransferInput {
                    user_balance: decoded_balance(user_balance@),
                    pool_balance: decoded_balance(pool_balance@),
                    transfer_amount: amount,
                },
            ),
            amount,
            out,
        ),
{
    let input = open_transfer(user_balance, pool_balance, amount);
    seal_transfer(confidential_transfer_from_pool(input), amount)
}

} // verus!
