//! The plaintext contracts of the delegated computations.
//!
//! The network reconstructs the inputs from ciphertext, evaluates one of
//! these functions, and encrypts the result again. Each is a total function
//! of its input. A policy refusal (not enough funds) is reported inside the
//! result; an overflow of the balance width is `Failure`, never a wrapped
//! number.

use vstd::prelude::*;
use crate::computation::ComputationOutputs;

verus! {

/// The balance below which a user may not join a session.
pub const MINIMUM_REQUIRED_BALANCE: u64 = 1000;

/// The number of participants from which a pool counts as populated.
pub const MINIMUM_PARTICIPANTS: u32 = 5;

/// Error code of a withdrawal that went through.
pub const WITHDRAW_OK: u8 = 0;

/// Error code of a withdrawal refused for lack of funds.
pub const WITHDRAW_INSUFFICIENT: u8 = 1;

/// Two bytes to add.
#[derive(Clone, Copy, Debug, PartialEq, Eq, Structural)]
pub struct InputValues {
    pub v1: u8,
    pub v2: u8,
}

/// A balance and the amount to add to it.
#[derive(Clone, Copy, Debug, PartialEq, Eq, Structural)]
pub struct DepositInput {
    pub current_balance: u64,
    pub deposit_amount: u64,
}

/// The balance after a deposit.
#[derive(Clone, Copy, Debug, PartialEq, Eq, Structural)]
pub struct DepositResult {
    pub new_balance: u64,
    pub success: bool,
}

/// A balance and the amount to take from it.
#[derive(Clone, Copy, Debug, PartialEq, Eq, Structural)]
pub struct WithdrawInput {
    pub current_balance: u64,
    pub withdraw_amount: u64,
}

/// The balance after a withdrawal, whether it went through, and if not, why.
#[derive(Clone, Copy, Debug, PartialEq, Eq, Structural)]
pub struct WithdrawResult {
    pub new_balance: u64,
    pub success: bool,
    pub error_code: u8,
}

/// A user's balance, a pool's balance, and the amount to move between them.
#[derive(Clone, Copy, Debug, PartialEq, Eq, Structural)]
pub struct TransferInput {
    pub user_balance: u64,
    pub pool_balance: u64,
    pub transfer_amount: u64,
}

/// Both balances after a transfer, and whether it went through.
#[derive(Clone, Copy, Debug, PartialEq, Eq, Structural)]
pub struct TransferResult {
    pub new_user_balance: u64,
    pub new_pool_balance: u64,
    pub transfer_success: bool,
}

/// A contribution, the pool it was made to, and the amount to share out.
#[derive(Clone, Copy, Debug, PartialEq, Eq, Structural)]
pub struct ShareInput {
    pub user_contribution: u64,
    pub total_pool: u64,
    pub final_amount: u64,
}

/// The share that falls to a contribution.
#[derive(Clone, Copy, Debug, PartialEq, Eq, Structural)]
pub struct ShareResult {
    pub user_share: u64,
    pub computed_successfully: bool,
}

/// The balances of a pool's participants and the total at which the pool
/// counts as healthy.
#[derive(Clone, Debug, PartialEq, Eq)]
pub struct AggregateInput {
    pub user_balances: Vec<u64>,
    pub minimum_threshold: u64,
}

/// What may be published about a pool: a count and two flags. Neither the
/// total nor any single balance has a field here.
#[derive(Clone, Copy, Debug, PartialEq, Eq, Structural)]
pub struct AggregateStats {
    pub participant_count: u32,
    pub has_minimum_participants: bool,
    pub pool_is_healthy: bool,
}

/// The sum of two bytes, in a width that always holds it.
pub fn add_together(input: InputValues) -> (sum: u16)
    ensures
        sum == input.v1 + input.v2,
{
    input.v1 as u16 + input.v2 as u16
}

/// Deposit: the balance grows by the amount, or the computation faults where
/// the sum does not fit.
pub open spec fn deposit_policy(input: DepositInput) -> ComputationOutputs<DepositResult> {
    if input.current_balance + input.deposit_amount <= u64::MAX {
        ComputationOutputs::Success(
            DepositResult {
                new_balance: (input.current_balance + input.deposit_amount) as u64,
                success: true,
            },
        )
    } else {
        ComputationOutputs::Failure
    }
}

/// Adds a deposit to a balance.
pub fn add_to_balance(input: DepositInput) -> (out: ComputationOutputs<DepositResult>)
    ensures
        out == deposit_policy(input),
        out is Failure <==> input.current_balance + input.deposit_amount > u64::MAX,
        out matches ComputationOutputs::Success(r) ==> r.success && r.new_balance
            == input.current_balance + input.deposit_amount,
{
    match input.current_balance.checked_add(input.deposit_amount) {
        Some(new_balance) => ComputationOutputs::Success(
            DepositResult { new_balance, success: true },
        ),
        None => ComputationOutputs::Failure,
    }
}

/// Withdrawal: all of the amount leaves the balance, or none of it.
pub open spec fn withdraw_policy(input: WithdrawInput) -> WithdrawResult {
    if input.current_balance >= input.withdraw_amount {
        WithdrawResult {
            new_balance: (input.current_balance - input.withdraw_amount) as u64,
            success: true,
            error_code: WITHDRAW_OK,
        }
    } else {
        WithdrawResult {
            new_balance: input.current_balance,
            success: false,
            error_code: WITHDRAW_INSUFFICIENT,
        }
    }
}

/// Takes a withdrawal from a balance, if the balance covers it.
pub fn subtract_from_balance(input: WithdrawInput) -> (result: WithdrawResult)
    ensures
        result == withdraw_policy(input),
        input.withdraw_amount > input.current_balance ==> !result.success && result.new_balance
            == input.current_balance && result.error_code == 1,
        input.withdraw_amount <= input.current_balance ==> result.success && result.new_balance
            == input.current_balance - input.withdraw_amount && result.error_code == 0,
{
    if input.current_balance >= input.withdraw_amount {
        WithdrawResult {
            new_balance: input.current_balance - input.withdraw_amount,
            success: true,
            error_code: WITHDRAW_OK,
        }
    } else {
        WithdrawResult {
            new_balance: input.current_balance,
            success: false,
            error_code: WITHDRAW_INSUFFICIENT,
        }
    }
}

/// The result of a transfer that was declined: both balances as they were.
pub open spec fn transfer_declined(input: TransferInput) -> TransferResult {
    TransferResult {
        new_user_balance: input.user_balance,
        new_pool_balance: input.pool_balance,
        transfer_success: false,
    }
}

/// Transfer from the user to the pool: declined where the user's balance does
/// not cover the amount, a fault where the pool's balance would overflow.
pub open spec fn transfer_to_pool_policy(input: TransferInput) -> ComputationOutputs<
    TransferResult,
> {
    if input.user_balance < input.transfer_amount {
        ComputationOutputs::Success(transfer_declined(input))
    } else if input.pool_balance + input.transfer_amount > u64::MAX {
        ComputationOutputs::Failure
    } else {
        ComputationOutputs::Success(
            TransferResult {
                new_user_balance: (input.user_balance - input.transfer_amount) as u64,
                new_pool_balance: (input.pool_balance + input.transfer_amount) as u64,
                transfer_success: true,
            },
        )
    }
}

/// Transfer from the pool to the user: as above with the two sides exchanged.
pub open spec fn transfer_from_pool_policy(input: TransferInput) -> ComputationOutputs<
    TransferResult,
> {
    if input.pool_balance < input.transfer_amount {
        ComputationOutputs::Success(transfer_declined(input))
    } else if input.user_balance + input.transfer_amount > u64::MAX {
        ComputationOutputs::Failure
    } else {
        ComputationOutputs::Success(
            TransferResult {
                new_user_balance: (input.user_balance + input.transfer_amount) as u64,
                new_pool_balance: (input.pool_balance - input.transfer_amount) as u64,
                transfer_success: true,
            },
        )
    }
}

/// What a transfer result keeps of its input: the two balances add up to what
/// they added up to, and a declined transfer changes neither.
pub open spec fn transfer_conserves(input: TransferInput, result: TransferResult) -> bool {
    &&& result.new_user_balance + result.new_pool_balance == input.user_balance
        + input.pool_balance
    &&& !result.transfer_success ==> result.new_user_balance == input.user_balance
        && result.new_pool_balance == input.pool_balance
}

/// Neither direction of transfer makes or loses anything: whatever result a
/// transfer gives, the two balances add up to what they added up to before,
/// and a declined transfer leaves each of them as it was.
pub proof fn transfers_conserve_the_total(input: TransferInput)
    ensures
        transfer_to_pool_policy(input) matches ComputationOutputs::Success(r)
            ==> transfer_conserves(input, r),
        transfer_from_pool_policy(input) matches ComputationOutputs::Success(r)
            ==> transfer_conserves(input, r),
{
}

/// Moves an amount from a user's balance to a pool's, if the user's covers it.
pub fn confidential_transfer_to_pool(input: TransferInput) -> (out: ComputationOutputs<
    TransferResult,
>)
    ensures
        out == transfer_to_pool_policy(input),
        out matches ComputationOutputs::Success(r) ==> transfer_conserves(input, r)
            && r.transfer_success == (input.user_balance >= input.transfer_amount),
        out is Failure <==> input.user_balance >= input.transfer_amount && input.pool_balance
            + input.transfer_amount > u64::MAX,
{
    if input.user_balance >= input.transfer_amount {
        match input.pool_balance.checked_add(input.transfer_amount) {
            Some(new_pool_balance) => ComputationOutputs::Success(
                TransferResult {
                    new_user_balance: input.user_balance - input.transfer_amount,
                    new_pool_balance,
                    transfer_success: true,
                },
            ),
            None => ComputationOutputs::Failure,
        }
    } else {
        ComputationOutputs::Success(
            TransferResult {
                new_user_balance: input.user_balance,
                new_pool_balance: input.pool_balance,
                transfer_success: false,
            },
        )
    }
}

/// Moves an amount from a pool's balance to a user's, if the pool's covers it.
pub fn confidential_transfer_from_pool(input: TransferInput) -> (out: ComputationOutputs<
    TransferResult,
>)
    ensures
        out == transfer_from_pool_policy(input),
        out matches ComputationOutputs::Success(r) ==> transfer_conserves(input, r)
            && r.transfer_success == (input.pool_balance >= input.transfer_amount),
        out is Failure <==> input.pool_balance >= input.transfer_amount && input.user_balance
            + input.transfer_amount > u64::MAX,
{
    if input.pool_balance >= input.transfer_amount {
        match input.user_balance.checked_add(input.transfer_amount) {
            Some(new_user_balance) => ComputationOutputs::Success(
                TransferResult {
                    new_user_balance,
                    new_pool_balance: input.pool_balance - input.transfer_amount,
                    transfer_success: true,
                },
            ),
            None => ComputationOutputs::Failure,
        }
    } else {
        ComputationOutputs::Success(
            TransferResult {
                new_user_balance: input.user_balance,
                new_pool_balance: input.pool_balance,
                transfer_success: false,
            },
        )
    }
}

/// Whether the balance reaches the minimum for participation. Only the answer
/// leaves the computation.
pub fn verify_minimum_balance(input: u64) -> (meets_minimum: bool)
    ensures
        meets_minimum == (input >= MINIMUM_REQUIRED_BALANCE),
        meets_minimum == (input >= 1000),
{
    input >= MINIMUM_REQUIRED_BALANCE
}

/// The share of `final_amount` that falls to a contribution of `contribution`
/// out of `total_pool`, rounded down; nothing where the pool is empty.
pub open spec fn proportional_share(contribution: nat, total_pool: nat, final_amount: nat) -> nat {
    if total_pool > 0 {
        (contribution * final_amount / total_pool) as nat
    } else {
        0
    }
}

/// Proportional share: the share where it fits the balance width, a fault
/// where it does not.
pub open spec fn share_policy(input: ShareInput) -> ComputationOutputs<ShareResult> {
    let share = proportional_share(
        input.user_contribution as nat,
        input.total_pool as nat,
        input.final_amount as nat,
    );
    if share <= u64::MAX {
        ComputationOutputs::Success(
            ShareResult { user_share: share as u64, computed_successfully: true },
        )
    } else {
        ComputationOutputs::Failure
    }
}

/// Computes the share of a contribution, with a product of twice the width.
pub fn compute_user_share(input: ShareInput) -> (out: ComputationOutputs<ShareResult>)
    ensures
        out == share_policy(input),
        input.total_pool == 0 ==> out == ComputationOutputs::Success(
            ShareResult { user_share: 0, computed_successfully: true },
        ),
        input.user_contribution <= input.total_pool ==> out is Success,
{
    if input.total_pool > 0 {
        let contribution: u128 = input.user_contribution as u128;
        let amount: u128 = input.final_amount as u128;
        let total: u128 = input.total_pool as u128;
        assert(contribution * amount <= 0xFFFF_FFFF_FFFF_FFFF * 0xFFFF_FFFF_FFFF_FFFF)
            by (nonlinear_arith)
            requires
                0 <= contribution <= 0xFFFF_FFFF_FFFF_FFFF,
                0 <= amount <= 0xFFFF_FFFF_FFFF_FFFF,
        ;
        let product: u128 = contribution * amount;
        let quotient: u128 = product / total;
        proof {
            if input.user_contribution <= input.total_pool {
                lemma_share_bounded(contribution as int, total as int, amount as int);
            }
        }
        if quotient > u64::MAX as u128 {
            ComputationOutputs::Failure
        } else {
            ComputationOutputs::Success(
                ShareResult { user_share: quotient as u64, computed_successfully: true },
            )
        }
    } else {
        ComputationOutputs::Success(ShareResult { user_share: 0, computed_successfully: true })
    }
}

/// A contribution that is no more than the pool gets no more than the amount.
pub proof fn lemma_share_bounded(contribution: int, total_pool: int, final_amount: int)
    by (nonlinear_arith)
    requires
        0 <= contribution <= total_pool,
        0 < total_pool,
        0 <= final_amount,
    ensures
        contribution * final_amount / total_pool <= final_amount,
{
    assert(contribution * final_amount <= total_pool * final_amount);
    assert(total_pool * final_amount / total_pool == final_amount);
}

/// The sum of the balances, as a number without bound.
pub open spec fn total_of(balances: Seq<u64>) -> nat
    decreases balances.len(),
{
    if balances.len() == 0 {
        0
    } else {
        total_of(balances.drop_last()) + balances.last() as nat
    }
}

/// A prefix of the balances sums to no more than all of them.
pub proof fn lemma_total_of_prefix(balances: Seq<u64>, n: int)
    requires
        0 <= n <= balances.len(),
    ensures
        total_of(balances.take(n)) <= total_of(balances),
    decreases balances.len(),
{
    if n == balances.len() {
        assert(balances.take(n) =~= balances);
    } else {
        lemma_total_of_prefix(balances.drop_last(), n);
        assert(balances.drop_last().take(n) =~= balances.take(n));
    }
}

/// Aggregate statistics: the count, whether it reaches the minimum number of
/// participants, and whether the total reaches the threshold. A count or a
/// total that does not fit its width is a fault.
pub open spec fn aggregate_policy(balances: Seq<u64>, minimum_threshold: u64) -> ComputationOutputs<
    AggregateStats,
> {
    if balances.len() <= u32::MAX && total_of(balances) <= u64::MAX {
        ComputationOutputs::Success(
            AggregateStats {
                participant_count: balances.len() as u32,
                has_minimum_participants: balances.len() >= MINIMUM_PARTICIPANTS,
                pool_is_healthy: total_of(balances) >= minimum_threshold,
            },
        )
    } else {
        ComputationOutputs::Failure
    }
}

/// Counts the participants and compares their total with the threshold.
/// The total itself stays inside.
pub fn compute_aggregate_stats(input: &AggregateInput) -> (out: ComputationOutputs<AggregateStats>)
    ensures
        out == aggregate_policy(input.user_balances@, input.minimum_threshold),
        out matches ComputationOutputs::Success(stats) ==> stats.participant_count
            == input.user_balances@.len() && stats.has_minimum_participants == (
        stats.participant_count >= 5),
{
    let n = input.user_balances.len();
    if n > u32::MAX as usize {
        return ComputationOutputs::Failure;
    }
    let mut total: u64 = 0;
    let mut i: usize = 0;
    while i < n
        invariant
            n == input.user_balances@.len(),
            i <= n,
            total == total_of(input.user_balances@.take(i as int)),
        decreases n - i,
    {
        let ghost prefix = input.user_balances@.take(i as int + 1);
        proof {
            assert(prefix.drop_last() =~= input.user_balances@.take(i as int));
            assert(prefix.last() == input.user_balances@[i as int]);
            lemma_total_of_prefix(input.user_balances@, i as int + 1);
        }
        match total.checked_add(input.user_balances[i]) {
            Some(sum) => {
                total = sum;
            },
            None => {
                return ComputationOutputs::Failure;
            },
        }
        i += 1;
    }
    assert(input.user_balances@.take(n as int) =~= input.user_balances@);
    ComputationOutputs::Success(
        AggregateStats {
            participant_count: n as u32,
            has_minimum_participants: n >= MINIMUM_PARTICIPANTS as usize,
            pool_is_healthy: total >= input.minimum_threshold,
        },
    )
}

/// The published statistics depend on the balances only through how many
/// there are and whether their total reaches the threshold: two lists that
/// agree on both give the same statistics, whatever the balances in them.
pub proof fn aggregate_stats_reveal_only_count_and_health(
    first: Seq<u64>,
    second: Seq<u64>,
    minimum_threshold: u64,
)
    requires
        first.len() == second.len(),
        total_of(first) <= u64::MAX,
        total_of(second) <= u64::MAX,
        (total_of(first) >= minimum_threshold) == (total_of(second) >= minimum_threshold),
    ensures
        aggregate_policy(first, minimum_threshold) == aggregate_policy(second, minimum_threshold),
{
}

} // verus!
