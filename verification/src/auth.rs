//! The authorization gate.
//!
//! A privileged operation is queued only with a statement signed by the
//! oracle. The statement names what it authorizes in one canonical message,
//! `<operation>:<actor>:<amount>:<pool>:<time bucket>` (the pool part is
//! left out where no pool is involved), and is good for one time bucket only.
//! Checking the signature itself is the caller's business: `authorize` takes the
//! verdict and decides the rest.

use vstd::prelude::*;
use vstd::utf8::encode_utf8;
use crate::error::ErrorCode;
use crate::pubkey::{base58_text, Pubkey};
use crate::state::Clock;

verus! {

/// Length of a time bucket in seconds.
pub const BUCKET_SECONDS: i64 = 300;

/// The byte that separates the fields of a message.
pub const SEPARATOR: u8 = 58;

/// The operations that need the oracle's authorization.
#[derive(Clone, Copy, Debug, PartialEq, Eq, Structural)]
pub enum Operation {
    Withdraw,
    ReleaseToGroup,
    ReleaseFromGroup,
    ConfidentialWithdraw,
    ConfidentialRelease,
    ConfidentialReleaseFrom,
}

impl Operation {
    /// The name of the operation, as text.
    pub open spec fn spec_name(self) -> Seq<char> {
        match self {
            Operation::Withdraw => "withdraw"@,
            Operation::ReleaseToGroup => "release_to_group"@,
            Operation::ReleaseFromGroup => "release_from_group"@,
            Operation::ConfidentialWithdraw => "confidential_withdraw"@,
            Operation::ConfidentialRelease => "confidential_release"@,
            Operation::ConfidentialReleaseFrom => "confidential_release_from"@,
        }
    }

    /// The name of the operation as it stands at the head of a message.
    pub fn name(&self) -> (name: &'static str)
        ensures
            name@ == self.spec_name(),
    {
        match self {
            Operation::Withdraw => "withdraw",
            Operation::ReleaseToGroup => "release_to_group",
            Operation::ReleaseFromGroup => "release_from_group",
            Operation::ConfidentialWithdraw => "confidential_withdraw",
            Operation::ConfidentialRelease => "confidential_release",
            Operation::ConfidentialReleaseFrom => "confidential_release_from",
        }
    }
}

/// The time bucket of a moment: the number of whole buckets since the epoch,
/// rounded down also before the epoch.
pub open spec fn bucket_of(unix_timestamp: i64) -> int {
    unix_timestamp as int / BUCKET_SECONDS as int
}

/// The time bucket of a moment.
pub fn time_bucket(unix_timestamp: i64) -> (bucket: i64)
    ensures
        bucket == bucket_of(unix_timestamp),
        bucket * 300 <= unix_timestamp < bucket * 300 + 300,
{
    if unix_timestamp >= 0 {
        unix_timestamp / BUCKET_SECONDS
    } else {
        let past: i64 = -(unix_timestamp + 1);
        -(past / BUCKET_SECONDS) - 1
    }
}

/// A number in decimal digits, without sign or leading zeros.
pub open spec fn decimal_digits(n: nat) -> Seq<u8>
    decreases n,
{
    if n < 10 {
        seq![(48 + n) as u8]
    } else {
        decimal_digits(n / 10).push((48 + n % 10) as u8)
    }
}

/// A number in decimal digits, with `-` in front where it is negative.
pub open spec fn signed_decimal(n: int) -> Seq<u8> {
    if n < 0 {
        seq![45u8] + decimal_digits((-n) as nat)
    } else {
        decimal_digits(n as nat)
    }
}

/// Appends `n` in decimal digits.
pub fn push_decimal(out: &mut Vec<u8>, n: u64)
    ensures
        final(out)@ == old(out)@ + decimal_digits(n as nat),
    decreases n,
{
    if n >= 10 {
        push_decimal(out, n / 10);
    }
    out.push(48 + (n % 10) as u8);
    assert(out@ =~= old(out)@ + decimal_digits(n as nat));
}

/// Appends `n` in decimal digits, with its sign where it is negative.
pub fn push_signed_decimal(out: &mut Vec<u8>, n: i64)
    ensures
        final(out)@ == old(out)@ + signed_decimal(n as int),
{
    if n < 0 {
        out.push(45);
        let magnitude: u64 = if n == i64::MIN {
            9223372036854775808
        } else {
            (-n) as u64
        };
        push_decimal(out, magnitude);
        assert(out@ =~= old(out)@ + signed_decimal(n as int));
    } else {
        push_decimal(out, n as u64);
    }
}

/// The canonical message for an operation by `actor` on `amount`, with the
/// pool where one is involved, in the time bucket `time_bucket`. `name` and
/// `pool` are text as bytes, `actor` is the actor's address as it is written.
pub open spec fn canonical_subject(
    name: Seq<u8>,
    actor: Seq<u8>,
    amount: u64,
    pool: Option<Seq<u8>>,
    time_bucket: i64,
) -> Seq<u8> {
    name + seq![SEPARATOR] + actor + seq![SEPARATOR] + decimal_digits(amount as nat) + seq![
        SEPARATOR,
    ] + (match pool {
        Some(id) => id + seq![SEPARATOR],
        None => Seq::<u8>::empty(),
    }) + signed_decimal(time_bucket as int)
}

/// The bytes of a pool id that may be absent.
pub open spec fn pool_bytes(pool_id: Option<&str>) -> Option<Seq<u8>> {
    match pool_id {
        Some(id) => Some(encode_utf8(id@)),
        None => None,
    }
}

/// Writes the canonical message from its parts, the actor already in text.
pub fn encode_subject(
    operation: Operation,
    actor_text: &[u8],
    amount: u64,
    pool_id: Option<&str>,
    time_bucket: i64,
) -> (message: Vec<u8>)
    ensures
        message@ == canonical_subject(
            encode_utf8(operation.spec_name()),
            actor_text@,
            amount,
            pool_bytes(pool_id),
            time_bucket,
        ),
{
    let mut message: Vec<u8> = Vec::new();
    message.extend_from_slice(operation.name().as_bytes());
    message.push(SEPARATOR);
    message.extend_from_slice(actor_text);
    message.push(SEPARATOR);
    push_decimal(&mut message, amount);
    message.push(SEPARATOR);
    match pool_id {
        Some(id) => {
            message.extend_from_slice(id.as_bytes());
            message.push(SEPARATOR);
        },
        None => {},
    }
    push_signed_decimal(&mut message, time_bucket);
    assert(message@ =~= canonical_subject(
        encode_utf8(operation.spec_name()),
        actor_text@,
        amount,
        pool_bytes(pool_id),
        time_bucket,
    ));
    message
}

/// What a statement is expected to authorize.
#[derive(Clone, Debug, PartialEq, Eq)]
pub struct ExpectedSubject {
    pub operation: Operation,
    pub actor: Pubkey,
    pub amount: u64,
    pub pool_id: Option<String>,
    /// The current time bucket.
    pub time_bucket: i64,
}

impl ExpectedSubject {
    /// The bytes of the pool id, where a pool is involved.
    pub open spec fn pool(&self) -> Option<Seq<u8>> {
        match self.pool_id {
            Some(id) => Some(encode_utf8(id@)),
            None => None,
        }
    }

    /// The one message that authorizes this subject.
    pub open spec fn canonical(&self) -> Seq<u8> {
        canonical_subject(
            encode_utf8(self.operation.spec_name()),
            base58_text(self.actor@),
            self.amount,
            self.pool(),
            self.time_bucket,
        )
    }

    /// Writes the canonical message of this subject.
    pub fn subject_message(&self) -> (message: Vec<u8>)
        ensures
            message@ == self.canonical(),
    {
        let actor_text = self.actor.to_base58();
        let pool_id: Option<&str> = match &self.pool_id {
            Some(id) => Some(id.as_str()),
            None => None,
        };
        encode_subject(
            self.operation,
            actor_text.as_slice(),
            self.amount,
            pool_id,
            self.time_bucket,
        )
    }
}

/// A signed statement as a client presents it.
#[derive(Clone, Debug, PartialEq, Eq)]
pub struct AuthorizationStatement {
    pub subject_message: Vec<u8>,
    pub signature: [u8; 64],
    pub time_bucket: i64,
}

/// Why a statement does not pass.
#[derive(Clone, Copy, Debug, PartialEq, Eq, Structural)]
pub enum RejectionReason {
    /// The signature does not verify.
    InvalidSignature,
    /// The statement was made for another time bucket.
    StaleTimeBucket,
    /// The statement authorizes something else.
    SubjectMismatch,
}

/// What the authorization of a statement comes to.
#[derive(Clone, Copy, Debug, PartialEq, Eq, Structural)]
pub enum AuthorizationDecision {
    Authorized,
    Rejected(RejectionReason),
}

/// The rule of authorization: a statement passes where its signature verifies, it was
/// made for the current bucket, and its message is the expected one. The
/// first of these that fails is the reason given.
pub open spec fn gate_decision(
    subject_message: Seq<u8>,
    statement_bucket: i64,
    expected_message: Seq<u8>,
    current_bucket: i64,
    signature_verified: bool,
) -> AuthorizationDecision {
    if !signature_verified {
        AuthorizationDecision::Rejected(RejectionReason::InvalidSignature)
    } else if statement_bucket != current_bucket {
        AuthorizationDecision::Rejected(RejectionReason::StaleTimeBucket)
    } else if subject_message != expected_message {
        AuthorizationDecision::Rejected(RejectionReason::SubjectMismatch)
    } else {
        AuthorizationDecision::Authorized
    }
}

/// Whether two byte strings are the same.
pub fn bytes_equal(a: &[u8], b: &[u8]) -> (same: bool)
    ensures
        same == (a@ == b@),
{
    if a.len() != b.len() {
        return false;
    }
    let mut i: usize = 0;
    while i < a.len()
        invariant
            a@.len() == b@.len(),
            i <= a@.len(),
            forall|j: int| 0 <= j < i ==> a@[j] == b@[j],
        decreases a@.len() - i,
    {
        if a[i] != b[i] {
            return false;
        }
        i += 1;
    }
    assert(a@ =~= b@);
    true
}

/// Decides on a statement against the message that is expected of it.
/// `signature_verified` says whether the statement's signature verifies over
/// its message under the oracle's key.
pub fn check_statement(
    statement: &AuthorizationStatement,
    expected_message: &[u8],
    current_bucket: i64,
    signature_verified: bool,
) -> (decision: AuthorizationDecision)
    ensures
        decision == gate_decision(
            statement.subject_message@,
            statement.time_bucket,
            expected_message@,
            current_bucket,
            signature_verified,
        ),
        statement.time_bucket != current_bucket ==> decision is Rejected,
{
    if !signature_verified {
        AuthorizationDecision::Rejected(RejectionReason::InvalidSignature)
    } else if statement.time_bucket != current_bucket {
        AuthorizationDecision::Rejected(RejectionReason::StaleTimeBucket)
    } else if !bytes_equal(statement.subject_message.as_slice(), expected_message) {
        AuthorizationDecision::Rejected(RejectionReason::SubjectMismatch)
    } else {
        AuthorizationDecision::Authorized
    }
}

/// Whether `statement` authorizes `expected`, whose time bucket is the
/// current one. Nothing is changed by asking.
pub fn authorize(
    statement: &AuthorizationStatement,
    expected: &ExpectedSubject,
    signature_verified: bool,
) -> (decision: AuthorizationDecision)
    ensures
        decision == gate_decision(
            statement.subject_message@,
            statement.time_bucket,
            expected.canonical(),
            expected.time_bucket,
            signature_verified,
        ),
        decision is Authorized <==> authorizes(*statement, *expected, signature_verified),
        statement.time_bucket != expected.time_bucket ==> decision is Rejected,
{
    let expected_message = expected.subject_message();
    check_statement(
        statement,
        expected_message.as_slice(),
        expected.time_bucket,
        signature_verified,
    )
}

/// When a statement passes for a subject.
pub open spec fn authorizes(
    statement: AuthorizationStatement,
    expected: ExpectedSubject,
    signature_verified: bool,
) -> bool {
    &&& signature_verified
    &&& statement.time_bucket == expected.time_bucket
    &&& statement.subject_message@ == expected.canonical()
}

/// A statement made for a bucket other than the current one never passes,
/// whatever its signature and message.
pub proof fn stale_statement_is_rejected(
    statement: AuthorizationStatement,
    expected: ExpectedSubject,
    signature_verified: bool,
)
    requires
        statement.time_bucket != expected.time_bucket,
    ensures
        !authorizes(statement, expected, signature_verified),
        gate_decision(
            statement.subject_message@,
            statement.time_bucket,
            expected.canonical(),
            expected.time_bucket,
            signature_verified,
        ) is Rejected,
{
}

/// The subject that the oracle must have signed for an operation at `clock`.
pub open spec fn subject_at(
    operation: Operation,
    actor: Pubkey,
    amount: u64,
    pool_id: Option<String>,
    clock: Clock,
) -> ExpectedSubject {
    ExpectedSubject {
        operation,
        actor,
        amount,
        pool_id,
        time_bucket: bucket_of(clock.unix_timestamp) as i64,
    }
}

/// Checks the oracle's statement for an instruction: it passes where its
/// signature verifies, it was made for the current time bucket, and its
/// message is the canonical one of the expected subject. Anything else is
/// `Unauthorized`. Nothing is changed by the check.
pub fn verify_oracle_signature(
    statement: &AuthorizationStatement,
    expected: &ExpectedSubject,
    signature_verified: bool,
) -> (checked: Result<(), ErrorCode>)
    ensures
        authorizes(*statement, *expected, signature_verified) ==> checked == Ok::<(), ErrorCode>(
            (),
        ),
        !authorizes(*statement, *expected, signature_verified) ==> checked == Err::<
            (),
            ErrorCode,
        >(ErrorCode::Unauthorized),
        statement.time_bucket != expected.time_bucket ==> checked is Err,
{
    match authorize(statement, expected, signature_verified) {
        AuthorizationDecision::Authorized => Ok(()),
        AuthorizationDecision::Rejected(_) => Err(ErrorCode::Unauthorized),
    }
}

} // verus!
