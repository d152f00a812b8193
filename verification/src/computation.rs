//! What is exchanged with the secure-computation network: which computation
//! is asked for, with which arguments, and the shape of its answer.

use vstd::prelude::*;

verus! {

/// The answer of the network to one computation: a typed result, or the
/// report that the computation itself faulted.
#[derive(Clone, Copy, Debug, PartialEq, Eq)]
pub enum ComputationOutputs<O> {
    Success(O),
    Failure,
}

/// The computations that can be delegated, by name.
#[derive(Clone, Copy, Debug, PartialEq, Eq, Structural)]
pub enum Circuit {
    AddTogether,
    AddToBalance,
    SubtractFromBalance,
    TransferToPool,
    TransferFromPool,
    AggregateStats,
    VerifyMinimum,
    ComputeShare,
}

/// One argument of a queued computation. Encrypted arguments are 32-byte
/// ciphertexts that are handed on as they are.
#[derive(Clone, Copy, Debug, PartialEq, Eq)]
pub enum Argument {
    PlaintextU64(u64),
    PlaintextU128(u128),
    EncryptedU8([u8; 32]),
    EncryptedU64([u8; 32]),
    ArcisPubkey([u8; 32]),
}

/// A computation handed to the network: the circuit, the offset under which
/// its definition is registered, the caller's correlation number, and the
/// arguments in the circuit's order.
#[derive(Clone, Debug, PartialEq, Eq)]
pub struct QueuedComputation {
    pub circuit: Circuit,
    pub comp_def_offset: u32,
    pub computation_offset: u64,
    pub args: Vec<Argument>,
}

/// A queued computation with its arguments as a sequence.
pub struct ComputationView {
    pub circuit: Circuit,
    pub comp_def_offset: u32,
    pub computation_offset: u64,
    pub args: Seq<Argument>,
}

impl View for QueuedComputation {
    type V = ComputationView;

    open spec fn view(&self) -> ComputationView {
        ComputationView {
            circuit: self.circuit,
            comp_def_offset: self.comp_def_offset,
            computation_offset: self.computation_offset,
            args: self.args@,
        }
    }
}

/// The computation `circuit` queued under the correlation number
/// `computation_offset` with the arguments `args`.
pub open spec fn queued(circuit: Circuit, computation_offset: u64, args: Seq<Argument>)
    -> ComputationView {
    ComputationView {
        circuit,
        comp_def_offset: circuit_offset(circuit.spec_name()),
        computation_offset,
        args,
    }
}

/// The offset that `arcium_anchor::comp_def_offset` derives from the name of
/// a circuit.
pub uninterp spec fn circuit_offset(name: Seq<char>) -> u32;

/// Calls `arcium_anchor::comp_def_offset`, which hashes the name and keeps
/// four bytes of the digest.
///
/// Trusted: the offset depends on the name alone, so it is named
/// `circuit_offset` of the name.
#[verifier::external_body]
fn offset_of_name(name: &str) -> (offset: u32)
    ensures
        offset == circuit_offset(name@),
{
    arcium_anchor::comp_def_offset(name)
}

impl Circuit {
    /// The name under which the circuit is compiled and registered.
    pub open spec fn spec_name(self) -> Seq<char> {
        match self {
            Circuit::AddTogether => "add_together"@,
            Circuit::AddToBalance => "add_to_balance"@,
            Circuit::SubtractFromBalance => "subtract_from_balance"@,
            Circuit::TransferToPool => "confidential_transfer_to_pool"@,
            Circuit::TransferFromPool => "confidential_transfer_from_pool"@,
            Circuit::AggregateStats => "compute_aggregate_stats"@,
            Circuit::VerifyMinimum => "verify_minimum_balance"@,
            Circuit::ComputeShare => "compute_user_share"@,
        }
    }

    /// The name under which the circuit is compiled and registered.
    pub fn name(&self) -> (name: &'static str)
        ensures
            name@ == self.spec_name(),
    {
        match self {
            Circuit::AddTogether => "add_together",
            Circuit::AddToBalance => "add_to_balance",
            Circuit::SubtractFromBalance => "subtract_from_balance",
            Circuit::TransferToPool => "confidential_transfer_to_pool",
            Circuit::TransferFromPool => "confidential_transfer_from_pool",
            Circuit::AggregateStats => "compute_aggregate_stats",
            Circuit::VerifyMinimum => "verify_minimum_balance",
            Circuit::ComputeShare => "compute_user_share",
        }
    }

    /// The offset of the circuit's definition account.
    pub fn comp_def_offset(&self) -> (offset: u32)
        ensures
            offset == circuit_offset(self.spec_name()),
    {
        offset_of_name(self.name())
    }
}

impl QueuedComputation {
    /// The computation `circuit` with its offset looked up.
    pub fn new(circuit: Circuit, computation_offset: u64, args: Vec<Argument>) -> (computation:
        QueuedComputation)
        ensures
            computation@ == queued(circuit, computation_offset, args@),
    {
        let comp_def_offset = circuit.comp_def_offset();
        QueuedComputation { circuit, comp_def_offset, computation_offset, args }
    }
}

/// The circuits that keep the confidential pools, in the order in which their
/// definitions are set up.
pub open spec fn all_circuits() -> Seq<Circuit> {
    seq![
        Circuit::AddToBalance,
        Circuit::SubtractFromBalance,
        Circuit::TransferToPool,
        Circuit::TransferFromPool,
        Circuit::AggregateStats,
        Circuit::VerifyMinimum,
        Circuit::ComputeShare,
    ]
}

/// The circuits whose definitions have to be set up before the pools are used.
pub fn get_all_circuits() -> (circuits: Vec<Circuit>)
    ensures
        circuits@ == all_circuits(),
{
    let mut circuits: Vec<Circuit> = Vec::new();
    circuits.push(Circuit::AddToBalance);
    circuits.push(Circuit::SubtractFromBalance);
    circuits.push(Circuit::TransferToPool);
    circuits.push(Circuit::TransferFromPool);
    circuits.push(Circuit::AggregateStats);
    circuits.push(Circuit::VerifyMinimum);
    circuits.push(Circuit::ComputeShare);
    assert(circuits@ =~= all_circuits());
    circuits
}

} // verus!
