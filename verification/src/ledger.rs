//! The ledger of delegated computations.
//!
//! One record per request. A request is opened as pending, and leaves that
//! state once: to completed or to failed. While it is pending, no other
//! pending request may name one of its targets, so the answer to it is the
//! only writer of the balances it was queued for.

use vstd::prelude::*;
use crate::error::ErrorCode;
use crate::pubkey::Pubkey;
use crate::state::{MpcRequest, MpcRequestStatus};

verus! {

/// What identifies a request: who asked, and the slot in which they asked.
#[derive(Clone, Copy, Debug, PartialEq, Eq)]
pub struct RequestId {
    pub requester: Pubkey,
    pub created_slot: u64,
}

impl MpcRequest {
    /// Whether this is the record of the request `id`.
    pub open spec fn has_id(&self, id: RequestId) -> bool {
        self.requester@ == id.requester@ && self.created_slot == id.created_slot
    }

    /// Whether the request still waits for its answer.
    pub open spec fn is_pending(&self) -> bool {
        self.status == MpcRequestStatus::Pending
    }

    /// Whether the request will write the account at `account`.
    pub open spec fn targets(&self, account: Seq<u8>) -> bool {
        self.target_account@ == account || (self.second_target matches Some(second) && second@
            == account)
    }

    /// Whether the request has waited for more than `timeout` slots at `now`.
    pub open spec fn is_overdue(&self, now: u64, timeout: u64) -> bool {
        self.created_slot + timeout < now
    }

    /// The id of the request.
    pub fn id(&self) -> (id: RequestId)
        ensures
            self.has_id(id),
            id.requester == self.requester,
            id.created_slot == self.created_slot,
    {
        RequestId { requester: self.requester, created_slot: self.created_slot }
    }

    fn matches_id(&self, id: &RequestId) -> (same: bool)
        ensures
            same == self.has_id(*id),
    {
        self.created_slot == id.created_slot && self.requester.same_as(&id.requester)
    }

    fn conflicts_with(&self, other: &MpcRequest) -> (clash: bool)
        ensures
            clash == conflict(*self, *other),
    {
        if self.created_slot == other.created_slot && self.requester.same_as(&other.requester) {
            return true;
        }
        let both_pending = match (self.status, other.status) {
            (MpcRequestStatus::Pending, MpcRequestStatus::Pending) => true,
            _ => false,
        };
        if !both_pending {
            return false;
        }
        if other.writes_to(&self.target_account) {
            return true;
        }
        match &self.second_target {
            Some(second) => other.writes_to(second),
            None => false,
        }
    }

    fn writes_to(&self, account: &Pubkey) -> (hit: bool)
        ensures
            hit == self.targets(account@),
    {
        if self.target_account.same_as(account) {
            return true;
        }
        match &self.second_target {
            Some(second) => second.same_as(account),
            None => false,
        }
    }
}

/// Two records of the same request.
pub open spec fn same_id(a: MpcRequest, b: MpcRequest) -> bool {
    a.requester@ == b.requester@ && a.created_slot == b.created_slot
}

/// Two requests that would write a common account.
pub open spec fn share_target(a: MpcRequest, b: MpcRequest) -> bool {
    b.targets(a.target_account@) || (a.second_target matches Some(second) && b.targets(second@))
}

/// Two records that cannot stand in one ledger: they carry the same id, or
/// both are pending and would write a common account.
pub open spec fn conflict(a: MpcRequest, b: MpcRequest) -> bool {
    same_id(a, b) || (a.is_pending() && b.is_pending() && share_target(a, b))
}

/// No id occurs twice, and no two pending requests share a target.
pub open spec fn well_formed(requests: Seq<MpcRequest>) -> bool {
    forall|i: int, j: int|
        #![trigger requests[i], requests[j]]
        0 <= i < j < requests.len() ==> !conflict(requests[i], requests[j])
}

/// Whether some record carries `id`.
pub open spec fn knows(requests: Seq<MpcRequest>, id: RequestId) -> bool {
    exists|i: int| 0 <= i < requests.len() && (#[trigger] requests[i]).has_id(id)
}

/// Whether the request `id` is on record and still pending.
pub open spec fn pending(requests: Seq<MpcRequest>, id: RequestId) -> bool {
    exists|i: int|
        0 <= i < requests.len() && (#[trigger] requests[i]).has_id(id) && requests[i].is_pending()
}

/// Whether some pending request will write the account at `account`.
pub open spec fn pending_for(requests: Seq<MpcRequest>, account: Seq<u8>) -> bool {
    exists|i: int|
        0 <= i < requests.len() && (#[trigger] requests[i]).is_pending() && requests[i].targets(
            account,
        )
}

/// Whether a new request with this id and these targets may be opened: the id
/// is free and neither target has a request in flight.
pub open spec fn admits(
    requests: Seq<MpcRequest>,
    id: RequestId,
    target: Seq<u8>,
    second_target: Option<Pubkey>,
) -> bool {
    &&& !knows(requests, id)
    &&& !pending_for(requests, target)
    &&& second_target matches Some(second) ==> !pending_for(requests, second@)
}

/// The records with the request `id` moved from pending to `status`.
pub open spec fn settled(
    requests: Seq<MpcRequest>,
    id: RequestId,
    status: MpcRequestStatus,
) -> Seq<MpcRequest> {
    Seq::new(
        requests.len(),
        |i: int|
            if requests[i].has_id(id) && requests[i].is_pending() {
                MpcRequest { status: status, ..requests[i] }
            } else {
                requests[i]
            },
    )
}

/// The records with every pending request that is overdue at `now` failed.
pub open spec fn swept(requests: Seq<MpcRequest>, now: u64, timeout: u64) -> Seq<MpcRequest> {
    Seq::new(
        requests.len(),
        |i: int|
            if requests[i].is_pending() && requests[i].is_overdue(now, timeout) {
                MpcRequest { status: MpcRequestStatus::Failed, ..requests[i] }
            } else {
                requests[i]
            },
    )
}

/// How many of the requests are pending and overdue at `now`.
pub open spec fn overdue_count(requests: Seq<MpcRequest>, now: u64, timeout: u64) -> nat
    decreases requests.len(),
{
    if requests.len() == 0 {
        0
    } else {
        overdue_count(requests.drop_last(), now, timeout) + if requests.last().is_pending()
            && requests.last().is_overdue(now, timeout) {
            1nat
        } else {
            0nat
        }
    }
}

/// What every change to the ledger keeps: no record is dropped or renamed,
/// and a record that has left the pending state is never touched again.
pub open spec fn extends(before: Seq<MpcRequest>, after: Seq<MpcRequest>) -> bool {
    &&& before.len() <= after.len()
    &&& forall|i: int|
        0 <= i < before.len() ==> same_id(#[trigger] before[i], after[i]) && (
        !before[i].is_pending() ==> after[i] == before[i])
}

/// An id names at most one record of a well-formed ledger.
pub proof fn one_record_per_id(requests: Seq<MpcRequest>, id: RequestId, i: int, j: int)
    requires
        well_formed(requests),
        0 <= i < requests.len(),
        0 <= j < requests.len(),
        requests[i].has_id(id),
        requests[j].has_id(id),
    ensures
        i == j,
{
    if i < j {
        assert(same_id(requests[i], requests[j]));
    } else if j < i {
        assert(same_id(requests[j], requests[i]));
    }
}

/// An account has at most one pending request in a well-formed ledger: two
/// pending records that would write the same account are one record.
pub proof fn one_pending_request_per_account(
    requests: Seq<MpcRequest>,
    account: Seq<u8>,
    i: int,
    j: int,
)
    requires
        well_formed(requests),
        0 <= i < requests.len(),
        0 <= j < requests.len(),
        requests[i].is_pending() && requests[i].targets(account),
        requests[j].is_pending() && requests[j].targets(account),
    ensures
        i == j,
{
    if i < j {
        assert(share_target(requests[i], requests[j]));
    } else if j < i {
        assert(share_target(requests[j], requests[i]));
    }
}

/// Answers may arrive in any order: settling two different requests gives the
/// same ledger whichever is settled first.
pub proof fn settling_commutes(
    requests: Seq<MpcRequest>,
    first: RequestId,
    first_status: MpcRequestStatus,
    second: RequestId,
    second_status: MpcRequestStatus,
)
    requires
        !(first.requester@ == second.requester@ && first.created_slot == second.created_slot),
    ensures
        settled(settled(requests, first, first_status), second, second_status) == settled(
            settled(requests, second, second_status),
            first,
            first_status,
        ),
{
    assert(settled(settled(requests, first, first_status), second, second_status) =~= settled(
        settled(requests, second, second_status),
        first,
        first_status,
    ));
}

/// Through any run of changes a record keeps its id, and one that has left
/// the pending state stays exactly as it is: no request is ever pending
/// again.
pub proof fn extends_is_transitive(
    first: Seq<MpcRequest>,
    second: Seq<MpcRequest>,
    third: Seq<MpcRequest>,
)
    requires
        extends(first, second),
        extends(second, third),
    ensures
        extends(first, third),
{
    assert forall|i: int| 0 <= i < first.len() implies same_id(#[trigger] first[i], third[i]) && (
    !first[i].is_pending() ==> third[i] == first[i]) by {
        assert(same_id(first[i], second[i]));
        assert(same_id(second[i], third[i]));
    }
}

/// The records of all requests, in the order in which they were opened.
#[derive(Clone, Debug, PartialEq, Eq)]
pub struct RequestLedger {
    requests: Vec<MpcRequest>,
}

impl View for RequestLedger {
    type V = Seq<MpcRequest>;

    closed spec fn view(&self) -> Seq<MpcRequest> {
        self.requests@
    }
}

impl RequestLedger {
    /// The invariant of the ledger. `new` and `single` establish it and every
    /// method keeps it.
    pub open spec fn wf(&self) -> bool {
        well_formed(self@)
    }

    /// A ledger without records.
    pub fn new() -> (ledger: RequestLedger)
        ensures
            ledger@ == Seq::<MpcRequest>::empty(),
            ledger.wf(),
    {
        RequestLedger { requests: Vec::new() }
    }

    /// A ledger that holds `request` and nothing else.
    pub fn single(request: MpcRequest) -> (ledger: RequestLedger)
        ensures
            ledger@ == seq![request],
            ledger.wf(),
    {
        let mut requests: Vec<MpcRequest> = Vec::new();
        requests.push(request);
        assert(requests@ =~= seq![request]);
        RequestLedger { requests }
    }

    /// A ledger of the given records, if they can stand together: no id
    /// twice, no account with two pending requests.
    pub fn from_records(records: Vec<MpcRequest>) -> (ledger: Option<RequestLedger>)
        ensures
            ledger is Some <==> well_formed(records@),
            ledger matches Some(l) ==> l@ == records@ && l.wf(),
    {
        let n = records.len();
        let mut j: usize = 0;
        while j < n
            invariant
                n == records@.len(),
                j <= n,
                forall|a: int, b: int|
                    #![trigger records@[a], records@[b]]
                    0 <= a < b < j ==> !conflict(records@[a], records@[b]),
            decreases n - j,
        {
            let mut i: usize = 0;
            while i < j
                invariant
                    n == records@.len(),
                    i <= j < n,
                    forall|a: int|
                        0 <= a < i ==> !conflict(#[trigger] records@[a], records@[j as int]),
                decreases j - i,
            {
                if records[i].conflicts_with(&records[j]) {
                    assert(conflict(records@[i as int], records@[j as int]));
                    return None;
                }
                i += 1;
            }
            j += 1;
        }
        Some(RequestLedger { requests: records })
    }

    /// The records, in the order in which the requests were opened.
    pub fn records(&self) -> (all: Vec<MpcRequest>)
        ensures
            all@ == self@,
    {
        let mut all: Vec<MpcRequest> = Vec::new();
        let mut i: usize = 0;
        while i < self.requests.len()
            invariant
                i <= self.requests@.len(),
                all@ == self.requests@.take(i as int),
            decreases self.requests@.len() - i,
        {
            all.push(self.requests[i]);
            assert(all@ =~= self.requests@.take(i as int + 1));
            i += 1;
        }
        assert(self.requests@.take(self.requests@.len() as int) =~= self.requests@);
        all
    }

    /// The number of records.
    pub fn len(&self) -> (n: usize)
        ensures
            n == self@.len(),
    {
        self.requests.len()
    }

    /// Where the record of `id` stands, if there is one.
    fn position(&self, id: &RequestId) -> (found: Option<usize>)
        ensures
            match found {
                Some(i) => i < self@.len() && self@[i as int].has_id(*id),
                None => !knows(self@, *id),
            },
    {
        let mut i: usize = 0;
        while i < self.requests.len()
            invariant
                i <= self.requests@.len(),
                forall|j: int| 0 <= j < i ==> !(#[trigger] self.requests@[j]).has_id(*id),
            decreases self.requests@.len() - i,
        {
            if self.requests[i].matches_id(id) {
                return Some(i);
            }
            i += 1;
        }
        None
    }

    /// The record of `id`, whatever its state.
    pub fn get(&self, id: &RequestId) -> (found: Option<MpcRequest>)
        requires
            self.wf(),
        ensures
            found is Some <==> knows(self@, *id),
            found matches Some(request) ==> request.has_id(*id) && self@.contains(request),
    {
        match self.position(id) {
            Some(i) => {
                let request = self.requests[i];
                assert(self@[i as int] == request);
                Some(request)
            },
            None => None,
        }
    }

    /// The record of `id`, if the request is still pending.
    pub fn get_pending(&self, id: &RequestId) -> (found: Option<MpcRequest>)
        requires
            self.wf(),
        ensures
            found is Some <==> pending(self@, *id),
            found matches Some(request) ==> request.has_id(*id) && request.is_pending()
                && self@.contains(request),
    {
        match self.position(id) {
            Some(i) => {
                let request = self.requests[i];
                assert(self@[i as int] == request);
                match request.status {
                    MpcRequestStatus::Pending => Some(request),
                    _ => {
                        assert forall|j: int|
                            0 <= j < self@.len() && (#[trigger] self@[j]).has_id(
                                *id,
                            ) implies !self@[j].is_pending() by {
                            one_record_per_id(self@, *id, i as int, j);
                        }
                        None
                    },
                }
            },
            None => None,
        }
    }

    /// Whether a pending request will write the account at `account`.
    pub fn has_pending_for(&self, account: &Pubkey) -> (busy: bool)
        ensures
            busy == pending_for(self@, account@),
    {
        let mut i: usize = 0;
        while i < self.requests.len()
            invariant
                i <= self.requests@.len(),
                forall|j: int|
                    0 <= j < i ==> !((#[trigger] self.requests@[j]).is_pending()
                        && self.requests@[j].targets(account@)),
            decreases self.requests@.len() - i,
        {
            let request = &self.requests[i];
            match request.status {
                MpcRequestStatus::Pending => {
                    if request.writes_to(account) {
                        return true;
                    }
                },
                _ => {},
            }
            i += 1;
        }
        false
    }

    /// Opens a request as pending, first in flight wins: it is refused where
    /// its id is taken or one of its targets already has a pending request.
    pub fn open(
        &mut self,
        requester: Pubkey,
        target_account: Pubkey,
        second_target: Option<Pubkey>,
        created_slot: u64,
        bump: u8,
    ) -> (opened: Result<MpcRequest, ErrorCode>)
        requires
            old(self).wf(),
        ensures
            final(self).wf(),
            extends(old(self)@, final(self)@),
            opened is Ok <==> admits(
                old(self)@,
                RequestId { requester, created_slot },
                target_account@,
                second_target,
            ),
            opened matches Ok(request) ==> request == (MpcRequest {
                requester,
                target_account,
                second_target,
                status: MpcRequestStatus::Pending,
                created_slot,
                bump,
            }) && final(self)@ == old(self)@.push(request),
            opened matches Err(e) ==> e == ErrorCode::RequestInFlight && final(self)@
                == old(self)@,
    {
        let id = RequestId { requester, created_slot };
        if self.position(&id).is_some() {
            return Err(ErrorCode::RequestInFlight);
        }
        if self.has_pending_for(&target_account) {
            return Err(ErrorCode::RequestInFlight);
        }
        match &second_target {
            Some(second) => {
                if self.has_pending_for(second) {
                    return Err(ErrorCode::RequestInFlight);
                }
            },
            None => {},
        }
        let request = MpcRequest {
            requester,
            target_account,
            second_target,
            status: MpcRequestStatus::Pending,
            created_slot,
            bump,
        };
        self.requests.push(request);
        proof {
            let before = old(self)@;
            let after = self@;
            assert(after =~= before.push(request));
            assert forall|i: int, j: int|
                #![trigger after[i], after[j]]
                0 <= i < j < after.len() implies !conflict(after[i], after[j]) by {
                if j < before.len() {
                    assert(!conflict(before[i], before[j]));
                } else {
                    assert(!before[i].has_id(id));
                    if before[i].is_pending() {
                        assert(!before[i].targets(target_account@));
                        if let Some(second) = second_target {
                            assert(!before[i].targets(second@));
                        }
                    }
                }
            }
        }
        Ok(request)
    }

    /// Moves the request `id` out of the pending state. Refused, and nothing
    /// changed, where `id` is unknown or no longer pending.
    fn settle(&mut self, id: &RequestId, status: MpcRequestStatus) -> (done: Result<
        MpcRequest,
        ErrorCode,
    >)
        requires
            old(self).wf(),
            status != MpcRequestStatus::Pending,
        ensures
            final(self).wf(),
            extends(old(self)@, final(self)@),
            done is Ok <==> pending(old(self)@, *id),
            done matches Ok(request) ==> request.has_id(*id) && request.status == status
                && final(self)@ == settled(old(self)@, *id, status),
            done matches Err(e) ==> e == ErrorCode::UnknownOrStaleRequest && final(self)@
                == old(self)@,
    {
        let request = match self.get_pending(id) {
            Some(request) => request,
            None => {
                return Err(ErrorCode::UnknownOrStaleRequest);
            },
        };
        let i = match self.position(id) {
            Some(i) => i,
            None => {
                return Err(ErrorCode::UnknownOrStaleRequest);
            },
        };
        let settled_request = MpcRequest { status, ..request };
        proof {
            let all = self@;
            let k = choose|k: int| 0 <= k < all.len() && all[k] == request;
            one_record_per_id(all, *id, i as int, k);
            assert forall|j: int| 0 <= j < all.len() && j != i as int implies !(
            #[trigger] all[j]).has_id(*id) by {
                if all[j].has_id(*id) {
                    one_record_per_id(all, *id, i as int, j);
                }
            }
        }
        self.requests.set(i, settled_request);
        proof {
            let before = old(self)@;
            let after = self@;
            assert(after =~= settled(before, *id, status));
            assert forall|a: int, b: int|
                #![trigger after[a], after[b]]
                0 <= a < b < after.len() implies !conflict(after[a], after[b]) by {
                assert(!conflict(before[a], before[b]));
            }
        }
        Ok(settled_request)
    }

    /// Marks the pending request `id` as completed.
    pub fn complete(&mut self, id: &RequestId) -> (done: Result<MpcRequest, ErrorCode>)
        requires
            old(self).wf(),
        ensures
            final(self).wf(),
            extends(old(self)@, final(self)@),
            done is Ok <==> pending(old(self)@, *id),
            done matches Ok(request) ==> request.has_id(*id) && request.status
                == MpcRequestStatus::Completed && final(self)@ == settled(
                old(self)@,
                *id,
                MpcRequestStatus::Completed,
            ),
            done matches Err(e) ==> e == ErrorCode::UnknownOrStaleRequest && final(self)@
                == old(self)@,
    {
        self.settle(id, MpcRequestStatus::Completed)
    }

    /// Marks the pending request `id` as failed.
    pub fn fail(&mut self, id: &RequestId) -> (done: Result<MpcRequest, ErrorCode>)
        requires
            old(self).wf(),
        ensures
            final(self).wf(),
            extends(old(self)@, final(self)@),
            done is Ok <==> pending(old(self)@, *id),
            done matches Ok(request) ==> request.has_id(*id) && request.status
                == MpcRequestStatus::Failed && final(self)@ == settled(
                old(self)@,
                *id,
                MpcRequestStatus::Failed,
            ),
            done matches Err(e) ==> e == ErrorCode::UnknownOrStaleRequest && final(self)@
                == old(self)@,
    {
        self.settle(id, MpcRequestStatus::Failed)
    }

    /// Fails every pending request that has waited for more than `timeout`
    /// slots at `now`, and says how many there were.
    pub fn sweep_expired(&mut self, now: u64, timeout: u64) -> (expired: usize)
        requires
            old(self).wf(),
        ensures
            final(self).wf(),
            extends(old(self)@, final(self)@),
            final(self)@ == swept(old(self)@, now, timeout),
            expired == overdue_count(old(self)@, now, timeout),
    {
        let n = self.requests.len();
        let mut expired: usize = 0;
        let mut i: usize = 0;
        while i < n
            invariant
                i <= n,
                n == self.requests@.len(),
                n == old(self)@.len(),
                expired == overdue_count(old(self)@.take(i as int), now, timeout),
                expired <= i,
                forall|j: int|
                    0 <= j < i ==> #[trigger] self.requests@[j] == swept(
                        old(self)@,
                        now,
                        timeout,
                    )[j],
                forall|j: int| i <= j < n ==> #[trigger] self.requests@[j] == old(self)@[j],
            decreases n - i,
        {
            let request = self.requests[i];
            let overdue = match request.status {
                MpcRequestStatus::Pending => match request.created_slot.checked_add(timeout) {
                    Some(deadline) => deadline < now,
                    None => false,
                },
                _ => false,
            };
            proof {
                let prefix = old(self)@.take(i as int + 1);
                assert(prefix.drop_last() =~= old(self)@.take(i as int));
                assert(prefix.last() == old(self)@[i as int]);
                assert(overdue == (request.is_pending() && request.is_overdue(now, timeout)));
            }
            if overdue {
                self.requests.set(i, MpcRequest { status: MpcRequestStatus::Failed, ..request });
                expired += 1;
            }
            i += 1;
        }
        proof {
            let before = old(self)@;
            let after = self@;
            assert(before.take(n as int) =~= before);
            assert(after =~= swept(before, now, timeout));
            assert forall|a: int, b: int|
                #![trigger after[a], after[b]]
                0 <= a < b < after.len() implies !conflict(after[a], after[b]) by {
                assert(!conflict(before[a], before[b]));
            }
        }
        expired
    }
}

} // verus!
