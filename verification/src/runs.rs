//! What holds of the contract over any run of calls.
//!
//! A run is a sequence of calls of the operations that change the contract,
//! each applied to what the one before left. The statements here are proved
//! of the models that the operations' own contracts are stated over.

use vstd::prelude::*;
use crate::contract::{Proposal, RequestContractView};
use crate::error::ContractError;
use crate::types::RequestStatus;
use crate::validation::{address_verdict, creation_verdict};

verus! {

/// One call of an operation that may change the contract.
pub enum Call {
    Initialize { admin: Seq<u8> },
    CreateRequest { now: u64, ask: Proposal },
    UpdateRequestStatus { now: u64, caller: Seq<u8>, request_id: u64, new_status: RequestStatus },
    AssignBloodUnits { now: u64, caller: Seq<u8>, request_id: u64, units: Seq<u64> },
}

impl RequestContractView {
    /// Whether the contract answers `call` with success.
    pub open spec fn accepts(self, call: Call) -> bool {
        match call {
            Call::Initialize { .. } => self.initialize_outcome() is Ok,
            Call::CreateRequest { now, ask } => self.create_outcome(now, ask) is Ok,
            Call::UpdateRequestStatus { caller, request_id, new_status, .. } => self.update_outcome(
                caller,
                request_id,
                new_status,
            ) is Ok,
            Call::AssignBloodUnits { caller, request_id, .. } => self.assign_outcome(
                caller,
                request_id,
            ) is Ok,
        }
    }

    /// The contract after `call`: changed as the operation says if the call
    /// is accepted, and as it was if not.
    pub open spec fn after(self, call: Call) -> RequestContractView {
        if !self.accepts(call) {
            self
        } else {
            match call {
                Call::Initialize { admin } => self.after_initialize(admin),
                Call::CreateRequest { now, ask } => self.after_create(now, ask),
                Call::UpdateRequestStatus { now, request_id, new_status, .. } => self.after_update(
                    now,
                    request_id,
                    new_status,
                ),
                Call::AssignBloodUnits { now, request_id, units, .. } => self.after_assign(
                    now,
                    request_id,
                    units,
                ),
            }
        }
    }

    /// The contract after a run of calls, oldest first.
    pub open spec fn after_all(self, calls: Seq<Call>) -> RequestContractView
        decreases calls.len(),
    {
        if calls.len() == 0 {
            self
        } else {
            self.after_all(calls.drop_last()).after(calls.last())
        }
    }

    /// The identifiers that the creations of a run returned, oldest first.
    pub open spec fn issued_ids(self, calls: Seq<Call>) -> Seq<u64>
        decreases calls.len(),
    {
        if calls.len() == 0 {
            Seq::empty()
        } else {
            let earlier = self.issued_ids(calls.drop_last());
            let before = self.after_all(calls.drop_last());
            match calls.last() {
                Call::CreateRequest { now, ask } => match before.create_outcome(now, ask) {
                    Ok(id) => earlier.push(id),
                    Err(_) => earlier,
                },
                _ => earlier,
            }
        }
    }
}

/// A proposal is accepted exactly when the contract has an administrator,
/// the hospital that proposes is that administrator, the quantity lies
/// between 50 and 5000 millilitres, the deadline lies after `now` and no more
/// than thirty days after it, and there is a delivery address. What is wrong
/// with the quantity is reported before what is wrong with the deadline, and
/// that before a missing address.
pub proof fn lemma_proposal_is_accepted_exactly_when_admissible(
    before: RequestContractView,
    now: u64,
    ask: Proposal,
)
    ensures
        before.create_outcome(now, ask) is Ok <==> {
            &&& before.is_admin(ask.hospital_id)
            &&& 50 <= ask.quantity_ml <= 5000
            &&& now < ask.required_by <= now + 30 * 86400
            &&& ask.delivery_address.len() > 0
        },
        before.is_admin(ask.hospital_id) && !(50 <= ask.quantity_ml <= 5000)
            ==> before.create_outcome(now, ask) == Err::<u64, ContractError>(
            ContractError::InvalidQuantity,
        ),
        before.is_admin(ask.hospital_id) && 50 <= ask.quantity_ml <= 5000 && !(now
            < ask.required_by <= now + 30 * 86400) ==> before.create_outcome(now, ask) == Err::<
            u64,
            ContractError,
        >(ContractError::InvalidTimestamp),
{
}

/// The check of a stored request, made at the time of its creation on the
/// request that a proposal becomes, refuses what the checks before creation
/// refuse, with the same error, and nothing else.
pub proof fn lemma_checks_before_and_after_creation_agree(ask: Proposal, id: u64, now: u64)
    ensures
        ask.accepted(id, now).verdict(now) == if creation_verdict(
            ask.quantity_ml,
            ask.required_by,
            now,
        ) is Err {
            creation_verdict(ask.quantity_ml, ask.required_by, now)
        } else {
            address_verdict(ask.delivery_address)
        },
{
}

/// A request that has just been created is stored under the identifier that
/// was returned, is pending, has no time of fulfillment and no units, and
/// passes the check of a stored request.
pub proof fn lemma_new_request_is_pending_and_valid(
    before: RequestContractView,
    now: u64,
    ask: Proposal,
)
    requires
        before.store.request_counter < u64::MAX,
    ensures
        before.create_outcome(now, ask) matches Ok(id) ==> {
            let created = before.after_create(now, ask).store.requests[id];
            &&& id == before.store.request_counter + 1
            &&& before.after_create(now, ask).store.requests.contains_key(id)
            &&& created == ask.accepted(id, now)
            &&& created.status == RequestStatus::Pending
            &&& created.fulfilled_at is None
            &&& created.assigned_units.len() == 0
            &&& created.verdict(now) is Ok
        },
{
}

/// An accepted move to `Fulfilled` sets the time of fulfillment to the time
/// of the call. An accepted move to any other status from any status but
/// `Fulfilled` leaves the request without one. The one move out of
/// `Fulfilled`, to `Completed`, keeps the time that was set.
pub proof fn lemma_move_sets_fulfilled_at_exactly_on_fulfillment(
    before: RequestContractView,
    now: u64,
    caller: Seq<u8>,
    request_id: u64,
    new_status: RequestStatus,
)
    requires
        before.well_formed(),
        before.update_outcome(caller, request_id, new_status) is Ok,
    ensures
        ({
            let old_request = before.store.requests[request_id];
            let new_request = before.after_update(now, request_id, new_status).store.requests[request_id];
            &&& new_request.status == new_status
            &&& new_status == RequestStatus::Fulfilled ==> new_request.fulfilled_at == Some(now)
            &&& new_status != RequestStatus::Fulfilled && old_request.status
                != RequestStatus::Fulfilled ==> new_request.fulfilled_at is None
            &&& old_request.status == RequestStatus::Fulfilled ==> new_status
                == RequestStatus::Completed && new_request.fulfilled_at
                == old_request.fulfilled_at
        }),
{
    assert(before.store.requests.contains_key(request_id));
}

/// A call moves the counter on by one if it is an accepted creation, and
/// leaves it alone otherwise.
pub proof fn lemma_call_moves_counter_by_at_most_one(before: RequestContractView, call: Call)
    requires
        before.store.request_counter < u64::MAX,
    ensures
        before.after(call).store.request_counter == before.store.request_counter + (if call is CreateRequest
            && before.accepts(call) {
            1int
        } else {
            0int
        }),
{
}

/// No call takes well-formedness away: after it, every request is still
/// stored under its own identifier, within the identifiers given out, with
/// an admissible quantity and deadline, a delivery address, and a time of
/// fulfillment exactly if it was fulfilled.
pub proof fn lemma_call_keeps_well_formed(before: RequestContractView, call: Call)
    requires
        before.well_formed(),
        before.store.request_counter < u64::MAX,
    ensures
        before.after(call).well_formed(),
{
    let after = before.after(call);
    assert forall|id: u64| #[trigger] after.store.requests.contains_key(id) implies {
        &&& after.store.requests[id].id == id
        &&& 1 <= id <= after.store.request_counter
        &&& after.store.requests[id].well_formed()
    } by {
        if before.accepts(call) {
            match call {
                Call::Initialize { .. } => {
                    assert(before.store.requests.contains_key(id));
                },
                Call::CreateRequest { .. } => {
                    if id != before.store.request_counter + 1 {
                        assert(before.store.requests.contains_key(id));
                    }
                },
                Call::UpdateRequestStatus { request_id, .. } => {
                    assert(before.store.requests.contains_key(request_id));
                    if id != request_id {
                        assert(before.store.requests.contains_key(id));
                    }
                },
                Call::AssignBloodUnits { request_id, .. } => {
                    assert(before.store.requests.contains_key(request_id));
                    if id != request_id {
                        assert(before.store.requests.contains_key(id));
                    }
                },
            }
        } else {
            assert(before.store.requests.contains_key(id));
        }
    }
}

/// Over a run the counter moves on by exactly the number of identifiers
/// given out.
pub proof fn lemma_run_counts_issued_ids(start: RequestContractView, calls: Seq<Call>)
    requires
        start.store.request_counter + calls.len() <= u64::MAX,
    ensures
        start.issued_ids(calls).len() <= calls.len(),
        start.after_all(calls).store.request_counter == start.store.request_counter
            + start.issued_ids(calls).len(),
    decreases calls.len(),
{
    if calls.len() > 0 {
        lemma_run_counts_issued_ids(start, calls.drop_last());
        lemma_call_moves_counter_by_at_most_one(start.after_all(calls.drop_last()), calls.last());
    }
}

/// The creations of a run are numbered in sequence, without gaps or
/// repeats: the first gets the identifier after the counter that the run
/// started with, and each later one the identifier after the one before.
/// Calls that fail, and calls of other operations, take up no identifier. A
/// run that starts on a new contract numbers its requests 1, 2, 3 and so on.
pub proof fn lemma_ids_are_issued_in_sequence(start: RequestContractView, calls: Seq<Call>)
    requires
        start.store.request_counter + calls.len() <= u64::MAX,
    ensures
        forall|i: int|
            0 <= i < start.issued_ids(calls).len() ==> #[trigger] start.issued_ids(calls)[i]
                == start.store.request_counter + 1 + i,
    decreases calls.len(),
{
    if calls.len() > 0 {
        lemma_ids_are_issued_in_sequence(start, calls.drop_last());
        lemma_run_counts_issued_ids(start, calls.drop_last());
    }
}

/// Well-formedness holds all through a run that starts well formed; a new
/// contract is well formed.
pub proof fn lemma_run_keeps_well_formed(start: RequestContractView, calls: Seq<Call>)
    requires
        start.well_formed(),
        start.store.request_counter + calls.len() <= u64::MAX,
    ensures
        start.after_all(calls).well_formed(),
        RequestContractView::empty().well_formed(),
    decreases calls.len(),
{
    if calls.len() > 0 {
        lemma_run_keeps_well_formed(start, calls.drop_last());
        lemma_run_counts_issued_ids(start, calls.drop_last());
        lemma_call_keeps_well_formed(start.after_all(calls.drop_last()), calls.last());
    }
}

/// The administrator is set once: no run changes an administrator that is
/// there when it starts.
pub proof fn lemma_run_keeps_admin(start: RequestContractView, calls: Seq<Call>)
    requires
        start.store.admin is Some,
    ensures
        start.after_all(calls).store.admin == start.store.admin,
    decreases calls.len(),
{
    if calls.len() > 0 {
        lemma_run_keeps_admin(start, calls.drop_last());
    }
}

/// A call leaves the time of fulfillment of a stored request as it was,
/// unless the call is the accepted move of that request to `Fulfilled`, which
/// sets it to the time of the call. A time of fulfillment that is set is
/// therefore kept by every call: the only move that would write it starts
/// from `Approved`, where none is set.
pub proof fn lemma_call_sets_fulfilled_at_only_on_fulfillment(
    before: RequestContractView,
    call: Call,
    id: u64,
)
    requires
        before.well_formed(),
        before.store.request_counter < u64::MAX,
        before.store.requests.contains_key(id),
    ensures
        before.after(call).store.requests.contains_key(id),
        before.after(call).store.requests[id].fulfilled_at == if (call matches Call::UpdateRequestStatus {
            now,
            request_id,
            new_status,
            ..
        } && request_id == id && new_status == RequestStatus::Fulfilled && before.accepts(call)) {
            Some(call->UpdateRequestStatus_now)
        } else {
            before.store.requests[id].fulfilled_at
        },
        before.store.requests[id].fulfilled_at is Some ==> before.after(
            call,
        ).store.requests[id].fulfilled_at == before.store.requests[id].fulfilled_at,
{
    if before.accepts(call) {
        match call {
            Call::UpdateRequestStatus { request_id, .. } => {
                assert(before.store.requests.contains_key(request_id));
            },
            Call::AssignBloodUnits { request_id, .. } => {
                assert(before.store.requests.contains_key(request_id));
            },
            _ => {},
        }
    }
}

/// A time of fulfillment, once set, is the same after any run.
pub proof fn lemma_run_keeps_fulfilled_at(start: RequestContractView, calls: Seq<Call>, id: u64)
    requires
        start.well_formed(),
        start.store.request_counter + calls.len() <= u64::MAX,
        start.store.requests.contains_key(id),
        start.store.requests[id].fulfilled_at is Some,
    ensures
        start.after_all(calls).store.requests.contains_key(id),
        start.after_all(calls).store.requests[id].fulfilled_at
            == start.store.requests[id].fulfilled_at,
    decreases calls.len(),
{
    if calls.len() > 0 {
        let earlier = calls.drop_last();
        lemma_run_keeps_fulfilled_at(start, earlier, id);
        lemma_run_keeps_well_formed(start, earlier);
        lemma_run_counts_issued_ids(start, earlier);
        lemma_call_sets_fulfilled_at_only_on_fulfillment(
            start.after_all(earlier),
            calls.last(),
            id,
        );
    }
}

/// A call changes of a stored request only what the call is for. The status
/// of the request stays, or moves along one edge of the lifecycle; its units
/// stay unless the call is an accepted assignment to it; and who asked, for
/// what, under which identifier, when and until when, where to deliver and
/// for whom all stay as they were.
pub proof fn lemma_call_changes_only_what_it_is_for(
    before: RequestContractView,
    call: Call,
    id: u64,
)
    requires
        before.well_formed(),
        before.store.request_counter < u64::MAX,
        before.store.requests.contains_key(id),
    ensures
        ({
            let old_request = before.store.requests[id];
            let new_request = before.after(call).store.requests[id];
            &&& new_request.status == old_request.status || old_request.status.permits(
                new_request.status,
            )
            &&& new_request.assigned_units == if (call matches Call::AssignBloodUnits {
                request_id,
                ..
            } && request_id == id && before.accepts(call)) {
                call->AssignBloodUnits_units
            } else {
                old_request.assigned_units
            }
            &&& new_request.id == old_request.id
            &&& new_request.hospital_id == old_request.hospital_id
            &&& new_request.blood_type == old_request.blood_type
            &&& new_request.quantity_ml == old_request.quantity_ml
            &&& new_request.urgency == old_request.urgency
            &&& new_request.created_at == old_request.created_at
            &&& new_request.required_by == old_request.required_by
            &&& new_request.delivery_address == old_request.delivery_address
            &&& new_request.metadata == old_request.metadata
        }),
{
    if before.accepts(call) {
        match call {
            Call::UpdateRequestStatus { request_id, .. } => {
                assert(before.store.requests.contains_key(request_id));
            },
            Call::AssignBloodUnits { request_id, .. } => {
                assert(before.store.requests.contains_key(request_id));
            },
            _ => {},
        }
    }
}

/// What the contract has told is never taken back: a call that is refused,
/// and an initialization, tell nothing, and every other accepted call adds
/// one notification after those that were there.
pub proof fn lemma_call_tells_at_most_once(before: RequestContractView, call: Call)
    ensures
        before.after(call).events.len() == before.events.len() + (if before.accepts(call)
            && !(call is Initialize) {
            1int
        } else {
            0int
        }),
        before.after(call).events.subrange(0, before.events.len() as int) == before.events,
{
    assert(before.after(call).events.subrange(0, before.events.len() as int) =~= before.events);
}

/// A request that has reached the end of its lifecycle is moved by no one,
/// and a pending request is not moved straight to `Fulfilled`.
pub proof fn lemma_closed_moves_are_refused(
    before: RequestContractView,
    caller: Seq<u8>,
    request_id: u64,
    new_status: RequestStatus,
)
    requires
        before.store.requests.contains_key(request_id),
        before.store.requests[request_id].status.terminal() || (before.store.requests[request_id].status
            == RequestStatus::Pending && new_status == RequestStatus::Fulfilled),
    ensures
        before.update_outcome(caller, request_id, new_status) is Err,
        before.is_admin(caller) ==> before.update_outcome(caller, request_id, new_status) == Err::<
            (),
            ContractError,
        >(ContractError::InvalidStatusTransition),
{
}

/// The administrator can take a pending request through approval and
/// fulfillment to completion, one move after the other, whatever the times
/// of the three calls.
pub proof fn lemma_pending_request_can_run_to_completion(
    before: RequestContractView,
    admin: Seq<u8>,
    request_id: u64,
    approved_at: u64,
    fulfilled_at: u64,
    completed_at: u64,
)
    requires
        before.well_formed(),
        before.is_admin(admin),
        before.store.requests.contains_key(request_id),
        before.store.requests[request_id].status == RequestStatus::Pending,
    ensures
        ({
            let approved = before.after_update(approved_at, request_id, RequestStatus::Approved);
            let fulfilled = approved.after_update(fulfilled_at, request_id, RequestStatus::Fulfilled);
            let completed = fulfilled.after_update(
                completed_at,
                request_id,
                RequestStatus::Completed,
            );
            &&& before.update_outcome(admin, request_id, RequestStatus::Approved) is Ok
            &&& approved.update_outcome(admin, request_id, RequestStatus::Fulfilled) is Ok
            &&& fulfilled.update_outcome(admin, request_id, RequestStatus::Completed) is Ok
            &&& completed.store.requests[request_id].status == RequestStatus::Completed
            &&& completed.store.requests[request_id].fulfilled_at == Some(fulfilled_at)
        }),
{
}

} // verus!
