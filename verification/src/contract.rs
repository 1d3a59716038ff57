//! The request contract: who may create a request, how a request moves
//! through its lifecycle, and what is stored and told at each step.
//!
//! Every operation either succeeds and changes the contract as its model
//! says, or fails with one error and changes nothing. The caller of an
//! operation is the party whose identity the host has already authenticated,
//! and `now` is the time of the ledger at the call.

use vstd::prelude::*;
use crate::error::ContractError;
use crate::events::{
    emit_request_created, emit_request_status_changed, emit_units_assigned, log_view,
    ContractEvent, ContractEventView,
};
use crate::host::{address_key, copy_address, copy_units, no_units, text_bytes, unit_list};
use crate::storage::{
    get_blood_request, get_request_counter, has_admin, increment_request_id,
    is_authorized_blood_bank, is_authorized_hospital, set_admin, set_blood_request, RequestStore,
    RequestStoreState,
};
use crate::types::{
    BloodRequest, BloodRequestView, BloodType, RequestMetadata, RequestMetadataView,
    RequestStatus, UrgencyLevel,
};
use crate::validation::{
    address_verdict, creation_verdict, validate_blood_type, validate_delivery_address,
    validate_request_creation,
};

verus! {

/// The contract: its store, and the notifications it has given out and that
/// have not been collected yet.
pub struct RequestContract {
    pub store: RequestStore,
    pub events: Vec<ContractEvent>,
}

/// What a [`RequestContract`] holds.
pub struct RequestContractView {
    pub store: RequestStoreState,
    pub events: Seq<ContractEventView>,
}

impl View for RequestContract {
    type V = RequestContractView;

    open spec fn view(&self) -> RequestContractView {
        RequestContractView { store: self.store@, events: log_view(self.events@) }
    }
}

/// What a hospital proposes when it asks for blood.
pub struct Proposal {
    pub hospital_id: Seq<u8>,
    pub blood_type: BloodType,
    pub quantity_ml: u32,
    pub urgency: UrgencyLevel,
    pub required_by: u64,
    pub delivery_address: Seq<u8>,
    pub metadata: RequestMetadataView,
}

impl Proposal {
    /// The request that the proposal becomes when it is accepted at `now`
    /// under the identifier `id`: pending, not fulfilled, no units assigned.
    pub open spec fn accepted(self, id: u64, now: u64) -> BloodRequestView {
        BloodRequestView {
            id,
            hospital_id: self.hospital_id,
            blood_type: self.blood_type,
            quantity_ml: self.quantity_ml,
            urgency: self.urgency,
            status: RequestStatus::Pending,
            created_at: now,
            required_by: self.required_by,
            fulfilled_at: None,
            assigned_units: Seq::empty(),
            delivery_address: self.delivery_address,
            metadata: self.metadata,
        }
    }
}

impl BloodRequestView {
    /// The request after it has moved to `new_status` at `now`. The time of
    /// fulfillment is set on the move to `Fulfilled` and kept on any other.
    pub open spec fn moved_to(self, new_status: RequestStatus, now: u64) -> BloodRequestView {
        BloodRequestView {
            status: new_status,
            fulfilled_at: if new_status == RequestStatus::Fulfilled {
                Some(now)
            } else {
                self.fulfilled_at
            },
            ..self
        }
    }

    /// The request with `units` in place of the units assigned before.
    pub open spec fn with_units(self, units: Seq<u64>) -> BloodRequestView {
        BloodRequestView { assigned_units: units, ..self }
    }
}

impl RequestContractView {
    /// A contract that was never initialized.
    pub open spec fn empty() -> RequestContractView {
        RequestContractView { store: RequestStoreState::empty(), events: Seq::empty() }
    }

    /// What holds of a contract after any run of its operations.
    pub open spec fn well_formed(self) -> bool {
        self.store.well_formed()
    }

    /// Whether `caller` is the administrator.
    pub open spec fn is_admin(self, caller: Seq<u8>) -> bool {
        self.store.admin == Some(caller)
    }

    /// The answer to an attempt to initialize.
    pub open spec fn initialize_outcome(self) -> Result<(), ContractError> {
        if self.store.admin is Some {
            Err(ContractError::AlreadyInitialized)
        } else {
            Ok(())
        }
    }

    /// The contract after `admin` has initialized it.
    pub open spec fn after_initialize(self, admin: Seq<u8>) -> RequestContractView {
        RequestContractView {
            store: RequestStoreState { admin: Some(admin), ..self.store },
            ..self
        }
    }

    /// The answer to a proposal made at `now`: the identifier of the new
    /// request, or the first of these that applies: the contract has no
    /// administrator; the hospital is not the administrator; the quantity
    /// is out of range; the deadline is out of its window; the delivery
    /// address is empty.
    pub open spec fn create_outcome(self, now: u64, ask: Proposal) -> Result<u64, ContractError>
        recommends
            self.store.request_counter < u64::MAX,
    {
        if self.store.admin is None {
            Err(ContractError::NotInitialized)
        } else if !self.is_admin(ask.hospital_id) {
            Err(ContractError::NotAuthorizedHospital)
        } else if creation_verdict(ask.quantity_ml, ask.required_by, now) is Err {
            Err(creation_verdict(ask.quantity_ml, ask.required_by, now)->Err_0)
        } else if address_verdict(ask.delivery_address) is Err {
            Err(address_verdict(ask.delivery_address)->Err_0)
        } else {
            Ok((self.store.request_counter + 1) as u64)
        }
    }

    /// The contract after it has accepted a proposal at `now`: the counter
    /// has moved on by one, the new request is stored under the new
    /// identifier, and its creation has been told.
    pub open spec fn after_create(self, now: u64, ask: Proposal) -> RequestContractView
        recommends
            self.store.request_counter < u64::MAX,
    {
        let id = (self.store.request_counter + 1) as u64;
        RequestContractView {
            store: RequestStoreState {
                request_counter: id,
                requests: self.store.requests.insert(id, ask.accepted(id, now)),
                ..self.store
            },
            events: self.events.push(
                ContractEventView::RequestCreated {
                    request_id: id,
                    hospital_id: ask.hospital_id,
                    blood_type: ask.blood_type,
                    quantity_ml: ask.quantity_ml,
                    urgency: ask.urgency,
                    required_by: ask.required_by,
                    created_at: now,
                },
            ),
        }
    }

    /// The first reason, if any, for which `caller` may not change the
    /// request under `request_id`: the contract has no administrator; the
    /// caller is not the administrator; there is no such request.
    pub open spec fn change_refusal(self, caller: Seq<u8>, request_id: u64) -> Option<
        ContractError,
    > {
        if self.store.admin is None {
            Some(ContractError::NotInitialized)
        } else if !self.is_admin(caller) {
            Some(ContractError::Unauthorized)
        } else if !self.store.requests.contains_key(request_id) {
            Some(ContractError::RequestNotFound)
        } else {
            None
        }
    }

    /// The answer to an attempt by `caller` to move the request under
    /// `request_id` to `new_status`.
    pub open spec fn update_outcome(
        self,
        caller: Seq<u8>,
        request_id: u64,
        new_status: RequestStatus,
    ) -> Result<(), ContractError> {
        if self.change_refusal(caller, request_id) is Some {
            Err(self.change_refusal(caller, request_id)->0)
        } else if !self.store.requests[request_id].status.permits(new_status) {
            Err(ContractError::InvalidStatusTransition)
        } else {
            Ok(())
        }
    }

    /// The contract after the request under `request_id` has moved to
    /// `new_status` at `now`: the request is stored again, and the move has
    /// been told with the status before and after.
    pub open spec fn after_update(
        self,
        now: u64,
        request_id: u64,
        new_status: RequestStatus,
    ) -> RequestContractView {
        let before = self.store.requests[request_id];
        RequestContractView {
            store: RequestStoreState {
                requests: self.store.requests.insert(before.id, before.moved_to(new_status, now)),
                ..self.store
            },
            events: self.events.push(
                ContractEventView::RequestStatusChanged {
                    request_id,
                    old_status: before.status,
                    new_status,
                    changed_at: now,
                },
            ),
        }
    }

    /// The answer to an attempt by `caller` to assign units to the request
    /// under `request_id`.
    pub open spec fn assign_outcome(self, caller: Seq<u8>, request_id: u64) -> Result<
        (),
        ContractError,
    > {
        if self.change_refusal(caller, request_id) is Some {
            Err(self.change_refusal(caller, request_id)->0)
        } else {
            Ok(())
        }
    }

    /// The contract after `units` have been assigned at `now` to the request
    /// under `request_id`, in place of any assigned before.
    pub open spec fn after_assign(
        self,
        now: u64,
        request_id: u64,
        units: Seq<u64>,
    ) -> RequestContractView {
        let before = self.store.requests[request_id];
        RequestContractView {
            store: RequestStoreState {
                requests: self.store.requests.insert(before.id, before.with_units(units)),
                ..self.store
            },
            events: self.events.push(
                ContractEventView::UnitsAssigned {
                    request_id,
                    assigned_units: units,
                    assigned_at: now,
                },
            ),
        }
    }
}

/// The proposal that the arguments of [`RequestContract::create_request`]
/// make.
pub open spec fn proposal_of(
    hospital_id: soroban_sdk::Address,
    blood_type: BloodType,
    quantity_ml: u32,
    urgency: UrgencyLevel,
    required_by: u64,
    delivery_address: soroban_sdk::String,
    patient_id: soroban_sdk::Address,
    procedure: soroban_sdk::String,
    notes: soroban_sdk::String,
) -> Proposal {
    Proposal {
        hospital_id: address_key(hospital_id),
        blood_type,
        quantity_ml,
        urgency,
        required_by,
        delivery_address: text_bytes(delivery_address),
        metadata: RequestMetadataView {
            patient_id: address_key(patient_id),
            procedure: text_bytes(procedure),
            notes: text_bytes(notes),
        },
    }
}

impl RequestContract {
    /// Creates a contract that was never initialized.
    pub fn new() -> (contract: RequestContract)
        ensures
            contract@ == RequestContractView::empty(),
            contract@.well_formed(),
    {
        let contract = RequestContract { store: RequestStore::new(), events: Vec::new() };
        assert(contract@.events =~= Seq::empty());
        contract
    }

    /// Makes `admin` the administrator of a contract that has none yet. This
    /// can be done once.
    pub fn initialize(&mut self, admin: soroban_sdk::Address) -> (res: Result<(), ContractError>)
        ensures
            res == old(self)@.initialize_outcome(),
            res is Ok ==> final(self)@ == old(self)@.after_initialize(address_key(admin)),
            res is Err ==> final(self)@ == old(self)@,
            old(self)@.well_formed() ==> final(self)@.well_formed(),
    {
        if has_admin(&self.store) {
            return Err(ContractError::AlreadyInitialized);
        }
        set_admin(&mut self.store, &admin);
        Ok(())
    }

    /// Creates a request for the hospital that calls, and returns its
    /// identifier.
    ///
    /// The proposal is checked before anything is changed, and the request
    /// that it becomes is checked once more before it is stored. The counter
    /// must have an identifier left to give.
    pub fn create_request(
        &mut self,
        now: u64,
        hospital_id: soroban_sdk::Address,
        blood_type: BloodType,
        quantity_ml: u32,
        urgency: UrgencyLevel,
        required_by: u64,
        delivery_address: soroban_sdk::String,
        patient_id: soroban_sdk::Address,
        procedure: soroban_sdk::String,
        notes: soroban_sdk::String,
    ) -> (res: Result<u64, ContractError>)
        requires
            old(self)@.store.request_counter < u64::MAX,
        ensures
            res == old(self)@.create_outcome(
                now,
                proposal_of(
                    hospital_id,
                    blood_type,
                    quantity_ml,
                    urgency,
                    required_by,
                    delivery_address,
                    patient_id,
                    procedure,
                    notes,
                ),
            ),
            res is Ok ==> final(self)@ == old(self)@.after_create(
                now,
                proposal_of(
                    hospital_id,
                    blood_type,
                    quantity_ml,
                    urgency,
                    required_by,
                    delivery_address,
                    patient_id,
                    procedure,
                    notes,
                ),
            ),
            res is Err ==> final(self)@ == old(self)@,
            old(self)@.well_formed() ==> final(self)@.well_formed(),
    {
        if !has_admin(&self.store) {
            return Err(ContractError::NotInitialized);
        }
        if !is_authorized_hospital(&self.store, &hospital_id) {
            return Err(ContractError::NotAuthorizedHospital);
        }
        match validate_request_creation(quantity_ml, required_by, now) {
            Err(e) => return Err(e),
            Ok(()) => {},
        }
        match validate_delivery_address(&delivery_address) {
            Err(e) => return Err(e),
            Ok(()) => {},
        }
        match validate_blood_type(&blood_type) {
            Err(e) => return Err(e),
            Ok(()) => {},
        }
        let request_id: u64 = get_request_counter(&self.store) + 1;
        let request = BloodRequest {
            id: request_id,
            hospital_id: copy_address(&hospital_id),
            blood_type,
            quantity_ml,
            urgency,
            status: RequestStatus::Pending,
            created_at: now,
            required_by,
            fulfilled_at: None,
            assigned_units: no_units(&hospital_id),
            delivery_address,
            metadata: RequestMetadata { patient_id, procedure, notes },
        };
        match request.validate(now) {
            Err(e) => return Err(e),
            Ok(()) => {},
        }
        let issued = increment_request_id(&mut self.store);
        set_blood_request(&mut self.store, &request);
        emit_request_created(
            &mut self.events,
            now,
            issued,
            &hospital_id,
            blood_type,
            quantity_ml,
            urgency,
            required_by,
        );
        Ok(issued)
    }

    /// Moves the request under `request_id` to `new_status`, on behalf of
    /// the administrator. A move to `Fulfilled` records `now` as the time of
    /// fulfillment.
    pub fn update_request_status(
        &mut self,
        now: u64,
        caller: &soroban_sdk::Address,
        request_id: u64,
        new_status: RequestStatus,
    ) -> (res: Result<(), ContractError>)
        ensures
            res == old(self)@.update_outcome(address_key(*caller), request_id, new_status),
            res is Ok ==> final(self)@ == old(self)@.after_update(now, request_id, new_status),
            res is Err ==> final(self)@ == old(self)@,
            old(self)@.well_formed() ==> final(self)@.well_formed(),
    {
        if !has_admin(&self.store) {
            return Err(ContractError::NotInitialized);
        }
        if !is_authorized_blood_bank(&self.store, caller) {
            return Err(ContractError::Unauthorized);
        }
        let mut request = match get_blood_request(&self.store, request_id) {
            Some(request) => request,
            None => return Err(ContractError::RequestNotFound),
        };
        if !request.status.can_transition_to(&new_status) {
            return Err(ContractError::InvalidStatusTransition);
        }
        let old_status = request.status;
        request.status = new_status;
        if new_status == RequestStatus::Fulfilled {
            request.fulfilled_at = Some(now);
        }
        set_blood_request(&mut self.store, &request);
        emit_request_status_changed(&mut self.events, now, request_id, old_status, new_status);
        Ok(())
    }

    /// Assigns `unit_ids` to the request under `request_id`, in place of any
    /// units assigned before, on behalf of the administrator.
    ///
    /// The units are taken as given: they are not counted, not held against
    /// the quantity asked for, and not checked for repeats.
    pub fn assign_blood_units(
        &mut self,
        now: u64,
        caller: &soroban_sdk::Address,
        request_id: u64,
        unit_ids: soroban_sdk::Vec<u64>,
    ) -> (res: Result<(), ContractError>)
        ensures
            res == old(self)@.assign_outcome(address_key(*caller), request_id),
            res is Ok ==> final(self)@ == old(self)@.after_assign(
                now,
                request_id,
                unit_list(unit_ids),
            ),
            res is Err ==> final(self)@ == old(self)@,
            old(self)@.well_formed() ==> final(self)@.well_formed(),
    {
        if !has_admin(&self.store) {
            return Err(ContractError::NotInitialized);
        }
        if !is_authorized_blood_bank(&self.store, caller) {
            return Err(ContractError::Unauthorized);
        }
        let mut request = match get_blood_request(&self.store, request_id) {
            Some(request) => request,
            None => return Err(ContractError::RequestNotFound),
        };
        request.assigned_units = copy_units(&unit_ids);
        set_blood_request(&mut self.store, &request);
        emit_units_assigned(&mut self.events, now, request_id, unit_ids);
        Ok(())
    }

    /// Returns the request under `request_id`.
    pub fn get_request(&self, request_id: u64) -> (res: Result<BloodRequest, ContractError>)
        ensures
            match res {
                Ok(request) => self@.store.requests.contains_key(request_id) && request@
                    == self@.store.requests[request_id],
                Err(e) => e == ContractError::RequestNotFound
                    && !self@.store.requests.contains_key(request_id),
            },
    {
        match get_blood_request(&self.store, request_id) {
            Some(request) => Ok(request),
            None => Err(ContractError::RequestNotFound),
        }
    }
}

} // verus!
