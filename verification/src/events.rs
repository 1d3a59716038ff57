//! The notifications that the contract gives out, and the log they are
//! written to.
//!
//! Emitting appends to a log and does nothing else; whoever runs the
//! contract publishes what the log holds once the call has succeeded.

use vstd::prelude::*;
use crate::host::{address_key, copy_address, copy_units, unit_list};
use crate::types::{BloodType, RequestStatus, UrgencyLevel};

verus! {

/// Tells that a request was created.
#[derive(Debug)]
pub struct RequestCreatedEvent {
    pub request_id: u64,
    pub hospital_id: soroban_sdk::Address,
    pub blood_type: BloodType,
    pub quantity_ml: u32,
    pub urgency: UrgencyLevel,
    pub required_by: u64,
    pub created_at: u64,
}

/// Tells that a request moved from one status to another.
#[derive(Copy, Clone, Debug, PartialEq, Eq, Structural)]
pub struct RequestStatusChangedEvent {
    pub request_id: u64,
    pub old_status: RequestStatus,
    pub new_status: RequestStatus,
    pub changed_at: u64,
}

/// Tells that blood units were assigned to a request.
#[derive(Debug)]
pub struct UnitsAssignedEvent {
    pub request_id: u64,
    pub assigned_units: soroban_sdk::Vec<u64>,
    pub assigned_at: u64,
}

/// A notification of any of the three kinds.
#[derive(Debug)]
pub enum ContractEvent {
    RequestCreated(RequestCreatedEvent),
    RequestStatusChanged(RequestStatusChangedEvent),
    UnitsAssigned(UnitsAssignedEvent),
}

/// What a [`ContractEvent`] tells.
pub enum ContractEventView {
    RequestCreated {
        request_id: u64,
        hospital_id: Seq<u8>,
        blood_type: BloodType,
        quantity_ml: u32,
        urgency: UrgencyLevel,
        required_by: u64,
        created_at: u64,
    },
    RequestStatusChanged {
        request_id: u64,
        old_status: RequestStatus,
        new_status: RequestStatus,
        changed_at: u64,
    },
    UnitsAssigned { request_id: u64, assigned_units: Seq<u64>, assigned_at: u64 },
}

impl ContractEventView {
    /// The topic that a notification is published under.
    pub open spec fn topic(self) -> Seq<char> {
        match self {
            ContractEventView::RequestCreated { .. } => "request_created"@,
            ContractEventView::RequestStatusChanged { .. } => "request_status_changed"@,
            ContractEventView::UnitsAssigned { .. } => "units_assigned"@,
        }
    }
}

impl View for ContractEvent {
    type V = ContractEventView;

    open spec fn view(&self) -> ContractEventView {
        match *self {
            ContractEvent::RequestCreated(e) => ContractEventView::RequestCreated {
                request_id: e.request_id,
                hospital_id: address_key(e.hospital_id),
                blood_type: e.blood_type,
                quantity_ml: e.quantity_ml,
                urgency: e.urgency,
                required_by: e.required_by,
                created_at: e.created_at,
            },
            ContractEvent::RequestStatusChanged(e) => ContractEventView::RequestStatusChanged {
                request_id: e.request_id,
                old_status: e.old_status,
                new_status: e.new_status,
                changed_at: e.changed_at,
            },
            ContractEvent::UnitsAssigned(e) => ContractEventView::UnitsAssigned {
                request_id: e.request_id,
                assigned_units: unit_list(e.assigned_units),
                assigned_at: e.assigned_at,
            },
        }
    }
}

impl Clone for RequestCreatedEvent {
    /// Returns an event that tells what this one tells.
    fn clone(&self) -> (copy: Self)
        ensures
            ContractEvent::RequestCreated(copy)@ == ContractEvent::RequestCreated(*self)@,
    {
        RequestCreatedEvent {
            request_id: self.request_id,
            hospital_id: copy_address(&self.hospital_id),
            blood_type: self.blood_type,
            quantity_ml: self.quantity_ml,
            urgency: self.urgency,
            required_by: self.required_by,
            created_at: self.created_at,
        }
    }
}

impl Clone for UnitsAssignedEvent {
    /// Returns an event that tells what this one tells.
    fn clone(&self) -> (copy: Self)
        ensures
            ContractEvent::UnitsAssigned(copy)@ == ContractEvent::UnitsAssigned(*self)@,
    {
        UnitsAssignedEvent {
            request_id: self.request_id,
            assigned_units: copy_units(&self.assigned_units),
            assigned_at: self.assigned_at,
        }
    }
}

impl Clone for ContractEvent {
    /// Returns an event that tells what this one tells.
    fn clone(&self) -> (copy: Self)
        ensures
            copy@ == self@,
    {
        match self {
            ContractEvent::RequestCreated(e) => ContractEvent::RequestCreated(e.clone()),
            ContractEvent::RequestStatusChanged(e) => ContractEvent::RequestStatusChanged(*e),
            ContractEvent::UnitsAssigned(e) => ContractEvent::UnitsAssigned(e.clone()),
        }
    }
}

impl ContractEvent {
    /// Returns the topic that this notification is published under.
    pub fn topic(&self) -> (name: &'static str)
        ensures
            name@ == self@.topic(),
    {
        match self {
            ContractEvent::RequestCreated(_) => "request_created",
            ContractEvent::RequestStatusChanged(_) => "request_status_changed",
            ContractEvent::UnitsAssigned(_) => "units_assigned",
        }
    }
}

/// What a log of notifications tells, oldest first.
pub open spec fn log_view(log: Seq<ContractEvent>) -> Seq<ContractEventView> {
    log.map_values(|e: ContractEvent| e@)
}

/// Appending one notification to a log appends what it tells to what the
/// log tells.
pub proof fn lemma_log_view_push(log: Seq<ContractEvent>, event: ContractEvent)
    ensures
        log_view(log.push(event)) == log_view(log).push(event@),
{
    assert(log_view(log.push(event)) =~= log_view(log).push(event@));
}

/// Writes to the log that a request was created at `created_at`.
pub fn emit_request_created(
    log: &mut Vec<ContractEvent>,
    created_at: u64,
    request_id: u64,
    hospital_id: &soroban_sdk::Address,
    blood_type: BloodType,
    quantity_ml: u32,
    urgency: UrgencyLevel,
    required_by: u64,
)
    ensures
        log_view(final(log)@) == log_view(old(log)@).push(
            ContractEventView::RequestCreated {
                request_id,
                hospital_id: address_key(*hospital_id),
                blood_type,
                quantity_ml,
                urgency,
                required_by,
                created_at,
            },
        ),
{
    let event = ContractEvent::RequestCreated(
        RequestCreatedEvent {
            request_id,
            hospital_id: copy_address(hospital_id),
            blood_type,
            quantity_ml,
            urgency,
            required_by,
            created_at,
        },
    );
    proof {
        lemma_log_view_push(log@, event);
    }
    log.push(event);
}

/// Writes to the log that a request changed its status at `changed_at`.
pub fn emit_request_status_changed(
    log: &mut Vec<ContractEvent>,
    changed_at: u64,
    request_id: u64,
    old_status: RequestStatus,
    new_status: RequestStatus,
)
    ensures
        log_view(final(log)@) == log_view(old(log)@).push(
            ContractEventView::RequestStatusChanged {
                request_id,
                old_status,
                new_status,
                changed_at,
            },
        ),
{
    let event = ContractEvent::RequestStatusChanged(
        RequestStatusChangedEvent { request_id, old_status, new_status, changed_at },
    );
    proof {
        lemma_log_view_push(log@, event);
    }
    log.push(event);
}

/// Writes to the log that units were assigned to a request at `assigned_at`.
pub fn emit_units_assigned(
    log: &mut Vec<ContractEvent>,
    assigned_at: u64,
    request_id: u64,
    assigned_units: soroban_sdk::Vec<u64>,
)
    ensures
        log_view(final(log)@) == log_view(old(log)@).push(
            ContractEventView::UnitsAssigned {
                request_id,
                assigned_units: unit_list(assigned_units),
                assigned_at,
            },
        ),
{
    let event = ContractEvent::UnitsAssigned(
        UnitsAssignedEvent { request_id, assigned_units, assigned_at },
    );
    proof {
        lemma_log_view_push(log@, event);
    }
    log.push(event);
}

} // verus!
