//! The data of a blood request: its blood type, urgency and status, the
//! request itself, and what can be told of a request from its own fields.

use std::cmp::Ordering;
use vstd::prelude::*;
use vstd::std_specs::cmp::PartialOrdSpecImpl;
use crate::error::ContractError;
use crate::host::{address_key, copy_address, copy_text, copy_units, text_bytes, unit_list};
use crate::validation::{
    address_verdict, creation_verdict, deadline_in_window, overdue, quantity_in_range,
    time_until_deadline, validate_delivery_address, validate_request_creation,
};

verus! {

/// The eight ABO/Rh blood groups.
#[derive(Copy, Clone, Debug, PartialEq, Eq, Structural)]
pub enum BloodType {
    APositive,
    ANegative,
    BPositive,
    BNegative,
    ABPositive,
    ABNegative,
    OPositive,
    ONegative,
}

/// How pressing a request is, most severe first: a level is less than
/// another when it is the more severe of the two.
#[derive(Copy, Clone, Debug, PartialEq, Eq, Structural, Ord)]
pub enum UrgencyLevel {
    /// Life-threatening, to be fulfilled within the hour.
    Critical,
    /// High priority, to be fulfilled within hours.
    Urgent,
    /// Standard priority, to be fulfilled within a day.
    Normal,
}

/// The stage of its lifecycle that a request is in.
///
/// ```text
/// Pending -> Approved -> Fulfilled -> Completed
///    |          \-> Cancelled
///    |-> Rejected
///    \-> Cancelled
/// ```
#[derive(Copy, Clone, Debug, PartialEq, Eq, Structural)]
pub enum RequestStatus {
    /// Initial state, awaiting approval.
    Pending,
    /// Approved, awaiting fulfillment.
    Approved,
    /// Units assigned and being prepared.
    Fulfilled,
    /// Finished successfully.
    Completed,
    /// Turned down.
    Rejected,
    /// Withdrawn.
    Cancelled,
}

/// The edges of the lifecycle, as pairs of source and destination.
pub open spec fn lifecycle_edges() -> Set<(RequestStatus, RequestStatus)> {
    set![
        (RequestStatus::Pending, RequestStatus::Approved),
        (RequestStatus::Pending, RequestStatus::Rejected),
        (RequestStatus::Pending, RequestStatus::Cancelled),
        (RequestStatus::Approved, RequestStatus::Fulfilled),
        (RequestStatus::Approved, RequestStatus::Cancelled),
        (RequestStatus::Fulfilled, RequestStatus::Completed),
    ]
}

impl RequestStatus {
    /// Whether the lifecycle has an edge from `self` to `next`.
    pub open spec fn permits(self, next: RequestStatus) -> bool {
        lifecycle_edges().contains((self, next))
    }

    /// Whether no edge leaves `self`.
    pub open spec fn terminal(self) -> bool {
        self is Rejected || self is Completed || self is Cancelled
    }

    /// Checks whether a request in this status may move to `new_status`.
    pub fn can_transition_to(&self, new_status: &RequestStatus) -> (allowed: bool)
        ensures
            allowed == self.permits(*new_status),
    {
        match (*self, *new_status) {
            (RequestStatus::Pending, RequestStatus::Approved) => true,
            (RequestStatus::Pending, RequestStatus::Rejected) => true,
            (RequestStatus::Pending, RequestStatus::Cancelled) => true,
            (RequestStatus::Approved, RequestStatus::Fulfilled) => true,
            (RequestStatus::Approved, RequestStatus::Cancelled) => true,
            (RequestStatus::Fulfilled, RequestStatus::Completed) => true,
            _ => false,
        }
    }

    /// Checks whether this status ends the lifecycle.
    pub fn is_terminal(&self) -> (done: bool)
        ensures
            done == self.terminal(),
    {
        match self {
            RequestStatus::Rejected | RequestStatus::Completed | RequestStatus::Cancelled => true,
            _ => false,
        }
    }
}

/// The statuses that end the lifecycle are exactly those that no edge
/// leaves; `Pending` has no edge straight to `Fulfilled`; and the edges from
/// `Pending` through `Approved` and `Fulfilled` to `Completed` are all there.
pub proof fn lemma_lifecycle_shape(status: RequestStatus)
    ensures
        status.terminal() <==> (forall|next: RequestStatus| !status.permits(next)),
        !RequestStatus::Pending.permits(RequestStatus::Fulfilled),
        RequestStatus::Pending.permits(RequestStatus::Approved),
        RequestStatus::Approved.permits(RequestStatus::Fulfilled),
        RequestStatus::Fulfilled.permits(RequestStatus::Completed),
{
    if !status.terminal() {
        match status {
            RequestStatus::Pending => assert(status.permits(RequestStatus::Approved)),
            RequestStatus::Approved => assert(status.permits(RequestStatus::Fulfilled)),
            _ => assert(status.permits(RequestStatus::Completed)),
        }
    }
}

impl UrgencyLevel {
    /// The place of a level in the order of severity, counted from the most
    /// severe.
    pub open spec fn rank(self) -> int {
        match self {
            UrgencyLevel::Critical => 0,
            UrgencyLevel::Urgent => 1,
            UrgencyLevel::Normal => 2,
        }
    }
}

impl PartialOrd for UrgencyLevel {
    /// Compares two levels by severity; the more severe is the lesser.
    fn partial_cmp(&self, other: &Self) -> (res: Option<Ordering>) {
        let mine: u8 = match self {
            UrgencyLevel::Critical => 0,
            UrgencyLevel::Urgent => 1,
            UrgencyLevel::Normal => 2,
        };
        let theirs: u8 = match other {
            UrgencyLevel::Critical => 0,
            UrgencyLevel::Urgent => 1,
            UrgencyLevel::Normal => 2,
        };
        if mine < theirs {
            Some(Ordering::Less)
        } else if mine > theirs {
            Some(Ordering::Greater)
        } else {
            Some(Ordering::Equal)
        }
    }
}

impl PartialOrdSpecImpl for UrgencyLevel {
    open spec fn obeys_partial_cmp_spec() -> bool {
        true
    }

    open spec fn partial_cmp_spec(&self, other: &Self) -> Option<Ordering> {
        if self.rank() < other.rank() {
            Some(Ordering::Less)
        } else if self.rank() > other.rank() {
            Some(Ordering::Greater)
        } else {
            Some(Ordering::Equal)
        }
    }
}

impl UrgencyLevel {
    /// The longest a request of this urgency should wait, in seconds.
    pub open spec fn fulfillment_window(self) -> u64 {
        match self {
            UrgencyLevel::Critical => 3600,
            UrgencyLevel::Urgent => 21600,
            UrgencyLevel::Normal => 86400,
        }
    }

    /// Returns the longest a request of this urgency should wait, in
    /// seconds: one hour, six hours or one day.
    pub fn max_fulfillment_time(&self) -> (seconds: u64)
        ensures
            seconds == self.fulfillment_window(),
    {
        match self {
            UrgencyLevel::Critical => 3600,
            UrgencyLevel::Urgent => 21600,
            UrgencyLevel::Normal => 86400,
        }
    }
}

/// Context that travels with a request and is never interpreted.
#[derive(Debug)]
pub struct RequestMetadata {
    /// The patient the blood is for.
    pub patient_id: soroban_sdk::Address,
    /// The procedure or reason behind the request.
    pub procedure: soroban_sdk::String,
    /// Free-text notes.
    pub notes: soroban_sdk::String,
}

/// What a [`RequestMetadata`] holds.
pub struct RequestMetadataView {
    pub patient_id: Seq<u8>,
    pub procedure: Seq<u8>,
    pub notes: Seq<u8>,
}

impl View for RequestMetadata {
    type V = RequestMetadataView;

    open spec fn view(&self) -> RequestMetadataView {
        RequestMetadataView {
            patient_id: address_key(self.patient_id),
            procedure: text_bytes(self.procedure),
            notes: text_bytes(self.notes),
        }
    }
}

impl Clone for RequestMetadata {
    /// Returns metadata that holds what this one holds.
    fn clone(&self) -> (copy: Self)
        ensures
            copy@ == self@,
    {
        RequestMetadata {
            patient_id: copy_address(&self.patient_id),
            procedure: copy_text(&self.procedure),
            notes: copy_text(&self.notes),
        }
    }
}

/// A hospital's request for blood, tracked from creation to its end.
#[derive(Debug)]
pub struct BloodRequest {
    /// Identifier, assigned by the store.
    pub id: u64,
    /// The hospital that asked.
    pub hospital_id: soroban_sdk::Address,
    /// The blood group asked for.
    pub blood_type: BloodType,
    /// The quantity asked for, in millilitres.
    pub quantity_ml: u32,
    /// How pressing the request is.
    pub urgency: UrgencyLevel,
    /// Where in its lifecycle the request is.
    pub status: RequestStatus,
    /// When the request was created.
    pub created_at: u64,
    /// When the blood is needed by.
    pub required_by: u64,
    /// When the request was fulfilled, once it has been.
    pub fulfilled_at: Option<u64>,
    /// The blood units assigned to the request.
    pub assigned_units: soroban_sdk::Vec<u64>,
    /// Where the blood is to be delivered.
    pub delivery_address: soroban_sdk::String,
    /// Patient, procedure and notes.
    pub metadata: RequestMetadata,
}

/// What a [`BloodRequest`] holds.
pub struct BloodRequestView {
    pub id: u64,
    pub hospital_id: Seq<u8>,
    pub blood_type: BloodType,
    pub quantity_ml: u32,
    pub urgency: UrgencyLevel,
    pub status: RequestStatus,
    pub created_at: u64,
    pub required_by: u64,
    pub fulfilled_at: Option<u64>,
    pub assigned_units: Seq<u64>,
    pub delivery_address: Seq<u8>,
    pub metadata: RequestMetadataView,
}

impl View for BloodRequest {
    type V = BloodRequestView;

    open spec fn view(&self) -> BloodRequestView {
        BloodRequestView {
            id: self.id,
            hospital_id: address_key(self.hospital_id),
            blood_type: self.blood_type,
            quantity_ml: self.quantity_ml,
            urgency: self.urgency,
            status: self.status,
            created_at: self.created_at,
            required_by: self.required_by,
            fulfilled_at: self.fulfilled_at,
            assigned_units: unit_list(self.assigned_units),
            delivery_address: text_bytes(self.delivery_address),
            metadata: self.metadata@,
        }
    }
}

impl Clone for BloodRequest {
    /// Returns a request that holds what this one holds.
    fn clone(&self) -> (copy: Self)
        ensures
            copy@ == self@,
    {
        BloodRequest {
            id: self.id,
            hospital_id: copy_address(&self.hospital_id),
            blood_type: self.blood_type,
            quantity_ml: self.quantity_ml,
            urgency: self.urgency,
            status: self.status,
            created_at: self.created_at,
            required_by: self.required_by,
            fulfilled_at: self.fulfilled_at,
            assigned_units: copy_units(&self.assigned_units),
            delivery_address: copy_text(&self.delivery_address),
            metadata: self.metadata.clone(),
        }
    }
}

impl BloodRequestView {
    /// The answer of [`BloodRequest::validate`]: the first rule that the
    /// request breaks, in the order quantity, deadline, creation time,
    /// delivery address.
    pub open spec fn verdict(self, current_time: u64) -> Result<(), ContractError> {
        if creation_verdict(self.quantity_ml, self.required_by, current_time) is Err {
            creation_verdict(self.quantity_ml, self.required_by, current_time)
        } else if self.created_at >= self.required_by {
            Err(ContractError::InvalidTimestamp)
        } else {
            address_verdict(self.delivery_address)
        }
    }

    /// Whether the deadline lies strictly before `current_time`.
    pub open spec fn overdue(self, current_time: u64) -> bool {
        overdue(self.required_by, current_time)
    }

    /// Whether the request is approved and its deadline has not passed.
    pub open spec fn fulfillable(self, current_time: u64) -> bool {
        self.status == RequestStatus::Approved && !self.overdue(current_time)
    }

    /// What holds of every record that the contract stores: the quantity and
    /// the deadline were admissible when the request was created, there is
    /// somewhere to deliver to, and the time of fulfillment is recorded for
    /// exactly the requests that were fulfilled.
    pub open spec fn well_formed(self) -> bool {
        &&& quantity_in_range(self.quantity_ml)
        &&& deadline_in_window(self.required_by, self.created_at)
        &&& self.delivery_address.len() > 0
        &&& (self.fulfilled_at is Some <==> (self.status == RequestStatus::Fulfilled
            || self.status == RequestStatus::Completed))
    }
}

impl BloodRequest {
    /// Checks the request against the rules for a new request, as seen at
    /// `current_time`, and reports the first one it breaks.
    pub fn validate(&self, current_time: u64) -> (res: Result<(), ContractError>)
        ensures
            res == self@.verdict(current_time),
    {
        match validate_request_creation(self.quantity_ml, self.required_by, current_time) {
            Err(e) => return Err(e),
            Ok(()) => {},
        }
        if self.created_at >= self.required_by {
            return Err(ContractError::InvalidTimestamp);
        }
        validate_delivery_address(&self.delivery_address)
    }

    /// Checks whether the deadline has passed; at the deadline itself it has
    /// not.
    pub fn is_overdue(&self, current_time: u64) -> (late: bool)
        ensures
            late == self@.overdue(current_time),
    {
        current_time > self.required_by
    }

    /// Returns the seconds left until the deadline, negative once it has
    /// passed.
    pub fn time_remaining(&self, current_time: u64) -> (left: i64)
        requires
            i64::MIN <= self.required_by - current_time <= i64::MAX,
        ensures
            left == self.required_by - current_time,
    {
        time_until_deadline(self.required_by, current_time)
    }

    /// Checks whether the request can be fulfilled now: it is approved and
    /// not overdue.
    pub fn can_fulfill(&self, current_time: u64) -> (ready: bool)
        ensures
            ready == self@.fulfillable(current_time),
    {
        !self.is_overdue(current_time) && self.status == RequestStatus::Approved
    }
}

} // verus!
