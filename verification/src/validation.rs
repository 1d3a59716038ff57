//! The rules that bound a new request, and the checks that apply them.
//!
//! Every check of a quantity, a deadline or a delivery address in this crate
//! goes through the predicates defined here.

use vstd::prelude::*;
use crate::error::ContractError;
use crate::host::{text_bytes, text_len};
use crate::types::BloodType;

verus! {

/// Largest quantity a request may ask for, in millilitres.
pub const MAX_REQUEST_QUANTITY_ML: u32 = 5000;

/// Smallest quantity a request may ask for, in millilitres.
pub const MIN_REQUEST_QUANTITY_ML: u32 = 50;

/// How many days ahead a deadline may lie at most.
pub const MAX_DAYS_IN_FUTURE: u64 = 30;

pub const SECONDS_PER_DAY: u64 = 86400;

/// Whether a quantity in millilitres is one a request may ask for.
pub open spec fn quantity_in_range(quantity_ml: u32) -> bool {
    MIN_REQUEST_QUANTITY_ML <= quantity_ml <= MAX_REQUEST_QUANTITY_ML
}

/// Whether a deadline, seen from `now`, lies in the future and no more than
/// thirty days ahead.
pub open spec fn deadline_in_window(required_by: u64, now: u64) -> bool {
    now < required_by <= now + MAX_DAYS_IN_FUTURE * SECONDS_PER_DAY
}

/// The answer to a proposed quantity and deadline: the quantity is judged
/// first, then the deadline.
pub open spec fn creation_verdict(quantity_ml: u32, required_by: u64, now: u64) -> Result<
    (),
    ContractError,
> {
    if !quantity_in_range(quantity_ml) {
        Err(ContractError::InvalidQuantity)
    } else if !deadline_in_window(required_by, now) {
        Err(ContractError::InvalidTimestamp)
    } else {
        Ok(())
    }
}

/// The answer to a proposed delivery address: it must not be empty.
pub open spec fn address_verdict(address: Seq<u8>) -> Result<(), ContractError> {
    if address.len() == 0 {
        Err(ContractError::InvalidInput)
    } else {
        Ok(())
    }
}

/// Checks the quantity and the deadline of a proposed request, as seen at
/// `current_time`.
pub fn validate_request_creation(quantity_ml: u32, required_by: u64, current_time: u64) -> (res:
    Result<(), ContractError>)
    ensures
        res == creation_verdict(quantity_ml, required_by, current_time),
{
    if quantity_ml < MIN_REQUEST_QUANTITY_ML || quantity_ml > MAX_REQUEST_QUANTITY_ML {
        return Err(ContractError::InvalidQuantity);
    }
    if required_by <= current_time {
        return Err(ContractError::InvalidTimestamp);
    }
    if required_by - current_time > MAX_DAYS_IN_FUTURE * SECONDS_PER_DAY {
        return Err(ContractError::InvalidTimestamp);
    }
    Ok(())
}

/// Checks that a delivery address is not empty.
pub fn validate_delivery_address(address: &soroban_sdk::String) -> (res: Result<(), ContractError>)
    ensures
        res == address_verdict(text_bytes(*address)),
{
    if text_len(address) == 0 {
        return Err(ContractError::InvalidInput);
    }
    Ok(())
}

/// Accepts every blood type: the enumeration is closed.
pub fn validate_blood_type(_blood_type: &BloodType) -> (res: Result<(), ContractError>)
    ensures
        res is Ok,
{
    Ok(())
}

/// Whether `current_time` lies strictly past the deadline.
pub open spec fn overdue(required_by: u64, current_time: u64) -> bool {
    current_time > required_by
}

/// Checks whether the deadline has passed; at the deadline itself it has not.
pub fn is_request_overdue(required_by: u64, current_time: u64) -> (late: bool)
    ensures
        late == overdue(required_by, current_time),
{
    current_time > required_by
}

/// Returns the seconds left until the deadline, negative once it has passed.
pub fn time_until_deadline(required_by: u64, current_time: u64) -> (left: i64)
    requires
        i64::MIN <= required_by - current_time <= i64::MAX,
    ensures
        left == required_by - current_time,
{
    if required_by >= current_time {
        (required_by - current_time) as i64
    } else {
        let behind: u64 = current_time - required_by;
        if behind == 0x8000_0000_0000_0000u64 {
            i64::MIN
        } else {
            -(behind as i64)
        }
    }
}

/// A request is overdue exactly when the time left until its deadline is
/// negative; at the deadline itself nothing is left and it is not overdue.
pub proof fn lemma_overdue_iff_no_time_left(required_by: u64, current_time: u64)
    ensures
        overdue(required_by, current_time) <==> required_by - current_time < 0,
        required_by == current_time ==> !overdue(required_by, current_time),
{
}

} // verus!
