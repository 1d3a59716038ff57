//! The values that live in the Soroban host, and the few host calls that the
//! request logic makes on them.
//!
//! An `Address`, a host `String` and a host `Vec` are handles to objects that
//! the host keeps. The verifier cannot look inside them, so each gets a name
//! for what it holds, and every call on one is stated over those names. The
//! contracts in this file are assumed, not proved.
//!
//! The host meters every call. When an invocation runs out of its budget the
//! host aborts it as a whole, much as a process that runs out of memory; the
//! contracts below describe the calls that return.

use vstd::prelude::*;

verus! {

#[verifier::external_type_specification]
#[verifier::external_body]
pub struct ExAddress(soroban_sdk::Address);

#[verifier::external_type_specification]
#[verifier::external_body]
pub struct ExText(soroban_sdk::String);

#[verifier::external_type_specification]
#[verifier::external_body]
#[verifier::reject_recursive_types(T)]
pub struct ExList<T>(soroban_sdk::Vec<T>);

/// The account or contract that an address stands for, as the bytes of its
/// strkey (the text that `soroban_sdk::Address::to_string` gives).
pub uninterp spec fn address_key(a: soroban_sdk::Address) -> Seq<u8>;

/// The bytes that a host string holds.
pub uninterp spec fn text_bytes(s: soroban_sdk::String) -> Seq<u8>;

/// The unit identifiers that a host vector holds, in order.
pub uninterp spec fn unit_list(v: soroban_sdk::Vec<u64>) -> Seq<u64>;

/// `soroban_sdk::Address`'s `==`. The host orders two address objects by the
/// account or contract they stand for, so the two are equal exactly when
/// they stand for the same one.
#[verifier::external_body]
pub(crate) fn same_address(a: &soroban_sdk::Address, b: &soroban_sdk::Address) -> (same: bool)
    ensures
        same == (address_key(*a) == address_key(*b)),
{
    a == b
}

/// `soroban_sdk::Address::clone`: a second handle to the same address.
#[verifier::external_body]
pub(crate) fn copy_address(a: &soroban_sdk::Address) -> (copy: soroban_sdk::Address)
    ensures
        address_key(copy) == address_key(*a),
{
    a.clone()
}

/// `soroban_sdk::String::len`: the number of bytes in the string.
#[verifier::external_body]
pub(crate) fn text_len(s: &soroban_sdk::String) -> (n: u32)
    ensures
        n == text_bytes(*s).len(),
{
    s.len()
}

/// `soroban_sdk::String::clone`: a second handle to the same string.
#[verifier::external_body]
pub(crate) fn copy_text(s: &soroban_sdk::String) -> (copy: soroban_sdk::String)
    ensures
        text_bytes(copy) == text_bytes(*s),
{
    s.clone()
}

/// `soroban_sdk::Vec::new`, in the environment that `owner` lives in
/// (`soroban_sdk::Address::env`): a vector that holds nothing.
#[verifier::external_body]
pub(crate) fn no_units(owner: &soroban_sdk::Address) -> (units: soroban_sdk::Vec<u64>)
    ensures
        unit_list(units) == Seq::<u64>::empty(),
{
    soroban_sdk::Vec::new(owner.env())
}

/// `soroban_sdk::Vec::clone`: a second handle to the same vector.
#[verifier::external_body]
pub(crate) fn copy_units(v: &soroban_sdk::Vec<u64>) -> (copy: soroban_sdk::Vec<u64>)
    ensures
        unit_list(copy) == unit_list(*v),
{
    v.clone()
}

} // verus!
