//! The request store: the administrator, the identifier counter and the
//! requests, each under its identifier.
//!
//! The store keeps what it is given. Which records may be stored, and by
//! whom, is decided by the contract that owns it.

use std::collections::HashMap;
use vstd::prelude::*;
use crate::host::{address_key, copy_address, same_address};
use crate::types::{BloodRequest, BloodRequestView};

verus! {

broadcast use vstd::std_specs::hash::group_hash_axioms;

/// Everything the contract keeps between calls.
pub struct RequestStore {
    admin: Option<soroban_sdk::Address>,
    request_counter: u64,
    requests: HashMap<u64, BloodRequest>,
}

/// What a [`RequestStore`] holds.
pub struct RequestStoreState {
    /// The administrator, once one has been set.
    pub admin: Option<Seq<u8>>,
    /// The identifier given out last, or zero if none was.
    pub request_counter: u64,
    /// The stored requests, by the identifier they were stored under.
    pub requests: Map<u64, BloodRequestView>,
}

impl RequestStoreState {
    /// A store in which nothing was ever set.
    pub open spec fn empty() -> RequestStoreState {
        RequestStoreState { admin: None, request_counter: 0, requests: Map::empty() }
    }

    /// What holds of the store of a contract after any run of its
    /// operations: every request is stored under its own identifier, that
    /// identifier is one the counter has given out, and the request itself
    /// is well formed.
    pub open spec fn well_formed(self) -> bool {
        forall|id: u64| #[trigger]
            self.requests.contains_key(id) ==> {
                &&& self.requests[id].id == id
                &&& 1 <= id <= self.request_counter
                &&& self.requests[id].well_formed()
            }
    }
}

impl View for RequestStore {
    type V = RequestStoreState;

    closed spec fn view(&self) -> RequestStoreState {
        RequestStoreState {
            admin: match self.admin {
                Some(a) => Some(address_key(a)),
                None => None,
            },
            request_counter: self.request_counter,
            requests: Map::new(
                |id: u64| self.requests@.contains_key(id),
                |id: u64| self.requests@[id]@,
            ),
        }
    }
}

impl RequestStore {
    /// Creates a store in which nothing was ever set.
    pub fn new() -> (store: RequestStore)
        ensures
            store@ == RequestStoreState::empty(),
            store@.well_formed(),
    {
        let store = RequestStore { admin: None, request_counter: 0, requests: HashMap::new() };
        assert(store@.requests =~= Map::empty());
        store
    }

    /// Creates a store without requests from an administrator and a counter
    /// that were kept elsewhere.
    pub fn resume(admin: Option<soroban_sdk::Address>, request_counter: u64) -> (store:
        RequestStore)
        ensures
            store@.admin == match admin {
                Some(a) => Some(address_key(a)),
                None => None,
            },
            store@.request_counter == request_counter,
            store@.requests == Map::<u64, BloodRequestView>::empty(),
    {
        let store = RequestStore { admin, request_counter, requests: HashMap::new() };
        assert(store@.requests =~= Map::empty());
        store
    }
}

/// Checks whether an administrator has been set.
pub fn has_admin(store: &RequestStore) -> (set: bool)
    ensures
        set == store@.admin is Some,
{
    store.admin.is_some()
}

/// Returns the administrator.
pub fn get_admin(store: &RequestStore) -> (admin: soroban_sdk::Address)
    requires
        store@.admin is Some,
    ensures
        Some(address_key(admin)) == store@.admin,
{
    copy_address(store.admin.as_ref().unwrap())
}

/// Makes `admin` the administrator.
pub fn set_admin(store: &mut RequestStore, admin: &soroban_sdk::Address)
    ensures
        final(store)@ == (RequestStoreState {
            admin: Some(address_key(*admin)),
            ..old(store)@
        }),
{
    store.admin = Some(copy_address(admin));
    assert(final(store)@.requests =~= old(store)@.requests);
}

/// Returns the identifier that was given out last, or zero if none was.
pub fn get_request_counter(store: &RequestStore) -> (counter: u64)
    ensures
        counter == store@.request_counter,
{
    store.request_counter
}

/// Gives out the next identifier: one more than the last.
pub fn increment_request_id(store: &mut RequestStore) -> (next_id: u64)
    requires
        old(store)@.request_counter < u64::MAX,
    ensures
        next_id == old(store)@.request_counter + 1,
        final(store)@ == (RequestStoreState { request_counter: next_id, ..old(store)@ }),
{
    let next_id: u64 = store.request_counter + 1;
    store.request_counter = next_id;
    assert(final(store)@.requests =~= old(store)@.requests);
    next_id
}

/// Stores a request under its identifier, in place of any request that was
/// stored under it before.
pub fn set_blood_request(store: &mut RequestStore, request: &BloodRequest)
    ensures
        final(store)@ == (RequestStoreState {
            requests: old(store)@.requests.insert(request.id, request@),
            ..old(store)@
        }),
{
    store.requests.insert(request.id, request.clone());
    assert(final(store)@.requests =~= old(store)@.requests.insert(request.id, request@));
}

/// Returns the request stored under `request_id`, if there is one.
pub fn get_blood_request(store: &RequestStore, request_id: u64) -> (found: Option<BloodRequest>)
    ensures
        match found {
            Some(request) => store@.requests.contains_key(request_id) && request@
                == store@.requests[request_id],
            None => !store@.requests.contains_key(request_id),
        },
{
    match store.requests.get(&request_id) {
        Some(request) => Some(request.clone()),
        None => None,
    }
}

/// Checks whether `hospital` may create requests: only the administrator
/// may.
pub fn is_authorized_hospital(store: &RequestStore, hospital: &soroban_sdk::Address) -> (allowed:
    bool)
    requires
        store@.admin is Some,
    ensures
        allowed == (store@.admin == Some(address_key(*hospital))),
{
    let admin = get_admin(store);
    same_address(hospital, &admin)
}

/// Checks whether `bank` may decide on requests: only the administrator may.
pub fn is_authorized_blood_bank(store: &RequestStore, bank: &soroban_sdk::Address) -> (allowed:
    bool)
    requires
        store@.admin is Some,
    ensures
        allowed == (store@.admin == Some(address_key(*bank))),
{
    let admin = get_admin(store);
    same_address(bank, &admin)
}

} // verus!
