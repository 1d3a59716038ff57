//! The lifecycle of a hospital's request for blood, from its creation
//! through approval and fulfillment to its completion, rejection or
//! cancellation.
//!
//! [`contract::RequestContract`] holds the state and offers the operations;
//! [`runs`] states what holds of it over any sequence of calls. The values
//! that come from the Soroban host, and the calls made on them, are in
//! [`host`].

pub mod contract;
pub mod error;
pub mod events;
pub mod host;
pub mod runs;
pub mod storage;
pub mod types;
pub mod validation;
