//! Client-side registration for a verifiable-random-function (VRF) consumer.
//!
//! A caller asks this library to create the persistent client state that is
//! permanently bound to one VRF account: the state's address is derived
//! deterministically from a fixed namespace tag and the VRF account's
//! identifier, the VRF account must already delegate to that address, the
//! record is allocated exactly once, and the caller-supplied bound on random
//! results is validated and normalized before it is persisted.

pub mod address;
pub mod client_state;
pub mod error;
pub mod event;
pub mod init_client;
pub mod ledger;
