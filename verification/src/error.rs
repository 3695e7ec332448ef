use vstd::prelude::*;

verus! {

/// The ways an initialization request is rejected. Every failure aborts the
/// whole request before any state becomes observable.
#[derive(Clone, Copy, Debug, PartialEq, Eq, Structural)]
pub enum VrfClientError {
    /// The caller-supplied `max_result` exceeds the policy ceiling.
    MaxResultExceedsMaximum,
    /// The VRF account's recorded authority is not the derived client-state
    /// address, so the account never delegated to this client state.
    InvalidAuthorityBinding,
    /// A record already stands at the derived address: the one-time
    /// initialization has happened before.
    DuplicateInitialization,
    /// The payer cannot cover the cost of allocating the record.
    AllocationFundingFailure,
    /// The derivation probe found no usable disambiguation byte for this VRF
    /// reference.
    AddressDerivationFailure,
}

} // verus!
