use vstd::prelude::*;

use crate::address::{
    address_eq, derive_client_address, spec_derive, spec_derived_address, spec_derived_bump,
    Address,
};
use crate::client_state::{
    normalized_max_result, VrfClientState, CLIENT_STATE_SIZE, MAX_RESULT_CEILING,
};
use crate::error::VrfClientError;
use crate::event::{EventSink, VrfClientCreated};
use crate::ledger::{all_records_wf, stored_at, AllocError, Ledger, LedgerEntry, Payer};

verus! {

/// The caller-supplied parameters of one initialization request.
#[derive(Clone, Copy)]
pub struct InitClientParams {
    /// Requested upper bound for scaled random results; zero asks for the
    /// default ceiling.
    pub max_result: u64,
}

/// The VRF account as this core reads it: only its recorded authority, the
/// identity it delegated to. Nothing here mutates the VRF account.
#[derive(Clone, Copy)]
pub struct VrfAccountData {
    pub authority: Address,
}

/// The accounts one initialization request touches: the VRF account to bind
/// the new client state to, read by its identifier and for its recorded
/// authority.
#[derive(Clone, Copy)]
pub struct InitClient {
    /// Identifier of the VRF account: the seed of the derived address.
    pub vrf_reference: Address,
    /// The VRF account's data.
    pub vrf: VrfAccountData,
}

/// The validator's rule: the requested bound is within the policy ceiling
/// (zero is valid here and normalized later, by the initializer).
pub open spec fn spec_params_valid(params: InitClientParams) -> bool {
    params.max_result <= MAX_RESULT_CEILING
}

/// Derivation yields an address for this VRF reference.
pub open spec fn spec_derivation_ok(accounts: InitClient) -> bool {
    spec_derive(accounts.vrf_reference@) is Some
}

/// The VRF account's recorded authority is exactly the derived client-state
/// address: the account delegated to this client state before it existed.
pub open spec fn spec_authority_ok(accounts: InitClient) -> bool {
    &&& spec_derivation_ok(accounts)
    &&& accounts.vrf.authority@ == spec_derived_address(accounts.vrf_reference@)
}

/// No record stands at the derived address yet.
pub open spec fn spec_fresh(entries: Seq<LedgerEntry>, accounts: InitClient) -> bool {
    stored_at(entries, spec_derived_address(accounts.vrf_reference@)) is None
}

/// The payer covers the allocation cost of one record.
pub open spec fn spec_funded(balance: u64) -> bool {
    balance >= CLIENT_STATE_SIZE
}

/// Everything the initializer demands of the world: an address can be
/// derived, the VRF account delegated to it, it is unallocated, and the
/// payer covers the record.
pub open spec fn spec_can_initialize(
    entries: Seq<LedgerEntry>,
    balance: u64,
    accounts: InitClient,
) -> bool {
    &&& spec_authority_ok(accounts)
    &&& spec_fresh(entries, accounts)
    &&& spec_funded(balance)
}

/// What the record stored for a request must hold: the derivation byte, the
/// VRF reference as given, the normalized bound, and zeroed fulfillment
/// fields.
pub open spec fn spec_initialized_state(
    st: VrfClientState,
    accounts: InitClient,
    params: InitClientParams,
) -> bool {
    &&& st.bump == spec_derived_bump(accounts.vrf_reference@)
    &&& st.vrf == accounts.vrf_reference
    &&& st.max_result == normalized_max_result(params.max_result)
    &&& st.reserved_zeroed()
}

impl InitClient {
    /// The validator: a pure guard on the caller-supplied parameters,
    /// evaluated before any state mutation. It accepts exactly the bounds
    /// within the policy ceiling — zero included — and rejects the rest.
    pub fn validate(&self, params: &InitClientParams) -> (r: Result<(), VrfClientError>)
        ensures
            r is Ok <==> spec_params_valid(*params),
            r is Err ==> r == Err::<(), VrfClientError>(VrfClientError::MaxResultExceedsMaximum),
    {
        if params.max_result > MAX_RESULT_CEILING {
            return Err(VrfClientError::MaxResultExceedsMaximum);
        }
        Ok(())
    }

    /// The initializer: derive the client-state address, demand that the VRF
    /// account delegated to exactly that address, allocate the record there
    /// once and only once at the payer's cost, persist the populated record,
    /// and emit the creation event. Every failure aborts the whole request:
    /// ledger, payer and sink are then exactly as before. The validator has
    /// run first on every request path, so the parameters arrive valid.
    pub fn actuate(
        ledger: &mut Ledger,
        sink: &mut EventSink,
        payer: &mut Payer,
        accounts: &InitClient,
        params: &InitClientParams,
        now: i64,
    ) -> (r: Result<Address, VrfClientError>)
        requires
            spec_params_valid(*params),
        ensures
            r is Ok <==> spec_can_initialize(old(ledger).entries@, old(payer).balance, *accounts),
            r == Err::<Address, VrfClientError>(VrfClientError::AddressDerivationFailure) <==> !spec_derivation_ok(*accounts),
            r == Err::<Address, VrfClientError>(VrfClientError::InvalidAuthorityBinding) <==> (spec_derivation_ok(*accounts) && !spec_authority_ok(*accounts)),
            r == Err::<Address, VrfClientError>(VrfClientError::DuplicateInitialization) <==> (spec_authority_ok(*accounts) && !spec_fresh(old(ledger).entries@, *accounts)),
            r == Err::<Address, VrfClientError>(VrfClientError::AllocationFundingFailure) <==> (spec_authority_ok(*accounts) && spec_fresh(old(ledger).entries@, *accounts) && !spec_funded(old(payer).balance)),
            (match r {
                Ok(a) => a@ == spec_derived_address(accounts.vrf_reference@),
                Err(_) => true,
            }),
            r is Ok ==> {
                let derived = spec_derived_address(accounts.vrf_reference@);
                &&& (match stored_at(final(ledger).entries@, derived) {
                    Some(st) => spec_initialized_state(st, *accounts, *params),
                    None => false,
                })
                &&& forall|a: Seq<u8>|
                    a != spec_derived_address(accounts.vrf_reference@) ==> stored_at(
                        final(ledger).entries@,
                        a,
                    ) == stored_at(old(ledger).entries@, a)
                &&& final(ledger).entries@.len() == old(ledger).entries@.len() + 1
                &&& final(payer).balance == old(payer).balance - CLIENT_STATE_SIZE
                &&& ({
                    let ev = final(sink).events@.last();
                    &&& final(sink).events@ == old(sink).events@.push(ev)
                    &&& ev.vrf_client@ == spec_derived_address(accounts.vrf_reference@)
                    &&& ev.max_result == params.max_result
                    &&& ev.timestamp == now
                })
            },
            r is Err ==> {
                &&& *final(ledger) == *old(ledger)
                &&& *final(payer) == *old(payer)
                &&& *final(sink) == *old(sink)
            },
            all_records_wf(old(ledger).entries@) ==> all_records_wf(final(ledger).entries@),
    {
        let derived = derive_client_address(&accounts.vrf_reference);
        let (address, bump) = match derived {
            Some(p) => p,
            None => {
                return Err(VrfClientError::AddressDerivationFailure);
            },
        };
        if !address_eq(&accounts.vrf.authority, &address) {
            return Err(VrfClientError::InvalidAuthorityBinding);
        }
        let state = VrfClientState::populated(bump, accounts.vrf_reference, params.max_result);
        match ledger.allocate(&address, state, CLIENT_STATE_SIZE, payer) {
            Ok(()) => {},
            Err(AllocError::Duplicate) => {
                return Err(VrfClientError::DuplicateInitialization);
            },
            Err(AllocError::Funding) => {
                return Err(VrfClientError::AllocationFundingFailure);
            },
        }
        sink.emit(
            VrfClientCreated { vrf_client: address, max_result: params.max_result, timestamp: now },
        );
        Ok(address)
    }
}

/// Relies on `Clock::get` (solana-sysvar, reached through anchor-lang): the
/// call returns the runtime's clock sysvar, or an error where the host
/// provides none; nothing is assumed of which outcome comes back.
#[verifier::external_body]
fn now_unix() -> (r: Option<i64>) {
    match <anchor_lang::prelude::Clock as anchor_lang::prelude::SolanaSysvar>::get() {
        Ok(clock) => Some(clock.unix_timestamp),
        Err(_) => None,
    }
}

/// One whole registration request: the validator runs first, then the
/// initializer; the event's timestamp is whatever the clock source reports,
/// or zero where it reports nothing. Success is owed exactly where the
/// parameters are valid and the world admits initialization; every failure
/// leaves ledger, payer and sink exactly as before.
pub fn initialize(
    ledger: &mut Ledger,
    sink: &mut EventSink,
    payer: &mut Payer,
    accounts: &InitClient,
    params: &InitClientParams,
) -> (r: Result<Address, VrfClientError>)
    ensures
        r is Ok <==> (spec_params_valid(*params) && spec_can_initialize(
            old(ledger).entries@,
            old(payer).balance,
            *accounts,
        )),
        r == Err::<Address, VrfClientError>(VrfClientError::MaxResultExceedsMaximum) <==> !spec_params_valid(*params),
        r == Err::<Address, VrfClientError>(VrfClientError::AddressDerivationFailure) <==> (spec_params_valid(*params) && !spec_derivation_ok(*accounts)),
        r == Err::<Address, VrfClientError>(VrfClientError::InvalidAuthorityBinding) <==> (spec_params_valid(*params) && spec_derivation_ok(*accounts) && !spec_authority_ok(*accounts)),
        r == Err::<Address, VrfClientError>(VrfClientError::DuplicateInitialization) <==> (spec_params_valid(*params) && spec_authority_ok(*accounts) && !spec_fresh(old(ledger).entries@, *accounts)),
        r == Err::<Address, VrfClientError>(VrfClientError::AllocationFundingFailure) <==> (spec_params_valid(*params) && spec_authority_ok(*accounts) && spec_fresh(old(ledger).entries@, *accounts) && !spec_funded(old(payer).balance)),
        (match r {
            Ok(a) => a@ == spec_derived_address(accounts.vrf_reference@),
            Err(_) => true,
        }),
        r is Ok ==> {
            let derived = spec_derived_address(accounts.vrf_reference@);
            &&& (match stored_at(final(ledger).entries@, derived) {
                Some(st) => spec_initialized_state(st, *accounts, *params),
                None => false,
            })
            &&& forall|a: Seq<u8>|
                a != spec_derived_address(accounts.vrf_reference@) ==> stored_at(
                    final(ledger).entries@,
                    a,
                ) == stored_at(old(ledger).entries@, a)
            &&& final(ledger).entries@.len() == old(ledger).entries@.len() + 1
            &&& final(payer).balance == old(payer).balance - CLIENT_STATE_SIZE
            &&& ({
                let ev = final(sink).events@.last();
                &&& final(sink).events@ == old(sink).events@.push(ev)
                &&& ev.vrf_client@ == spec_derived_address(accounts.vrf_reference@)
                &&& ev.max_result == params.max_result
            })
        },
        r is Err ==> {
            &&& *final(ledger) == *old(ledger)
            &&& *final(payer) == *old(payer)
            &&& *final(sink) == *old(sink)
        },
        all_records_wf(old(ledger).entries@) ==> all_records_wf(final(ledger).entries@),
{
    match accounts.validate(params) {
        Ok(()) => {},
        Err(e) => {
            return Err(e);
        },
    }
    let now: i64 = match now_unix() {
        Some(t) => t,
        None => 0,
    };
    InitClient::actuate(ledger, sink, payer, accounts, params, now)
}

/// A spoofed authority binding is rejected identically on every retry: the
/// binding depends only on the VRF account, never on ledger or payer, so no
/// world and no repetition can make initialization succeed for it.
pub proof fn lemma_authority_mismatch_rejected_always(
    accounts: InitClient,
    entries: Seq<LedgerEntry>,
    balance: u64,
)
    requires
        spec_derivation_ok(accounts),
        !spec_authority_ok(accounts),
    ensures
        !spec_can_initialize(entries, balance, accounts),
{
}

/// Uniqueness of initialization: once a record stands at the derived
/// address, that address is no longer fresh, so the conditions under which
/// initialization succeeds can never hold again for that VRF account —
/// whatever the payer brings. A retry with an intact authority binding and
/// valid parameters therefore lands exactly on the duplicate rejection.
pub proof fn lemma_no_second_initialization(
    entries: Seq<LedgerEntry>,
    balance: u64,
    accounts: InitClient,
)
    requires
        spec_derivation_ok(accounts),
        stored_at(entries, spec_derived_address(accounts.vrf_reference@)) is Some,
    ensures
        !spec_fresh(entries, accounts),
        !spec_can_initialize(entries, balance, accounts),
{
}

} // verus!
