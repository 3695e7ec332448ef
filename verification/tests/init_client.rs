use vrf_client::address::{derive_client_address, Address};
use vrf_client::client_state::CLIENT_STATE_SIZE;
use vrf_client::error::VrfClientError;
use vrf_client::event::EventSink;
use vrf_client::init_client::{initialize, InitClient, InitClientParams, VrfAccountData};
use vrf_client::ledger::{Ledger, Payer};

fn addr(fill: u8) -> Address {
    Address { bytes: [fill; 32] }
}

fn accounts_with_good_authority(vrf_reference: Address) -> InitClient {
    let (derived, _bump) = derive_client_address(&vrf_reference)
        .expect("derivation must yield an address for this reference");
    InitClient {
        vrf_reference,
        vrf: VrfAccountData { authority: derived },
    }
}

#[test]
fn validate_accepts_ceiling() {
    let accounts = accounts_with_good_authority(addr(1));
    let r = accounts.validate(&InitClientParams { max_result: 1337 });
    assert_eq!(r, Ok(()));
}

#[test]
fn validate_accepts_zero() {
    let accounts = accounts_with_good_authority(addr(1));
    let r = accounts.validate(&InitClientParams { max_result: 0 });
    assert_eq!(r, Ok(()));
}

#[test]
fn validate_rejects_above_ceiling() {
    let accounts = accounts_with_good_authority(addr(1));
    let r = accounts.validate(&InitClientParams { max_result: 1338 });
    assert_eq!(r, Err(VrfClientError::MaxResultExceedsMaximum));
}

#[test]
fn rejects_excessive_bound_and_creates_nothing() {
    let mut ledger = Ledger::new();
    let mut sink = EventSink::new();
    let mut payer = Payer { balance: 1_000 };
    let accounts = accounts_with_good_authority(addr(1));
    let params = InitClientParams { max_result: 1338 };

    let r = initialize(&mut ledger, &mut sink, &mut payer, &accounts, &params);
    assert_eq!(r, Err(VrfClientError::MaxResultExceedsMaximum));
    assert_eq!(ledger.entries.len(), 0);
    assert_eq!(sink.events.len(), 0);
    assert_eq!(payer.balance, 1_000);

    // A retry against the unchanged world fails the same way.
    let again = initialize(&mut ledger, &mut sink, &mut payer, &accounts, &params);
    assert_eq!(again, Err(VrfClientError::MaxResultExceedsMaximum));
    assert_eq!(ledger.entries.len(), 0);
}

#[test]
fn zero_bound_is_normalized_to_ceiling() {
    let mut ledger = Ledger::new();
    let mut sink = EventSink::new();
    let mut payer = Payer { balance: 1_000 };
    let vrf_reference = addr(1);
    let (derived, bump) = derive_client_address(&vrf_reference).unwrap();
    let accounts = accounts_with_good_authority(vrf_reference);

    let r = initialize(
        &mut ledger,
        &mut sink,
        &mut payer,
        &accounts,
        &InitClientParams { max_result: 0 },
    );
    let created = r.expect("a delegated, unallocated, funded request succeeds");
    assert_eq!(created.bytes, derived.bytes);

    let stored = ledger.get(&created).expect("the record must exist");
    assert_eq!(stored.max_result, 1337);
    assert_eq!(stored.vrf.bytes, vrf_reference.bytes);
    assert_eq!(stored.bump, bump);
    assert_eq!(stored.result, 0);
    assert_eq!(stored.result_buffer, [0u8; 32]);
    assert_eq!(stored.timestamp, 0);

    // The event carries the bound as supplied, before normalization.
    assert_eq!(sink.events.len(), 1);
    assert_eq!(sink.events[0].vrf_client.bytes, derived.bytes);
    assert_eq!(sink.events[0].max_result, 0);
}

#[test]
fn in_range_bound_is_stored_exactly() {
    for requested in [1u64, 7, 500, 1337] {
        let mut ledger = Ledger::new();
        let mut sink = EventSink::new();
        let mut payer = Payer { balance: 1_000 };
        let accounts = accounts_with_good_authority(addr(3));

        let r = initialize(
            &mut ledger,
            &mut sink,
            &mut payer,
            &accounts,
            &InitClientParams { max_result: requested },
        );
        let created = r.expect("a delegated, unallocated, funded request succeeds");
        let stored = ledger.get(&created).expect("the record must exist");
        assert_eq!(stored.max_result, requested);
        assert_eq!(sink.events[0].max_result, requested);
    }
}

#[test]
fn second_attempt_is_a_duplicate_and_overwrites_nothing() {
    let mut ledger = Ledger::new();
    let mut sink = EventSink::new();
    let mut payer = Payer { balance: 1_000 };
    let accounts = accounts_with_good_authority(addr(1));

    let first = initialize(
        &mut ledger,
        &mut sink,
        &mut payer,
        &accounts,
        &InitClientParams { max_result: 0 },
    );
    let created = first.expect("the first attempt succeeds");
    let balance_after_first = payer.balance;

    let second = initialize(
        &mut ledger,
        &mut sink,
        &mut payer,
        &accounts,
        &InitClientParams { max_result: 500 },
    );
    assert_eq!(second, Err(VrfClientError::DuplicateInitialization));

    // The persisted record still matches the first attempt exactly.
    let stored = ledger.get(&created).expect("the record must still exist");
    assert_eq!(stored.max_result, 1337);
    assert_eq!(stored.vrf.bytes, accounts.vrf_reference.bytes);
    assert_eq!(ledger.entries.len(), 1);
    assert_eq!(sink.events.len(), 1);
    assert_eq!(payer.balance, balance_after_first);
}

#[test]
fn unrelated_authority_is_rejected_without_a_record() {
    let mut ledger = Ledger::new();
    let mut sink = EventSink::new();
    let mut payer = Payer { balance: 1_000 };
    let vrf_reference = addr(2);
    let (derived, _bump) = derive_client_address(&vrf_reference).unwrap();
    let accounts = InitClient {
        vrf_reference,
        vrf: VrfAccountData { authority: addr(9) },
    };

    let r = initialize(
        &mut ledger,
        &mut sink,
        &mut payer,
        &accounts,
        &InitClientParams { max_result: 10 },
    );
    assert_eq!(r, Err(VrfClientError::InvalidAuthorityBinding));
    assert!(ledger.get(&derived).is_none());
    assert_eq!(sink.events.len(), 0);
    assert_eq!(payer.balance, 1_000);

    // Retrying changes nothing: the same rejection, idempotently.
    let again = initialize(
        &mut ledger,
        &mut sink,
        &mut payer,
        &accounts,
        &InitClientParams { max_result: 10 },
    );
    assert_eq!(again, Err(VrfClientError::InvalidAuthorityBinding));
    assert!(ledger.get(&derived).is_none());
}

#[test]
fn underfunded_payer_is_rejected_without_a_record() {
    let mut ledger = Ledger::new();
    let mut sink = EventSink::new();
    let mut payer = Payer {
        balance: CLIENT_STATE_SIZE - 1,
    };
    let accounts = accounts_with_good_authority(addr(4));

    let r = initialize(
        &mut ledger,
        &mut sink,
        &mut payer,
        &accounts,
        &InitClientParams { max_result: 10 },
    );
    assert_eq!(r, Err(VrfClientError::AllocationFundingFailure));
    assert_eq!(ledger.entries.len(), 0);
    assert_eq!(sink.events.len(), 0);
    assert_eq!(payer.balance, CLIENT_STATE_SIZE - 1);
}

#[test]
fn success_deducts_exactly_the_record_cost() {
    let mut ledger = Ledger::new();
    let mut sink = EventSink::new();
    let mut payer = Payer { balance: 1_000 };
    let accounts = accounts_with_good_authority(addr(5));

    initialize(
        &mut ledger,
        &mut sink,
        &mut payer,
        &accounts,
        &InitClientParams { max_result: 42 },
    )
    .expect("a delegated, unallocated, funded request succeeds");
    assert_eq!(payer.balance, 1_000 - CLIENT_STATE_SIZE);
}

#[test]
fn independent_references_get_independent_records() {
    let mut ledger = Ledger::new();
    let mut sink = EventSink::new();
    let mut payer = Payer { balance: 1_000 };

    let first_accounts = accounts_with_good_authority(addr(6));
    let second_accounts = accounts_with_good_authority(addr(7));

    let first = initialize(
        &mut ledger,
        &mut sink,
        &mut payer,
        &first_accounts,
        &InitClientParams { max_result: 11 },
    )
    .unwrap();
    let second = initialize(
        &mut ledger,
        &mut sink,
        &mut payer,
        &second_accounts,
        &InitClientParams { max_result: 22 },
    )
    .unwrap();

    assert_ne!(first.bytes, second.bytes);
    assert_eq!(ledger.get(&first).unwrap().max_result, 11);
    assert_eq!(ledger.get(&second).unwrap().max_result, 22);
}
