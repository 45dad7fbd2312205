//! What the ledger keeps, what is asked of the network, and the edges.

use carbon_credit::{
    Address, CarbonCreditContract, CarbonError, CreditBatch, CreditStatus, DataKey, Entry, Env,
    Event, HostCall, RetiredKey, RetirementCertificate, SerialRange, Text, TTL_LEDGERS,
};

const NOW: u64 = 1_234_567;

fn s(v: &str) -> Text {
    Text { bytes: v.as_bytes().to_vec() }
}

fn address(v: &str) -> Address {
    Address { strkey: s(v) }
}

fn admin() -> Address {
    address("GADMIN")
}

fn owner() -> Address {
    address("GOWNER")
}

fn setup() -> Env {
    let mut env = Env::new(NOW);
    CarbonCreditContract::initialize(&mut env, admin(), address("CREGISTRY")).unwrap();
    env
}

fn mint(
    env: &mut Env,
    project: &str,
    amount: i128,
    batch: &str,
    start: u64,
    end: u64,
) -> Result<(), CarbonError> {
    CarbonCreditContract::mint_credits(
        env,
        admin(),
        s(project),
        amount,
        2023,
        s(batch),
        start,
        end,
        s("cid"),
        owner(),
    )
}

fn retire(
    env: &mut Env,
    holder: Address,
    batch: &str,
    amount: i128,
    retirement: &str,
) -> Result<RetirementCertificate, CarbonError> {
    assert!(CarbonCreditContract::can_retire(env, &holder, &s(batch), amount, &s(retirement)));
    CarbonCreditContract::retire_credits(
        env,
        holder,
        s(batch),
        amount,
        s("reason"),
        s("Corp"),
        s(retirement),
        s("tx"),
    )
}

fn transfer(
    env: &mut Env,
    from: Address,
    to: Address,
    batch: &str,
    amount: i128,
) -> Result<(), CarbonError> {
    assert!(CarbonCreditContract::can_use(env, &from, &s(batch), amount));
    CarbonCreditContract::transfer_credits(env, from, to, s(batch), amount)
}

fn sample_batch(id: &str, status: CreditStatus) -> CreditBatch {
    CreditBatch {
        batch_id: s(id),
        project_id: s("p1"),
        vintage_year: 2020,
        amount: 100,
        serial_start: 1,
        serial_end: 100,
        issued_at: 5,
        status,
        metadata_cid: s("cid"),
        owner: owner(),
    }
}

fn keep_alive(id: &str) -> HostCall {
    HostCall::ExtendTtl {
        key: DataKey::Batch(s(id)),
        threshold: TTL_LEDGERS,
        extend_to: TTL_LEDGERS,
    }
}

#[test]
fn initialize_asks_for_a_signature_and_stores_three_entries() {
    let env = setup();
    assert_eq!(
        *env.calls(),
        vec![
            HostCall::RequireAuth(admin()),
            HostCall::Store(DataKey::Admin, Entry::Address(admin())),
            HostCall::Store(DataKey::RegistryContract, Entry::Address(address("CREGISTRY"))),
            HostCall::Store(DataKey::SerialRegistry, Entry::SerialRanges(vec![])),
        ]
    );
}

#[test]
fn second_initialize_asks_for_nothing() {
    let mut env = setup();
    let before = env.calls().len();
    let result = CarbonCreditContract::initialize(&mut env, owner(), owner());
    assert_eq!(result, Err(CarbonError::AlreadyInitialized));
    assert_eq!(env.calls().len(), before);
    // The first admin can still mint.
    assert_eq!(mint(&mut env, "p1", 10, "b1", 1, 10), Ok(()));
}

#[test]
fn mint_stores_and_publishes() {
    let mut env = setup();
    let before = env.calls().len();
    mint(&mut env, "p1", 100, "b1", 1, 100).unwrap();
    let batch = CreditBatch {
        batch_id: s("b1"),
        project_id: s("p1"),
        vintage_year: 2023,
        amount: 100,
        serial_start: 1,
        serial_end: 100,
        issued_at: NOW,
        status: CreditStatus::Active,
        metadata_cid: s("cid"),
        owner: owner(),
    };
    assert_eq!(
        env.calls()[before..],
        [
            HostCall::RequireAuth(admin()),
            HostCall::Store(
                DataKey::SerialRegistry,
                Entry::SerialRanges(vec![SerialRange { start: 1, end: 100 }]),
            ),
            HostCall::Store(DataKey::Batch(s("b1")), Entry::Batch(batch)),
            keep_alive("b1"),
            HostCall::Store(DataKey::ProjectBatches(s("p1")), Entry::BatchIds(vec![s("b1")])),
            HostCall::Publish(Event::Minted {
                batch_id: s("b1"),
                project_id: s("p1"),
                amount: 100,
                vintage_year: 2023,
                serial_start: 1,
                serial_end: 100,
            }),
        ]
    );
}

#[test]
fn refused_mint_only_asks_for_the_signature() {
    let mut env = setup();
    let before = env.calls().len();
    assert_eq!(mint(&mut env, "p1", -3, "b1", 1, 100), Err(CarbonError::ZeroAmountNotAllowed));
    assert_eq!(env.calls()[before..], [HostCall::RequireAuth(admin())]);
    assert_eq!(
        CarbonCreditContract::get_credit_batch(&mut env, s("b1")),
        Err(CarbonError::ProjectNotFound)
    );
}

#[test]
fn retire_stores_and_publishes() {
    let mut env = setup();
    mint(&mut env, "p1", 100, "b1", 1, 100).unwrap();
    let before = env.calls().len();
    let certificate = retire(&mut env, owner(), "b1", 3, "ret-001").unwrap();
    assert_eq!(
        certificate,
        RetirementCertificate {
            retirement_id: s("ret-001"),
            credit_batch_id: s("b1"),
            project_id: s("p1"),
            amount: 3,
            retired_by: owner(),
            beneficiary: s("Corp"),
            retirement_reason: s("reason"),
            vintage_year: 2023,
            serial_numbers: vec![1, 2, 3],
            retired_at: NOW,
            tx_hash: s("tx"),
        }
    );
    let batch = CreditBatch {
        vintage_year: 2023,
        issued_at: NOW,
        ..sample_batch("b1", CreditStatus::PartiallyRetired)
    };
    assert_eq!(
        env.calls()[before..],
        [
            HostCall::RequireAuth(owner()),
            keep_alive("b1"),
            HostCall::StoreRetired(RetiredKey::BatchRetired(s("b1")), 3),
            HostCall::Store(DataKey::Batch(s("b1")), Entry::Batch(batch)),
            keep_alive("b1"),
            HostCall::Store(
                DataKey::Retirement(s("ret-001")),
                Entry::Certificate(certificate.clone()),
            ),
            HostCall::Publish(Event::Retired {
                retirement_id: s("ret-001"),
                batch_id: s("b1"),
                project_id: s("p1"),
                amount: 3,
                holder: owner(),
                beneficiary: s("Corp"),
            }),
        ]
    );
    assert_eq!(
        CarbonCreditContract::get_retirement_certificate(&env, s("ret-001")),
        Ok(certificate)
    );
}

#[test]
fn transfer_stores_and_publishes() {
    let mut env = setup();
    mint(&mut env, "p1", 100, "b1", 1, 100).unwrap();
    let before = env.calls().len();
    transfer(&mut env, owner(), address("GBUYER"), "b1", 7).unwrap();
    let batch = CreditBatch {
        vintage_year: 2023,
        issued_at: NOW,
        owner: address("GBUYER"),
        ..sample_batch("b1", CreditStatus::Active)
    };
    assert_eq!(
        env.calls()[before..],
        [
            HostCall::RequireAuth(owner()),
            keep_alive("b1"),
            HostCall::Store(DataKey::Batch(s("b1")), Entry::Batch(batch)),
            keep_alive("b1"),
            HostCall::Publish(Event::Transfer {
                batch_id: s("b1"),
                from: owner(),
                to: address("GBUYER"),
                amount: 7,
            }),
        ]
    );
}

#[test]
fn refused_use_keeps_the_batch_alive() {
    let mut env = setup();
    mint(&mut env, "p1", 100, "b1", 1, 100).unwrap();
    let before = env.calls().len();
    assert_eq!(
        transfer(&mut env, owner(), admin(), "b1", 101),
        Err(CarbonError::InsufficientCredits)
    );
    assert_eq!(env.calls()[before..], [HostCall::RequireAuth(owner()), keep_alive("b1")]);
    let before = env.calls().len();
    assert_eq!(transfer(&mut env, owner(), admin(), "b1", 0), Err(CarbonError::ZeroAmountNotAllowed));
    assert_eq!(env.calls()[before..], [HostCall::RequireAuth(owner())]);
}

#[test]
fn reading_a_batch_keeps_it_alive() {
    let mut env = setup();
    mint(&mut env, "p1", 100, "b1", 1, 100).unwrap();
    let before = env.calls().len();
    CarbonCreditContract::get_credit_batch(&mut env, s("b1")).unwrap();
    assert_eq!(env.calls()[before..], [keep_alive("b1")]);
}

#[test]
fn event_topics() {
    let transfer =
        Event::Transfer { batch_id: s("b"), from: owner(), to: admin(), amount: 1 };
    assert_eq!(transfer.topics(), ("c_ledger", "transfer"));
    let minted = Event::Minted {
        batch_id: s("b"),
        project_id: s("p"),
        amount: 1,
        vintage_year: 2000,
        serial_start: 1,
        serial_end: 1,
    };
    assert_eq!(minted.topics(), ("c_ledger", "minted"));
    let retired = Event::Retired {
        retirement_id: s("r"),
        batch_id: s("b"),
        project_id: s("p"),
        amount: 1,
        holder: owner(),
        beneficiary: s("c"),
    };
    assert_eq!(retired.topics(), ("c_ledger", "retired"));
}

#[test]
fn ttl_is_thirty_days_of_ledgers() {
    assert_eq!(TTL_LEDGERS, 518_400);
}

#[test]
fn only_the_admin_mints() {
    let mut env = Env::new(NOW);
    // No admin yet.
    assert_eq!(mint(&mut env, "p1", 10, "b1", 1, 10), Err(CarbonError::UnauthorizedVerifier));
    CarbonCreditContract::initialize(&mut env, owner(), admin()).unwrap();
    // Another admin.
    assert_eq!(mint(&mut env, "p1", 10, "b1", 1, 10), Err(CarbonError::UnauthorizedVerifier));
}

#[test]
fn mint_errors_come_in_order() {
    let mut env = setup();
    mint(&mut env, "p1", 10, "b1", 1, 10).unwrap();
    assert_eq!(mint(&mut env, "p1", 0, "b1", 9, 1), Err(CarbonError::ZeroAmountNotAllowed));
    assert_eq!(mint(&mut env, "p1", 1, "b1", 9, 1), Err(CarbonError::InvalidSerialRange));
    assert_eq!(mint(&mut env, "p1", 1, "b1", 50, 60), Err(CarbonError::SerialNumberConflict));
    assert_eq!(mint(&mut env, "p1", 1, "b2", 10, 20), Err(CarbonError::SerialNumberConflict));
    assert_eq!(mint(&mut env, "p1", 1, "b2", 11, 20), Ok(()));
}

#[test]
fn vintage_bounds_are_included() {
    for year in [2000, 2100] {
        let mut env = setup();
        let result = CarbonCreditContract::mint_credits(
            &mut env,
            admin(),
            s("p"),
            1,
            year,
            s("b"),
            1,
            1,
            s("cid"),
            owner(),
        );
        assert_eq!(result, Ok(()));
    }
}

#[test]
fn only_the_owner_retires() {
    let mut env = setup();
    mint(&mut env, "p1", 100, "b1", 1, 100).unwrap();
    assert_eq!(
        retire(&mut env, admin(), "b1", 1, "ret-001"),
        Err(CarbonError::UnauthorizedVerifier)
    );
    transfer(&mut env, owner(), address("GBUYER"), "b1", 100).unwrap();
    assert_eq!(
        retire(&mut env, owner(), "b1", 1, "ret-001"),
        Err(CarbonError::UnauthorizedVerifier)
    );
    assert!(retire(&mut env, address("GBUYER"), "b1", 1, "ret-001").is_ok());
}

#[test]
fn suspended_batches_stand_still() {
    let mut env = Env::new(NOW);
    env.load_batch(s("b1"), sample_batch("b1", CreditStatus::Suspended));
    assert_eq!(retire(&mut env, owner(), "b1", 1, "r"), Err(CarbonError::ProjectSuspended));
    assert_eq!(transfer(&mut env, owner(), admin(), "b1", 1), Err(CarbonError::ProjectSuspended));
}

#[test]
fn successive_retirements_take_successive_serials() {
    let mut env = setup();
    mint(&mut env, "p1", 10, "b1", 500, 509).unwrap();
    let first = retire(&mut env, owner(), "b1", 4, "r1").unwrap();
    let second = retire(&mut env, owner(), "b1", 5, "r2").unwrap();
    let third = retire(&mut env, owner(), "b1", 1, "r3").unwrap();
    assert_eq!(first.serial_numbers, vec![500, 501, 502, 503]);
    assert_eq!(second.serial_numbers, vec![504, 505, 506, 507, 508]);
    assert_eq!(third.serial_numbers, vec![509]);
    let batch = CarbonCreditContract::get_credit_batch(&mut env, s("b1")).unwrap();
    assert_eq!(batch.status, CreditStatus::FullyRetired);
    assert_eq!(retire(&mut env, owner(), "b1", 1, "r4"), Err(CarbonError::AlreadyRetired));
    // Earlier certificates are still there.
    assert_eq!(CarbonCreditContract::get_retirement_certificate(&env, s("r1")), Ok(first));
}

#[test]
fn loaded_counter_is_passed_over() {
    let mut env = Env::new(NOW);
    env.load_batch(s("b1"), sample_batch("b1", CreditStatus::PartiallyRetired));
    env.load_retired(s("b1"), 98);
    assert_eq!(retire(&mut env, owner(), "b1", 3, "r"), Err(CarbonError::InsufficientCredits));
    let certificate = retire(&mut env, owner(), "b1", 2, "r").unwrap();
    assert_eq!(certificate.serial_numbers, vec![99, 100]);
}

#[test]
fn reused_retirement_id_is_refused() {
    let mut env = setup();
    mint(&mut env, "p1", 10, "b1", 1, 10).unwrap();
    mint(&mut env, "p2", 10, "b2", 11, 20).unwrap();
    let first = retire(&mut env, owner(), "b1", 4, "r1").unwrap();
    let before = env.calls().len();
    assert_eq!(
        retire(&mut env, owner(), "b1", 5, "r1"),
        Err(CarbonError::RetirementIrreversible)
    );
    assert_eq!(env.calls()[before..], [HostCall::RequireAuth(owner()), keep_alive("b1")]);
    // Nor under another batch.
    assert_eq!(
        retire(&mut env, owner(), "b2", 10, "r1"),
        Err(CarbonError::RetirementIrreversible)
    );
    assert_eq!(CarbonCreditContract::get_retirement_certificate(&env, s("r1")), Ok(first));
    let b2 = CarbonCreditContract::get_credit_batch(&mut env, s("b2")).unwrap();
    assert_eq!(b2.status, CreditStatus::Active);
    // The refused calls took no serial number.
    let second = retire(&mut env, owner(), "b1", 1, "r2").unwrap();
    assert_eq!(second.serial_numbers, vec![5]);
    // What is wrong with the batch is told first.
    assert_eq!(retire(&mut env, owner(), "b1", 6, "r1"), Err(CarbonError::InsufficientCredits));
    assert_eq!(retire(&mut env, owner(), "b1", 0, "r1"), Err(CarbonError::ZeroAmountNotAllowed));
    // An id in use cannot overflow.
    mint(&mut env, "p1", 10, "top", u64::MAX - 9, u64::MAX).unwrap();
    assert_eq!(
        retire(&mut env, owner(), "top", 10, "r1"),
        Err(CarbonError::RetirementIrreversible)
    );
}

#[test]
fn loaded_certificates_are_not_replaced() {
    let mut env = setup();
    mint(&mut env, "p1", 10, "b1", 1, 10).unwrap();
    let certificate = RetirementCertificate {
        retirement_id: s("r"),
        credit_batch_id: s("b"),
        project_id: s("p"),
        amount: 2,
        retired_by: owner(),
        beneficiary: s("c"),
        retirement_reason: s("x"),
        vintage_year: 2001,
        serial_numbers: vec![7, 8],
        retired_at: 3,
        tx_hash: s("t"),
    };
    env.load_retirement(s("r"), certificate.clone());
    assert_eq!(retire(&mut env, owner(), "b1", 1, "r"), Err(CarbonError::RetirementIrreversible));
    assert_eq!(CarbonCreditContract::get_retirement_certificate(&env, s("r")), Ok(certificate));
}

#[test]
fn numbers_past_the_serials_are_refused() {
    let mut env = setup();
    let most: i128 = u64::MAX as i128;
    mint(&mut env, "p1", most + 6, "b1", 0, 9).unwrap();
    let before = env.calls().len();
    assert_eq!(
        retire(&mut env, owner(), "b1", most + 1, "r1"),
        Err(CarbonError::InvalidSerialRange)
    );
    assert_eq!(env.calls()[before..], [HostCall::RequireAuth(owner()), keep_alive("b1")]);
    assert_eq!(
        CarbonCreditContract::get_retirement_certificate(&env, s("r1")),
        Err(CarbonError::ProjectNotFound)
    );
    let batch = CarbonCreditContract::get_credit_batch(&mut env, s("b1")).unwrap();
    assert_eq!(batch.status, CreditStatus::Active);

    let mut far = Env::new(NOW);
    let large = CreditBatch { amount: most + 6, ..sample_batch("b1", CreditStatus::Active) };
    far.load_batch(s("b1"), large);
    far.load_retired(s("b1"), most + 1);
    assert_eq!(retire(&mut far, owner(), "b1", 1, "r1"), Err(CarbonError::InvalidSerialRange));
    far.load_retired(s("b1"), -1);
    assert_eq!(retire(&mut far, owner(), "b1", 1, "r1"), Err(CarbonError::InvalidSerialRange));
}

#[test]
fn taken_serials_are_never_freed() {
    let mut env = setup();
    mint(&mut env, "p1", 10, "b1", 50, 59).unwrap();
    retire(&mut env, owner(), "b1", 4, "r1").unwrap();
    transfer(&mut env, owner(), address("GBUYER"), "b1", 1).unwrap();
    retire(&mut env, address("GBUYER"), "b1", 6, "r2").unwrap();
    mint(&mut env, "p1", 10, "b2", 60, 69).unwrap();
    assert!(!CarbonCreditContract::verify_serial_range(&env, 50, 50));
    assert!(!CarbonCreditContract::verify_serial_range(&env, 49, 59));
    assert!(!CarbonCreditContract::verify_serial_range(&env, 0, u64::MAX));
    assert_eq!(mint(&mut env, "p1", 1, "b3", 40, 50), Err(CarbonError::SerialNumberConflict));
}

#[test]
fn status_tells_what_is_left() {
    let mut env = setup();
    mint(&mut env, "p1", 10, "b1", 1, 10).unwrap();
    let mut left: i128 = 10;
    for (amount, id) in [(3, "r1"), (9, "r2"), (6, "r3"), (1, "r4")] {
        let result = retire(&mut env, owner(), "b1", amount, id);
        assert_eq!(result.is_ok(), amount <= left);
        if let Ok(certificate) = result {
            assert_eq!(certificate.amount, amount);
            left -= amount;
        }
        let batch = CarbonCreditContract::get_credit_batch(&mut env, s("b1")).unwrap();
        let expected =
            if left == 0 { CreditStatus::FullyRetired } else { CreditStatus::PartiallyRetired };
        assert_eq!(batch.status, expected);
        assert_eq!(batch.amount, 10);
    }
    assert_eq!(left, 0);
}

#[test]
fn only_what_succeeded_is_listed() {
    let mut env = setup();
    mint(&mut env, "p1", 10, "b2", 1, 10).unwrap();
    assert!(mint(&mut env, "p1", 10, "b3", 10, 19).is_err());
    assert!(mint(&mut env, "p1", 10, "b2", 20, 29).is_err());
    mint(&mut env, "p1", 10, "b1", 20, 29).unwrap();
    let credits = CarbonCreditContract::get_project_credits(&mut env, s("p1"));
    let ids: Vec<Text> = credits.into_iter().map(|batch| batch.batch_id).collect();
    assert_eq!(ids, vec![s("b2"), s("b1")]);
    assert_eq!(
        CarbonCreditContract::get_credit_batch(&mut env, s("b3")),
        Err(CarbonError::ProjectNotFound)
    );
    assert!(retire(&mut env, owner(), "b2", 11, "r1").is_err());
    assert_eq!(
        CarbonCreditContract::get_retirement_certificate(&env, s("r1")),
        Err(CarbonError::ProjectNotFound)
    );
}

#[test]
fn overflow_is_seen_beforehand() {
    let mut env = setup();
    mint(&mut env, "p1", 10, "top", u64::MAX - 9, u64::MAX).unwrap();
    assert!(CarbonCreditContract::can_retire(&env, &owner(), &s("top"), 9, &s("r")));
    assert!(!CarbonCreditContract::can_retire(&env, &owner(), &s("top"), 10, &s("r")));
    // What is refused anyway cannot overflow.
    assert!(CarbonCreditContract::can_retire(&env, &owner(), &s("top"), 11, &s("r")));
    assert!(CarbonCreditContract::can_retire(&env, &admin(), &s("top"), 10, &s("r")));
    assert!(CarbonCreditContract::can_retire(&env, &owner(), &s("none"), 10, &s("r")));
    assert!(CarbonCreditContract::can_use(&env, &owner(), &s("top"), 10));

    let mut broken = Env::new(NOW);
    broken.load_batch(s("b1"), sample_batch("b1", CreditStatus::Active));
    broken.load_retired(s("b1"), i128::MIN);
    assert!(!CarbonCreditContract::can_use(&broken, &owner(), &s("b1"), 1));
    assert!(!CarbonCreditContract::can_retire(&broken, &owner(), &s("b1"), 1, &s("r")));
}

#[test]
fn project_credits_come_in_order() {
    let mut env = setup();
    mint(&mut env, "p1", 10, "b2", 1, 10).unwrap();
    mint(&mut env, "p2", 10, "other", 11, 20).unwrap();
    mint(&mut env, "p1", 10, "b1", 21, 30).unwrap();
    let before = env.calls().len();
    let credits = CarbonCreditContract::get_project_credits(&mut env, s("p1"));
    assert_eq!(credits.len(), 2);
    assert_eq!(credits[0].batch_id, s("b2"));
    assert_eq!(credits[1].batch_id, s("b1"));
    assert_eq!(env.calls()[before..], [keep_alive("b2"), keep_alive("b1")]);
    assert!(CarbonCreditContract::get_project_credits(&mut env, s("none")).is_empty());
}

#[test]
fn listed_batches_that_are_missing_are_passed_over() {
    let mut env = Env::new(NOW);
    env.load_project_batches(s("p1"), vec![s("gone"), s("b1"), s("gone too")]);
    env.load_batch(s("b1"), sample_batch("b1", CreditStatus::Active));
    let credits = CarbonCreditContract::get_project_credits(&mut env, s("p1"));
    assert_eq!(credits, vec![sample_batch("b1", CreditStatus::Active)]);
}

#[test]
fn serial_ranges_meet_at_their_ends() {
    let mut env = Env::new(NOW);
    assert!(CarbonCreditContract::verify_serial_range(&env, 0, u64::MAX));
    env.load_serial_registry(vec![
        SerialRange { start: 10, end: 20 },
        SerialRange { start: 40, end: 50 },
    ]);
    assert!(CarbonCreditContract::verify_serial_range(&env, 0, 9));
    assert!(!CarbonCreditContract::verify_serial_range(&env, 0, 10));
    assert!(!CarbonCreditContract::verify_serial_range(&env, 20, 30));
    assert!(CarbonCreditContract::verify_serial_range(&env, 21, 39));
    assert!(!CarbonCreditContract::verify_serial_range(&env, 21, 40));
    assert!(!CarbonCreditContract::verify_serial_range(&env, 12, 13));
    assert!(!CarbonCreditContract::verify_serial_range(&env, 0, u64::MAX));
    // Bounds the wrong way round are compared as they stand.
    assert!(!CarbonCreditContract::verify_serial_range(&env, 18, 12));
    assert!(CarbonCreditContract::verify_serial_range(&env, 35, 25));
}

#[test]
fn loaded_entries_are_seen() {
    let mut env = Env::new(NOW);
    env.load_admin(admin());
    env.load_serial_registry(vec![SerialRange { start: 1, end: 5 }]);
    assert_eq!(mint(&mut env, "p1", 1, "b1", 5, 6), Err(CarbonError::SerialNumberConflict));
    assert_eq!(mint(&mut env, "p1", 1, "b1", 6, 6), Ok(()));
    assert_eq!(
        CarbonCreditContract::initialize(&mut env, admin(), admin()),
        Err(CarbonError::AlreadyInitialized)
    );
    let certificate = RetirementCertificate {
        retirement_id: s("r"),
        credit_batch_id: s("b"),
        project_id: s("p"),
        amount: 2,
        retired_by: owner(),
        beneficiary: s("c"),
        retirement_reason: s("x"),
        vintage_year: 2001,
        serial_numbers: vec![7, 8],
        retired_at: 3,
        tx_hash: s("t"),
    };
    assert_eq!(
        CarbonCreditContract::get_retirement_certificate(&env, s("r")),
        Err(CarbonError::ProjectNotFound)
    );
    env.load_retirement(s("r"), certificate.clone());
    assert_eq!(CarbonCreditContract::get_retirement_certificate(&env, s("r")), Ok(certificate));
}

#[test]
fn a_later_load_replaces_an_earlier_one() {
    let mut env = Env::new(NOW);
    env.load_batch(s("b1"), sample_batch("b1", CreditStatus::Active));
    env.load_batch(s("b2"), sample_batch("b2", CreditStatus::Active));
    env.load_batch(s("b1"), sample_batch("b1", CreditStatus::FullyRetired));
    let b1 = CarbonCreditContract::get_credit_batch(&mut env, s("b1")).unwrap();
    let b2 = CarbonCreditContract::get_credit_batch(&mut env, s("b2")).unwrap();
    assert_eq!(b1.status, CreditStatus::FullyRetired);
    assert_eq!(b2.status, CreditStatus::Active);
}

#[test]
fn texts_are_compared_byte_by_byte() {
    assert_eq!(s("abc"), s("abc"));
    assert_ne!(s("abc"), s("abd"));
    assert_ne!(s("abc"), s("ab"));
    assert_ne!(s(""), s("a"));
    let not_utf8 = Text { bytes: vec![0xff, 0xfe] };
    assert_eq!(not_utf8, not_utf8.clone());
    assert_ne!(address("G1"), address("G2"));
}

#[test]
fn error_numbers() {
    let errors = [
        CarbonError::ProjectNotFound,
        CarbonError::ProjectNotVerified,
        CarbonError::ProjectSuspended,
        CarbonError::InsufficientCredits,
        CarbonError::AlreadyRetired,
        CarbonError::SerialNumberConflict,
        CarbonError::UnauthorizedVerifier,
        CarbonError::UnauthorizedOracle,
        CarbonError::InvalidVintageYear,
        CarbonError::ListingNotFound,
        CarbonError::InsufficientLiquidity,
        CarbonError::PriceNotSet,
        CarbonError::MonitoringDataStale,
        CarbonError::DoubleCountingDetected,
        CarbonError::RetirementIrreversible,
        CarbonError::ZeroAmountNotAllowed,
        CarbonError::ProjectAlreadyExists,
        CarbonError::InvalidSerialRange,
        CarbonError::AlreadyInitialized,
    ];
    for (i, error) in errors.iter().enumerate() {
        assert_eq!(error.code() as usize, i + 1);
    }
}

#[test]
fn keys_are_cloned_as_they_are() {
    let keys = [
        DataKey::Batch(s("b")),
        DataKey::Retirement(s("r")),
        DataKey::ProjectBatches(s("p")),
        DataKey::SerialRegistry,
        DataKey::Admin,
        DataKey::RegistryContract,
    ];
    for key in keys.iter() {
        assert_eq!(key.clone(), *key);
    }
    let key = RetiredKey::BatchRetired(s("b"));
    assert_eq!(key.clone(), key);
}

#[test]
fn active_amount_is_what_was_not_retired() {
    let mut env = setup();
    mint(&mut env, "p1", 10, "b1", 1, 10).unwrap();
    let mut left = vec![];
    for (amount, id) in [(3, "r1"), (6, "r2"), (1, "r3")] {
        retire(&mut env, owner(), "b1", amount, id).unwrap();
        let batch = CarbonCreditContract::get_credit_batch(&mut env, s("b1")).unwrap();
        left.push(CarbonCreditContract::active_amount(&env, &batch));
    }
    assert_eq!(left, vec![7, 1, 0]);
    // A status of full retirement tells more than the counter.
    let frozen = sample_batch("other", CreditStatus::FullyRetired);
    assert_eq!(CarbonCreditContract::active_amount(&env, &frozen), 0);
    let untouched = sample_batch("other", CreditStatus::Active);
    assert_eq!(CarbonCreditContract::active_amount(&env, &untouched), 100);
}

#[test]
fn counters_never_fall() {
    let mut env = setup();
    mint(&mut env, "p1", 10, "b1", 1, 10).unwrap();
    retire(&mut env, owner(), "b1", 4, "r1").unwrap();
    transfer(&mut env, owner(), address("GBUYER"), "b1", 6).unwrap();
    transfer(&mut env, address("GBUYER"), owner(), "b1", 6).unwrap();
    assert!(mint(&mut env, "p1", 10, "b1", 11, 20).is_err());
    assert!(retire(&mut env, owner(), "b1", 7, "r2").is_err());
    let batch = CarbonCreditContract::get_credit_batch(&mut env, s("b1")).unwrap();
    assert_eq!(batch.status, CreditStatus::PartiallyRetired);
    assert_eq!(batch.amount, 10);
    assert_eq!(CarbonCreditContract::active_amount(&env, &batch), 6);
}

#[test]
fn serials_stay_apart_while_they_last() {
    let mut env = setup();
    // More credits than serial numbers, and its neighbour.
    mint(&mut env, "p1", 10, "b1", 1, 4).unwrap();
    mint(&mut env, "p1", 4, "b2", 5, 8).unwrap();
    // A refused mint of the same kind takes nothing.
    assert!(mint(&mut env, "p1", 10, "b3", 8, 9).is_err());
    let first = retire(&mut env, owner(), "b1", 4, "r1").unwrap();
    let second = retire(&mut env, owner(), "b2", 4, "r2").unwrap();
    assert_eq!(first.serial_numbers, vec![1, 2, 3, 4]);
    assert_eq!(second.serial_numbers, vec![5, 6, 7, 8]);
    assert!(!CarbonCreditContract::verify_serial_range_internal(&env, 8, 9));
    assert!(CarbonCreditContract::verify_serial_range_internal(&env, 9, 9));
}
