//! The contract as its users meet it.

use carbon_credit::{
    Address, CarbonCreditContract, CarbonError, CreditBatch, CreditStatus, Env,
    RetirementCertificate, Text,
};

const NOW: u64 = 1_700_000_000;

fn s(v: &str) -> Text {
    Text { bytes: v.as_bytes().to_vec() }
}

fn address(v: &str) -> Address {
    Address { strkey: s(v) }
}

/// A contract that was initialized, and its admin.
fn setup() -> (Env, Address) {
    let mut env = Env::new(NOW);
    let admin = address("GADMIN");
    let registry = address("CREGISTRY");
    CarbonCreditContract::initialize(&mut env, admin.clone(), registry).unwrap();
    (env, admin)
}

#[allow(clippy::too_many_arguments)]
fn mint(
    env: &mut Env,
    admin: &Address,
    project: &str,
    amount: i128,
    year: u32,
    batch: &str,
    start: u64,
    end: u64,
    cid: &str,
    owner: &Address,
) -> Result<(), CarbonError> {
    CarbonCreditContract::mint_credits(
        env,
        admin.clone(),
        s(project),
        amount,
        year,
        s(batch),
        start,
        end,
        s(cid),
        owner.clone(),
    )
}

#[allow(clippy::too_many_arguments)]
fn retire(
    env: &mut Env,
    holder: &Address,
    batch: &str,
    amount: i128,
    reason: &str,
    beneficiary: &str,
    retirement: &str,
    tx: &str,
) -> Result<RetirementCertificate, CarbonError> {
    assert!(CarbonCreditContract::can_retire(env, holder, &s(batch), amount, &s(retirement)));
    CarbonCreditContract::retire_credits(
        env,
        holder.clone(),
        s(batch),
        amount,
        s(reason),
        s(beneficiary),
        s(retirement),
        s(tx),
    )
}

fn transfer(
    env: &mut Env,
    from: &Address,
    to: &Address,
    batch: &str,
    amount: i128,
) -> Result<(), CarbonError> {
    assert!(CarbonCreditContract::can_use(env, from, &s(batch), amount));
    CarbonCreditContract::transfer_credits(env, from.clone(), to.clone(), s(batch), amount)
}

fn batch(env: &mut Env, id: &str) -> Result<CreditBatch, CarbonError> {
    CarbonCreditContract::get_credit_batch(env, s(id))
}

fn mint_batch(env: &mut Env, admin: &Address, owner: &Address) {
    mint(env, admin, "proj-001", 1000, 2023, "batch-001", 1, 1000, "QmCID", owner).unwrap();
}

#[test]
fn test_transfer_from_owner_succeeds() {
    let (mut env, admin) = setup();
    let owner = address("GOWNER");
    let buyer = address("GBUYER");
    mint_batch(&mut env, &admin, &owner);

    transfer(&mut env, &owner, &buyer, "batch-001", 100).unwrap();

    let batch = batch(&mut env, "batch-001").unwrap();
    assert_eq!(batch.owner, buyer);
}

#[test]
fn test_transfer_from_non_owner_fails() {
    let (mut env, admin) = setup();
    let owner = address("GOWNER");
    let attacker = address("GATTACKER");
    let victim = address("GVICTIM");
    mint_batch(&mut env, &admin, &owner);

    let result = transfer(&mut env, &attacker, &victim, "batch-001", 100);
    assert!(result.is_err());
}

#[test]
fn test_admin_cannot_bypass_transfer_authorization() {
    let (mut env, admin) = setup();
    let owner = address("GOWNER");
    let to = address("GTO");
    mint_batch(&mut env, &admin, &owner);

    // The admin does not own the batch and must be rejected.
    let result = transfer(&mut env, &admin, &to, "batch-001", 100);
    assert!(result.is_err());
}

#[test]
fn test_transfer_updates_owner() {
    let (mut env, admin) = setup();
    let owner = address("GOWNER");
    let new_owner = address("GNEWOWNER");
    mint_batch(&mut env, &admin, &owner);

    transfer(&mut env, &owner, &new_owner, "batch-001", 500).unwrap();

    // The new owner can transfer again; the old owner cannot.
    let third = address("GTHIRD");
    transfer(&mut env, &new_owner, &third, "batch-001", 200).unwrap();
    let result = transfer(&mut env, &owner, &third, "batch-001", 100);
    assert!(result.is_err());
}

#[test]
fn test_mint_credits_success() {
    let (mut env, admin) = setup();
    let owner = address("GOWNER");

    mint(&mut env, &admin, "proj-002", 500, 2023, "batch-A", 1, 500, "QmCID", &owner).unwrap();

    let b = batch(&mut env, "batch-A").unwrap();
    assert_eq!(b.amount, 500);
    assert_eq!(b.status, CreditStatus::Active);
    assert_eq!(b.owner, owner);
}

#[test]
fn test_serial_conflict_detection() {
    let (mut env, admin) = setup();
    let owner = address("GOWNER");

    mint(&mut env, &admin, "p1", 100, 2023, "b1", 1, 100, "cid", &owner).unwrap();
    // The overlapping range 50-150 fails.
    let result = mint(&mut env, &admin, "p1", 100, 2023, "b2", 50, 150, "cid", &owner);
    assert!(result.is_err());
}

#[test]
fn test_verify_serial_range_no_overlap() {
    let (mut env, admin) = setup();
    let owner = address("GOWNER");

    mint(&mut env, &admin, "p1", 100, 2023, "b1", 1, 100, "cid", &owner).unwrap();
    assert!(CarbonCreditContract::verify_serial_range(&env, 101, 200));
    assert!(!CarbonCreditContract::verify_serial_range(&env, 50, 150));
}

#[test]
fn test_retire_credits_permanent() {
    let (mut env, admin) = setup();
    let holder = address("GHOLDER");

    mint(&mut env, &admin, "p1", 100, 2023, "b1", 1, 100, "cid", &holder).unwrap();

    let cert = retire(
        &mut env,
        &holder,
        "b1",
        100,
        "offset 2023 emissions",
        "Acme Corp",
        "ret-001",
        "txhash123",
    )
    .unwrap();

    assert_eq!(cert.amount, 100);
    let batch = batch(&mut env, "b1").unwrap();
    assert_eq!(batch.status, CreditStatus::FullyRetired);
}

#[test]
fn test_retired_credits_cannot_be_transferred() {
    let (mut env, admin) = setup();
    let owner = address("GOWNER");

    mint(&mut env, &admin, "p1", 100, 2023, "b1", 1, 100, "cid", &owner).unwrap();
    retire(&mut env, &owner, "b1", 100, "reason", "Corp", "ret-001", "tx").unwrap();

    let to = address("GTO");
    let result = transfer(&mut env, &owner, &to, "b1", 10);
    assert!(result.is_err());
}

#[test]
fn test_retired_credits_cannot_be_retired_again() {
    let (mut env, admin) = setup();
    let owner = address("GOWNER");

    mint(&mut env, &admin, "p1", 100, 2023, "b1", 1, 100, "cid", &owner).unwrap();
    retire(&mut env, &owner, "b1", 100, "reason", "Corp", "ret-001", "tx").unwrap();

    let result = retire(&mut env, &owner, "b1", 100, "reason", "Corp", "ret-002", "tx2");
    assert!(result.is_err());
}

#[test]
fn test_partial_retirement_updates_status() {
    let (mut env, admin) = setup();
    let owner = address("GOWNER");

    mint(&mut env, &admin, "p1", 100, 2023, "b1", 1, 100, "cid", &owner).unwrap();
    retire(&mut env, &owner, "b1", 40, "reason", "Corp", "ret-001", "tx").unwrap();

    let batch = batch(&mut env, "b1").unwrap();
    assert_eq!(batch.status, CreditStatus::PartiallyRetired);
}

#[test]
fn test_get_retirement_certificate() {
    let (mut env, admin) = setup();
    let owner = address("GOWNER");

    mint(&mut env, &admin, "p1", 100, 2023, "b1", 1, 100, "cid", &owner).unwrap();
    retire(&mut env, &owner, "b1", 100, "reason", "Corp", "ret-001", "tx").unwrap();

    let cert = CarbonCreditContract::get_retirement_certificate(&env, s("ret-001")).unwrap();
    assert_eq!(cert.amount, 100);
    assert_eq!(cert.retirement_id, s("ret-001"));
}

#[test]
fn test_zero_amount_rejected() {
    let (mut env, admin) = setup();
    let owner = address("GOWNER");

    let result = mint(&mut env, &admin, "p1", 0, 2023, "b1", 1, 100, "cid", &owner);
    assert!(result.is_err());
}

#[test]
fn test_initialize_twice_fails() {
    let mut env = Env::new(NOW);
    let admin = address("GADMIN");
    let registry = address("CREGISTRY");
    CarbonCreditContract::initialize(&mut env, admin.clone(), registry.clone()).unwrap();
    let result = CarbonCreditContract::initialize(&mut env, admin, registry);
    assert!(result.is_err());
}

// Ranges of inputs.

#[test]
fn fuzz_mint_zero_or_negative_amount() {
    for amount in [0, -1, -1000, i128::MIN + 1, i128::MIN] {
        let (mut env, admin) = setup();
        let owner = address("GOWNER");
        let result = mint(
            &mut env, &admin, "proj-fuzz", amount, 2023, "batch-fuzz", 1, 100, "cid", &owner,
        );
        assert_eq!(result, Err(CarbonError::ZeroAmountNotAllowed));
    }
}

#[test]
fn fuzz_mint_inverted_serial_range() {
    for (start, delta) in [(1, 1), (2, 1), (1, 999_999), (500, 17), (u64::MAX - 1, 999_999)] {
        let end = u64::saturating_sub(start, delta);
        let (mut env, admin) = setup();
        let owner = address("GOWNER");
        let result = mint(
            &mut env, &admin, "proj-fuzz", 100, 2023, "batch-fuzz", start, end, "cid", &owner,
        );
        assert_eq!(result, Err(CarbonError::InvalidSerialRange));
    }
}

#[test]
fn fuzz_mint_invalid_vintage_year() {
    for year in [0, 1, 1999, 2101, 5000, u32::MAX - 1, u32::MAX] {
        let (mut env, admin) = setup();
        let owner = address("GOWNER");
        let result = mint(
            &mut env, &admin, "proj-fuzz", 100, year, "batch-fuzz", 1, 100, "cid", &owner,
        );
        assert_eq!(result, Err(CarbonError::InvalidVintageYear));
    }
}

#[test]
fn fuzz_mint_valid_inputs_succeed() {
    for (amount, start, len, year) in [
        (1, 1, 1, 2000),
        (999_999, 1, 1, 2100),
        (1, 499_999, 499_999, 2050),
        (77, 500, 77, 2023),
    ] {
        let end = u64::saturating_add(start, len - 1);
        let (mut env, admin) = setup();
        let owner = address("GOWNER");
        let result = mint(
            &mut env, &admin, "proj-fuzz", amount, year, "batch-fuzz", start, end, "cid", &owner,
        );
        assert_eq!(result, Ok(()));
        let batch = batch(&mut env, "batch-fuzz").unwrap();
        assert_eq!(batch.amount, amount);
        assert_eq!(batch.owner, owner);
    }
}

#[test]
fn fuzz_mint_duplicate_batch_id_rejected() {
    for amount in [1, 2, 500, 999] {
        let (mut env, admin) = setup();
        let owner = address("GOWNER");
        mint(&mut env, &admin, "proj-fuzz", amount, 2023, "batch-dup", 1, 100, "cid", &owner)
            .unwrap();
        let result = mint(
            &mut env, &admin, "proj-fuzz", amount, 2023, "batch-dup", 200, 300, "cid", &owner,
        );
        assert_eq!(result, Err(CarbonError::SerialNumberConflict));
    }
}

#[test]
fn fuzz_mint_overlapping_serials_rejected() {
    for (overlap_start, overlap_end) in [(1, 51), (49, 199), (10, 100), (25, 60)] {
        let (mut env, admin) = setup();
        let owner = address("GOWNER");
        mint(&mut env, &admin, "proj-fuzz", 100, 2023, "batch-a", 1, 100, "cid", &owner).unwrap();
        let result = mint(
            &mut env,
            &admin,
            "proj-fuzz",
            100,
            2023,
            "batch-b",
            overlap_start,
            overlap_end,
            "cid",
            &owner,
        );
        assert_eq!(result, Err(CarbonError::SerialNumberConflict));
    }
}

#[test]
fn fuzz_retire_exceeds_available() {
    for excess in [1, 2, 1000, 999_999] {
        let (mut env, admin) = setup();
        let owner = address("GOWNER");
        mint(&mut env, &admin, "proj-fuzz", 100, 2023, "batch-fuzz", 1, 100, "cid", &owner)
            .unwrap();
        let result =
            retire(&mut env, &owner, "batch-fuzz", 100 + excess, "reason", "Corp", "ret-001", "tx");
        assert_eq!(result, Err(CarbonError::InsufficientCredits));
    }
}

#[test]
fn fuzz_retire_zero_or_negative() {
    for amount in [0, -1, -100, i128::MIN] {
        let (mut env, admin) = setup();
        let owner = address("GOWNER");
        mint(&mut env, &admin, "proj-fuzz", 100, 2023, "batch-fuzz", 1, 100, "cid", &owner)
            .unwrap();
        let result =
            retire(&mut env, &owner, "batch-fuzz", amount, "reason", "Corp", "ret-001", "tx");
        assert_eq!(result, Err(CarbonError::ZeroAmountNotAllowed));
    }
}

#[test]
fn fuzz_retire_nonexistent_batch() {
    for suffix in ["a", "zz", "batch", "abcdefgh"] {
        let (mut env, _admin) = setup();
        let holder = address("GHOLDER");
        let batch_id = format!("no-such-{}", suffix);
        let result = retire(&mut env, &holder, &batch_id, 10, "reason", "Corp", "ret-001", "tx");
        assert_eq!(result, Err(CarbonError::ProjectNotFound));
    }
}

#[test]
fn fuzz_retire_partial_valid() {
    for (total, percent) in [(2_i128, 1), (2, 98), (100, 50), (9_999, 98), (777, 33)] {
        let amount = (total * percent / 100).max(1).min(total - 1);
        let (mut env, admin) = setup();
        let owner = address("GOWNER");
        mint(
            &mut env, &admin, "proj-fuzz", total, 2023, "batch-fuzz", 1, total as u64, "cid", &owner,
        )
        .unwrap();
        let cert =
            retire(&mut env, &owner, "batch-fuzz", amount, "reason", "Corp", "ret-001", "tx")
                .unwrap();
        assert_eq!(cert.amount, amount);
        let batch = batch(&mut env, "batch-fuzz").unwrap();
        assert_eq!(batch.status, CreditStatus::PartiallyRetired);
    }
}

#[test]
fn fuzz_retire_after_full_retirement_fails() {
    for second_amount in [1, 2, 100, 999] {
        let (mut env, admin) = setup();
        let owner = address("GOWNER");
        mint(&mut env, &admin, "proj-fuzz", 100, 2023, "batch-fuzz", 1, 100, "cid", &owner)
            .unwrap();
        retire(&mut env, &owner, "batch-fuzz", 100, "reason", "Corp", "ret-001", "tx").unwrap();
        let result = retire(
            &mut env, &owner, "batch-fuzz", second_amount, "reason", "Corp", "ret-002", "tx2",
        );
        assert_eq!(result, Err(CarbonError::AlreadyRetired));
    }
}
