//! The contract: the calls that the network and its users can make.

use crate::env::{Env, EnvView};
use crate::error::CarbonError;
use crate::host::{DataKey, Event, HostCallView, TTL_LEDGERS};
use crate::records::{CreditBatch, CreditStatus, RetirementCertificate, SerialRange};
use crate::rules::{
    MintRequest, RetireRequest, TransferRequest, FIRST_VINTAGE, LAST_VINTAGE,
};
use crate::text::{Address, Text};
use vstd::prelude::*;

verus! {

/// The carbon credit contract.
pub struct CarbonCreditContract;

impl CarbonCreditContract {
    /// Sets the admin and the contract that keeps the projects.
    ///
    /// This can be done once: later calls return [`CarbonError::AlreadyInitialized`].
    pub fn initialize(env: &mut Env, admin: Address, registry_contract: Address) -> (result: Result<
        (),
        CarbonError,
    >)
        ensures
            result == old(env)@.ledger.initialize_outcome(),
            final(env)@ == old(env)@.moved_to(
                old(env)@.ledger.after_initialize(admin@, registry_contract@),
                old(env)@.ledger.initialize_calls(admin@, registry_contract@),
            ),
    {
        let ghost before = env@;
        if env.admin().is_some() {
            assert(env@.calls =~= before.calls + Seq::<HostCallView>::empty());
            return Err(CarbonError::AlreadyInitialized);
        }
        env.require_auth(&admin);
        env.set_admin(&admin);
        env.set_registry_contract(&registry_contract);
        let ranges: Vec<SerialRange> = Vec::new();
        env.set_serial_registry(ranges);
        assert(env@.calls =~= before.calls + before.ledger.initialize_calls(
            admin@,
            registry_contract@,
        ));
        Ok(())
    }

    /// Mints verified carbon credits. Every credit gets a serial number that no
    /// other batch has, so that none is counted twice. The batch belongs to
    /// `initial_owner`.
    ///
    /// # Errors
    /// - [`CarbonError::UnauthorizedVerifier`] if `admin` is not the admin.
    /// - [`CarbonError::ZeroAmountNotAllowed`] if `amount` is zero or less.
    /// - [`CarbonError::InvalidSerialRange`] if `serial_end < serial_start`.
    /// - [`CarbonError::InvalidVintageYear`] if the vintage year is out of range.
    /// - [`CarbonError::SerialNumberConflict`] if there is a batch with that id, or
    ///   the serial range overlaps that of an existing batch.
    pub fn mint_credits(
        env: &mut Env,
        admin: Address,
        project_id: Text,
        amount: i128,
        vintage_year: u32,
        batch_id: Text,
        serial_start: u64,
        serial_end: u64,
        metadata_cid: Text,
        initial_owner: Address,
    ) -> (result: Result<(), CarbonError>)
        ensures
            ({
                let ledger = old(env)@.ledger;
                let timestamp = old(env)@.timestamp;
                let request = MintRequest {
                    admin: admin@,
                    project_id: project_id@,
                    amount,
                    vintage_year,
                    batch_id: batch_id@,
                    serial_start,
                    serial_end,
                    metadata_cid: metadata_cid@,
                    initial_owner: initial_owner@,
                };
                &&& result == ledger.mint_outcome(request)
                &&& final(env)@ == old(env)@.moved_to(
                    ledger.after_mint(timestamp, request),
                    ledger.mint_calls(timestamp, request),
                )
            }),
    {
        let ghost before = env@;
        let ghost request = MintRequest {
            admin: admin@,
            project_id: project_id@,
            amount,
            vintage_year,
            batch_id: batch_id@,
            serial_start,
            serial_end,
            metadata_cid: metadata_cid@,
            initial_owner: initial_owner@,
        };
        env.require_auth(&admin);
        assert(env@.calls =~= before.calls + seq![HostCallView::RequireAuth(admin@)]);
        match Self::require_admin(env, &admin) {
            Ok(()) => {},
            Err(error) => {
                return Err(error);
            },
        }
        if amount <= 0 {
            return Err(CarbonError::ZeroAmountNotAllowed);
        }
        if serial_end < serial_start {
            return Err(CarbonError::InvalidSerialRange);
        }
        if vintage_year < FIRST_VINTAGE || vintage_year > LAST_VINTAGE {
            return Err(CarbonError::InvalidVintageYear);
        }
        if env.has_batch(&batch_id) {
            return Err(CarbonError::SerialNumberConflict);
        }
        if !Self::verify_serial_range_internal(env, serial_start, serial_end) {
            return Err(CarbonError::SerialNumberConflict);
        }
        let mut ranges: Vec<SerialRange> = match env.serial_registry() {
            Some(ranges) => ranges,
            None => Vec::new(),
        };
        ranges.push(SerialRange { start: serial_start, end: serial_end });
        assert(ranges@ =~= before.ledger.ranges().push(request.range()));
        env.set_serial_registry(ranges);

        let batch = CreditBatch {
            batch_id: batch_id.clone(),
            project_id: project_id.clone(),
            vintage_year,
            amount,
            serial_start,
            serial_end,
            issued_at: env.timestamp(),
            status: CreditStatus::Active,
            metadata_cid,
            owner: initial_owner,
        };
        env.set_batch(&batch_id, &batch);
        Self::extend_batch_ttl(env, &batch_id);

        let mut project_batches: Vec<Text> = match env.project_batches(&project_id) {
            Some(ids) => ids,
            None => Vec::new(),
        };
        project_batches.push(batch_id.clone());
        assert(project_batches.deep_view() =~= before.ledger.ids_of(project_id@).push(batch_id@));
        env.set_project_batches(&project_id, project_batches);

        env.publish(
            Event::Minted { batch_id, project_id, amount, vintage_year, serial_start, serial_end },
        );
        assert(env@.calls =~= before.calls + before.ledger.mint_calls(before.timestamp, request));
        Ok(())
    }

    /// Retires carbon credits, permanently and irreversibly.
    ///
    /// Only the owner of the batch may do so. The certificate is permanent: its
    /// id cannot be used again.
    ///
    /// # Errors
    /// - [`CarbonError::ZeroAmountNotAllowed`] if `amount` is zero or less.
    /// - [`CarbonError::ProjectNotFound`] if there is no such batch.
    /// - [`CarbonError::UnauthorizedVerifier`] if `holder` does not own the batch.
    /// - [`CarbonError::AlreadyRetired`] if the batch is fully retired.
    /// - [`CarbonError::ProjectSuspended`] if the batch is suspended.
    /// - [`CarbonError::InsufficientCredits`] if fewer credits are in circulation.
    /// - [`CarbonError::RetirementIrreversible`] if `retirement_id` has a certificate.
    /// - [`CarbonError::InvalidSerialRange`] if the credits that are retired so far,
    ///   or `amount`, are more than serial numbers can count.
    pub fn retire_credits(
        env: &mut Env,
        holder: Address,
        batch_id: Text,
        amount: i128,
        retirement_reason: Text,
        beneficiary: Text,
        retirement_id: Text,
        tx_hash: Text,
    ) -> (result: Result<RetirementCertificate, CarbonError>)
        requires
            old(env)@.ledger.retire_defined(holder@, batch_id@, amount, retirement_id@),
        ensures
            ({
                let ledger = old(env)@.ledger;
                let timestamp = old(env)@.timestamp;
                let request = RetireRequest {
                    holder: holder@,
                    batch_id: batch_id@,
                    amount,
                    retirement_reason: retirement_reason@,
                    beneficiary: beneficiary@,
                    retirement_id: retirement_id@,
                    tx_hash: tx_hash@,
                };
                &&& match result {
                    Ok(certificate) => ledger.retire_outcome(request) is Ok && certificate@
                        == ledger.certificate(timestamp, request),
                    Err(error) => ledger.retire_outcome(request) == Err::<(), CarbonError>(error),
                }
                &&& final(env)@ == old(env)@.moved_to(
                    ledger.after_retire(timestamp, request),
                    ledger.retire_calls(timestamp, request),
                )
            }),
    {
        let ghost before = env@;
        let ghost request = RetireRequest {
            holder: holder@,
            batch_id: batch_id@,
            amount,
            retirement_reason: retirement_reason@,
            beneficiary: beneficiary@,
            retirement_id: retirement_id@,
            tx_hash: tx_hash@,
        };
        env.require_auth(&holder);
        assert(env@.calls =~= before.calls + seq![HostCallView::RequireAuth(holder@)]);
        if amount <= 0 {
            return Err(CarbonError::ZeroAmountNotAllowed);
        }
        let mut batch = match Self::load_batch(env, &batch_id) {
            Ok(batch) => batch,
            Err(error) => {
                return Err(error);
            },
        };
        assert(env@.calls =~= before.calls + before.ledger.use_calls(holder@, batch_id@, amount));
        if batch.owner != holder {
            return Err(CarbonError::UnauthorizedVerifier);
        }
        if batch.status == CreditStatus::FullyRetired {
            return Err(CarbonError::AlreadyRetired);
        }
        if batch.status == CreditStatus::Suspended {
            return Err(CarbonError::ProjectSuspended);
        }
        let active_amount: i128 = Self::active_amount(env, &batch);
        if amount > active_amount {
            return Err(CarbonError::InsufficientCredits);
        }
        if env.has_retirement(&retirement_id) {
            return Err(CarbonError::RetirementIrreversible);
        }
        let already_retired: i128 = match env.retired(&batch_id) {
            Some(amount) => amount,
            None => 0,
        };
        if already_retired < 0 || already_retired > u64::MAX as i128 || amount > u64::MAX as i128 {
            return Err(CarbonError::InvalidSerialRange);
        }
        let retire_serial_start: u64 = batch.serial_start + already_retired as u64;
        let retire_serial_end: u64 = retire_serial_start + amount as u64 - 1;
        let mut serial_numbers: Vec<u64> = Vec::new();
        let mut s: u64 = retire_serial_start;
        while s <= retire_serial_end
            invariant
                retire_serial_start <= s <= retire_serial_end + 1 <= u64::MAX,
                serial_numbers@ == Seq::new(
                    (s - retire_serial_start) as nat,
                    |i: int| (retire_serial_start + i) as u64,
                ),
            decreases retire_serial_end + 1 - s,
        {
            serial_numbers.push(s);
            s += 1;
            assert(serial_numbers@ =~= Seq::new(
                (s - retire_serial_start) as nat,
                |i: int| (retire_serial_start + i) as u64,
            ));
        }
        assert(serial_numbers@ =~= before.ledger.retired_serials(batch_id@, amount));

        let new_retired: i128 = already_retired + amount;
        env.set_retired(&batch_id, new_retired);

        let new_active: i128 = batch.amount - new_retired;
        batch.status = if new_active == 0 {
            CreditStatus::FullyRetired
        } else {
            CreditStatus::PartiallyRetired
        };
        env.set_batch(&batch_id, &batch);
        Self::extend_batch_ttl(env, &batch_id);

        let certificate = RetirementCertificate {
            retirement_id: retirement_id.clone(),
            credit_batch_id: batch_id.clone(),
            project_id: batch.project_id.clone(),
            amount,
            retired_by: holder.clone(),
            beneficiary: beneficiary.clone(),
            retirement_reason,
            vintage_year: batch.vintage_year,
            serial_numbers,
            retired_at: env.timestamp(),
            tx_hash,
        };
        env.set_retirement(&retirement_id, &certificate);

        env.publish(
            Event::Retired {
                retirement_id,
                batch_id,
                project_id: batch.project_id,
                amount,
                holder,
                beneficiary,
            },
        );
        assert(env@.calls =~= before.calls + before.ledger.retire_calls(before.timestamp, request));
        Ok(certificate)
    }

    /// Hands a batch over to `to`. Only the current owner may do so: the admin
    /// has no way around it.
    ///
    /// # Errors
    /// - [`CarbonError::ZeroAmountNotAllowed`] if `amount` is zero or less.
    /// - [`CarbonError::ProjectNotFound`] if there is no such batch.
    /// - [`CarbonError::UnauthorizedVerifier`] if `from` does not own the batch.
    /// - [`CarbonError::AlreadyRetired`] if the batch is fully retired.
    /// - [`CarbonError::ProjectSuspended`] if the batch is suspended.
    /// - [`CarbonError::InsufficientCredits`] if fewer credits are in circulation.
    pub fn transfer_credits(
        env: &mut Env,
        from: Address,
        to: Address,
        batch_id: Text,
        amount: i128,
    ) -> (result: Result<(), CarbonError>)
        requires
            old(env)@.ledger.use_defined(from@, batch_id@, amount),
        ensures
            ({
                let ledger = old(env)@.ledger;
                let request = TransferRequest {
                    from: from@,
                    to: to@,
                    batch_id: batch_id@,
                    amount,
                };
                &&& result == ledger.transfer_outcome(request)
                &&& final(env)@ == old(env)@.moved_to(
                    ledger.after_transfer(request),
                    ledger.transfer_calls(request),
                )
            }),
    {
        let ghost before = env@;
        let ghost request = TransferRequest { from: from@, to: to@, batch_id: batch_id@, amount };
        env.require_auth(&from);
        assert(env@.calls =~= before.calls + seq![HostCallView::RequireAuth(from@)]);
        if amount <= 0 {
            return Err(CarbonError::ZeroAmountNotAllowed);
        }
        let mut batch = match Self::load_batch(env, &batch_id) {
            Ok(batch) => batch,
            Err(error) => {
                return Err(error);
            },
        };
        assert(env@.calls =~= before.calls + before.ledger.use_calls(from@, batch_id@, amount));
        if batch.owner != from {
            return Err(CarbonError::UnauthorizedVerifier);
        }
        if batch.status == CreditStatus::FullyRetired {
            return Err(CarbonError::AlreadyRetired);
        }
        if batch.status == CreditStatus::Suspended {
            return Err(CarbonError::ProjectSuspended);
        }
        let active: i128 = Self::active_amount(env, &batch);
        if amount > active {
            return Err(CarbonError::InsufficientCredits);
        }
        batch.owner = to.clone();
        env.set_batch(&batch_id, &batch);
        Self::extend_batch_ttl(env, &batch_id);
        env.publish(Event::Transfer { batch_id, from, to, amount });
        assert(env@.calls =~= before.calls + before.ledger.transfer_calls(request));
        Ok(())
    }

    /// Whether [`Self::transfer_credits`] can be asked to use `amount` credits of
    /// a batch in the name of `caller` without overflow.
    pub fn can_use(env: &Env, caller: &Address, batch_id: &Text, amount: i128) -> (defined: bool)
        ensures
            defined == env@.ledger.use_defined(caller@, batch_id@, amount),
    {
        let batch = match env.batch(batch_id) {
            Some(batch) => batch,
            None => {
                return true;
            },
        };
        if amount <= 0 || batch.owner != *caller || batch.status == CreditStatus::Suspended
            || batch.status == CreditStatus::FullyRetired {
            return true;
        }
        let retired: i128 = match env.retired(&batch.batch_id) {
            Some(amount) => amount,
            None => 0,
        };
        batch.amount.checked_sub(retired).is_some()
    }

    /// Whether [`Self::retire_credits`] can be asked to retire `amount` credits of
    /// a batch in the name of `holder`, under `retirement_id`, without overflow.
    pub fn can_retire(
        env: &Env,
        holder: &Address,
        batch_id: &Text,
        amount: i128,
        retirement_id: &Text,
    ) -> (defined: bool)
        ensures
            defined == env@.ledger.retire_defined(holder@, batch_id@, amount, retirement_id@),
    {
        if !Self::can_use(env, holder, batch_id, amount) {
            return false;
        }
        let batch = match env.batch(batch_id) {
            Some(batch) => batch,
            None => {
                return true;
            },
        };
        if amount <= 0 || batch.owner != *holder || batch.status == CreditStatus::Suspended
            || batch.status == CreditStatus::FullyRetired || amount > Self::active_amount(
            env,
            &batch,
        ) || env.has_retirement(retirement_id) {
            return true;
        }
        let already_retired: i128 = match env.retired(batch_id) {
            Some(amount) => amount,
            None => 0,
        };
        if already_retired < 0 || already_retired > u64::MAX as i128 || amount > u64::MAX as i128 {
            return true;
        }
        let new_retired: i128 = already_retired + amount;
        batch.amount.checked_sub(new_retired).is_some() && batch.serial_start as i128 + new_retired
            <= u64::MAX as i128
    }

    /// The batch with the given id.
    pub fn get_credit_batch(env: &mut Env, batch_id: Text) -> (result: Result<
        CreditBatch,
        CarbonError,
    >)
        ensures
            match result {
                Ok(batch) => {
                    &&& old(env)@.ledger.batches.contains_key(batch_id@)
                    &&& batch@ == old(env)@.ledger.batches[batch_id@]
                    &&& final(env)@ == old(env)@.moved_to(
                        old(env)@.ledger,
                        seq![HostCallView::keep_alive(batch_id@)],
                    )
                },
                Err(error) => {
                    &&& !old(env)@.ledger.batches.contains_key(batch_id@)
                    &&& error == CarbonError::ProjectNotFound
                    &&& final(env)@ == old(env)@
                },
            },
    {
        let result = Self::load_batch(env, &batch_id);
        assert(old(env)@.calls.push(HostCallView::keep_alive(batch_id@)) =~= old(env)@.calls + seq![
            HostCallView::keep_alive(batch_id@),
        ]);
        result
    }

    /// The permanent certificate with the given retirement id.
    pub fn get_retirement_certificate(env: &Env, retirement_id: Text) -> (result: Result<
        RetirementCertificate,
        CarbonError,
    >)
        ensures
            match result {
                Ok(certificate) => {
                    &&& env@.ledger.retirements.contains_key(retirement_id@)
                    &&& certificate@ == env@.ledger.retirements[retirement_id@]
                },
                Err(error) => {
                    &&& !env@.ledger.retirements.contains_key(retirement_id@)
                    &&& error == CarbonError::ProjectNotFound
                },
            },
    {
        match env.retirement(&retirement_id) {
            Some(certificate) => Ok(certificate),
            None => Err(CarbonError::ProjectNotFound),
        }
    }

    /// Whether the serial range from `serial_start` to `serial_end` overlaps no
    /// existing batch, so that it can be minted.
    pub fn verify_serial_range(env: &Env, serial_start: u64, serial_end: u64) -> (free: bool)
        ensures
            free == env@.ledger.serials_free(serial_start, serial_end),
    {
        Self::verify_serial_range_internal(env, serial_start, serial_end)
    }

    /// All batches of a project, in the order in which they were minted. Each of
    /// them is kept alive.
    pub fn get_project_credits(env: &mut Env, project_id: Text) -> (credits: Vec<CreditBatch>)
        ensures
            credits.deep_view() == old(env)@.ledger.credits_of(project_id@),
            final(env)@ == old(env)@.moved_to(
                old(env)@.ledger,
                old(env)@.ledger.found_ids(project_id@).map_values(
                    |id: Seq<u8>| HostCallView::keep_alive(id),
                ),
            ),
    {
        let ghost before = env@;
        let batch_ids: Vec<Text> = match env.project_batches(&project_id) {
            Some(ids) => ids,
            None => Vec::new(),
        };
        let ghost ids = batch_ids.deep_view();
        let ghost stored = |id: Seq<u8>| before.ledger.batches.contains_key(id);
        let ghost found = ids.take(0).filter(stored);
        assert(ids =~= before.ledger.ids_of(project_id@));
        let mut result: Vec<CreditBatch> = Vec::new();
        let mut i: usize = 0;
        proof {
            reveal(Seq::filter);
        }
        assert(env@.calls =~= before.calls + found.map_values(
            |id: Seq<u8>| HostCallView::keep_alive(id),
        ));
        while i < batch_ids.len()
            invariant
                i <= batch_ids.len(),
                ids == batch_ids.deep_view(),
                stored == (|id: Seq<u8>| before.ledger.batches.contains_key(id)),
                found == ids.take(i as int).filter(stored),
                result.deep_view() == found.map_values(|id: Seq<u8>| before.ledger.batches[id]),
                env@ == before.moved_to(
                    before.ledger,
                    found.map_values(|id: Seq<u8>| HostCallView::keep_alive(id)),
                ),
            decreases batch_ids.len() - i,
        {
            let id = &batch_ids[i];
            proof {
                reveal(Seq::filter);
                assert(ids.take(i + 1).drop_last() =~= ids.take(i as int));
                assert(ids.take(i + 1).last() == id@);
            }
            if let Some(batch) = env.batch(id) {
                let ghost listed = result.deep_view();
                Self::extend_batch_ttl(env, id);
                result.push(batch);
                proof {
                    found = found.push(id@);
                    assert(result.deep_view() =~= listed.push(batch@));
                }
                assert(result.deep_view() =~= found.map_values(
                    |id: Seq<u8>| before.ledger.batches[id],
                ));
                assert(env@.calls =~= before.calls + found.map_values(
                    |id: Seq<u8>| HostCallView::keep_alive(id),
                ));
            }
            i += 1;
        }
        assert(ids.take(i as int) =~= ids);
        result
    }
}

/// What several calls have in common.
impl CarbonCreditContract {
    /// Keeps the batch under `batch_id`, if there is one, from being evicted.
    fn extend_batch_ttl(env: &mut Env, batch_id: &Text)
        ensures
            final(env)@ == (if old(env)@.ledger.batches.contains_key(batch_id@) {
                EnvView { calls: old(env)@.calls.push(HostCallView::keep_alive(batch_id@)), ..old(env)@ }
            } else {
                old(env)@
            }),
    {
        if env.has_batch(batch_id) {
            env.extend_ttl(DataKey::Batch(batch_id.clone()), TTL_LEDGERS, TTL_LEDGERS);
        }
    }

    /// Looks the batch under `batch_id` up and keeps it alive.
    fn load_batch(env: &mut Env, batch_id: &Text) -> (result: Result<CreditBatch, CarbonError>)
        ensures
            match result {
                Ok(batch) => {
                    &&& old(env)@.ledger.batches.contains_key(batch_id@)
                    &&& batch@ == old(env)@.ledger.batches[batch_id@]
                    &&& final(env)@ == (EnvView {
                        calls: old(env)@.calls.push(HostCallView::keep_alive(batch_id@)),
                        ..old(env)@
                    })
                },
                Err(error) => {
                    &&& !old(env)@.ledger.batches.contains_key(batch_id@)
                    &&& error == CarbonError::ProjectNotFound
                    &&& final(env)@ == old(env)@
                },
            },
    {
        match env.batch(batch_id) {
            Some(batch) => {
                env.extend_ttl(DataKey::Batch(batch_id.clone()), TTL_LEDGERS, TTL_LEDGERS);
                Ok(batch)
            },
            None => Err(CarbonError::ProjectNotFound),
        }
    }

    /// Refuses everyone but the admin.
    fn require_admin(env: &Env, caller: &Address) -> (result: Result<(), CarbonError>)
        ensures
            result == (if env@.ledger.admin == Some(caller@) {
                Ok(())
            } else {
                Err::<(), CarbonError>(CarbonError::UnauthorizedVerifier)
            }),
    {
        match env.admin() {
            Some(admin) => {
                if *admin != *caller {
                    return Err(CarbonError::UnauthorizedVerifier);
                }
                Ok(())
            },
            None => Err(CarbonError::UnauthorizedVerifier),
        }
    }

    /// How many credits of `batch` are in circulation.
    pub fn active_amount(env: &Env, batch: &CreditBatch) -> (amount: i128)
        requires
            env@.ledger.countable(batch@),
        ensures
            amount == env@.ledger.active_of(batch@),
    {
        if batch.status == CreditStatus::FullyRetired {
            return 0;
        }
        let retired: i128 = match env.retired(&batch.batch_id) {
            Some(amount) => amount,
            None => 0,
        };
        batch.amount - retired
    }

    /// Whether the numbers from `start` to `end` meet no range that is taken.
    pub fn verify_serial_range_internal(env: &Env, start: u64, end: u64) -> (free: bool)
        ensures
            free == env@.ledger.serials_free(start, end),
    {
        let ranges: Vec<SerialRange> = match env.serial_registry() {
            Some(ranges) => ranges,
            None => Vec::new(),
        };
        assert(ranges@ =~= env@.ledger.ranges());
        let mut i: usize = 0;
        while i < ranges.len()
            invariant
                i <= ranges.len(),
                ranges@ == env@.ledger.ranges(),
                forall|j: int| 0 <= j < i ==> !(#[trigger] env@.ledger.ranges()[j]).meets(start, end),
            decreases ranges.len() - i,
        {
            let r = ranges[i];
            if start <= r.end && end >= r.start {
                assert(env@.ledger.ranges()[i as int].meets(start, end));
                return false;
            }
            i += 1;
        }
        true
    }
}

} // verus!
