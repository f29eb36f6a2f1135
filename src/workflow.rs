//! The four public operations: each derives its addresses, loads or creates
//! records, authorizes the signer and then changes records, all or nothing.
use crate::address::{derive_address, derive_spec, derived_view, RecordKind};
use crate::auth::{is_oracle, is_task_owner, owns_reputation};
use crate::state::{
    keys_equal, ContributorReputation, ErrorCode, ProgramConfig, Record, TaskConfig,
    VerifiedResult,
};
use crate::store::{create_step, RecordStore};
use vstd::prelude::*;

verus! {

/// The records of one program instance, whose id salts every derived address.
pub struct Ledger {
    pub program_id: [u8; 32],
    pub store: RecordStore,
}

impl Ledger {
    /// A ledger with no records.
    pub fn new(program_id: [u8; 32]) -> (r: Ledger)
        ensures
            r.program_id == program_id,
            r.store.wf(),
            r.store@ == Map::<Seq<u8>, Record>::empty(),
    {
        Ledger { program_id, store: RecordStore::new() }
    }
}

/// The accounts of a config initialization: who pays for the new record.
#[derive(Clone, Copy, Debug)]
pub struct InitConfig {
    pub authority: [u8; 32],
}

/// The accounts of a task initialization: its signer becomes the task owner.
#[derive(Clone, Copy, Debug)]
pub struct InitTask {
    pub owner: [u8; 32],
}

/// The accounts of a result submission.
#[derive(Clone, Copy, Debug)]
pub struct SubmitVerifiedResult {
    /// The signer, who must be the configured oracle.
    pub oracle: [u8; 32],
    /// The address of the task record.
    pub task: [u8; 32],
    /// The labeler the verified work is attributed to.
    pub labeler: [u8; 32],
}

/// The accounts of a points credit.
#[derive(Clone, Copy, Debug)]
pub struct AddReputationPoints {
    /// The address of the reputation record.
    pub reputation: [u8; 32],
    /// The address of the task record.
    pub task: [u8; 32],
    /// The signer, who must own the task.
    pub authority: [u8; 32],
}

/// The outcome of an operation and the records after it.
pub type Step = (Result<(), ErrorCode>, Map<Seq<u8>, Record>);

/// The configuration at `a`, if a record of that kind is there.
pub open spec fn config_at(m: Map<Seq<u8>, Record>, a: Seq<u8>) -> Option<ProgramConfig> {
    if m.contains_key(a) {
        match m[a] {
            Record::Config(c) => Some(c),
            _ => None,
        }
    } else {
        None
    }
}

/// The task at `a`, if a record of that kind is there.
pub open spec fn task_at(m: Map<Seq<u8>, Record>, a: Seq<u8>) -> Option<TaskConfig> {
    if m.contains_key(a) {
        match m[a] {
            Record::Task(t) => Some(t),
            _ => None,
        }
    } else {
        None
    }
}

/// The verified result at `a`, if a record of that kind is there.
pub open spec fn result_at(m: Map<Seq<u8>, Record>, a: Seq<u8>) -> Option<VerifiedResult> {
    if m.contains_key(a) {
        match m[a] {
            Record::Verified(v) => Some(v),
            _ => None,
        }
    } else {
        None
    }
}

/// The reputation at `a`, if a record of that kind is there.
pub open spec fn reputation_at(m: Map<Seq<u8>, Record>, a: Seq<u8>) -> Option<ContributorReputation> {
    if m.contains_key(a) {
        match m[a] {
            Record::Reputation(r) => Some(r),
            _ => None,
        }
    } else {
        None
    }
}

/// Whether `a` is free for a verified result: empty, or holding one.
pub open spec fn result_fits(m: Map<Seq<u8>, Record>, a: Seq<u8>) -> bool {
    !m.contains_key(a) || m[a] is Verified
}

/// Whether `a` is free for a reputation record: empty, or holding one.
pub open spec fn reputation_fits(m: Map<Seq<u8>, Record>, a: Seq<u8>) -> bool {
    !m.contains_key(a) || m[a] is Reputation
}

/// `c + 1`, clamped at the largest `u32`.
pub open spec fn saturating_inc(c: u32) -> u32 {
    if c == u32::MAX {
        c
    } else {
        (c + 1) as u32
    }
}

/// `p + q`, clamped at the largest `u64`.
pub open spec fn saturating_sum(p: u64, q: u64) -> u64 {
    if p + q > u64::MAX {
        u64::MAX
    } else {
        (p + q) as u64
    }
}

/// Config initialization: the configuration is created at the config address.
pub open spec fn init_config_step(m: Map<Seq<u8>, Record>, program_id: Seq<u8>, oracle_authority: [u8; 32]) -> Step {
    match derive_spec(RecordKind::Config, program_id) {
        None => (Err(ErrorCode::InvalidSeeds), m),
        Some((a, bump)) => create_step(m, a, Record::Config(ProgramConfig { oracle_authority, bump })),
    }
}

/// Task initialization: the task is created at the address of its owner and dataset.
pub open spec fn init_task_step(
    m: Map<Seq<u8>, Record>,
    program_id: Seq<u8>,
    owner: [u8; 32],
    dataset_ref: [u8; 32],
    task_type: u8,
    now: i64,
) -> Step {
    match derive_spec(RecordKind::Task { owner, dataset_ref }, program_id) {
        None => (Err(ErrorCode::InvalidSeeds), m),
        Some((a, bump)) => create_step(
            m,
            a,
            Record::Task(TaskConfig { owner, dataset_ref, task_type, bump, created_at: now }),
        ),
    }
}

/// The result record that a submission writes.
pub open spec fn submitted_result(
    task: [u8; 32],
    item_id: [u8; 32],
    final_label: [u8; 64],
    confidence: u16,
    result_hash: [u8; 32],
    now: i64,
) -> VerifiedResult {
    VerifiedResult { task, item_id, final_label, confidence, result_hash, submitted_at: now }
}

/// The reputation record that a submission leaves at `a`: one more verified
/// item than before, the points as they were (a new record starts from zero).
pub open spec fn credited_reputation(
    m: Map<Seq<u8>, Record>,
    a: Seq<u8>,
    labeler: [u8; 32],
    task: [u8; 32],
) -> ContributorReputation {
    let (count, points) = match reputation_at(m, a) {
        Some(r) => (r.verified_count, r.points),
        None => (0u32, 0u64),
    };
    ContributorReputation { labeler, task, verified_count: saturating_inc(count), points }
}

/// Why a submission against the given addresses fails, if it does.
pub open spec fn submission_error(
    m: Map<Seq<u8>, Record>,
    config_address: Seq<u8>,
    result_address: Seq<u8>,
    reputation_address: Seq<u8>,
    accounts: SubmitVerifiedResult,
) -> Option<ErrorCode> {
    if config_at(m, config_address) is None {
        Some(ErrorCode::NotFound)
    } else if task_at(m, accounts.task@) is None {
        Some(ErrorCode::NotFound)
    } else if config_at(m, config_address)->0.oracle_authority@ != accounts.oracle@ {
        Some(ErrorCode::InvalidOracle)
    } else if result_address == reputation_address
        || !result_fits(m, result_address)
        || !reputation_fits(m, reputation_address) {
        Some(ErrorCode::KindMismatch)
    } else {
        None
    }
}

/// A submission against the given addresses: on success the result is
/// overwritten with the new one and the labeler's verified count goes up by one.
pub open spec fn apply_submission_step(
    m: Map<Seq<u8>, Record>,
    config_address: Seq<u8>,
    result_address: Seq<u8>,
    reputation_address: Seq<u8>,
    accounts: SubmitVerifiedResult,
    item_id: [u8; 32],
    final_label: [u8; 64],
    confidence: u16,
    result_hash: [u8; 32],
    now: i64,
) -> Step {
    match submission_error(m, config_address, result_address, reputation_address, accounts) {
        Some(e) => (Err(e), m),
        None => (
            Ok(()),
            m.insert(
                result_address,
                Record::Verified(submitted_result(accounts.task, item_id, final_label, confidence, result_hash, now)),
            ).insert(
                reputation_address,
                Record::Reputation(credited_reputation(m, reputation_address, accounts.labeler, accounts.task)),
            ),
        ),
    }
}

/// A submission: the config, result and reputation addresses are derived, then applied.
pub open spec fn submit_step(
    m: Map<Seq<u8>, Record>,
    program_id: Seq<u8>,
    accounts: SubmitVerifiedResult,
    item_id: [u8; 32],
    final_label: [u8; 64],
    confidence: u16,
    result_hash: [u8; 32],
    now: i64,
) -> Step {
    match (
        derive_spec(RecordKind::Config, program_id),
        derive_spec(RecordKind::Result { task: accounts.task, item_id }, program_id),
        derive_spec(RecordKind::Reputation { task: accounts.task, labeler: accounts.labeler }, program_id),
    ) {
        (Some((ca, _)), Some((ra, _)), Some((pa, _))) => apply_submission_step(
            m, ca, ra, pa, accounts, item_id, final_label, confidence, result_hash, now,
        ),
        _ => (Err(ErrorCode::InvalidSeeds), m),
    }
}

/// A points credit against a derivation result for the reputation record's own
/// seeds: on success the reputation's points grow by `points`, clamped.
pub open spec fn credit_points_step(
    m: Map<Seq<u8>, Record>,
    accounts: AddReputationPoints,
    derived: Option<(Seq<u8>, u8)>,
    points: u64,
) -> Step {
    match reputation_at(m, accounts.reputation@) {
        None => (Err(ErrorCode::NotFound), m),
        Some(rep) => {
            if !(derived matches Some((a, _)) && a == accounts.reputation@) {
                (Err(ErrorCode::InvalidSeeds), m)
            } else {
                match task_at(m, accounts.task@) {
                    None => (Err(ErrorCode::NotFound), m),
                    Some(task) => {
                        if rep.task@ != accounts.task@ || task.owner@ != accounts.authority@ {
                            (Err(ErrorCode::AuthorizationDenied), m)
                        } else {
                            (
                                Ok(()),
                                m.insert(
                                    accounts.reputation@,
                                    Record::Reputation(
                                        ContributorReputation {
                                            labeler: rep.labeler,
                                            task: rep.task,
                                            verified_count: rep.verified_count,
                                            points: saturating_sum(rep.points, points),
                                        },
                                    ),
                                ),
                            )
                        }
                    },
                }
            }
        },
    }
}

/// A points credit: the reputation's address is re-derived from its own seeds, then applied.
pub open spec fn add_points_step(
    m: Map<Seq<u8>, Record>,
    program_id: Seq<u8>,
    accounts: AddReputationPoints,
    points: u64,
) -> Step {
    match reputation_at(m, accounts.reputation@) {
        None => (Err(ErrorCode::NotFound), m),
        Some(rep) => credit_points_step(
            m,
            accounts,
            derive_spec(RecordKind::Reputation { task: rep.task, labeler: rep.labeler }, program_id),
            points,
        ),
    }
}

/// Creates the program configuration with its oracle authority; fails with
/// `AlreadyInitialized` on a replay.
pub fn init_config(ledger: &mut Ledger, accounts: &InitConfig, oracle_authority: [u8; 32]) -> (r: Result<
    (),
    ErrorCode,
>)
    requires
        old(ledger).store.wf(),
    ensures
        final(ledger).store.wf(),
        final(ledger).program_id == old(ledger).program_id,
        (r, final(ledger).store@) == init_config_step(
            old(ledger).store@,
            old(ledger).program_id@,
            oracle_authority,
        ),
{
    match derive_address(&RecordKind::Config, &ledger.program_id) {
        None => Err(ErrorCode::InvalidSeeds),
        Some((address, bump)) => ledger.store.create_or_fail(
            &address,
            Record::Config(ProgramConfig { oracle_authority, bump }),
        ),
    }
}

/// Creates the task of the signing owner for a dataset, stamped with `now`;
/// fails with `AlreadyInitialized` when that owner already has a task for it.
pub fn init_task(
    ledger: &mut Ledger,
    accounts: &InitTask,
    dataset_ref: [u8; 32],
    task_type: u8,
    now: i64,
) -> (r: Result<(), ErrorCode>)
    requires
        old(ledger).store.wf(),
    ensures
        final(ledger).store.wf(),
        final(ledger).program_id == old(ledger).program_id,
        (r, final(ledger).store@) == init_task_step(
            old(ledger).store@,
            old(ledger).program_id@,
            accounts.owner,
            dataset_ref,
            task_type,
            now,
        ),
{
    let kind = RecordKind::Task { owner: accounts.owner, dataset_ref };
    match derive_address(&kind, &ledger.program_id) {
        None => Err(ErrorCode::InvalidSeeds),
        Some((address, bump)) => ledger.store.create_or_fail(
            &address,
            Record::Task(
                TaskConfig { owner: accounts.owner, dataset_ref, task_type, bump, created_at: now },
            ),
        ),
    }
}

/// Applies a submission whose config, result and reputation addresses are given.
pub fn apply_submission(
    store: &mut RecordStore,
    config_address: &[u8; 32],
    result_address: &[u8; 32],
    reputation_address: &[u8; 32],
    accounts: &SubmitVerifiedResult,
    item_id: [u8; 32],
    final_label: [u8; 64],
    confidence: u16,
    result_hash: [u8; 32],
    now: i64,
) -> (r: Result<(), ErrorCode>)
    requires
        old(store).wf(),
    ensures
        final(store).wf(),
        (r, final(store)@) == apply_submission_step(
            old(store)@,
            config_address@,
            result_address@,
            reputation_address@,
            *accounts,
            item_id,
            final_label,
            confidence,
            result_hash,
            now,
        ),
{
    let config = match store.load(config_address) {
        Ok(Record::Config(c)) => c,
        _ => return Err(ErrorCode::NotFound),
    };
    match store.load(&accounts.task) {
        Ok(Record::Task(_)) => {},
        _ => return Err(ErrorCode::NotFound),
    }
    if let Err(e) = is_oracle(&config, &accounts.oracle) {
        return Err(e);
    }
    if keys_equal(result_address, reputation_address) {
        return Err(ErrorCode::KindMismatch);
    }
    match store.load(result_address) {
        Ok(Record::Verified(_)) | Err(_) => {},
        Ok(_) => return Err(ErrorCode::KindMismatch),
    }
    let fresh = ContributorReputation {
        labeler: accounts.labeler,
        task: accounts.task,
        verified_count: 0,
        points: 0,
    };
    match store.load(reputation_address) {
        Ok(Record::Reputation(_)) | Err(_) => {},
        Ok(_) => return Err(ErrorCode::KindMismatch),
    }
    let result = VerifiedResult {
        task: accounts.task,
        item_id,
        final_label,
        confidence,
        result_hash,
        submitted_at: now,
    };
    let ghost m0 = store@;
    let _ = store.get_or_create(result_address, Record::Verified(result));
    let _ = store.store(result_address, Record::Verified(result));
    assert(store@ == m0.insert(result_address@, Record::Verified(result)));
    let prev = match store.get_or_create(reputation_address, Record::Reputation(fresh)) {
        Record::Reputation(p) => p,
        _ => {
            proof {
                assert(false);
            }
            fresh
        },
    };
    let rep = ContributorReputation {
        labeler: accounts.labeler,
        task: accounts.task,
        verified_count: prev.verified_count.saturating_add(1),
        points: prev.points,
    };
    let _ = store.store(reputation_address, Record::Reputation(rep));
    assert(rep == credited_reputation(m0, reputation_address@, accounts.labeler, accounts.task));
    Ok(())
}

/// Oracle only: upserts the verified result of an item of a task, stamped with
/// `now`, and adds one to the labeler's verified count in that task.
pub fn submit_verified_result(
    ledger: &mut Ledger,
    accounts: &SubmitVerifiedResult,
    item_id: [u8; 32],
    final_label: [u8; 64],
    confidence: u16,
    result_hash: [u8; 32],
    now: i64,
) -> (r: Result<(), ErrorCode>)
    requires
        old(ledger).store.wf(),
    ensures
        final(ledger).store.wf(),
        final(ledger).program_id == old(ledger).program_id,
        (r, final(ledger).store@) == submit_step(
            old(ledger).store@,
            old(ledger).program_id@,
            *accounts,
            item_id,
            final_label,
            confidence,
            result_hash,
            now,
        ),
{
    let config = derive_address(&RecordKind::Config, &ledger.program_id);
    let result = derive_address(&RecordKind::Result { task: accounts.task, item_id }, &ledger.program_id);
    let reputation = derive_address(
        &RecordKind::Reputation { task: accounts.task, labeler: accounts.labeler },
        &ledger.program_id,
    );
    match (config, result, reputation) {
        (Some((ca, _)), Some((ra, _)), Some((pa, _))) => apply_submission(
            &mut ledger.store,
            &ca,
            &ra,
            &pa,
            accounts,
            item_id,
            final_label,
            confidence,
            result_hash,
            now,
        ),
        _ => Err(ErrorCode::InvalidSeeds),
    }
}

/// Credits points against the given derivation result for the reputation
/// record's own seeds.
pub fn credit_points(
    store: &mut RecordStore,
    accounts: &AddReputationPoints,
    derived: Option<([u8; 32], u8)>,
    points: u64,
) -> (r: Result<(), ErrorCode>)
    requires
        old(store).wf(),
    ensures
        final(store).wf(),
        (r, final(store)@) == credit_points_step(old(store)@, *accounts, derived_view(derived), points),
{
    let rep = match store.load(&accounts.reputation) {
        Ok(Record::Reputation(p)) => p,
        _ => return Err(ErrorCode::NotFound),
    };
    match derived {
        Some((a, _)) => {
            if !keys_equal(&a, &accounts.reputation) {
                return Err(ErrorCode::InvalidSeeds);
            }
        },
        None => return Err(ErrorCode::InvalidSeeds),
    }
    let task = match store.load(&accounts.task) {
        Ok(Record::Task(t)) => t,
        _ => return Err(ErrorCode::NotFound),
    };
    if let Err(e) = owns_reputation(&rep, &accounts.task) {
        return Err(e);
    }
    if let Err(e) = is_task_owner(&task, &accounts.authority) {
        return Err(e);
    }
    let updated = ContributorReputation {
        labeler: rep.labeler,
        task: rep.task,
        verified_count: rep.verified_count,
        points: rep.points.saturating_add(points),
    };
    store.store(&accounts.reputation, Record::Reputation(updated))
}

/// Task owner only: adds `points`, clamped, to a labeler's reputation in the task.
pub fn add_reputation_points(ledger: &mut Ledger, accounts: &AddReputationPoints, points: u64) -> (r: Result<
    (),
    ErrorCode,
>)
    requires
        old(ledger).store.wf(),
    ensures
        final(ledger).store.wf(),
        final(ledger).program_id == old(ledger).program_id,
        (r, final(ledger).store@) == add_points_step(
            old(ledger).store@,
            old(ledger).program_id@,
            *accounts,
            points,
        ),
{
    let rep = match ledger.store.load(&accounts.reputation) {
        Ok(Record::Reputation(p)) => p,
        _ => return Err(ErrorCode::NotFound),
    };
    let derived = derive_address(
        &RecordKind::Reputation { task: rep.task, labeler: rep.labeler },
        &ledger.program_id,
    );
    credit_points(&mut ledger.store, accounts, derived, points)
}

} // verus!
