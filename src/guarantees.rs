//! Laws that relate the operations to one another, proved over their transitions.
use crate::address::{address_of, derive_spec, RecordKind};
use crate::state::{ErrorCode, Record};
use crate::workflow::{
    add_points_step, config_at, init_task_step, reputation_at, result_at, saturating_inc, submit_step,
    submitted_result, task_at, AddReputationPoints, SubmitVerifiedResult,
};
use vstd::prelude::*;

verus! {

/// Initializing a task a second time for the same owner and dataset fails with
/// `AlreadyInitialized` and leaves the records, the task included, as they were.
pub proof fn lemma_init_task_once(
    m: Map<Seq<u8>, Record>,
    program_id: Seq<u8>,
    owner: [u8; 32],
    dataset_ref: [u8; 32],
    task_type_1: u8,
    now_1: i64,
    task_type_2: u8,
    now_2: i64,
)
    requires
        derive_spec(RecordKind::Task { owner, dataset_ref }, program_id) is Some,
    ensures
        ({
            let m1 = init_task_step(m, program_id, owner, dataset_ref, task_type_1, now_1).1;
            init_task_step(m1, program_id, owner, dataset_ref, task_type_2, now_2) == (
                Err::<(), ErrorCode>(ErrorCode::AlreadyInitialized),
                m1,
            )
        }),
{
}

/// A submission signed by anyone but the configured oracle fails and leaves no
/// record behind; with the task present and every address derived, it fails
/// with `InvalidOracle`.
pub proof fn lemma_oracle_gating(
    m: Map<Seq<u8>, Record>,
    program_id: Seq<u8>,
    accounts: SubmitVerifiedResult,
    item_id: [u8; 32],
    final_label: [u8; 64],
    confidence: u16,
    result_hash: [u8; 32],
    now: i64,
)
    requires
        derive_spec(RecordKind::Config, program_id) is Some,
        config_at(m, address_of(RecordKind::Config, program_id)) is Some,
        config_at(m, address_of(RecordKind::Config, program_id))->0.oracle_authority@
            != accounts.oracle@,
    ensures
        ({
            let (r, m2) = submit_step(m, program_id, accounts, item_id, final_label, confidence, result_hash, now);
            &&& r is Err
            &&& m2 == m
            &&& (derive_spec(RecordKind::Result { task: accounts.task, item_id }, program_id) is Some
                && derive_spec(
                RecordKind::Reputation { task: accounts.task, labeler: accounts.labeler },
                program_id,
            ) is Some && task_at(m, accounts.task@) is Some) ==> r == Err::<(), ErrorCode>(
                ErrorCode::InvalidOracle,
            )
        }),
{
}

/// Submitting twice for the same task, item and labeler creates no further
/// record: the result holds the second submission's fields, and each
/// submission adds one, clamped, to the labeler's verified count.
pub proof fn lemma_resubmission_overwrites(
    m: Map<Seq<u8>, Record>,
    program_id: Seq<u8>,
    accounts: SubmitVerifiedResult,
    item_id: [u8; 32],
    final_label_1: [u8; 64],
    confidence_1: u16,
    result_hash_1: [u8; 32],
    now_1: i64,
    final_label_2: [u8; 64],
    confidence_2: u16,
    result_hash_2: [u8; 32],
    now_2: i64,
)
    requires
        submit_step(m, program_id, accounts, item_id, final_label_1, confidence_1, result_hash_1, now_1).0 is Ok,
    ensures
        ({
            let m1 = submit_step(m, program_id, accounts, item_id, final_label_1, confidence_1, result_hash_1, now_1).1;
            let (r2, m2) = submit_step(m1, program_id, accounts, item_id, final_label_2, confidence_2, result_hash_2, now_2);
            let ra = address_of(RecordKind::Result { task: accounts.task, item_id }, program_id);
            let pa = address_of(
                RecordKind::Reputation { task: accounts.task, labeler: accounts.labeler },
                program_id,
            );
            let before = match reputation_at(m, pa) {
                Some(rep) => rep.verified_count,
                None => 0u32,
            };
            &&& r2 is Ok
            &&& m2.dom() == m1.dom()
            &&& result_at(m2, ra) == Some(
                submitted_result(accounts.task, item_id, final_label_2, confidence_2, result_hash_2, now_2),
            )
            &&& reputation_at(m1, pa)->0.verified_count == saturating_inc(before)
            &&& reputation_at(m2, pa)->0.verified_count == saturating_inc(saturating_inc(before))
        }),
{
    let m1 = submit_step(m, program_id, accounts, item_id, final_label_1, confidence_1, result_hash_1, now_1).1;
    let m2 = submit_step(m1, program_id, accounts, item_id, final_label_2, confidence_2, result_hash_2, now_2).1;
    assert(m2.dom() =~= m1.dom());
}

/// A submission credited to a labeler whose verified count is at its maximum
/// leaves the count at the maximum.
pub proof fn lemma_verified_count_saturates(
    m: Map<Seq<u8>, Record>,
    program_id: Seq<u8>,
    accounts: SubmitVerifiedResult,
    item_id: [u8; 32],
    final_label: [u8; 64],
    confidence: u16,
    result_hash: [u8; 32],
    now: i64,
)
    requires
        submit_step(m, program_id, accounts, item_id, final_label, confidence, result_hash, now).0 is Ok,
        reputation_at(
            m,
            address_of(
                RecordKind::Reputation { task: accounts.task, labeler: accounts.labeler },
                program_id,
            ),
        ) matches Some(rep) && rep.verified_count == u32::MAX,
    ensures
        reputation_at(
            submit_step(m, program_id, accounts, item_id, final_label, confidence, result_hash, now).1,
            address_of(
                RecordKind::Reputation { task: accounts.task, labeler: accounts.labeler },
                program_id,
            ),
        )->0.verified_count == u32::MAX,
{
}

/// Crediting points to a reputation whose points are at their maximum leaves
/// them at the maximum.
pub proof fn lemma_points_saturate(
    m: Map<Seq<u8>, Record>,
    program_id: Seq<u8>,
    accounts: AddReputationPoints,
    points: u64,
)
    requires
        add_points_step(m, program_id, accounts, points).0 is Ok,
        reputation_at(m, accounts.reputation@) matches Some(rep) && rep.points == u64::MAX,
    ensures
        reputation_at(add_points_step(m, program_id, accounts, points).1, accounts.reputation@)->0.points
            == u64::MAX,
{
}

/// A points credit signed by anyone but the task's owner fails and changes no
/// record; when the reputation record is found at its own derived address, it
/// fails with `AuthorizationDenied`.
pub proof fn lemma_points_need_task_owner(
    m: Map<Seq<u8>, Record>,
    program_id: Seq<u8>,
    accounts: AddReputationPoints,
    points: u64,
)
    requires
        task_at(m, accounts.task@) matches Some(task) && task.owner@ != accounts.authority@,
    ensures
        ({
            let (r, m2) = add_points_step(m, program_id, accounts, points);
            &&& r is Err
            &&& m2 == m
            &&& (reputation_at(m, accounts.reputation@) matches Some(rep) && derive_spec(
                RecordKind::Reputation { task: rep.task, labeler: rep.labeler },
                program_id,
            ) matches Some((a, _)) && a == accounts.reputation@) ==> r == Err::<(), ErrorCode>(
                ErrorCode::AuthorizationDenied,
            )
        }),
{
}

} // verus!
