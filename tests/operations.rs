use anchor_data::{
    add_reputation_points, derive_address, init_config, init_task, submit_verified_result,
    AddReputationPoints, ContributorReputation, ErrorCode, InitConfig, InitTask, Ledger, ProgramConfig,
    Record, RecordKind, SubmitVerifiedResult, TaskConfig, VerifiedResult,
};

const PROGRAM_ID: [u8; 32] = [
    68, 47, 31, 52, 148, 73, 69, 249, 202, 95, 63, 159, 107, 40, 24, 124, 242, 31, 60, 5, 251, 23,
    183, 141, 178, 28, 139, 202, 42, 67, 171, 203,
];
const ORACLE: [u8; 32] = [9u8; 32];
const OWNER: [u8; 32] = [1u8; 32];
const DATASET: [u8; 32] = [2u8; 32];
const ITEM: [u8; 32] = [3u8; 32];
const LABELER: [u8; 32] = [4u8; 32];
const HASH: [u8; 32] = [5u8; 32];
const STRANGER: [u8; 32] = [6u8; 32];

fn task_address(owner: [u8; 32], dataset_ref: [u8; 32]) -> [u8; 32] {
    derive_address(&RecordKind::Task { owner, dataset_ref }, &PROGRAM_ID).unwrap().0
}

fn result_address(task: [u8; 32], item_id: [u8; 32]) -> [u8; 32] {
    derive_address(&RecordKind::Result { task, item_id }, &PROGRAM_ID).unwrap().0
}

fn reputation_address(task: [u8; 32], labeler: [u8; 32]) -> [u8; 32] {
    derive_address(&RecordKind::Reputation { task, labeler }, &PROGRAM_ID).unwrap().0
}

fn label(b: u8) -> [u8; 64] {
    [b; 64]
}

/// A ledger with the config and one task of OWNER over DATASET.
fn ready_ledger() -> (Ledger, [u8; 32]) {
    let mut ledger = Ledger::new(PROGRAM_ID);
    init_config(&mut ledger, &InitConfig { authority: ORACLE }, ORACLE).unwrap();
    init_task(&mut ledger, &InitTask { owner: OWNER }, DATASET, 1, 1000).unwrap();
    (ledger, task_address(OWNER, DATASET))
}

fn submit(ledger: &mut Ledger, signer: [u8; 32], task: [u8; 32], item: [u8; 32], l: u8) -> Result<(), ErrorCode> {
    let accounts = SubmitVerifiedResult { oracle: signer, task, labeler: LABELER };
    submit_verified_result(ledger, &accounts, item, label(l), 90, HASH, 2000)
}

fn reputation(ledger: &Ledger, task: [u8; 32]) -> ContributorReputation {
    match ledger.store.load(&reputation_address(task, LABELER)) {
        Ok(Record::Reputation(r)) => r,
        other => panic!("no reputation record: {:?}", other),
    }
}

#[test]
fn end_to_end_scenario() {
    let (mut ledger, task) = ready_ledger();
    assert_eq!(submit(&mut ledger, ORACLE, task, ITEM, 7), Ok(()));
    let result = ledger.store.load(&result_address(task, ITEM)).unwrap();
    assert_eq!(
        result,
        Record::Verified(VerifiedResult {
            task,
            item_id: ITEM,
            final_label: label(7),
            confidence: 90,
            result_hash: HASH,
            submitted_at: 2000,
        })
    );
    assert_eq!(
        reputation(&ledger, task),
        ContributorReputation { labeler: LABELER, task, verified_count: 1, points: 0 }
    );
    let accounts = AddReputationPoints {
        reputation: reputation_address(task, LABELER),
        task,
        authority: OWNER,
    };
    assert_eq!(add_reputation_points(&mut ledger, &accounts, 50), Ok(()));
    assert_eq!(reputation(&ledger, task).points, 50);
    assert_eq!(reputation(&ledger, task).verified_count, 1);
}

#[test]
fn config_is_created_once() {
    let mut ledger = Ledger::new(PROGRAM_ID);
    assert_eq!(init_config(&mut ledger, &InitConfig { authority: ORACLE }, ORACLE), Ok(()));
    let (address, bump) = derive_address(&RecordKind::Config, &PROGRAM_ID).unwrap();
    assert_eq!(
        ledger.store.load(&address),
        Ok(Record::Config(ProgramConfig { oracle_authority: ORACLE, bump }))
    );
    assert_eq!(
        init_config(&mut ledger, &InitConfig { authority: STRANGER }, STRANGER),
        Err(ErrorCode::AlreadyInitialized)
    );
    assert_eq!(
        ledger.store.load(&address),
        Ok(Record::Config(ProgramConfig { oracle_authority: ORACLE, bump }))
    );
}

#[test]
fn task_is_created_once_per_owner_and_dataset() {
    let (mut ledger, task) = ready_ledger();
    let before = ledger.store.load(&task).unwrap();
    match before {
        Record::Task(t) => {
            assert_eq!(t.owner, OWNER);
            assert_eq!(t.dataset_ref, DATASET);
            assert_eq!(t.task_type, 1);
            assert_eq!(t.created_at, 1000);
        },
        other => panic!("not a task: {:?}", other),
    }
    assert_eq!(
        init_task(&mut ledger, &InitTask { owner: OWNER }, DATASET, 2, 5000),
        Err(ErrorCode::AlreadyInitialized)
    );
    assert_eq!(ledger.store.load(&task), Ok(before));
    // Another dataset, or another owner, gets a task of its own.
    assert_eq!(init_task(&mut ledger, &InitTask { owner: OWNER }, HASH, 2, 5000), Ok(()));
    assert_eq!(init_task(&mut ledger, &InitTask { owner: STRANGER }, DATASET, 2, 5000), Ok(()));
    assert_ne!(task_address(OWNER, HASH), task);
    assert_ne!(task_address(STRANGER, DATASET), task);
}

#[test]
fn task_records_its_bump() {
    let (ledger, task) = ready_ledger();
    let (_, bump) = derive_address(&RecordKind::Task { owner: OWNER, dataset_ref: DATASET }, &PROGRAM_ID).unwrap();
    assert_eq!(
        ledger.store.load(&task),
        Ok(Record::Task(TaskConfig { owner: OWNER, dataset_ref: DATASET, task_type: 1, bump, created_at: 1000 }))
    );
}

#[test]
fn submission_needs_the_oracle() {
    let (mut ledger, task) = ready_ledger();
    assert_eq!(submit(&mut ledger, STRANGER, task, ITEM, 7), Err(ErrorCode::InvalidOracle));
    assert!(!ledger.store.contains(&result_address(task, ITEM)));
    assert!(!ledger.store.contains(&reputation_address(task, LABELER)));
}

#[test]
fn submission_needs_the_config() {
    let mut ledger = Ledger::new(PROGRAM_ID);
    init_task(&mut ledger, &InitTask { owner: OWNER }, DATASET, 1, 1000).unwrap();
    let task = task_address(OWNER, DATASET);
    assert_eq!(submit(&mut ledger, ORACLE, task, ITEM, 7), Err(ErrorCode::NotFound));
    assert!(!ledger.store.contains(&result_address(task, ITEM)));
}

#[test]
fn submission_needs_a_task() {
    let (mut ledger, _) = ready_ledger();
    let missing = task_address(STRANGER, DATASET);
    assert_eq!(submit(&mut ledger, ORACLE, missing, ITEM, 7), Err(ErrorCode::NotFound));
    assert!(!ledger.store.contains(&result_address(missing, ITEM)));
}

#[test]
fn resubmission_overwrites_and_counts_again() {
    let (mut ledger, task) = ready_ledger();
    assert_eq!(submit(&mut ledger, ORACLE, task, ITEM, 7), Ok(()));
    assert_eq!(submit(&mut ledger, ORACLE, task, ITEM, 8), Ok(()));
    match ledger.store.load(&result_address(task, ITEM)) {
        Ok(Record::Verified(v)) => assert_eq!(v.final_label, label(8)),
        other => panic!("no result record: {:?}", other),
    }
    assert_eq!(reputation(&ledger, task).verified_count, 2);
    // A second item of the same labeler is a record of its own.
    assert_eq!(submit(&mut ledger, ORACLE, task, HASH, 9), Ok(()));
    assert_ne!(result_address(task, HASH), result_address(task, ITEM));
    assert_eq!(reputation(&ledger, task).verified_count, 3);
}

#[test]
fn verified_count_saturates() {
    let (mut ledger, task) = ready_ledger();
    submit(&mut ledger, ORACLE, task, ITEM, 7).unwrap();
    let mut rep = reputation(&ledger, task);
    rep.verified_count = u32::MAX;
    ledger.store.store(&reputation_address(task, LABELER), Record::Reputation(rep)).unwrap();
    assert_eq!(submit(&mut ledger, ORACLE, task, ITEM, 8), Ok(()));
    assert_eq!(reputation(&ledger, task).verified_count, u32::MAX);
}

#[test]
fn points_saturate() {
    let (mut ledger, task) = ready_ledger();
    submit(&mut ledger, ORACLE, task, ITEM, 7).unwrap();
    let accounts = AddReputationPoints { reputation: reputation_address(task, LABELER), task, authority: OWNER };
    assert_eq!(add_reputation_points(&mut ledger, &accounts, u64::MAX - 1), Ok(()));
    assert_eq!(reputation(&ledger, task).points, u64::MAX - 1);
    assert_eq!(add_reputation_points(&mut ledger, &accounts, 5), Ok(()));
    assert_eq!(reputation(&ledger, task).points, u64::MAX);
    assert_eq!(add_reputation_points(&mut ledger, &accounts, 1), Ok(()));
    assert_eq!(reputation(&ledger, task).points, u64::MAX);
}

#[test]
fn points_need_the_task_owner() {
    let (mut ledger, task) = ready_ledger();
    submit(&mut ledger, ORACLE, task, ITEM, 7).unwrap();
    let accounts = AddReputationPoints { reputation: reputation_address(task, LABELER), task, authority: STRANGER };
    assert_eq!(add_reputation_points(&mut ledger, &accounts, 50), Err(ErrorCode::AuthorizationDenied));
    assert_eq!(reputation(&ledger, task).points, 0);
    let oracle = AddReputationPoints { authority: ORACLE, ..accounts };
    assert_eq!(add_reputation_points(&mut ledger, &oracle, 50), Err(ErrorCode::AuthorizationDenied));
    assert_eq!(reputation(&ledger, task).points, 0);
}

#[test]
fn points_need_the_reputation_of_that_task() {
    let (mut ledger, task) = ready_ledger();
    init_task(&mut ledger, &InitTask { owner: OWNER }, HASH, 1, 1000).unwrap();
    let other = task_address(OWNER, HASH);
    submit(&mut ledger, ORACLE, task, ITEM, 7).unwrap();
    let accounts = AddReputationPoints { reputation: reputation_address(task, LABELER), task: other, authority: OWNER };
    assert_eq!(add_reputation_points(&mut ledger, &accounts, 50), Err(ErrorCode::AuthorizationDenied));
    assert_eq!(reputation(&ledger, task).points, 0);
}

#[test]
fn points_need_a_reputation_record() {
    let (mut ledger, task) = ready_ledger();
    let accounts = AddReputationPoints { reputation: reputation_address(task, LABELER), task, authority: OWNER };
    assert_eq!(add_reputation_points(&mut ledger, &accounts, 50), Err(ErrorCode::NotFound));
    // A record of another kind is not a reputation either.
    let at_task = AddReputationPoints { reputation: task, task, authority: OWNER };
    assert_eq!(add_reputation_points(&mut ledger, &at_task, 50), Err(ErrorCode::NotFound));
}

#[test]
fn points_need_the_derived_address() {
    let (mut ledger, task) = ready_ledger();
    submit(&mut ledger, ORACLE, task, ITEM, 7).unwrap();
    let rep = reputation(&ledger, task);
    // The same record placed at an address its seeds do not derive.
    ledger.store.create_or_fail(&STRANGER, Record::Reputation(rep)).unwrap();
    let accounts = AddReputationPoints { reputation: STRANGER, task, authority: OWNER };
    assert_eq!(add_reputation_points(&mut ledger, &accounts, 50), Err(ErrorCode::InvalidSeeds));
}

#[test]
fn submission_refuses_an_address_of_another_kind() {
    let (mut ledger, task) = ready_ledger();
    let occupied = result_address(task, ITEM);
    let squatter = Record::Task(TaskConfig { owner: OWNER, dataset_ref: DATASET, task_type: 0, bump: 0, created_at: 0 });
    ledger.store.create_or_fail(&occupied, squatter).unwrap();
    assert_eq!(submit(&mut ledger, ORACLE, task, ITEM, 7), Err(ErrorCode::KindMismatch));
    assert_eq!(ledger.store.load(&occupied), Ok(squatter));
    assert!(!ledger.store.contains(&reputation_address(task, LABELER)));
}
