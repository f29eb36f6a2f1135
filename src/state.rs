//! The fixed-layout records kept by the store, and the error taxonomy.
use vstd::prelude::*;

verus! {

/// Why an operation failed. A failed operation changes nothing.
#[derive(Clone, Copy, Debug, PartialEq, Eq, Structural)]
pub enum ErrorCode {
    /// A create found a record already at its address.
    AlreadyInitialized,
    /// A result submission was signed by someone other than the configured oracle.
    InvalidOracle,
    /// A points credit was signed by someone other than the task owner, or named a
    /// reputation record of another task.
    AuthorizationDenied,
    /// No record of the expected kind is at the address.
    NotFound,
    /// The seeds give no derived address, or not the address that was supplied.
    InvalidSeeds,
    /// An address that must receive a record of one kind holds a record of another.
    KindMismatch,
}

/// The singleton program configuration.
#[derive(Clone, Copy, Debug, PartialEq, Eq)]
pub struct ProgramConfig {
    pub oracle_authority: [u8; 32],
    pub bump: u8,
}

/// A labeling task, one per owner and dataset.
#[derive(Clone, Copy, Debug, PartialEq, Eq)]
pub struct TaskConfig {
    pub owner: [u8; 32],
    pub dataset_ref: [u8; 32],
    pub task_type: u8,
    pub bump: u8,
    pub created_at: i64,
}

/// The verified result of one item of a task, written by the oracle.
#[derive(Clone, Copy, Debug, PartialEq, Eq)]
pub struct VerifiedResult {
    pub task: [u8; 32],
    pub item_id: [u8; 32],
    pub final_label: [u8; 64],
    pub confidence: u16,
    pub result_hash: [u8; 32],
    pub submitted_at: i64,
}

/// The reputation of one labeler within one task; both counters saturate.
#[derive(Clone, Copy, Debug, PartialEq, Eq)]
pub struct ContributorReputation {
    pub labeler: [u8; 32],
    pub task: [u8; 32],
    pub verified_count: u32,
    pub points: u64,
}

/// A record as it stands at an address.
#[derive(Clone, Copy, Debug, PartialEq, Eq)]
pub enum Record {
    Config(ProgramConfig),
    Task(TaskConfig),
    Verified(VerifiedResult),
    Reputation(ContributorReputation),
}

/// Whether two records have the same kind, and so the same fixed layout.
pub open spec fn same_layout(a: Record, b: Record) -> bool {
    match (a, b) {
        (Record::Config(_), Record::Config(_)) => true,
        (Record::Task(_), Record::Task(_)) => true,
        (Record::Verified(_), Record::Verified(_)) => true,
        (Record::Reputation(_), Record::Reputation(_)) => true,
        _ => false,
    }
}

impl Record {
    /// The size in bytes that a record of this kind occupies, its
    /// eight-byte discriminator included.
    pub open spec fn space_spec(&self) -> nat {
        match self {
            Record::Config(_) => 8 + 32 + 1,
            Record::Task(_) => 8 + 32 + 32 + 1 + 1 + 8,
            Record::Verified(_) => 8 + 32 + 32 + 64 + 2 + 32 + 8,
            Record::Reputation(_) => 8 + 32 + 32 + 4 + 8,
        }
    }

    /// The size in bytes that a record of this kind occupies.
    pub fn space(&self) -> (r: usize)
        ensures
            r == self.space_spec(),
    {
        match self {
            Record::Config(_) => 8 + 32 + 1,
            Record::Task(_) => 8 + 32 + 32 + 1 + 1 + 8,
            Record::Verified(_) => 8 + 32 + 32 + 64 + 2 + 32 + 8,
            Record::Reputation(_) => 8 + 32 + 32 + 4 + 8,
        }
    }

    /// Whether `other` has the same kind as this record.
    pub fn same_layout(&self, other: &Record) -> (r: bool)
        ensures
            r == same_layout(*self, *other),
    {
        match (self, other) {
            (Record::Config(_), Record::Config(_)) => true,
            (Record::Task(_), Record::Task(_)) => true,
            (Record::Verified(_), Record::Verified(_)) => true,
            (Record::Reputation(_), Record::Reputation(_)) => true,
            _ => false,
        }
    }
}

/// Whether two keys hold the same bytes.
pub fn keys_equal(a: &[u8; 32], b: &[u8; 32]) -> (r: bool)
    ensures
        r == (a@ == b@),
{
    let mut i: usize = 0;
    while i < 32
        invariant
            0 <= i <= 32,
            a@.len() == 32,
            b@.len() == 32,
            forall|j: int| 0 <= j < i ==> a@[j] == b@[j],
        decreases 32 - i,
    {
        if a[i] != b[i] {
            return false;
        }
        i = i + 1;
    }
    assert(a@ =~= b@);
    true
}

} // verus!
