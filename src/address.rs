//! Canonical storage addresses derived from a record kind and its seeds.
use anchor_lang::solana_program::pubkey::Pubkey;
use vstd::prelude::*;
use vstd::slice::slice_to_vec;

verus! {

/// The semantic key of a record: which kind of record it is and what identifies it.
#[derive(Clone, Copy)]
pub enum RecordKind {
    /// The single program configuration.
    Config,
    /// The task an owner registered for a dataset.
    Task { owner: [u8; 32], dataset_ref: [u8; 32] },
    /// The verified result of one item of a task.
    Result { task: [u8; 32], item_id: [u8; 32] },
    /// The reputation of one labeler within a task.
    Reputation { task: [u8; 32], labeler: [u8; 32] },
}

/// The bytes of "config".
pub open spec fn config_tag() -> Seq<u8> {
    seq![99u8, 111u8, 110u8, 102u8, 105u8, 103u8]
}

/// The bytes of "task".
pub open spec fn task_tag() -> Seq<u8> {
    seq![116u8, 97u8, 115u8, 107u8]
}

/// The bytes of "result".
pub open spec fn result_tag() -> Seq<u8> {
    seq![114u8, 101u8, 115u8, 117u8, 108u8, 116u8]
}

/// The bytes of "reputation".
pub open spec fn reputation_tag() -> Seq<u8> {
    seq![114u8, 101u8, 112u8, 117u8, 116u8, 97u8, 116u8, 105u8, 111u8, 110u8]
}

/// The ordered seed byte strings of a record kind.
pub open spec fn seeds_of(kind: RecordKind) -> Seq<Seq<u8>> {
    match kind {
        RecordKind::Config => seq![config_tag()],
        RecordKind::Task { owner, dataset_ref } => seq![task_tag(), owner@, dataset_ref@],
        RecordKind::Result { task, item_id } => seq![result_tag(), task@, item_id@],
        RecordKind::Reputation { task, labeler } => seq![reputation_tag(), task@, labeler@],
    }
}

/// The byte strings held by a list of seeds.
pub open spec fn seeds_view(seeds: Vec<Vec<u8>>) -> Seq<Seq<u8>> {
    seeds@.map_values(|s: Vec<u8>| s@)
}

/// The program-derived address and bump seed of `seeds` under `program_id`, if one exists.
pub uninterp spec fn program_address(seeds: Seq<Seq<u8>>, program_id: Seq<u8>) -> Option<(Seq<u8>, u8)>;

/// An executable derivation result seen as byte sequences.
pub open spec fn derived_view(r: Option<([u8; 32], u8)>) -> Option<(Seq<u8>, u8)> {
    match r {
        Some((a, bump)) => Some((a@, bump)),
        None => None,
    }
}

/// The derived address and bump of a record kind under a program id.
pub open spec fn derive_spec(kind: RecordKind, program_id: Seq<u8>) -> Option<(Seq<u8>, u8)> {
    program_address(seeds_of(kind), program_id)
}

/// The derived address of a record kind; meaningful where the derivation succeeds.
pub open spec fn address_of(kind: RecordKind, program_id: Seq<u8>) -> Seq<u8> {
    match derive_spec(kind, program_id) {
        Some((a, _)) => a,
        None => Seq::empty(),
    }
}

/// Relies on `Pubkey::try_find_program_address`: the program-derived address and
/// bump seed of the seeds under the program id, which depend on these alone.
#[verifier::external_body]
fn find_program_address(seeds: &Vec<Vec<u8>>, program_id: &[u8; 32]) -> (r: Option<([u8; 32], u8)>)
    ensures
        derived_view(r) == program_address(seeds_view(*seeds), program_id@),
{
    let slices: Vec<&[u8]> = seeds.iter().map(|s| s.as_slice()).collect();
    Pubkey::try_find_program_address(&slices, &Pubkey::new_from_array(*program_id)).map(
        |(key, bump)| (key.to_bytes(), bump),
    )
}

/// The seed byte strings of a record kind.
pub fn seeds(kind: &RecordKind) -> (r: Vec<Vec<u8>>)
    ensures
        seeds_view(r) == seeds_of(*kind),
{
    let r = match kind {
        RecordKind::Config => vec![vec![99u8, 111u8, 110u8, 102u8, 105u8, 103u8]],
        RecordKind::Task { owner, dataset_ref } => vec![
            vec![116u8, 97u8, 115u8, 107u8],
            slice_to_vec(owner),
            slice_to_vec(dataset_ref),
        ],
        RecordKind::Result { task, item_id } => vec![
            vec![114u8, 101u8, 115u8, 117u8, 108u8, 116u8],
            slice_to_vec(task),
            slice_to_vec(item_id),
        ],
        RecordKind::Reputation { task, labeler } => vec![
            vec![114u8, 101u8, 112u8, 117u8, 116u8, 97u8, 116u8, 105u8, 111u8, 110u8],
            slice_to_vec(task),
            slice_to_vec(labeler),
        ],
    };
    assert(seeds_view(r) =~= seeds_of(*kind));
    r
}

/// Derives the canonical address and bump seed of a record kind under a program id.
pub fn derive_address(kind: &RecordKind, program_id: &[u8; 32]) -> (r: Option<([u8; 32], u8)>)
    ensures
        derived_view(r) == derive_spec(*kind, program_id@),
{
    let s = seeds(kind);
    find_program_address(&s, program_id)
}

/// Derivation is a function of the record kind and the program id: equal
/// inputs give equal addresses and bumps, on every call.
pub proof fn lemma_derive_deterministic(k1: RecordKind, k2: RecordKind, id1: Seq<u8>, id2: Seq<u8>)
    requires
        k1 == k2,
        id1 == id2,
    ensures
        derive_spec(k1, id1) == derive_spec(k2, id2),
{
}

/// Distinct record kinds are derived from distinct seed lists, so their
/// addresses can coincide only through a collision of the underlying hash.
pub proof fn lemma_seeds_injective(k1: RecordKind, k2: RecordKind)
    requires
        k1 != k2,
    ensures
        seeds_of(k1) != seeds_of(k2),
{
    if seeds_of(k1) == seeds_of(k2) {
        let s = seeds_of(k1);
        assert(s[0] == seeds_of(k2)[0]);
        assert(config_tag()[0] != task_tag()[0]);
        assert(result_tag()[2] != reputation_tag()[2]);
        assert(config_tag().len() != reputation_tag().len());
        assert(task_tag().len() != result_tag().len());
        assert(task_tag().len() != reputation_tag().len());
        match (k1, k2) {
            (RecordKind::Task { owner: o1, dataset_ref: d1 }, RecordKind::Task { owner: o2, dataset_ref: d2 }) => {
                assert(o1@ == s[1] && o2@ == s[1]);
                assert(d1@ == s[2] && d2@ == s[2]);
                assert(o1 == o2);
                assert(d1 == d2);
            },
            (RecordKind::Result { task: t1, item_id: i1 }, RecordKind::Result { task: t2, item_id: i2 }) => {
                assert(t1 == t2);
                assert(i1 == i2);
            },
            (RecordKind::Reputation { task: t1, labeler: l1 }, RecordKind::Reputation { task: t2, labeler: l2 }) => {
                assert(t1 == t2);
                assert(l1 == l2);
            },
            _ => {},
        }
    }
}

} // verus!
