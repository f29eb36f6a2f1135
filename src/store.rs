//! One record per address: create, read and overwrite in place.
use crate::state::{keys_equal, same_layout, ErrorCode, Record};
use vstd::prelude::*;

verus! {

/// Records keyed by their 32-byte address; at most one record per address.
pub struct RecordStore {
    entries: Vec<([u8; 32], Record)>,
}

impl View for RecordStore {
    type V = Map<Seq<u8>, Record>;

    closed spec fn view(&self) -> Map<Seq<u8>, Record> {
        Map::new(
            |k: Seq<u8>| exists|i: int| 0 <= i < self.entries@.len() && self.entries@[i].0@ == k,
            |k: Seq<u8>|
                self.entries@[choose|i: int|
                    0 <= i < self.entries@.len() && self.entries@[i].0@ == k].1,
        )
    }
}

impl RecordStore {
    /// No two entries share an address.
    pub closed spec fn wf(&self) -> bool {
        forall|i: int, j: int|
            0 <= i < self.entries@.len() && 0 <= j < self.entries@.len() && i != j
                ==> self.entries@[i].0@ != self.entries@[j].0@
    }

    proof fn lemma_entry_in_view(&self, i: int)
        requires
            self.wf(),
            0 <= i < self.entries@.len(),
        ensures
            self@.contains_key(self.entries@[i].0@),
            self@[self.entries@[i].0@] == self.entries@[i].1,
    {
        let k = self.entries@[i].0@;
        assert(self@.contains_key(k));
        let j = choose|j: int| 0 <= j < self.entries@.len() && self.entries@[j].0@ == k;
        assert(j == i);
    }

    /// An empty store.
    pub fn new() -> (r: RecordStore)
        ensures
            r.wf(),
            r@ == Map::<Seq<u8>, Record>::empty(),
    {
        let r = RecordStore { entries: Vec::new() };
        assert(r@ =~= Map::<Seq<u8>, Record>::empty());
        r
    }

    fn position(&self, address: &[u8; 32]) -> (r: Option<usize>)
        requires
            self.wf(),
        ensures
            match r {
                Some(i) => i < self.entries@.len() && self.entries@[i as int].0@ == address@,
                None => !self@.contains_key(address@),
            },
            r is Some <==> self@.contains_key(address@),
    {
        let mut i: usize = 0;
        while i < self.entries.len()
            invariant
                self.wf(),
                0 <= i <= self.entries@.len(),
                forall|j: int| 0 <= j < i ==> self.entries@[j].0@ != address@,
            decreases self.entries@.len() - i,
        {
            if keys_equal(&self.entries[i].0, address) {
                proof {
                    self.lemma_entry_in_view(i as int);
                }
                return Some(i);
            }
            i = i + 1;
        }
        None
    }

    /// Whether a record is at `address`.
    pub fn contains(&self, address: &[u8; 32]) -> (r: bool)
        requires
            self.wf(),
        ensures
            r == self@.contains_key(address@),
    {
        self.position(address).is_some()
    }

    /// The record at `address`, or `NotFound`.
    pub fn load(&self, address: &[u8; 32]) -> (r: Result<Record, ErrorCode>)
        requires
            self.wf(),
        ensures
            self@.contains_key(address@) ==> r == Ok::<Record, ErrorCode>(self@[address@]),
            !self@.contains_key(address@) ==> r == Err::<Record, ErrorCode>(ErrorCode::NotFound),
    {
        match self.position(address) {
            Some(i) => {
                proof {
                    self.lemma_entry_in_view(i as int);
                }
                Ok(self.entries[i].1)
            },
            None => Err(ErrorCode::NotFound),
        }
    }

    /// Puts `record` at `address`, which must hold no record yet.
    fn push_new(&mut self, address: &[u8; 32], record: Record)
        requires
            old(self).wf(),
            !old(self)@.contains_key(address@),
        ensures
            final(self).wf(),
            final(self)@ == old(self)@.insert(address@, record),
    {
        let ghost before = self.entries@;
        self.entries.push((*address, record));
        let ghost n = before.len() as int;
        assert forall|i: int| 0 <= i < n implies self.entries@[i].0@ != address@ by {
            if self.entries@[i].0@ == address@ {
                assert(old(self)@.contains_key(address@));
            }
        }
        assert forall|k: Seq<u8>| #[trigger] self@.contains_key(k) implies old(self)@.insert(
            address@,
            record,
        ).contains_key(k) && self@[k] == old(self)@.insert(address@, record)[k] by {
            let j = choose|j: int| 0 <= j < self.entries@.len() && self.entries@[j].0@ == k;
            self.lemma_entry_in_view(j);
            if j < n {
                old(self).lemma_entry_in_view(j);
            }
        }
        assert forall|k: Seq<u8>| #[trigger] old(self)@.insert(address@, record).contains_key(k)
            implies self@.contains_key(k) by {
            if k != address@ {
                let j = choose|j: int| 0 <= j < before.len() && before[j].0@ == k;
                assert(self.entries@[j].0@ == k);
            } else {
                assert(self.entries@[n].0@ == k);
            }
        }
        assert(self@ =~= old(self)@.insert(address@, record));
    }

    /// Replaces the entry at position `i` with `record`, keeping its address.
    fn replace_at(&mut self, i: usize, record: Record)
        requires
            old(self).wf(),
            i < old(self).entries@.len(),
        ensures
            final(self).wf(),
            final(self)@ == old(self)@.insert(old(self).entries@[i as int].0@, record),
    {
        let address = self.entries[i].0;
        let ghost before = *self;
        self.entries.set(i, (address, record));
        assert forall|k: Seq<u8>| #[trigger] self@.contains_key(k) implies before@.insert(
            address@,
            record,
        ).contains_key(k) && self@[k] == before@.insert(address@, record)[k] by {
            let j = choose|j: int| 0 <= j < self.entries@.len() && self.entries@[j].0@ == k;
            self.lemma_entry_in_view(j);
            before.lemma_entry_in_view(j);
        }
        assert forall|k: Seq<u8>| #[trigger] before@.insert(address@, record).contains_key(k)
            implies self@.contains_key(k) by {
            if k != address@ {
                let j = choose|j: int| 0 <= j < before.entries@.len() && before.entries@[j].0@ == k;
                assert(self.entries@[j].0@ == k);
            } else {
                assert(self.entries@[i as int].0@ == k);
            }
        }
        assert(self@ =~= before@.insert(address@, record));
    }

    /// Creates `record` at `address`; fails with `AlreadyInitialized`, changing
    /// nothing, when a record is already there.
    pub fn create_or_fail(&mut self, address: &[u8; 32], record: Record) -> (r: Result<(), ErrorCode>)
        requires
            old(self).wf(),
        ensures
            final(self).wf(),
            r == create_step(old(self)@, address@, record).0,
            final(self)@ == create_step(old(self)@, address@, record).1,
    {
        if self.contains(address) {
            Err(ErrorCode::AlreadyInitialized)
        } else {
            self.push_new(address, record);
            Ok(())
        }
    }

    /// The record at `address`, which is first created from `default` when absent.
    pub fn get_or_create(&mut self, address: &[u8; 32], default: Record) -> (r: Record)
        requires
            old(self).wf(),
        ensures
            final(self).wf(),
            old(self)@.contains_key(address@) ==> final(self)@ == old(self)@,
            !old(self)@.contains_key(address@) ==> final(self)@ == old(self)@.insert(address@, default),
            final(self)@.contains_key(address@),
            r == final(self)@[address@],
    {
        match self.position(address) {
            Some(i) => {
                proof {
                    self.lemma_entry_in_view(i as int);
                }
                self.entries[i].1
            },
            None => {
                self.push_new(address, default);
                default
            },
        }
    }

    /// Overwrites the record at `address` in place with one of the same kind.
    pub fn store(&mut self, address: &[u8; 32], record: Record) -> (r: Result<(), ErrorCode>)
        requires
            old(self).wf(),
        ensures
            final(self).wf(),
            r == store_step(old(self)@, address@, record).0,
            final(self)@ == store_step(old(self)@, address@, record).1,
    {
        match self.position(address) {
            Some(i) => {
                proof {
                    self.lemma_entry_in_view(i as int);
                }
                if self.entries[i].1.same_layout(&record) {
                    self.replace_at(i, record);
                    Ok(())
                } else {
                    Err(ErrorCode::KindMismatch)
                }
            },
            None => Err(ErrorCode::NotFound),
        }
    }
}

/// The outcome and next records of creating `record` at `address`.
pub open spec fn create_step(m: Map<Seq<u8>, Record>, address: Seq<u8>, record: Record) -> (
    Result<(), ErrorCode>,
    Map<Seq<u8>, Record>,
) {
    if m.contains_key(address) {
        (Err(ErrorCode::AlreadyInitialized), m)
    } else {
        (Ok(()), m.insert(address, record))
    }
}

/// The outcome and next records of overwriting the record at `address` with `record`.
pub open spec fn store_step(m: Map<Seq<u8>, Record>, address: Seq<u8>, record: Record) -> (
    Result<(), ErrorCode>,
    Map<Seq<u8>, Record>,
) {
    if !m.contains_key(address) {
        (Err(ErrorCode::NotFound), m)
    } else if !same_layout(m[address], record) {
        (Err(ErrorCode::KindMismatch), m)
    } else {
        (Ok(()), m.insert(address, record))
    }
}

} // verus!
