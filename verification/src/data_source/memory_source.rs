//! A data source that keeps its records in memory.

use vstd::prelude::*;
use super::error::{ReadError, WriteError};
use super::record::Record;
use super::store::{has_key, index_of_key, keys_distinct, lookup, removed, stored, Keyed, Store};
use super::DataSource;
use crate::path::Path;
use crate::text::{chars_of, starts_with, starts_with_spec};

verus! {

/// Whether a record lies under `prefix`: its path text starts with it.
pub open spec fn under(r: Record, prefix: Seq<char>) -> bool {
    starts_with_spec(r.key_spec(), prefix)
}

/// The records of `s` that lie under `prefix`, in order.
pub open spec fn records_under(s: Seq<Record>, prefix: Seq<char>) -> Seq<Record> {
    s.filter(|r: Record| under(r, prefix))
}

/// A record written at its path (by `create`, `update` or `upsert`) is what
/// a later `find_one` of that path gives back, and the path then exists.
pub proof fn law_read_after_write(s: Seq<Record>, r: Record)
    requires
        keys_distinct(s),
    ensures
        has_key(stored(s, r), r.key_spec()),
        lookup(stored(s, r), r.key_spec()) == Some(r),
{
    super::store::lemma_stored(s, r);
}

/// Writing a record changes what no other path finds.
pub proof fn law_write_isolated(s: Seq<Record>, r: Record, k: Seq<char>)
    requires
        keys_distinct(s),
        k != r.key_spec(),
    ensures
        lookup(stored(s, r), k) == lookup(s, k),
        has_key(stored(s, r), k) == has_key(s, k),
{
    super::store::lemma_stored(s, r);
}

/// After a delete the path no longer exists, and every other path finds
/// what it found before.
pub proof fn law_delete_removes(s: Seq<Record>, k: Seq<char>, other: Seq<char>)
    requires
        keys_distinct(s),
        other != k,
    ensures
        !has_key(removed(s, k), k),
        lookup(removed(s, k), k) is None,
        lookup(removed(s, k), other) == lookup(s, other),
{
    super::store::lemma_removed(s, k);
}

/// Writing the same record twice leaves the source as writing it once.
pub proof fn law_upsert_idempotent(s: Seq<Record>, r: Record)
    requires
        keys_distinct(s),
    ensures
        stored(stored(s, r), r) == stored(s, r),
{
    let n = stored(s, r);
    super::store::lemma_stored(s, r);
    let i = index_of_key(n, r.key_spec());
    assert(n.update(i, r) =~= n);
}

/// A path that was written cannot be created again, and a path that was
/// deleted cannot be updated or deleted again (each is refused).
pub proof fn law_refusals(s: Seq<Record>, r: Record)
    requires
        keys_distinct(s),
    ensures
        has_key(stored(s, r), r.key_spec()),
        !has_key(removed(s, r.key_spec()), r.key_spec()),
{
    super::store::lemma_stored(s, r);
    super::store::lemma_removed(s, r.key_spec());
}

/// A data source whose records live in memory, one per path.
pub struct MemorySource {
    records: Store<Record>,
}

impl View for MemorySource {
    type V = Seq<Record>;

    /// The stored records, in the order their paths were first written.
    closed spec fn view(&self) -> Seq<Record> {
        self.records@
    }
}

fn message(prefix: &str, path: &Path) -> (m: String)
    ensures
        m@ == prefix@ + path.text_spec(),
{
    let t = path.to_string();
    String::from_str(prefix).concat(t.as_str())
}

impl MemorySource {
    pub fn new() -> (s: Self)
        ensures
            s@ == Seq::<Record>::empty(),
            keys_distinct(s@),
    {
        MemorySource { records: Store::new() }
    }
}

impl Default for MemorySource {
    fn default() -> (s: Self)
        ensures
            s@ == Seq::<Record>::empty(),
    {
        MemorySource::new()
    }
}

impl DataSource for MemorySource {
    fn path_exists(&self, path: &Path) -> (r: Result<bool, ReadError>)
        ensures
            r matches Ok(b) && b == has_key(self@, path.text_spec()),
            keys_distinct(self@),
    {
        proof { use_type_invariant(&self.records); }
        let id = path.to_string();
        Ok(self.records.contains(&id))
    }

    fn count(&self, path: &Path) -> (r: Result<usize, ReadError>)
        ensures
            r matches Ok(n) && n == records_under(self@, path.text_spec()).len(),
    {
        let p = path.to_string();
        let n = self.records.len();
        let mut c: usize = 0;
        let mut i: usize = 0;
        while i < n
            invariant
                n == self.records@.len(),
                i <= n,
                c == records_under(self.records@.subrange(0, i as int), p@).len(),
                c <= i,
            decreases n - i,
        {
            let rec = self.records.at(i);
            let k = chars_of(rec.key().as_str());
            proof {
                let s = self.records@.subrange(0, i + 1);
                assert(s.drop_last() =~= self.records@.subrange(0, i as int));
                reveal_with_fuel(Seq::filter, 1);
            }
            if starts_with(&k, p.as_str()) {
                c = c + 1;
            }
            i = i + 1;
        }
        assert(self.records@.subrange(0, n as int) =~= self.records@);
        Ok(c)
    }

    fn find_one(&self, path: &Path) -> (r: Result<Record, ReadError>)
        ensures
            match lookup(self@, path.text_spec()) {
                Some(rec) => r matches Ok(x) && x.same_spec(rec),
                None => r matches Err(ReadError::Custom(m)) && m@ == "record not found: "@
                    + path.text_spec(),
            },
    {
        let id = path.to_string();
        match self.records.get(&id) {
            Some(rec) => Ok(rec.duplicate()),
            None => Err(ReadError::Custom(message("record not found: ", path))),
        }
    }

    fn find(&self, path: &Path) -> (r: Result<Vec<Record>, ReadError>)
        ensures
            r matches Ok(v) && v@.len() == records_under(self@, path.text_spec()).len() && (
            forall|k: int| 0 <= k < v@.len() ==> #[trigger] v@[k].same_spec(
                records_under(self@, path.text_spec())[k],
            )),
    {
        let p = path.to_string();
        let n = self.records.len();
        let mut out: Vec<Record> = Vec::new();
        let mut i: usize = 0;
        while i < n
            invariant
                n == self.records@.len(),
                i <= n,
                out@.len() == records_under(self.records@.subrange(0, i as int), p@).len(),
                forall|k: int| 0 <= k < out@.len() ==> #[trigger] out@[k].same_spec(
                    records_under(self.records@.subrange(0, i as int), p@)[k],
                ),
            decreases n - i,
        {
            let rec = self.records.at(i);
            let k = chars_of(rec.key().as_str());
            proof {
                let s = self.records@.subrange(0, i + 1);
                assert(s.drop_last() =~= self.records@.subrange(0, i as int));
                reveal_with_fuel(Seq::filter, 1);
            }
            if starts_with(&k, p.as_str()) {
                out.push(rec.duplicate());
            }
            i = i + 1;
        }
        assert(self.records@.subrange(0, n as int) =~= self.records@);
        Ok(out)
    }

    fn create(&mut self, record: Record) -> (r: Result<(), WriteError>)
        ensures
            if has_key(old(self)@, record.key_spec()) {
                &&& r matches Err(WriteError::Custom(m)) && m@ == "record already exists: "@
                    + record.path.text_spec()
                &&& final(self)@ == old(self)@
            } else {
                r is Ok && final(self)@ == stored(old(self)@, record)
            },
            keys_distinct(final(self)@),
    {
        let id = record.id();
        if self.records.contains(&id) {
            return Err(WriteError::Custom(message("record already exists: ", &record.path)));
        }
        self.records.put(record);
        Ok(())
    }

    fn update(&mut self, record: Record) -> (r: Result<(), WriteError>)
        ensures
            if has_key(old(self)@, record.key_spec()) {
                r is Ok && final(self)@ == stored(old(self)@, record)
            } else {
                &&& r matches Err(WriteError::Custom(m)) && m@ == "record not found: "@
                    + record.path.text_spec()
                &&& final(self)@ == old(self)@
            },
            keys_distinct(final(self)@),
    {
        let id = record.id();
        if !self.records.contains(&id) {
            return Err(WriteError::Custom(message("record not found: ", &record.path)));
        }
        self.records.put(record);
        Ok(())
    }

    fn upsert(&mut self, record: Record) -> (r: Result<(), WriteError>)
        ensures
            r is Ok,
            final(self)@ == stored(old(self)@, record),
            keys_distinct(final(self)@),
    {
        self.records.put(record);
        Ok(())
    }

    fn delete(&mut self, path: &Path) -> (r: Result<(), WriteError>)
        ensures
            if has_key(old(self)@, path.text_spec()) {
                r is Ok && final(self)@ == removed(old(self)@, path.text_spec())
            } else {
                &&& r matches Err(WriteError::Custom(m)) && m@ == "record not found: "@
                    + path.text_spec()
                &&& final(self)@ == old(self)@
            },
            keys_distinct(final(self)@),
    {
        let id = path.to_string();
        match self.records.take(&id) {
            Some(_) => Ok(()),
            None => Err(WriteError::Custom(message("record not found: ", path))),
        }
    }
}

} // verus!
