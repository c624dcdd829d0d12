//! The raw key-value persistence capability, and an in-memory
//! implementation of it.
//!
//! The capability is modelled as a map from key to byte record: writing
//! inserts, reading looks up and never changes anything. A read fault and a
//! write fault are distinct errors, so callers can tell a missing record
//! from unavailable storage.

use vstd::prelude::*;
use vstd::string::StringExecFns;

verus! {

/// A persistence fault: reading and writing fail distinctly.
#[derive(Clone, Copy, PartialEq, Eq, Structural, Debug)]
pub enum StorageError {
    ReadError,
    WriteError,
}

impl StorageError {
    /// A short description of the fault.
    pub fn message(&self) -> (r: &'static str)
        ensures
            *self == StorageError::ReadError ==> r@ == "error reading from storage"@,
            *self == StorageError::WriteError ==> r@ == "error writing to storage"@,
    {
        match self {
            StorageError::ReadError => "error reading from storage",
            StorageError::WriteError => "error writing to storage",
        }
    }
}

/// A raw key-value persistence capability.
///
/// `contents()` is the map of records currently persisted. A successful
/// write inserts its record and reports a success flag; a successful read
/// yields a copy of the record, or nothing when the key holds none. A
/// failed call leaves the contents as they were. An implementation says
/// through `may_fail_reads` and `may_fail_writes` whether its calls can
/// fail at all; one that answers `false` owes success.
pub trait Storage: Sized {
    spec fn contents(&self) -> Map<Seq<char>, Seq<u8>>;

    spec fn may_fail_reads(&self) -> bool;

    spec fn may_fail_writes(&self) -> bool;

    fn set_raw(&mut self, name: &str, buf: &[u8]) -> (r: Result<bool, StorageError>)
        ensures
            final(self).may_fail_reads() == old(self).may_fail_reads(),
            final(self).may_fail_writes() == old(self).may_fail_writes(),
            !old(self).may_fail_writes() ==> r is Ok,
            r is Ok ==> final(self).contents() == old(self).contents().insert(name@, buf@),
            r is Err ==> final(self).contents() == old(self).contents(),
    ;

    fn get_raw(&mut self, name: &str) -> (r: Result<Option<Vec<u8>>, StorageError>)
        ensures
            final(self).may_fail_reads() == old(self).may_fail_reads(),
            final(self).may_fail_writes() == old(self).may_fail_writes(),
            final(self).contents() == old(self).contents(),
            !old(self).may_fail_reads() ==> r is Ok,
            r is Ok ==> match r->Ok_0 {
                Some(v) => old(self).contents().contains_key(name@) && v@ == old(
                    self,
                ).contents()[name@],
                None => !old(self).contents().contains_key(name@),
            },
    ;
}

/// The records an entry list holds, later entries overriding earlier ones.
pub open spec fn entries_map(s: Seq<(String, Vec<u8>)>) -> Map<Seq<char>, Seq<u8>>
    decreases s.len(),
{
    if s.len() == 0 {
        Map::empty()
    } else {
        entries_map(s.drop_last()).insert(s.last().0@, s.last().1@)
    }
}

/// If `i` is the last entry under key `k`, the map holds its record.
proof fn lemma_entries_map_found(s: Seq<(String, Vec<u8>)>, k: Seq<char>, i: int)
    requires
        0 <= i < s.len(),
        s[i].0@ == k,
        forall|j: int| i < j < s.len() ==> (#[trigger] s[j]).0@ != k,
    ensures
        entries_map(s).contains_key(k),
        entries_map(s)[k] == s[i].1@,
    decreases s.len(),
{
    if i == s.len() - 1 {
    } else {
        lemma_entries_map_found(s.drop_last(), k, i);
    }
}

/// If no entry carries key `k`, the map has no record under it.
proof fn lemma_entries_map_absent(s: Seq<(String, Vec<u8>)>, k: Seq<char>)
    requires
        forall|j: int| 0 <= j < s.len() ==> (#[trigger] s[j]).0@ != k,
    ensures
        !entries_map(s).contains_key(k),
    decreases s.len(),
{
    if s.len() > 0 {
        lemma_entries_map_absent(s.drop_last(), k);
    }
}

/// A persistence capability kept entirely in memory.
pub struct InMemoryStorage {
    entries: Vec<(String, Vec<u8>)>,
}

impl InMemoryStorage {
    /// Empty storage.
    pub fn new() -> (r: InMemoryStorage)
        ensures
            r.contents() == Map::<Seq<char>, Seq<u8>>::empty(),
    {
        InMemoryStorage { entries: Vec::new() }
    }
}

impl Default for InMemoryStorage {
    fn default() -> (r: Self)
        ensures
            r.contents() == Map::<Seq<char>, Seq<u8>>::empty(),
    {
        InMemoryStorage::new()
    }
}

impl Storage for InMemoryStorage {
    closed spec fn contents(&self) -> Map<Seq<char>, Seq<u8>> {
        entries_map(self.entries@)
    }

    closed spec fn may_fail_reads(&self) -> bool {
        false
    }

    closed spec fn may_fail_writes(&self) -> bool {
        false
    }

    fn set_raw(&mut self, name: &str, buf: &[u8]) -> (r: Result<bool, StorageError>)
        ensures
            r == Result::<bool, StorageError>::Ok(true),
    {
        let record = vstd::slice::slice_to_vec(buf);
        self.entries.push((String::from_str(name), record));
        proof {
            assert(self.entries@.drop_last() =~= old(self).entries@);
        }
        Ok(true)
    }

    fn get_raw(&mut self, name: &str) -> (r: Result<Option<Vec<u8>>, StorageError>)
        ensures
            r is Ok,
    {
        let key = String::from_str(name);
        let mut i: usize = self.entries.len();
        while i > 0
            invariant
                i <= self.entries@.len(),
                key@ == name@,
                forall|j: int|
                    i <= j < self.entries@.len() ==> (#[trigger] self.entries@[j]).0@ != name@,
            decreases i,
        {
            i = i - 1;
            if self.entries[i].0 == key {
                let record = vstd::slice::slice_to_vec(self.entries[i].1.as_slice());
                proof {
                    lemma_entries_map_found(self.entries@, name@, i as int);
                }
                return Ok(Some(record));
            }
        }
        proof {
            lemma_entries_map_absent(self.entries@, name@);
        }
        Ok(None)
    }
}

} // verus!
