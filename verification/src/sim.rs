//! Recording and scripted implementations of the hardware capabilities.
//!
//! Production code wires hardware-backed implementations of the capability
//! traits; these types stand in for them when the core is driven without
//! hardware: an output line that records what it was driven to, an input
//! source that replays a prepared sample script, and a byte sink that keeps
//! the frames it was handed.

use vstd::prelude::*;

use crate::shift_register::Shift;
use crate::signal::{OutputSignal, RawInputSource, SignalError};
use crate::storage::{InMemoryStorage, Storage, StorageError};

verus! {

/// An output line that records every level it is driven to and never fails.
pub struct FakePin {
    states: Vec<bool>,
}

impl FakePin {
    /// A fresh pin with an empty history.
    pub fn new() -> (r: FakePin)
        ensures
            r.history() == Seq::<bool>::empty(),
    {
        FakePin { states: Vec::new() }
    }

    /// Every level this pin has been driven to, oldest first.
    pub fn states(&self) -> (r: &Vec<bool>)
        ensures
            r@ == self.history(),
    {
        &self.states
    }
}

impl OutputSignal for FakePin {
    closed spec fn history(&self) -> Seq<bool> {
        self.states@
    }

    fn set_state(&mut self, high: bool) -> (r: Result<(), SignalError>)
        ensures
            r is Ok,
    {
        self.states.push(high);
        Ok(())
    }
}

/// An input source that replays a prepared sequence of raw samples, and
/// fails with a signal error once the script is exhausted.
pub struct ScriptedInput {
    samples: Vec<bool>,
    position: usize,
}

impl ScriptedInput {
    /// The scripted samples not yet read, in the order they will come.
    pub closed spec fn upcoming(&self) -> Seq<bool> {
        if self.position <= self.samples@.len() {
            self.samples@.skip(self.position as int)
        } else {
            Seq::empty()
        }
    }

    /// A source that will yield the given samples in order.
    pub fn new(samples: Vec<bool>) -> (r: ScriptedInput)
        ensures
            r.upcoming() == samples@,
    {
        let r = ScriptedInput { samples, position: 0 };
        proof {
            assert(r.upcoming() =~= r.samples@);
        }
        r
    }
}

impl RawInputSource for ScriptedInput {
    fn read(&mut self) -> (r: Result<bool, SignalError>)
        ensures
            old(self).upcoming().len() > 0 ==> {
                &&& r is Ok
                &&& r->Ok_0 == old(self).upcoming()[0]
                &&& final(self).upcoming() == old(self).upcoming().drop_first()
            },
            old(self).upcoming().len() == 0 ==> r is Err && final(self).upcoming() == old(
                self,
            ).upcoming(),
    {
        if self.position < self.samples.len() {
            let sample = self.samples[self.position];
            self.position = self.position + 1;
            proof {
                assert(old(self).upcoming()[0] == sample);
                assert(self.upcoming() =~= old(self).upcoming().drop_first());
            }
            Ok(sample)
        } else {
            proof {
                assert(self.upcoming() =~= Seq::<bool>::empty());
            }
            Err(SignalError)
        }
    }
}

/// A byte sink that keeps every frame it is handed and never fails.
pub struct RecordingShift {
    current: Vec<u8>,
    values: Vec<Vec<u8>>,
}

impl RecordingShift {
    /// A fresh sink with nothing pending and nothing committed.
    pub fn new() -> (r: RecordingShift)
        ensures
            r.pending() == Seq::<u8>::empty(),
            r.frames() == Seq::<Seq<u8>>::empty(),
    {
        RecordingShift { current: Vec::new(), values: Vec::new() }
    }

    /// The committed frames, oldest first.
    pub fn values(&self) -> (r: &Vec<Vec<u8>>)
        ensures
            r.deep_view() == self.frames(),
    {
        &self.values
    }
}

impl Shift for RecordingShift {
    closed spec fn pending(&self) -> Seq<u8> {
        self.current@
    }

    closed spec fn frames(&self) -> Seq<Seq<u8>> {
        self.values.deep_view()
    }

    fn shift(&mut self, data: u8) -> (r: Result<(), SignalError>)
        ensures
            r is Ok,
    {
        self.current.push(data);
        proof {
            assert(self.values.deep_view() =~= old(self).values.deep_view());
        }
        Ok(())
    }

    fn store(&mut self) -> (r: Result<(), SignalError>)
        ensures
            r is Ok,
    {
        let frame = vstd::slice::slice_to_vec(self.current.as_slice());
        self.values.push(frame);
        self.current = Vec::new();
        proof {
            assert(self.values.deep_view() =~~= old(self).values.deep_view().push(
                old(self).current@,
            ));
        }
        Ok(())
    }
}

/// In-memory storage that counts how often it is read and written, for
/// checking that a cache really kept the backing store out of a call.
pub struct CountingStorage {
    inner: InMemoryStorage,
    reads: u64,
    writes: u64,
}

impl CountingStorage {
    /// Empty storage with both counters at zero.
    pub fn new() -> (r: CountingStorage)
        ensures
            r.contents() == Map::<Seq<char>, Seq<u8>>::empty(),
            r.read_count() == 0,
            r.write_count() == 0,
    {
        CountingStorage { inner: InMemoryStorage::new(), reads: 0, writes: 0 }
    }

    /// How many reads the storage has served.
    pub closed spec fn read_count(&self) -> u64 {
        self.reads
    }

    /// How many writes the storage has served.
    pub closed spec fn write_count(&self) -> u64 {
        self.writes
    }

    /// How many reads the storage has served.
    pub fn reads(&self) -> (r: u64)
        ensures
            r == self.read_count(),
    {
        self.reads
    }

    /// How many writes the storage has served.
    pub fn writes(&self) -> (r: u64)
        ensures
            r == self.write_count(),
    {
        self.writes
    }
}

impl Storage for CountingStorage {
    closed spec fn contents(&self) -> Map<Seq<char>, Seq<u8>> {
        self.inner.contents()
    }

    closed spec fn may_fail_reads(&self) -> bool {
        false
    }

    closed spec fn may_fail_writes(&self) -> bool {
        false
    }

    fn set_raw(&mut self, name: &str, buf: &[u8]) -> (r: Result<bool, StorageError>)
        ensures
            final(self).read_count() == old(self).read_count(),
            old(self).write_count() < u64::MAX ==> final(self).write_count() == old(
                self,
            ).write_count() + 1,
    {
        if self.writes < u64::MAX {
            self.writes = self.writes + 1;
        }
        self.inner.set_raw(name, buf)
    }

    fn get_raw(&mut self, name: &str) -> (r: Result<Option<Vec<u8>>, StorageError>)
        ensures
            final(self).write_count() == old(self).write_count(),
            old(self).read_count() < u64::MAX ==> final(self).read_count() == old(
                self,
            ).read_count() + 1,
    {
        if self.reads < u64::MAX {
            self.reads = self.reads + 1;
        }
        self.inner.get_raw(name)
    }
}

/// Storage with a permanent fault: every read and every write fails.
pub struct FailingStorage;

impl FailingStorage {
    pub fn new() -> (r: FailingStorage)
        ensures
            r.contents() == Map::<Seq<char>, Seq<u8>>::empty(),
    {
        FailingStorage
    }
}

impl Storage for FailingStorage {
    closed spec fn contents(&self) -> Map<Seq<char>, Seq<u8>> {
        Map::empty()
    }

    closed spec fn may_fail_reads(&self) -> bool {
        true
    }

    closed spec fn may_fail_writes(&self) -> bool {
        true
    }

    fn set_raw(&mut self, name: &str, buf: &[u8]) -> (r: Result<bool, StorageError>)
        ensures
            r == Result::<bool, StorageError>::Err(StorageError::WriteError),
    {
        Err(StorageError::WriteError)
    }

    fn get_raw(&mut self, name: &str) -> (r: Result<Option<Vec<u8>>, StorageError>)
        ensures
            r == Result::<Option<Vec<u8>>, StorageError>::Err(StorageError::ReadError),
    {
        Err(StorageError::ReadError)
    }
}

} // verus!
