//! The store that lives in memory: a restart forgets it, and `flush` has nothing to do.

use crate::engine::protocol::{Command, CommandView, Input, InputView};
use crate::engine::session::{stored_ip, stored_record};
use crate::error::{Error, ErrorView};
use crate::ip::IpAddress;
use crate::state::records::{
    last_ip_in, lemma_records_empty, lemma_records_insert, lemma_records_remove, record_in,
    records_of,
};
use crate::table::{texts_of, NameTable};
use crate::time::{now, Timestamp, NANOS_PER_SEC};
use crate::traits::{StateRecord, StateRecordView};
use vstd::prelude::*;

verus! {

/// The record that `set_last_ip` writes: the address, the time of the write, no annotations.
pub open spec fn stamped_record(ip: IpAddress, at: Timestamp) -> StateRecordView {
    StateRecordView { last_ip: ip, last_updated: at, provider_metadata: Seq::empty() }
}

/// A state store in memory. Its view is the map from record names to records.
#[derive(Debug)]
pub struct MemoryStateStore {
    table: NameTable<StateRecord>,
}

impl View for MemoryStateStore {
    type V = Map<Seq<char>, StateRecordView>;

    closed spec fn view(&self) -> Map<Seq<char>, StateRecordView> {
        records_of(self.table@)
    }
}

impl MemoryStateStore {
    /// Whether the store keeps its invariant. Every constructor establishes it and
    /// every method keeps it.
    pub closed spec fn wf(&self) -> bool {
        self.table.wf()
    }

    /// An empty store.
    pub fn new() -> (s: MemoryStateStore)
        ensures
            s.wf(),
            s@ == Map::<Seq<char>, StateRecordView>::empty(),
    {
        proof {
            lemma_records_empty();
        }
        MemoryStateStore { table: NameTable::new() }
    }

    /// The number of records kept.
    pub fn len(&self) -> (n: usize)
        requires
            self.wf(),
        ensures
            self@.dom().finite(),
            n == self@.dom().len(),
    {
        proof {
            assert(self@.dom() =~= self.table@.dom());
        }
        self.table.len()
    }

    /// Whether no record is kept.
    pub fn is_empty(&self) -> (r: bool)
        requires
            self.wf(),
        ensures
            r == (self@ == Map::<Seq<char>, StateRecordView>::empty()),
    {
        let n = self.table.len();
        proof {
            assert(self@.dom() =~= self.table@.dom());
            if n == 0 {
                assert(self@.dom() =~= Set::<Seq<char>>::empty());
                assert(self@ =~= Map::<Seq<char>, StateRecordView>::empty());
            } else {
                assert(self@.dom().len() != 0);
            }
        }
        n == 0
    }

    /// Forgets every record.
    pub fn clear(&mut self) -> (r: Result<(), Error>)
        requires
            old(self).wf(),
        ensures
            final(self).wf(),
            r is Ok,
            final(self)@ == Map::<Seq<char>, StateRecordView>::empty(),
    {
        self.table.clear();
        proof {
            lemma_records_empty();
        }
        Ok(())
    }

    /// The address last applied to `record_name`, if the store has the record.
    pub fn get_last_ip(&self, record_name: &str) -> (r: Result<Option<IpAddress>, Error>)
        requires
            self.wf(),
        ensures
            r is Ok,
            r->Ok_0 is Some <==> self@.dom().contains(record_name@),
            r->Ok_0 is Some ==> r->Ok_0->0 == self@[record_name@].last_ip,
    {
        Ok(last_ip_in(&self.table, record_name))
    }

    /// The record kept for `record_name`, if the store has it.
    pub fn get_record(&self, record_name: &str) -> (r: Result<Option<StateRecord>, Error>)
        requires
            self.wf(),
        ensures
            r is Ok,
            r->Ok_0 is Some <==> self@.dom().contains(record_name@),
            r->Ok_0 is Some ==> r->Ok_0->0@ == self@[record_name@],
    {
        Ok(record_in(&self.table, record_name))
    }

    /// Creates or replaces the record of `record_name` with the address `ip`, stamped `at`.
    pub fn set_last_ip_at(&mut self, record_name: &str, ip: IpAddress, at: Timestamp) -> (r:
        Result<(), Error>)
        requires
            old(self).wf(),
        ensures
            final(self).wf(),
            r is Ok,
            final(self)@ == old(self)@.insert(record_name@, stamped_record(ip, at)),
    {
        let record = StateRecord::stamped(ip, at);
        proof {
            lemma_records_insert(self.table@, record_name@, record);
        }
        self.table.insert(record_name, record);
        Ok(())
    }

    /// Creates or replaces the record of `record_name` with the address `ip`,
    /// stamped with the current time.
    ///
    /// The clock is read once; the record is stamped with what was read, whatever it was.
    pub fn set_last_ip(&mut self, record_name: &str, ip: IpAddress) -> (r: Result<(), Error>)
        requires
            old(self).wf(),
        ensures
            final(self).wf(),
            r is Ok,
            exists|at: Timestamp|
                at.secs >= 0 && at.nanos < NANOS_PER_SEC && final(self)@ == old(self)@.insert(
                    record_name@,
                    #[trigger] stamped_record(ip, at),
                ),
    {
        let at = now();
        self.set_last_ip_at(record_name, ip, at)
    }

    /// Creates or replaces the record of `record_name` with a copy of `record`.
    pub fn set_record(&mut self, record_name: &str, record: &StateRecord) -> (r: Result<(), Error>)
        requires
            old(self).wf(),
        ensures
            final(self).wf(),
            r is Ok,
            final(self)@ == old(self)@.insert(record_name@, record@),
    {
        let copy = record.clone();
        proof {
            lemma_records_insert(self.table@, record_name@, copy);
        }
        self.table.insert(record_name, copy);
        Ok(())
    }

    /// Forgets the record of `record_name`; nothing happens if the store has none.
    pub fn delete_record(&mut self, record_name: &str) -> (r: Result<(), Error>)
        requires
            old(self).wf(),
        ensures
            final(self).wf(),
            r is Ok,
            final(self)@ == old(self)@.remove(record_name@),
    {
        proof {
            lemma_records_remove(self.table@, record_name@);
        }
        self.table.remove(record_name);
        Ok(())
    }

    /// The names of the records kept, each once.
    pub fn list_records(&self) -> (r: Result<Vec<String>, Error>)
        requires
            self.wf(),
        ensures
            r is Ok,
            texts_of(r->Ok_0@).no_duplicates(),
            texts_of(r->Ok_0@).to_set() == self@.dom(),
            r->Ok_0@.len() == self@.dom().len(),
    {
        proof {
            assert(self@.dom() =~= self.table@.dom());
        }
        Ok(self.table.list())
    }

    /// Persists pending state. A store in memory has none: nothing happens.
    pub fn flush(&self) -> (r: Result<(), Error>)
        ensures
            r is Ok,
    {
        Ok(())
    }
}

impl MemoryStateStore {
    /// Performs a command of the engine on this store, at the time `at`, and gives
    /// the answer for the engine; a command that does not concern the store is
    /// not performed and has no answer.
    ///
    /// The store answers faithfully: a read returns what the store holds, a write
    /// succeeds and is in the store afterwards, and a flush succeeds.
    pub fn answer(&mut self, command: &Command, at: Timestamp) -> (r: Option<Input>)
        requires
            old(self).wf(),
        ensures
            final(self).wf(),
            match command@ {
                CommandView::GetLastIp { record_name } => {
                    &&& r is Some
                    &&& r->0@ == InputView::LastIp(Ok(stored_ip(old(self)@, record_name)))
                    &&& final(self)@ == old(self)@
                },
                CommandView::GetRecord { record_name } => {
                    &&& r is Some
                    &&& r->0@ == InputView::Record(Ok(stored_record(old(self)@, record_name)))
                    &&& final(self)@ == old(self)@
                },
                CommandView::SetLastIp { record_name, ip } => {
                    &&& r is Some
                    &&& r->0@ == InputView::Stored(Ok(()))
                    &&& final(self)@ == old(self)@.insert(record_name, stamped_record(ip, at))
                },
                CommandView::Flush => {
                    &&& r is Some
                    &&& r->0@ == InputView::Flushed(Ok(()))
                    &&& final(self)@ == old(self)@
                },
                _ => r is None && final(self)@ == old(self)@,
            },
    {
        match command {
            Command::GetLastIp { record_name } => Some(
                Input::LastIp(self.get_last_ip(record_name.as_str())),
            ),
            Command::GetRecord { record_name } => Some(
                Input::Record(self.get_record(record_name.as_str())),
            ),
            Command::SetLastIp { record_name, ip } => Some(
                Input::Stored(self.set_last_ip_at(record_name.as_str(), *ip, at)),
            ),
            Command::Flush => Some(Input::Flushed(self.flush())),
            _ => None,
        }
    }
}

impl Default for MemoryStateStore {
    fn default() -> (s: MemoryStateStore)
        ensures
            s.wf(),
            s@ == Map::<Seq<char>, StateRecordView>::empty(),
    {
        MemoryStateStore::new()
    }
}

/// What is set can be read back.
///
/// In a store whose content is `before`, after `set_last_ip(name, ip)` at any time,
/// `get_last_ip(name)` finds `ip`, and every other record is as it was.
pub proof fn law_set_then_get(
    before: Map<Seq<char>, StateRecordView>,
    name: Seq<char>,
    ip: IpAddress,
    at: Timestamp,
)
    ensures
        before.insert(name, stamped_record(ip, at)).dom().contains(name),
        before.insert(name, stamped_record(ip, at))[name].last_ip == ip,
        forall|other: Seq<char>|
            other != name ==> (before.insert(name, stamped_record(ip, at)).dom().contains(other)
                <==> before.dom().contains(other)),
        forall|other: Seq<char>|
            other != name && before.dom().contains(other) ==> before.insert(
                name,
                stamped_record(ip, at),
            )[other] == before[other],
{
}

} // verus!
