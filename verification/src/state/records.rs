//! The records of a store: a name table of state records, seen as a map of views.

use crate::ip::IpAddress;
use crate::table::{
    distinct_names, folded, has_name, lemma_entry_in_map, lemma_folded_distinct, map_of, place_of,
    NameTable,
};
use crate::traits::{StateRecord, StateRecordView};
use vstd::prelude::*;

verus! {

/// The records of a state document.
pub type Records = Map<Seq<char>, StateRecordView>;

/// The records that a table of state records stands for.
pub open spec fn records_of(table: Map<Seq<char>, StateRecord>) -> Records {
    Map::new(|name: Seq<char>| table.dom().contains(name), |name: Seq<char>| table[name]@)
}

/// Setting a record in the table sets its view in the records.
pub proof fn lemma_records_insert(table: Map<Seq<char>, StateRecord>, name: Seq<char>, record: StateRecord)
    ensures
        records_of(table.insert(name, record)) == records_of(table).insert(name, record@),
{
    assert(records_of(table.insert(name, record)) =~= records_of(table).insert(name, record@));
}

/// Removing a record from the table removes it from the records.
pub proof fn lemma_records_remove(table: Map<Seq<char>, StateRecord>, name: Seq<char>)
    ensures
        records_of(table.remove(name)) == records_of(table).remove(name),
{
    assert(records_of(table.remove(name)) =~= records_of(table).remove(name));
}

/// An empty table stands for no records.
pub proof fn lemma_records_empty()
    ensures
        records_of(Map::<Seq<char>, StateRecord>::empty()) == Map::<
            Seq<char>,
            StateRecordView,
        >::empty(),
{
    assert(records_of(Map::<Seq<char>, StateRecord>::empty()) =~= Map::<
        Seq<char>,
        StateRecordView,
    >::empty());
}

/// What is written is what is read.
///
/// A store writes its entries, which bear distinct names, as one document. A
/// loader that sets the entries of that document one after the other arrives at
/// the records that were written.
pub proof fn law_document_reads_back(entries: Seq<(String, StateRecord)>)
    requires
        distinct_names(entries),
    ensures
        records_of(folded(entries)) == records_of(map_of(entries)),
{
    lemma_folded_distinct(entries);
}

/// The address last applied to `name`, if the table keeps a record for it.
pub fn last_ip_in(table: &NameTable<StateRecord>, name: &str) -> (r: Option<IpAddress>)
    requires
        table.wf(),
    ensures
        r is Some <==> records_of(table@).dom().contains(name@),
        r is Some ==> r->0 == records_of(table@)[name@].last_ip,
{
    match table.get(name) {
        Some(record) => Some(record.last_ip),
        None => None,
    }
}

/// A copy of the record that the table keeps for `name`, if it keeps one.
pub fn record_in(table: &NameTable<StateRecord>, name: &str) -> (r: Option<StateRecord>)
    requires
        table.wf(),
    ensures
        r is Some <==> records_of(table@).dom().contains(name@),
        r is Some ==> r->0@ == records_of(table@)[name@],
{
    match table.get(name) {
        Some(record) => Some(record.clone()),
        None => None,
    }
}

/// A copy of every entry of the table, in the order in which the names were first set.
pub fn snapshot(table: &NameTable<StateRecord>) -> (copy: Vec<(String, StateRecord)>)
    requires
        table.wf(),
    ensures
        distinct_names(copy@),
        records_of(map_of(copy@)) == records_of(table@),
{
    let entries = table.entries();
    let mut copy: Vec<(String, StateRecord)> = Vec::new();
    let n = entries.len();
    let mut i: usize = 0;
    while i < n
        invariant
            n == entries@.len(),
            i <= n,
            copy@.len() == i,
            forall|k: int|
                0 <= k < i ==> (#[trigger] copy@[k]).0@ == entries@[k].0@ && copy@[k].1@
                    == entries@[k].1@,
        decreases n - i,
    {
        copy.push((entries[i].0.clone(), entries[i].1.clone()));
        i += 1;
    }
    proof {
        let mine = entries@;
        let theirs = copy@;
        assert forall|a: int, b: int| 0 <= a < b < theirs.len() implies (#[trigger] theirs[a]).0@ != (
        #[trigger] theirs[b]).0@ by {
            assert(mine[a].0@ != mine[b].0@);
        }
        assert forall|k: Seq<char>| has_name(theirs, k) <==> has_name(mine, k) by {
            if has_name(theirs, k) {
                let p = choose|p: int| 0 <= p < theirs.len() && (#[trigger] theirs[p]).0@ == k;
                assert(mine[p].0@ == k);
            }
            if has_name(mine, k) {
                let p = choose|p: int| 0 <= p < mine.len() && (#[trigger] mine[p]).0@ == k;
                assert(theirs[p].0@ == k);
            }
        }
        assert forall|k: Seq<char>| has_name(theirs, k) implies #[trigger] map_of(theirs)[k]@
            == map_of(mine)[k]@ by {
            let p = place_of(theirs, k);
            lemma_entry_in_map(theirs, p);
            lemma_entry_in_map(mine, p);
        }
        assert(records_of(map_of(theirs)) =~= records_of(map_of(mine)));
    }
    copy
}

/// The table that results from setting copies of `entries` one after the other:
/// where a name occurs more than once, its last entry stays.
pub fn table_from(entries: &Vec<(String, StateRecord)>) -> (t: NameTable<StateRecord>)
    ensures
        t.wf(),
        records_of(t@) == records_of(folded(entries@)),
{
    let mut t: NameTable<StateRecord> = NameTable::new();
    let n = entries.len();
    let mut i: usize = 0;
    proof {
        assert(entries@.take(0) =~= Seq::<(String, StateRecord)>::empty());
    }
    while i < n
        invariant
            n == entries@.len(),
            i <= n,
            t.wf(),
            records_of(t@) == records_of(folded(entries@.take(i as int))),
        decreases n - i,
    {
        let ghost before = t@;
        let record = entries[i].1.clone();
        t.insert(entries[i].0.as_str(), record);
        proof {
            assert(entries@.take(i + 1).drop_last() =~= entries@.take(i as int));
            lemma_records_insert(before, entries@[i as int].0@, record);
            lemma_records_insert(
                folded(entries@.take(i as int)),
                entries@[i as int].0@,
                entries@[i as int].1,
            );
        }
        i += 1;
    }
    proof {
        assert(entries@.take(n as int) =~= entries@);
    }
    t
}

} // verus!
