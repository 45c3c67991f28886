//! A map keyed by names, kept as a list: what the stores and the registry hold.

use vstd::prelude::*;

verus! {

/// Whether some entry of `entries` is named `name`.
pub open spec fn has_name<V>(entries: Seq<(String, V)>, name: Seq<char>) -> bool {
    exists|i: int| 0 <= i < entries.len() && (#[trigger] entries[i]).0@ == name
}

/// The place of an entry named `name`.
pub open spec fn place_of<V>(entries: Seq<(String, V)>, name: Seq<char>) -> int {
    choose|i: int| 0 <= i < entries.len() && (#[trigger] entries[i]).0@ == name
}

/// Whether no two entries of `entries` bear the same name.
pub open spec fn distinct_names<V>(entries: Seq<(String, V)>) -> bool {
    forall|i: int, j: int|
        0 <= i < j < entries.len() ==> (#[trigger] entries[i]).0@ != (#[trigger] entries[j]).0@
}

/// The map from names to records that `entries` stands for.
pub open spec fn map_of<V>(entries: Seq<(String, V)>) -> Map<Seq<char>, V> {
    Map::new(
        |name: Seq<char>| has_name(entries, name),
        |name: Seq<char>| entries[place_of(entries, name)].1,
    )
}

/// The map that results from setting `entries` one after the other.
pub open spec fn folded<V>(entries: Seq<(String, V)>) -> Map<Seq<char>, V>
    decreases entries.len(),
{
    if entries.len() == 0 {
        Map::empty()
    } else {
        folded(entries.drop_last()).insert(entries.last().0@, entries.last().1)
    }
}

/// Where no name occurs twice, setting the entries one after the other gives the
/// map that the entries stand for.
pub proof fn lemma_folded_distinct<V>(entries: Seq<(String, V)>)
    requires
        distinct_names(entries),
    ensures
        folded(entries) == map_of(entries),
    decreases entries.len(),
{
    if entries.len() == 0 {
        assert(map_of(entries) =~= Map::<Seq<char>, V>::empty());
    } else {
        let front = entries.drop_last();
        let last = entries.len() - 1;
        assert forall|a: int, b: int| 0 <= a < b < front.len() implies (#[trigger] front[a]).0@ != (
        #[trigger] front[b]).0@ by {
            assert(entries[a].0@ != entries[b].0@);
        }
        lemma_folded_distinct(front);
        assert forall|k: Seq<char>| has_name(entries, k) <==> (has_name(front, k) || k
            == entries[last].0@) by {
            if has_name(entries, k) {
                let p = choose|p: int| 0 <= p < entries.len() && (#[trigger] entries[p]).0@ == k;
                if p < last {
                    assert(front[p].0@ == k);
                }
            }
            if has_name(front, k) {
                let p = choose|p: int| 0 <= p < front.len() && (#[trigger] front[p]).0@ == k;
                assert(entries[p].0@ == k);
            }
            if k == entries[last].0@ {
                assert(entries[last].0@ == k);
            }
        }
        assert forall|k: Seq<char>| has_name(entries, k) implies #[trigger] map_of(entries)[k]
            == map_of(front).insert(entries[last].0@, entries[last].1)[k] by {
            let p = place_of(entries, k);
            lemma_entry_in_map(entries, p);
            if k != entries[last].0@ {
                assert(p < last);
                assert(front[p] == entries[p]);
                lemma_entry_in_map(front, p);
            } else {
                lemma_entry_in_map(entries, last);
            }
        }
        assert(map_of(entries) =~= map_of(front).insert(entries[last].0@, entries[last].1));
    }
}

/// The texts of `names` as character sequences.
pub open spec fn texts_of(names: Seq<String>) -> Seq<Seq<char>> {
    Seq::new(names.len(), |i: int| names[i]@)
}

/// With distinct names, the entry at `i` is the one that the map holds for its name.
pub proof fn lemma_entry_in_map<V>(entries: Seq<(String, V)>, i: int)
    requires
        distinct_names(entries),
        0 <= i < entries.len(),
    ensures
        map_of(entries).dom().contains(entries[i].0@),
        map_of(entries)[entries[i].0@] == entries[i].1,
        place_of(entries, entries[i].0@) == i,
{
    let name = entries[i].0@;
    assert(has_name(entries, name));
    let p = place_of(entries, name);
    assert(0 <= p < entries.len() && entries[p].0@ == name);
    if p < i {
        assert(entries[p].0@ != entries[i].0@);
    } else if i < p {
        assert(entries[i].0@ != entries[p].0@);
    }
}

/// A map from names to values, kept as a list of entries with distinct names, in
/// the order in which the names were first set. Its view is the map.
#[derive(Debug)]
pub struct NameTable<V> {
    entries: Vec<(String, V)>,
}

impl<V> View for NameTable<V> {
    type V = Map<Seq<char>, V>;

    closed spec fn view(&self) -> Map<Seq<char>, V> {
        map_of(self.entries@)
    }
}

impl<V> NameTable<V> {
    /// The number of entries.
    pub closed spec fn spec_len(&self) -> nat {
        self.entries@.len()
    }

    /// The names in the order in which they were first set.
    pub closed spec fn names(&self) -> Seq<Seq<char>> {
        Seq::new(self.entries@.len(), |i: int| self.entries@[i].0@)
    }

    /// The names are exactly the keys of the map, each listed once.
    pub proof fn lemma_names(&self)
        requires
            self.wf(),
        ensures
            self.names().len() == self.spec_len(),
            self.names().no_duplicates(),
            forall|name: Seq<char>| self.names().contains(name) <==> self@.dom().contains(name),
            self@.dom().finite(),
            self@.dom().len() == self.spec_len(),
    {
        let names = self.names();
        assert forall|i: int, j: int| 0 <= i < names.len() && 0 <= j < names.len() && i != j implies (
        #[trigger] names[i]) != (#[trigger] names[j]) by {
            if i < j {
                assert(self.entries@[i].0@ != self.entries@[j].0@);
            } else {
                assert(self.entries@[j].0@ != self.entries@[i].0@);
            }
        }
        assert forall|name: Seq<char>| names.contains(name) <==> self@.dom().contains(name) by {
            if names.contains(name) {
                let i = choose|i: int| 0 <= i < names.len() && names[i] == name;
                assert(self.entries@[i].0@ == name);
                assert(has_name(self.entries@, name));
            }
            if self@.dom().contains(name) {
                let i = place_of(self.entries@, name);
                assert(names[i] == name);
            }
        }
        assert(names.to_set() =~= self@.dom());
        names.unique_seq_to_set();
    }

    /// Whether the table keeps its invariant: no name occurs twice.
    pub closed spec fn wf(&self) -> bool {
        distinct_names(self.entries@)
    }

    /// An empty table.
    pub fn new() -> (t: NameTable<V>)
        ensures
            t@ == Map::<Seq<char>, V>::empty(),
            t.spec_len() == 0,
            t.wf(),
    {
        let t = NameTable { entries: Vec::new() };
        assert(t@ =~= Map::<Seq<char>, V>::empty());
        t
    }

    /// The place of the entry named `name`, if there is one.
    fn find(&self, name: &str) -> (r: Option<usize>)
        requires
            self.wf(),
        ensures
            r is Some <==> self@.dom().contains(name@),
            r matches Some(i) ==> i < self.entries@.len() && self.entries@[i as int].0@ == name@
                && self@[name@] == self.entries@[i as int].1,
    {
        let wanted = String::from_str(name);
        let n = self.entries.len();
        let mut i: usize = 0;
        while i < n
            invariant
                n == self.entries@.len(),
                i <= n,
                wanted@ == name@,
                distinct_names(self.entries@),
                forall|k: int| 0 <= k < i ==> (#[trigger] self.entries@[k]).0@ != name@,
            decreases n - i,
        {
            if self.entries[i].0 == wanted {
                proof {
                    lemma_entry_in_map(self.entries@, i as int);
                }
                return Some(i);
            }
            i += 1;
        }
        None
    }

    /// The number of entries.
    pub fn len(&self) -> (n: usize)
        requires
            self.wf(),
        ensures
            n == self.spec_len(),
            n == self@.dom().len(),
            self@.dom().finite(),
    {
        proof {
            self.lemma_names();
        }
        self.entries.len()
    }

    /// Whether a value is kept for `name`.
    pub fn contains(&self, name: &str) -> (r: bool)
        requires
            self.wf(),
        ensures
            r == self@.dom().contains(name@),
    {
        self.find(name).is_some()
    }

    /// The value kept for `name`, if there is one.
    pub fn get(&self, name: &str) -> (r: Option<&V>)
        requires
            self.wf(),
        ensures
            r is Some <==> self@.dom().contains(name@),
            r is Some ==> *r->0 == self@[name@],
    {
        match self.find(name) {
            Some(i) => Some(&self.entries[i].1),
            None => None,
        }
    }

    /// The entries, in the order in which the names were first set.
    pub fn entries(&self) -> (entries: &Vec<(String, V)>)
        requires
            self.wf(),
        ensures
            distinct_names(entries@),
            map_of(entries@) == self@,
            entries@.len() == self.spec_len(),
    {
        &self.entries
    }

    /// Keeps `value` for `name`, in place of what was kept before.
    pub fn insert(&mut self, name: &str, value: V)
        requires
            old(self).wf(),
        ensures
            final(self)@ == old(self)@.insert(name@, value),
            final(self).wf(),
            final(self).spec_len() == old(self).spec_len() + if old(self)@.dom().contains(name@) {
                0nat
            } else {
                1nat
            },
    {
        let ghost before = self.entries@;
        match self.find(name) {
            Some(i) => {
                let key = String::from_str(name);
                self.entries.set(i, (key, value));
                proof {
                    let after = self.entries@;
                    assert forall|a: int, b: int| 0 <= a < b < after.len() implies (
                    #[trigger] after[a]).0@ != (#[trigger] after[b]).0@ by {
                        assert(before[a].0@ != before[b].0@);
                    }
                    assert forall|k: Seq<char>| has_name(after, k) <==> has_name(before, k) by {
                        if has_name(after, k) {
                            let p = choose|p: int| 0 <= p < after.len() && (#[trigger] after[p]).0@ == k;
                            assert(before[p].0@ == k);
                        }
                        if has_name(before, k) {
                            let p = choose|p: int|
                                0 <= p < before.len() && (#[trigger] before[p]).0@ == k;
                            assert(after[p].0@ == k);
                        }
                    }
                    assert forall|k: Seq<char>| has_name(after, k) implies #[trigger] map_of(after)[k]
                        == map_of(before).insert(name@, value)[k] by {
                        let p = place_of(after, k);
                        lemma_entry_in_map(after, p);
                        if k != name@ {
                            assert(p != i);
                            lemma_entry_in_map(before, p);
                        } else {
                            lemma_entry_in_map(after, i as int);
                        }
                    }
                    assert(map_of(after) =~= map_of(before).insert(name@, value));
                }
            },
            None => {
                let key = String::from_str(name);
                self.entries.push((key, value));
                proof {
                    let after = self.entries@;
                    let last = before.len() as int;
                    assert forall|a: int, b: int| 0 <= a < b < after.len() implies (
                    #[trigger] after[a]).0@ != (#[trigger] after[b]).0@ by {
                        if b < last {
                            assert(before[a].0@ != before[b].0@);
                        } else {
                            assert(before[a].0@ != name@) by {
                                if before[a].0@ == name@ {
                                    assert(has_name(before, name@));
                                }
                            }
                        }
                    }
                    assert forall|k: Seq<char>| has_name(after, k) <==> (has_name(before, k) || k
                        == name@) by {
                        if has_name(after, k) {
                            let p = choose|p: int| 0 <= p < after.len() && (#[trigger] after[p]).0@ == k;
                            if p < last {
                                assert(before[p].0@ == k);
                            }
                        }
                        if has_name(before, k) {
                            let p = choose|p: int|
                                0 <= p < before.len() && (#[trigger] before[p]).0@ == k;
                            assert(after[p].0@ == k);
                        }
                        if k == name@ {
                            assert(after[last].0@ == k);
                        }
                    }
                    assert forall|k: Seq<char>| has_name(after, k) implies #[trigger] map_of(after)[k]
                        == map_of(before).insert(name@, value)[k] by {
                        let p = place_of(after, k);
                        lemma_entry_in_map(after, p);
                        if k != name@ {
                            assert(p < last);
                            lemma_entry_in_map(before, p);
                        } else {
                            lemma_entry_in_map(after, last);
                        }
                    }
                    assert(map_of(after) =~= map_of(before).insert(name@, value));
                }
            },
        }
    }

    /// Forgets the value kept for `name`, if there is one.
    pub fn remove(&mut self, name: &str)
        requires
            old(self).wf(),
        ensures
            final(self)@ == old(self)@.remove(name@),
            final(self).wf(),
            final(self).spec_len() == old(self).spec_len() - if old(self)@.dom().contains(name@) {
                1int
            } else {
                0int
            },
    {
        let ghost before = self.entries@;
        match self.find(name) {
            Some(i) => {
                let _ = self.entries.remove(i);
                proof {
                    let after = self.entries@;
                    assert forall|a: int, b: int| 0 <= a < b < after.len() implies (
                    #[trigger] after[a]).0@ != (#[trigger] after[b]).0@ by {
                        let a0 = if a < i { a } else { a + 1 };
                        let b0 = if b < i { b } else { b + 1 };
                        assert(after[a] == before[a0]);
                        assert(after[b] == before[b0]);
                        assert(before[a0].0@ != before[b0].0@);
                    }
                    assert forall|k: Seq<char>| has_name(after, k) <==> (has_name(before, k) && k
                        != name@) by {
                        if has_name(after, k) {
                            let p = choose|p: int| 0 <= p < after.len() && (#[trigger] after[p]).0@ == k;
                            let p0 = if p < i { p } else { p + 1 };
                            assert(after[p] == before[p0]);
                            assert(before[p0].0@ == k);
                            if p0 < i {
                                assert(before[p0].0@ != before[i as int].0@);
                            } else {
                                assert(before[i as int].0@ != before[p0].0@);
                            }
                        }
                        if has_name(before, k) && k != name@ {
                            let p0 = choose|p: int|
                                0 <= p < before.len() && (#[trigger] before[p]).0@ == k;
                            let p = if p0 < i { p0 } else { p0 - 1 };
                            assert(after[p] == before[p0]);
                            assert(after[p].0@ == k);
                        }
                    }
                    assert forall|k: Seq<char>| has_name(after, k) implies #[trigger] map_of(after)[k]
                        == map_of(before)[k] by {
                        let p = place_of(after, k);
                        lemma_entry_in_map(after, p);
                        let p0 = if p < i { p } else { p + 1 };
                        assert(after[p] == before[p0]);
                        lemma_entry_in_map(before, p0);
                    }
                    assert(map_of(after) =~= map_of(before).remove(name@));
                }
            },
            None => {
                assert(map_of(before) =~= map_of(before).remove(name@));
            },
        }
    }

    /// Forgets every entry.
    pub fn clear(&mut self)
        ensures
            final(self)@ == Map::<Seq<char>, V>::empty(),
            final(self).wf(),
            final(self).spec_len() == 0,
    {
        self.entries.clear();
        assert(self@ =~= Map::<Seq<char>, V>::empty());
    }

    /// The names for which a value is kept, each once, in the order in which they
    /// were first set.
    pub fn list(&self) -> (names: Vec<String>)
        requires
            self.wf(),
        ensures
            texts_of(names@) == self.names(),
            texts_of(names@).no_duplicates(),
            texts_of(names@).to_set() == self@.dom(),
            names@.len() == self@.dom().len(),
    {
        proof {
            self.lemma_names();
        }
        let mut names: Vec<String> = Vec::new();
        let n = self.entries.len();
        let mut i: usize = 0;
        while i < n
            invariant
                n == self.entries@.len(),
                i <= n,
                names@.len() == i,
                forall|k: int| 0 <= k < i ==> (#[trigger] names@[k])@ == self.entries@[k].0@,
            decreases n - i,
        {
            names.push(self.entries[i].0.clone());
            i += 1;
        }
        proof {
            assert(texts_of(names@) =~= self.names());
            assert(self.names().to_set() =~= self@.dom());
        }
        names
    }
}

} // verus!
