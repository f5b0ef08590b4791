//! The running tasks of a process, by name.

use vstd::prelude::*;

verus! {

/// A map from names to the handles of running tasks.
pub struct Running<H> {
    entries: Vec<(String, H)>,
}

/// Whether no two entries have the same name.
spec fn names_distinct<H>(entries: Seq<(String, H)>) -> bool {
    forall|i: int, j: int|
        #![trigger entries[i], entries[j]]
        0 <= i < j < entries.len() ==> entries[i].0@ != entries[j].0@
}

/// Whether the entry at `i` has this name.
spec fn names_at<H>(entries: Seq<(String, H)>, name: Seq<char>, i: int) -> bool {
    0 <= i < entries.len() && entries[i].0@ == name
}

/// The map that a list of entries stands for.
spec fn entries_map<H>(entries: Seq<(String, H)>) -> Map<Seq<char>, H> {
    Map::new(
        |name: Seq<char>| exists|i: int| names_at(entries, name, i),
        |name: Seq<char>| entries[choose|i: int| names_at(entries, name, i)].1,
    )
}

/// What the map holds at the name of an entry.
proof fn lemma_entry<H>(entries: Seq<(String, H)>, i: int)
    requires
        names_distinct(entries),
        0 <= i < entries.len(),
    ensures
        entries_map(entries).contains_key(entries[i].0@),
        entries_map(entries)[entries[i].0@] == entries[i].1,
{
    let name = entries[i].0@;
    assert(names_at(entries, name, i));
    let k = choose|k: int| names_at(entries, name, k);
    assert(names_at(entries, name, k));
    assert(k == i) by {
        if k < i {
            assert(entries[k].0@ != entries[i].0@);
        } else if i < k {
            assert(entries[i].0@ != entries[k].0@);
        }
    }
}

impl<H> Running<H> {
    #[verifier::type_invariant]
    spec fn inv(self) -> bool {
        names_distinct(self.entries@)
    }

    /// The handles by name.
    pub closed spec fn view(&self) -> Map<Seq<char>, H> {
        entries_map(self.entries@)
    }

    /// No tasks.
    pub fn new() -> (running: Self)
        ensures
            running@ == Map::<Seq<char>, H>::empty(),
    {
        let running = Running { entries: Vec::new() };
        assert(running@ =~= Map::empty());
        running
    }

    /// The place of a name among the entries.
    fn find(entries: &Vec<(String, H)>, name: &String) -> (found: Option<usize>)
        ensures
            match found {
                Some(i) => names_at(entries@, name@, i as int),
                None => forall|i: int| !names_at(entries@, name@, i),
            },
    {
        let mut i: usize = 0;
        while i < entries.len()
            invariant
                i <= entries@.len(),
                forall|j: int| 0 <= j < i ==> !names_at(entries@, name@, j),
            decreases entries@.len() - i,
        {
            if entries[i].0 == *name {
                return Some(i);
            }
            i = i + 1;
        }
        None
    }

    /// Records a task. A task that has the name already is forgotten, not stopped.
    pub fn insert(&mut self, name: String, handle: H)
        ensures
            final(self)@ == old(self)@.insert(name@, handle),
    {
        proof {
            use_type_invariant(&*self);
        }
        let mut entries: Vec<(String, H)> = Vec::new();
        std::mem::swap(&mut entries, &mut self.entries);
        let ghost before = entries@;
        match Self::find(&entries, &name) {
            Some(i) => {
                let _ = entries.remove(i);
                entries.insert(i, (name, handle));
                proof {
                    assert(entries@ =~= before.update(i as int, (name, handle)));
                    lemma_replaced(before, i as int, (name, handle));
                }
            },
            None => {
                entries.push((name, handle));
                proof {
                    lemma_appended(before, (name, handle));
                }
            },
        }
        self.entries = entries;
    }
}

/// What becomes of a list of entries when one of them is replaced by another of the same name.
proof fn lemma_replaced<H>(before: Seq<(String, H)>, k: int, entry: (String, H))
    requires
        names_distinct(before),
        names_at(before, entry.0@, k),
    ensures
        names_distinct(before.update(k, entry)),
        entries_map(before.update(k, entry)) == entries_map(before).insert(entry.0@, entry.1),
{
    let after = before.update(k, entry);
    let key = entry.0@;
    assert forall|i: int, j: int|
        #![trigger after[i], after[j]]
        0 <= i < j < after.len() implies after[i].0@ != after[j].0@ by {
        assert(before[i].0@ != before[j].0@);
    }
    assert forall|n: Seq<char>, i: int|
        names_at(after, n, i) == #[trigger] names_at(before, n, i) by {}
    assert forall|n: Seq<char>| #[trigger]
        entries_map(after).contains_key(n) == entries_map(before).insert(
            key,
            entry.1,
        ).contains_key(n) by {
        if entries_map(after).contains_key(n) {
            let i = choose|i: int| names_at(after, n, i);
            assert(names_at(before, n, i));
        }
        if entries_map(before).contains_key(n) {
            let i = choose|i: int| names_at(before, n, i);
            assert(names_at(after, n, i));
        }
        assert(names_at(after, key, k));
    }
    assert forall|n: Seq<char>| #[trigger]
        entries_map(after).contains_key(n) implies entries_map(after)[n] == entries_map(
        before,
    ).insert(key, entry.1)[n] by {
        let i = choose|i: int| names_at(after, n, i);
        lemma_entry(after, i);
        lemma_entry(before, i);
        if n == key {
            lemma_entry(after, k);
        }
    }
    assert(entries_map(after) =~= entries_map(before).insert(key, entry.1));
}

/// What becomes of a list of entries when one of a new name is added at its end.
proof fn lemma_appended<H>(before: Seq<(String, H)>, entry: (String, H))
    requires
        names_distinct(before),
        forall|i: int| !names_at(before, entry.0@, i),
    ensures
        names_distinct(before.push(entry)),
        entries_map(before.push(entry)) == entries_map(before).insert(entry.0@, entry.1),
{
    let after = before.push(entry);
    let key = entry.0@;
    let last = before.len() as int;
    assert forall|i: int, j: int|
        #![trigger after[i], after[j]]
        0 <= i < j < after.len() implies after[i].0@ != after[j].0@ by {
        assert(!names_at(before, key, i));
        if j < last {
            assert(before[i].0@ != before[j].0@);
        }
    }
    assert forall|n: Seq<char>| #[trigger]
        entries_map(after).contains_key(n) == entries_map(before).insert(
            key,
            entry.1,
        ).contains_key(n) by {
        if entries_map(after).contains_key(n) && n != key {
            let i = choose|i: int| names_at(after, n, i);
            assert(names_at(before, n, i));
        }
        if entries_map(before).contains_key(n) {
            let i = choose|i: int| names_at(before, n, i);
            assert(names_at(after, n, i));
        }
        assert(names_at(after, key, last));
    }
    assert forall|n: Seq<char>| #[trigger]
        entries_map(after).contains_key(n) implies entries_map(after)[n] == entries_map(
        before,
    ).insert(key, entry.1)[n] by {
        let i = choose|i: int| names_at(after, n, i);
        lemma_entry(after, i);
        if n == key {
            lemma_entry(after, last);
        } else {
            lemma_entry(before, i);
        }
    }
    assert(entries_map(after) =~= entries_map(before).insert(key, entry.1));
}

impl<H> Running<H> {
    /// Takes the handle of a task out, if a task of this name is recorded.
    pub fn remove(&mut self, name: &String) -> (handle: Option<H>)
        ensures
            final(self)@ == old(self)@.remove(name@),
            match handle {
                Some(handle) => old(self)@.contains_key(name@) && handle == old(self)@[name@],
                None => !old(self)@.contains_key(name@),
            },
    {
        proof {
            use_type_invariant(&*self);
        }
        let mut entries: Vec<(String, H)> = Vec::new();
        std::mem::swap(&mut entries, &mut self.entries);
        let ghost before = entries@;
        let found = Self::find(&entries, name);
        let handle = match found {
            Some(i) => {
                let entry = entries.remove(i);
                proof {
                    lemma_entry(before, i as int);
                    lemma_removed(before, i as int);
                }
                Some(entry.1)
            },
            None => {
                assert(entries_map(before).remove(name@) =~= entries_map(before));
                None
            },
        };
        self.entries = entries;
        handle
    }
}

/// What is left of a list of entries without one of them.
proof fn lemma_removed<H>(before: Seq<(String, H)>, k: int)
    requires
        names_distinct(before),
        0 <= k < before.len(),
    ensures
        names_distinct(before.remove(k)),
        entries_map(before.remove(k)) == entries_map(before).remove(before[k].0@),
{
    let after = before.remove(k);
    let key = before[k].0@;
    assert forall|i: int, j: int|
        #![trigger after[i], after[j]]
        0 <= i < j < after.len() implies after[i].0@ != after[j].0@ by {
        let i0 = if i < k {
            i
        } else {
            i + 1
        };
        let j0 = if j < k {
            j
        } else {
            j + 1
        };
        assert(before[i0].0@ != before[j0].0@);
    }
    assert forall|n: Seq<char>| #[trigger]
        entries_map(after).contains_key(n) == entries_map(before).remove(key).contains_key(n) by {
        if entries_map(after).contains_key(n) {
            let i = choose|i: int| names_at(after, n, i);
            let i0 = if i < k {
                i
            } else {
                i + 1
            };
            assert(names_at(before, n, i0));
            if i0 < k {
                assert(before[i0].0@ != before[k].0@);
            } else {
                assert(before[k].0@ != before[i0].0@);
            }
        }
        if entries_map(before).remove(key).contains_key(n) {
            let i = choose|i: int| names_at(before, n, i);
            let i1 = if i < k {
                i
            } else {
                i - 1
            };
            assert(names_at(after, n, i1));
        }
    }
    assert forall|n: Seq<char>| #[trigger]
        entries_map(after).contains_key(n) implies entries_map(after)[n] == entries_map(
        before,
    ).remove(key)[n] by {
        let i = choose|i: int| names_at(after, n, i);
        let i0 = if i < k {
            i
        } else {
            i + 1
        };
        lemma_entry(after, i);
        lemma_entry(before, i0);
    }
    assert(entries_map(after) =~= entries_map(before).remove(key));
}

} // verus!
