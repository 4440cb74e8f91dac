//! The table of rules: which input source each application is to have.

use vstd::prelude::*;

verus! {

/// The table that a list of entries stands for.
pub open spec fn table(entries: Seq<(String, String)>) -> Map<Seq<char>, Seq<char>>
    decreases entries.len(),
{
    if entries.len() == 0 {
        Map::empty()
    } else {
        table(entries.drop_last()).insert(entries.last().0@, entries.last().1@)
    }
}

/// No application has two entries.
pub open spec fn distinct(entries: Seq<(String, String)>) -> bool {
    forall|i: int, j: int|
        0 <= i < j < entries.len() ==> (#[trigger] entries[i]).0@ != (#[trigger] entries[j]).0@
}

/// From the name of an application to the input source that it is to have.
#[derive(Debug)]
pub struct Rules {
    entries: Vec<(String, String)>,
}

impl View for Rules {
    type V = Map<Seq<char>, Seq<char>>;

    closed spec fn view(&self) -> Map<Seq<char>, Seq<char>> {
        table(self.entries@)
    }
}

/// An entry of a list is an entry of its table.
proof fn entry_in_table(entries: Seq<(String, String)>, i: int)
    requires
        distinct(entries),
        0 <= i < entries.len(),
    ensures
        table(entries).contains_key(entries[i].0@),
        table(entries)[entries[i].0@] == entries[i].1@,
    decreases entries.len(),
{
    if i < entries.len() - 1 {
        let front = entries.drop_last();
        assert forall|a: int, b: int| 0 <= a < b < front.len() implies (#[trigger] front[a]).0@
            != (#[trigger] front[b]).0@ by {
            assert(front[a] == entries[a] && front[b] == entries[b]);
        }
        entry_in_table(front, i);
        assert(front[i] == entries[i]);
        assert(entries[i].0@ != entries[entries.len() - 1].0@);
    }
}

/// An entry of a table is an entry of its list.
proof fn table_entry_is_listed(entries: Seq<(String, String)>, key: Seq<char>) -> (i: int)
    requires
        table(entries).contains_key(key),
    ensures
        0 <= i < entries.len(),
        entries[i].0@ == key,
    decreases entries.len(),
{
    if entries.last().0@ == key {
        entries.len() - 1
    } else {
        let i = table_entry_is_listed(entries.drop_last(), key);
        assert(entries.drop_last()[i] == entries[i]);
        i
    }
}

/// Giving the entry at `at` another value does so in the table.
proof fn table_of_update(entries: Seq<(String, String)>, at: int, entry: (String, String))
    requires
        distinct(entries),
        0 <= at < entries.len(),
        entry.0@ == entries[at].0@,
    ensures
        distinct(entries.update(at, entry)),
        table(entries.update(at, entry)) == table(entries).insert(entry.0@, entry.1@),
{
    let changed = entries.update(at, entry);
    assert forall|a: int, b: int| 0 <= a < b < changed.len() implies (#[trigger] changed[a]).0@ != (
    #[trigger] changed[b]).0@ by {
        assert(entries[a].0@ != entries[b].0@);
    }
    let want = table(entries).insert(entry.0@, entry.1@);
    assert forall|k: Seq<char>| table(changed).contains_key(k) == want.contains_key(k) by {
        if table(changed).contains_key(k) {
            let i = table_entry_is_listed(changed, k);
            entry_in_table(entries, i);
        }
        if want.contains_key(k) {
            if k == entry.0@ {
                entry_in_table(changed, at);
            } else {
                let i = table_entry_is_listed(entries, k);
                entry_in_table(changed, i);
            }
        }
    }
    assert forall|k: Seq<char>| table(changed).contains_key(k) implies table(changed)[k]
        == want[k] by {
        let i = table_entry_is_listed(changed, k);
        entry_in_table(changed, i);
        entry_in_table(entries, i);
        if i != at {
            entry_in_table(changed, at);
            if i < at {
                assert(changed[i].0@ != changed[at].0@);
            } else {
                assert(changed[at].0@ != changed[i].0@);
            }
        }
    }
    assert(table(changed) =~= want);
}

impl Rules {
    /// No application has two rules.
    #[verifier::type_invariant]
    closed spec fn wf(self) -> bool {
        distinct(self.entries@)
    }

    /// A table without rules.
    pub fn new() -> (rules: Rules)
        ensures
            rules@ == Map::<Seq<char>, Seq<char>>::empty(),
    {
        Rules { entries: Vec::new() }
    }

    /// Where the entry of `key` stands.
    fn position(entries: &Vec<(String, String)>, key: &String) -> (at: Option<usize>)
        requires
            distinct(entries@),
        ensures
            match at {
                Some(i) => {
                    &&& i < entries@.len()
                    &&& entries@[i as int].0@ == key@
                    &&& table(entries@).contains_key(key@)
                    &&& table(entries@)[key@] == entries@[i as int].1@
                },
                None => {
                    &&& !table(entries@).contains_key(key@)
                    &&& forall|i: int| 0 <= i < entries@.len() ==> (#[trigger] entries@[i]).0@
                        != key@
                },
            },
    {
        let mut i: usize = 0;
        while i < entries.len()
            invariant
                i <= entries@.len(),
                distinct(entries@),
                forall|j: int| 0 <= j < i ==> (#[trigger] entries@[j]).0@ != key@,
            decreases entries@.len() - i,
        {
            if entries[i].0 == *key {
                proof {
                    entry_in_table(entries@, i as int);
                }
                return Some(i);
            }
            i += 1;
        }
        proof {
            if table(entries@).contains_key(key@) {
                let j = table_entry_is_listed(entries@, key@);
            }
        }
        None
    }

    /// Adds the rule that `name` is to have `source`, in place of any rule that
    /// `name` had.
    pub fn insert(&mut self, name: String, source: String)
        ensures
            final(self)@ == old(self)@.insert(name@, source@),
    {
        proof {
            use_type_invariant(&*self);
        }
        let mut entries: Vec<(String, String)> = Vec::new();
        std::mem::swap(&mut entries, &mut self.entries);
        let ghost before = entries@;
        match Self::position(&entries, &name) {
            Some(i) => {
                proof {
                    table_of_update(before, i as int, (name, source));
                }
                entries.set(i, (name, source));
            },
            None => {
                let ghost after = before.push((name, source));
                proof {
                    assert(after.drop_last() =~= before);
                    assert forall|a: int, b: int| 0 <= a < b < after.len() implies (
                    #[trigger] after[a]).0@ != (#[trigger] after[b]).0@ by {
                        assert(after[a] == before[a]);
                    }
                }
                entries.push((name, source));
            },
        }
        self.entries = entries;
    }

    /// The input source that `name` is to have.
    pub fn get(&self, name: &str) -> (source: Option<&str>)
        ensures
            match source {
                Some(s) => self@.contains_key(name@) && s@ == self@[name@],
                None => !self@.contains_key(name@),
            },
    {
        proof {
            use_type_invariant(self);
        }
        let key: String = name.to_owned();
        match Self::position(&self.entries, &key) {
            Some(i) => Some(self.entries[i].1.as_str()),
            None => None,
        }
    }

    /// Whether every rule of `self` is a rule of `other` as well.
    fn within(&self, other: &Rules) -> (within: bool)
        ensures
            within == forall|k: Seq<char>| #[trigger]
                self@.contains_key(k) ==> other@.contains_key(k) && other@[k] == self@[k],
    {
        proof {
            use_type_invariant(self);
            use_type_invariant(other);
        }
        let mut i: usize = 0;
        while i < self.entries.len()
            invariant
                i <= self.entries@.len(),
                distinct(self.entries@),
                distinct(other.entries@),
                forall|j: int|
                    0 <= j < i ==> other@.contains_key((#[trigger] self.entries@[j]).0@)
                        && other@[self.entries@[j].0@] == self.entries@[j].1@,
            decreases self.entries@.len() - i,
        {
            proof {
                entry_in_table(self.entries@, i as int);
            }
            match Self::position(&other.entries, &self.entries[i].0) {
                Some(at) => {
                    if other.entries[at].1 != self.entries[i].1 {
                        proof {
                            assert(self@.contains_key(self.entries@[i as int].0@));
                        }
                        return false;
                    }
                },
                None => {
                    proof {
                        assert(self@.contains_key(self.entries@[i as int].0@));
                    }
                    return false;
                },
            }
            i += 1;
        }
        proof {
            assert forall|k: Seq<char>| #[trigger] self@.contains_key(k) implies other@.contains_key(
                k,
            ) && other@[k] == self@[k] by {
                let j = table_entry_is_listed(self.entries@, k);
                entry_in_table(self.entries@, j);
            }
        }
        true
    }
}

/// Two tables are equal when they give every application the same input source.
impl PartialEq for Rules {
    fn eq(&self, other: &Rules) -> (same: bool) {
        let same: bool = self.within(other) && other.within(self);
        proof {
            if same {
                assert(self@ =~= other@);
            }
        }
        same
    }
}

impl vstd::std_specs::cmp::PartialEqSpecImpl for Rules {
    open spec fn obeys_eq_spec() -> bool {
        true
    }

    open spec fn eq_spec(&self, other: &Rules) -> bool {
        self@ == other@
    }
}

/// A new table gives no application a source. A rule that was put in is found under its
/// application's name, and what is found under every other name stays as it was.
pub proof fn law_a_rule_is_found_under_its_name(
    empty: Rules,
    before: Rules,
    after: Rules,
    ruled: String,
    source: String,
    name: &str,
    in_empty: Option<&str>,
    in_before: Option<&str>,
    in_after: Option<&str>,
)
    requires
        call_ensures(Rules::new, (), empty),
        after@ == before@.insert(ruled@, source@),
        call_ensures(Rules::get, (&empty, name), in_empty),
        call_ensures(Rules::get, (&before, name), in_before),
        call_ensures(Rules::get, (&after, name), in_after),
    ensures
        in_empty is None,
        name@ == ruled@ ==> in_after is Some && in_after->0@ == source@,
        name@ != ruled@ ==> (in_after is Some <==> in_before is Some),
        name@ != ruled@ && in_before is Some ==> in_after->0@ == in_before->0@,
{
}

} // verus!
