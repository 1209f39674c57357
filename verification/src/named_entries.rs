//! A small ordered collection keyed by name, with the replacing insert that
//! header maps and cookie jars have: adding an entry under a name that is
//! already present replaces that entry in place.

use vstd::prelude::*;

verus! {

/// Entries in insertion order, each name at most once.
pub struct NamedEntries<V> {
    entries: Vec<(String, V)>,
}

/// The entries as names and values.
pub open spec fn entries_view<V>(entries: Seq<(String, V)>) -> Seq<(Seq<char>, V)> {
    entries.map_values(|e: (String, V)| (e.0@, e.1))
}

/// No name occurs twice.
pub open spec fn names_distinct<V>(s: Seq<(Seq<char>, V)>) -> bool {
    forall|i: int, j: int| 0 <= i < j < s.len() ==> #[trigger] s[i].0 != #[trigger] s[j].0
}

/// The position of the last entry named `name`, or -1.
pub open spec fn name_index<V>(s: Seq<(Seq<char>, V)>, name: Seq<char>) -> int
    decreases s.len(),
{
    if s.len() == 0 {
        -1
    } else if s.last().0 == name {
        s.len() - 1
    } else {
        name_index(s.drop_last(), name)
    }
}

/// The value stored under `name`.
pub open spec fn lookup<V>(s: Seq<(Seq<char>, V)>, name: Seq<char>) -> Option<V> {
    let i = name_index(s, name);
    if i >= 0 {
        Some(s[i].1)
    } else {
        None
    }
}

/// `s` after storing `value` under `name`: the entry of that name is
/// replaced where it stands, or a new entry is appended.
pub open spec fn insert_entry<V>(s: Seq<(Seq<char>, V)>, name: Seq<char>, value: V) -> Seq<
    (Seq<char>, V),
> {
    let i = name_index(s, name);
    if i >= 0 {
        s.update(i, (name, value))
    } else {
        s.push((name, value))
    }
}

/// `name_index` finds exactly the entries that carry the name.
pub proof fn lemma_name_index<V>(s: Seq<(Seq<char>, V)>, name: Seq<char>)
    ensures
        -1 <= name_index(s, name) < s.len(),
        name_index(s, name) >= 0 ==> s[name_index(s, name)].0 == name,
        name_index(s, name) == -1 ==> forall|k: int| 0 <= k < s.len() ==> #[trigger] s[k].0 != name,
        names_distinct(s) ==> forall|k: int|
            0 <= k < s.len() && #[trigger] s[k].0 == name ==> k == name_index(s, name),
    decreases s.len(),
{
    if s.len() > 0 {
        let p = s.drop_last();
        let last = s.len() - 1;
        lemma_name_index(p, name);
        assert forall|k: int| 0 <= k < p.len() implies #[trigger] p[k] == s[k] by {}
        if s.last().0 == name {
            assert(name_index(s, name) == last);
            if names_distinct(s) {
                assert forall|k: int| 0 <= k < s.len() && #[trigger] s[k].0 == name implies k
                    == name_index(s, name) by {
                    if k < last {
                        assert(s[k].0 != s[last].0);
                    }
                }
            }
        } else {
            assert(name_index(s, name) == name_index(p, name));
            if names_distinct(s) {
                assert(names_distinct(p)) by {
                    assert forall|i: int, j: int| 0 <= i < j < p.len() implies #[trigger] p[i].0
                        != #[trigger] p[j].0 by {
                        assert(s[i].0 != s[j].0);
                    }
                }
            }
            assert forall|k: int| 0 <= k < s.len() && #[trigger] s[k].0 == name implies k < last
                && p[k].0 == name by {}
        }
    }
}

/// Storing a value keeps names distinct, makes the name map to the value,
/// and leaves every other name as it was.
pub proof fn lemma_insert_entry<V>(s: Seq<(Seq<char>, V)>, name: Seq<char>, value: V)
    requires
        names_distinct(s),
    ensures
        names_distinct(insert_entry(s, name, value)),
        lookup(insert_entry(s, name, value), name) == Some(value),
        forall|other: Seq<char>|
            other != name ==> #[trigger] lookup(insert_entry(s, name, value), other) == lookup(
                s,
                other,
            ),
{
    let t = insert_entry(s, name, value);
    let i = name_index(s, name);
    lemma_name_index(s, name);
    if i >= 0 {
        assert forall|k: int| 0 <= k < s.len() implies #[trigger] t[k].0 == s[k].0 by {}
    } else {
        assert forall|k: int| 0 <= k < s.len() implies #[trigger] t[k] == s[k] by {}
        assert(t[s.len() as int].0 == name);
    }
    assert(names_distinct(t));
    lemma_name_index(t, name);
    if i >= 0 {
        assert(t[i].0 == name);
    } else {
        assert(t[s.len() as int].0 == name);
    }
    assert forall|other: Seq<char>| other != name implies #[trigger] lookup(t, other) == lookup(
        s,
        other,
    ) by {
        lemma_name_index(s, other);
        lemma_name_index(t, other);
        let j = name_index(s, other);
        if j >= 0 {
            assert(t[j] == s[j]);
        } else {
            assert forall|k: int| 0 <= k < t.len() implies #[trigger] t[k].0 != other by {
                if k < s.len() {
                    assert(s[k].0 != other);
                }
            }
        }
    }
}

/// The entries with each value replaced by `f` of it.
pub open spec fn map_entry_values<V, W>(s: Seq<(Seq<char>, V)>, f: spec_fn(V) -> W) -> Seq<
    (Seq<char>, W),
> {
    s.map_values(|e: (Seq<char>, V)| (e.0, f(e.1)))
}

/// Mapping the values leaves the positions of names as they were.
pub proof fn lemma_map_name_index<V, W>(s: Seq<(Seq<char>, V)>, f: spec_fn(V) -> W, name: Seq<char>)
    ensures
        name_index(map_entry_values(s, f), name) == name_index(s, name),
    decreases s.len(),
{
    if s.len() > 0 {
        assert(map_entry_values(s, f).drop_last() =~= map_entry_values(s.drop_last(), f));
        lemma_map_name_index(s.drop_last(), f, name);
    }
}

/// Storing and then mapping the values is mapping and then storing the
/// mapped value.
pub proof fn lemma_map_insert_entry<V, W>(
    s: Seq<(Seq<char>, V)>,
    f: spec_fn(V) -> W,
    name: Seq<char>,
    value: V,
)
    ensures
        map_entry_values(insert_entry(s, name, value), f) == insert_entry(
            map_entry_values(s, f),
            name,
            f(value),
        ),
{
    lemma_map_name_index(s, f, name);
    lemma_name_index(s, name);
    assert(map_entry_values(insert_entry(s, name, value), f) =~= insert_entry(
        map_entry_values(s, f),
        name,
        f(value),
    ));
}

impl<V> NamedEntries<V> {
    pub closed spec fn entries(&self) -> Seq<(Seq<char>, V)> {
        entries_view(self.entries@)
    }

    #[verifier::type_invariant]
    closed spec fn inv(&self) -> bool {
        names_distinct(entries_view(self.entries@))
    }

    /// No entries.
    pub fn new() -> (res: Self)
        ensures
            res.entries() == Seq::<(Seq<char>, V)>::empty(),
            names_distinct(res.entries()),
    {
        let res = NamedEntries { entries: Vec::new() };
        assert(res.entries() =~= Seq::<(Seq<char>, V)>::empty());
        res
    }

    /// The number of entries.
    pub fn len(&self) -> (res: usize)
        ensures
            res == self.entries().len(),
    {
        self.entries.len()
    }

    /// The entries, in order.
    pub fn into_vec(self) -> (res: Vec<(String, V)>)
        ensures
            entries_view(res@) == self.entries(),
    {
        self.entries
    }

    /// Stores `value` under `name`, replacing the entry of that name.
    pub fn insert(&mut self, name: String, value: V)
        ensures
            final(self).entries() == insert_entry(old(self).entries(), name@, value),
            names_distinct(final(self).entries()),
    {
        proof {
            use_type_invariant(&*self);
            lemma_name_index(self.entries(), name@);
        }
        let ghost before = self.entries();
        let mut i: usize = 0;
        let n = self.entries.len();
        while i < n
            invariant_except_break
                forall|k: int| 0 <= k < i ==> #[trigger] before[k].0 != name@,
            invariant
                n == self.entries@.len(),
                before == entries_view(self.entries@),
                names_distinct(before),
                i <= n,
            ensures
                i < n ==> before[i as int].0 == name@,
                i == n ==> forall|k: int| 0 <= k < n ==> #[trigger] before[k].0 != name@,
            decreases n - i,
        {
            if self.entries[i].0 == name {
                break;
            }
            i = i + 1;
        }
        proof {
            lemma_name_index(before, name@);
        }
        if i < n {
            assert(before[i as int].0 == name@);
            assert(name_index(before, name@) == i);
            proof {
                lemma_insert_entry(before, name@, value);
            }
            let mut entries: Vec<(String, V)> = Vec::new();
            std::mem::swap(&mut entries, &mut self.entries);
            entries.set(i, (name, value));
            assert(entries_view(entries@) =~= before.update(i as int, (name@, value)));
            self.entries = entries;
        } else {
            assert(name_index(before, name@) == -1);
            proof {
                lemma_insert_entry(before, name@, value);
            }
            let mut entries: Vec<(String, V)> = Vec::new();
            std::mem::swap(&mut entries, &mut self.entries);
            entries.push((name, value));
            assert(entries_view(entries@) =~= before.push((name@, value)));
            self.entries = entries;
        }
    }
}

} // verus!
