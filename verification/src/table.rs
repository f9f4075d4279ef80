use vstd::prelude::*;

use crate::text::str_equal;
use crate::value::ArgValue;
use crate::value::ArgValueView;

verus! {

/// The mapping that a sequence of name/value entries denotes; a later entry
/// overrides an earlier one under the same name.
pub open spec fn entries_map(s: Seq<(String, ArgValue)>) -> Map<Seq<char>, ArgValueView>
    decreases s.len(),
{
    if s.len() == 0 {
        Map::empty()
    } else {
        entries_map(s.drop_last()).insert(s.last().0@, s.last().1@)
    }
}

/// A name appears in the denoted mapping exactly when some entry carries it.
pub proof fn lemma_entries_map_contains(s: Seq<(String, ArgValue)>, k: Seq<char>)
    ensures
        entries_map(s).dom().contains(k) <==> exists|i: int|
            0 <= i < s.len() && s[i].0@ == k,
    decreases s.len(),
{
    if s.len() > 0 {
        lemma_entries_map_contains(s.drop_last(), k);
        if s.last().0@ != k && entries_map(s).dom().contains(k) {
            let i = choose|i: int| 0 <= i < s.len() - 1 && s.drop_last()[i].0@ == k;
            assert(s[i].0@ == k);
        }
        if exists|i: int| 0 <= i < s.len() && s[i].0@ == k {
            let i = choose|i: int| 0 <= i < s.len() && s[i].0@ == k;
            if i < s.len() - 1 {
                assert(s.drop_last()[i].0@ == k);
            }
        }
    }
}

/// Under distinct names, the mapping sends each entry's name to its value.
pub proof fn lemma_entries_map_index(s: Seq<(String, ArgValue)>, i: int)
    requires
        forall|p: int, q: int| 0 <= p < q < s.len() ==> s[p].0@ != s[q].0@,
        0 <= i < s.len(),
    ensures
        entries_map(s).dom().contains(s[i].0@),
        entries_map(s)[s[i].0@] == s[i].1@,
    decreases s.len(),
{
    if i == s.len() - 1 {
    } else {
        let d = s.drop_last();
        lemma_entries_map_index(d, i);
        assert(s.last().0@ != s[i].0@);
    }
}

/// Removing the one entry under a name takes the name out of the mapping.
proof fn lemma_entries_map_remove(s: Seq<(String, ArgValue)>, i: int)
    requires
        forall|p: int, q: int| 0 <= p < q < s.len() ==> s[p].0@ != s[q].0@,
        0 <= i < s.len(),
    ensures
        entries_map(s.remove(i)) == entries_map(s).remove(s[i].0@),
    decreases s.len(),
{
    let k = s[i].0@;
    if i == s.len() - 1 {
        assert(s.remove(i) =~= s.drop_last());
        lemma_entries_map_contains(s.drop_last(), k);
        assert(!entries_map(s.drop_last()).dom().contains(k));
        assert(entries_map(s.drop_last()).insert(k, s.last().1@).remove(k)
            =~= entries_map(s.drop_last()));
    } else {
        let d = s.drop_last();
        lemma_entries_map_remove(d, i);
        assert(s.remove(i).drop_last() =~= d.remove(i));
        assert(s.remove(i).last() == s.last());
        assert(entries_map(s.remove(i)) == entries_map(d.remove(i)).insert(
            s.last().0@,
            s.last().1@,
        ));
        assert(k != s.last().0@);
        assert(entries_map(d).remove(k).insert(s.last().0@, s.last().1@)
            =~= entries_map(d).insert(s.last().0@, s.last().1@).remove(k));
    }
}

/// Entries with pairwise-distinct names denote a finite mapping with one
/// name per entry, so the entry count is the domain's size.
pub proof fn lemma_entries_map_dom_len(s: Seq<(String, ArgValue)>)
    requires
        forall|p: int, q: int| 0 <= p < q < s.len() ==> s[p].0@ != s[q].0@,
    ensures
        entries_map(s).dom().finite(),
        entries_map(s).dom().len() == s.len(),
    decreases s.len(),
{
    if s.len() > 0 {
        let d = s.drop_last();
        lemma_entries_map_dom_len(d);
        lemma_entries_map_contains(d, s.last().0@);
        assert(!entries_map(d).dom().contains(s.last().0@));
        assert(entries_map(s).dom() =~= entries_map(d).dom().insert(s.last().0@));
        vstd::set::axiom_set_insert_len(entries_map(d).dom(), s.last().0@);
    }
}

/// The merged argument table handed to the translation backend: a mapping
/// from parameter names to numeric or textual values, stored as entries with
/// pairwise-distinct names.
pub struct ArgumentTable {
    entries: Vec<(String, ArgValue)>,
}

impl View for ArgumentTable {
    type V = Map<Seq<char>, ArgValueView>;

    closed spec fn view(&self) -> Map<Seq<char>, ArgValueView> {
        entries_map(self.entries@)
    }
}

impl ArgumentTable {
    /// The table's names are pairwise distinct; every operation keeps this.
    pub closed spec fn wf(&self) -> bool {
        forall|p: int, q: int|
            0 <= p < q < self.entries@.len() ==> self.entries@[p].0@ != self.entries@[q].0@
    }

    /// The number of entries, which under well-formedness is the size of the
    /// denoted mapping's domain.
    pub closed spec fn spec_len(&self) -> nat {
        self.entries@.len()
    }

    /// An empty table.
    pub fn new() -> (r: ArgumentTable)
        ensures
            r@ == Map::<Seq<char>, ArgValueView>::empty(),
            r.wf(),
            r.spec_len() == 0,
    {
        ArgumentTable { entries: Vec::new() }
    }

    /// The number of entries in the table.
    pub fn len(&self) -> (r: usize)
        ensures
            r == self.spec_len(),
    {
        self.entries.len()
    }

    /// Whether the table holds no entry.
    pub fn is_empty(&self) -> (r: bool)
        ensures
            r == (self.spec_len() == 0),
    {
        self.entries.len() == 0
    }

    /// The stored entries; under well-formedness their names are pairwise
    /// distinct and they denote exactly the table's mapping.
    pub fn entries(&self) -> (r: &Vec<(String, ArgValue)>)
        ensures
            entries_map(r@) == self@,
            r@.len() == self.spec_len(),
    {
        &self.entries
    }

    fn position_of(&self, name: &str) -> (r: Option<usize>)
        ensures
            match r {
                Some(i) => i < self.entries@.len() && self.entries@[i as int].0@ == name@,
                None => forall|k: int|
                    0 <= k < self.entries@.len() ==> self.entries@[k].0@ != name@,
            },
    {
        let mut i: usize = 0;
        let n = self.entries.len();
        while i < n
            invariant
                n == self.entries@.len(),
                i <= n,
                forall|k: int| 0 <= k < i ==> self.entries@[k].0@ != name@,
            decreases n - i,
        {
            if str_equal(self.entries[i].0.as_str(), name) {
                return Some(i);
            }
            i += 1;
        }
        None
    }

    /// Store `value` under `name`, overwriting any entry already there.
    pub fn insert(&mut self, name: String, value: ArgValue)
        requires
            old(self).wf(),
        ensures
            final(self).wf(),
            final(self)@ == old(self)@.insert(name@, value@),
    {
        let ghost orig = self.entries@;
        match self.position_of(name.as_str()) {
            Some(i) => {
                self.entries.remove(i);
                proof {
                    lemma_entries_map_remove(orig, i as int);
                }
            },
            None => {
                proof {
                    lemma_entries_map_contains(orig, name@);
                }
            },
        }
        let ghost pruned = self.entries@;
        proof {
            assert(forall|k: int|
                0 <= k < pruned.len() ==> #[trigger] pruned[k].0@ != name@);
            lemma_entries_map_contains(pruned, name@);
        }
        self.entries.push((name, value));
        proof {
            assert(self.entries@.drop_last() =~= pruned);
            assert(entries_map(self.entries@) == entries_map(pruned).insert(name@, value@));
            assert(entries_map(pruned) =~= entries_map(orig).remove(name@));
            assert(entries_map(pruned).insert(name@, value@)
                =~= entries_map(orig).insert(name@, value@));
        }
    }

    /// Look up the value stored under `name`.
    pub fn get(&self, name: &str) -> (r: Option<&ArgValue>)
        requires
            self.wf(),
        ensures
            match r {
                Some(v) => self@.dom().contains(name@) && v@ == self@[name@],
                None => !self@.dom().contains(name@),
            },
    {
        proof {
            lemma_entries_map_contains(self.entries@, name@);
        }
        match self.position_of(name) {
            Some(i) => {
                proof {
                    lemma_entries_map_index(self.entries@, i as int);
                }
                Some(&self.entries[i].1)
            },
            None => None,
        }
    }
}

} // verus!
