use vstd::prelude::*;

use crate::table::ArgumentTable;
use crate::value::ArgValue;
use crate::value::ArgValueView;
use crate::value::JsonValue;
use crate::value::keeps;
use crate::value::to_arg;

verus! {

/// The argument table that a sequence of hash arguments denotes: numeric and
/// textual values under their names, every other kind dropped; a later entry
/// overrides an earlier one under the same name.
pub open spec fn hash_table(s: Seq<(String, JsonValue)>) -> Map<Seq<char>, ArgValueView>
    decreases s.len(),
{
    if s.len() == 0 {
        Map::empty()
    } else {
        let prev = hash_table(s.drop_last());
        if keeps(s.last().1) {
            prev.insert(s.last().0@, to_arg(s.last().1))
        } else {
            prev
        }
    }
}

/// A name appears in the built table exactly when some hash argument under
/// it carries a numeric or textual value.
pub proof fn lemma_hash_table_contains(s: Seq<(String, JsonValue)>, k: Seq<char>)
    ensures
        hash_table(s).dom().contains(k) <==> exists|i: int|
            0 <= i < s.len() && s[i].0@ == k && keeps(s[i].1),
    decreases s.len(),
{
    if s.len() > 0 {
        let d = s.drop_last();
        lemma_hash_table_contains(d, k);
        if hash_table(s).dom().contains(k) && !(keeps(s.last().1) && s.last().0@ == k) {
            let i = choose|i: int| 0 <= i < d.len() && d[i].0@ == k && keeps(d[i].1);
            assert(s[i].0@ == k && keeps(s[i].1));
        }
        if exists|i: int| 0 <= i < s.len() && s[i].0@ == k && keeps(s[i].1) {
            let i = choose|i: int| 0 <= i < s.len() && s[i].0@ == k && keeps(s[i].1);
            if i < s.len() - 1 {
                assert(d[i].0@ == k && keeps(d[i].1));
            }
        }
    }
}

/// Under distinct names — hash arguments come from a mapping — each numeric
/// or textual hash argument appears in the built table under its name, and a
/// hash argument of any other kind leaves its name absent.
pub proof fn lemma_hash_table_filter(s: Seq<(String, JsonValue)>, i: int)
    requires
        forall|p: int, q: int| 0 <= p < q < s.len() ==> s[p].0@ != s[q].0@,
        0 <= i < s.len(),
    ensures
        keeps(s[i].1) ==> hash_table(s).dom().contains(s[i].0@) && hash_table(s)[s[i].0@]
            == to_arg(s[i].1),
        !keeps(s[i].1) ==> !hash_table(s).dom().contains(s[i].0@),
    decreases s.len(),
{
    lemma_hash_table_contains(s, s[i].0@);
    if i == s.len() - 1 {
        if keeps(s.last().1) {
        } else {
            assert(forall|j: int| 0 <= j < s.len() && j != i ==> s[j].0@ != s[i].0@);
        }
    } else {
        let d = s.drop_last();
        lemma_hash_table_filter(d, i);
        assert(s.last().0@ != s[i].0@);
    }
}

/// Build the argument table from the invocation's hash arguments: `None`
/// when there are none at all — "no arguments" is handed to the backend
/// distinctly from "empty arguments" — else the table of the numeric and
/// textual values, the other kinds silently dropped.
pub fn build_args(hash: Vec<(String, JsonValue)>) -> (r: Option<ArgumentTable>)
    ensures
        r is Some <==> hash@.len() > 0,
        r matches Some(t) ==> t@ == hash_table(hash@) && t.wf(),
{
    if hash.len() == 0 {
        return None;
    }
    let ghost orig = hash@;
    let mut rest = hash;
    let mut table = ArgumentTable::new();
    while rest.len() > 0
        invariant
            rest@.len() <= orig.len(),
            rest@ == orig.skip(orig.len() - rest@.len()),
            table.wf(),
            table@ == hash_table(orig.take(orig.len() - rest@.len())),
        decreases rest@.len(),
    {
        let ghost i = orig.len() - rest@.len();
        let (name, value) = rest.remove(0);
        proof {
            assert(rest@ =~= orig.skip(i + 1));
            assert((name, value) == orig[i as int]);
            assert(orig.take(i + 1).drop_last() =~= orig.take(i as int));
            assert(orig.take(i + 1).last() == orig[i as int]);
        }
        match value {
            JsonValue::Number(n) => {
                table.insert(name, ArgValue::Number(n));
            },
            JsonValue::Text(s) => {
                table.insert(name, ArgValue::Text(s));
            },
            _ => {},
        }
    }
    proof {
        assert(orig.take(orig.len() as int) =~= orig);
    }
    Some(table)
}

} // verus!
