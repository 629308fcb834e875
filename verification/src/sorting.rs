//! Sorting pairs of strings by their first component.

use crate::aliases::{
    distinct_keys, has_key, key_index, lemma_inserted_pair, map_of_pairs,
};
use crate::text::{
    chars_of, lemma_text_less_irreflexive, lemma_text_less_total, lemma_text_less_transitive,
    text_is_less, text_less,
};
use vstd::prelude::*;
use vstd::seq_lib::to_multiset_insert;

verus! {

/// Whether the pairs of `s` stand in the order of their first components:
/// none comes before an earlier one in the order of strings.
pub open spec fn sorted_by_key(s: Seq<(String, String)>) -> bool {
    forall|i: int, j: int|
        0 <= i < j < s.len() ==> !text_less((#[trigger] s[j]).0@, (#[trigger] s[i]).0@)
}

/// The pairs of `s` whose first component is `k`, in their order.
pub open spec fn with_key(s: Seq<(String, String)>, k: Seq<char>) -> Seq<(String, String)>
    decreases s.len(),
{
    if s.len() == 0 {
        Seq::empty()
    } else if s.last().0@ == k {
        with_key(s.drop_last(), k).push(s.last())
    } else {
        with_key(s.drop_last(), k)
    }
}

/// Whether `r` keeps the pairs of each first component in the order that
/// they have in `s`.
pub open spec fn keeps_order_of(r: Seq<(String, String)>, s: Seq<(String, String)>) -> bool {
    forall|k: Seq<char>| #[trigger] with_key(r, k) == with_key(s, k)
}

/// A pair put into a list does not change the pairs of another first
/// component.
pub proof fn lemma_with_other_key(
    s: Seq<(String, String)>,
    pos: int,
    p: (String, String),
    k: Seq<char>,
)
    requires
        0 <= pos <= s.len(),
        p.0@ != k,
    ensures
        with_key(s.insert(pos, p), k) == with_key(s, k),
    decreases s.len(),
{
    let t = s.insert(pos, p);
    if pos == s.len() {
        assert(t.drop_last() =~= s);
    } else {
        assert(t.last() == s.last());
        assert(t.drop_last() =~= s.drop_last().insert(pos, p));
        lemma_with_other_key(s.drop_last(), pos, p, k);
    }
}

/// A pair put into a list before pairs of other first components only
/// becomes the last of the pairs of its own first component.
pub proof fn lemma_with_same_key(s: Seq<(String, String)>, pos: int, p: (String, String))
    requires
        0 <= pos <= s.len(),
        forall|j: int| pos <= j < s.len() ==> (#[trigger] s[j]).0@ != p.0@,
    ensures
        with_key(s.insert(pos, p), p.0@) == with_key(s, p.0@).push(p),
    decreases s.len(),
{
    let t = s.insert(pos, p);
    if pos == s.len() {
        assert(t.drop_last() =~= s);
        assert(t.last() == p);
    } else {
        assert(t.last() == s.last());
        assert(s.last() == s[s.len() - 1]);
        assert(t.drop_last() =~= s.drop_last().insert(pos, p));
        assert forall|j: int| pos <= j < s.drop_last().len() implies (
        #[trigger] s.drop_last()[j]).0@ != p.0@ by {
            assert(s.drop_last()[j] == s[j]);
        }
        lemma_with_same_key(s.drop_last(), pos, p);
    }
}

/// The pairs of `v` in the order of their first components; pairs of the
/// same first component keep their order.
pub fn sort_by_key(v: &Vec<(String, String)>) -> (r: Vec<(String, String)>)
    ensures
        sorted_by_key(r@),
        r@.to_multiset() == v@.to_multiset(),
        r@.len() == v@.len(),
        keeps_order_of(r@, v@),
        distinct_keys(v@) ==> distinct_keys(r@) && map_of_pairs(r@) == map_of_pairs(v@),
{
    let mut r: Vec<(String, String)> = Vec::new();
    let mut i: usize = 0;
    assert(v@.take(0) =~= Seq::<(String, String)>::empty());
    assert(map_of_pairs(r@) =~= map_of_pairs(v@.take(0)));
    while i < v.len()
        invariant
            i <= v.len(),
            r@.len() == i,
            sorted_by_key(r@),
            r@.to_multiset() == v@.take(i as int).to_multiset(),
            keeps_order_of(r@, v@.take(i as int)),
            distinct_keys(v@) ==> distinct_keys(r@) && map_of_pairs(r@) == map_of_pairs(
                v@.take(i as int),
            ),
        decreases v.len() - i,
    {
        let key = chars_of(v[i].0.as_str());
        let mut pos: usize = 0;
        let mut found = false;
        while pos < r.len() && !found
            invariant
                pos <= r.len(),
                forall|k: int| 0 <= k < pos ==> !text_less(key@, (#[trigger] r@[k]).0@),
                found ==> pos < r.len() && text_less(key@, r@[pos as int].0@),
            decreases r.len() - pos, (if found { 0int } else { 1int }),
        {
            let other = chars_of(r[pos].0.as_str());
            if text_is_less(&key, &other) {
                found = true;
            } else {
                pos += 1;
            }
        }
        let ghost before = r@;
        let pair = (v[i].0.clone(), v[i].1.clone());
        assert(pair == v@[i as int]);
        r.insert(pos, pair);
        proof {
            let after = r@;
            assert(after == before.insert(pos as int, pair));
            to_multiset_insert(before, pos as int, pair);
            let seen_now = v@.take(i as int);
            assert(v@.take(i + 1).drop_last() == seen_now);
            assert forall|j: int| pos <= j < before.len() implies (#[trigger] before[j]).0@
                != pair.0@ by {
                // what stands at pos comes after the key, and what follows
                // it comes no earlier
                assert(text_less(key@, before[pos as int].0@));
                lemma_text_less_irreflexive(key@);
                if j > pos && before[j].0@ == key@ {
                    assert(!text_less(before[j].0@, before[pos as int].0@));
                }
            }
            assert forall|k: Seq<char>| #[trigger] with_key(after, k) == with_key(
                v@.take(i + 1),
                k,
            ) by {
                assert(with_key(before, k) == with_key(seen_now, k));
                if k == pair.0@ {
                    lemma_with_same_key(before, pos as int, pair);
                } else {
                    lemma_with_other_key(before, pos as int, pair, k);
                }
            }
            if distinct_keys(v@) {
                let seen = v@.take(i as int);
                assert(distinct_keys(seen)) by {
                    assert forall|a: int, b: int| 0 <= a < b < seen.len() implies (
                    #[trigger] seen[a]).0@ != (#[trigger] seen[b]).0@ by {
                        assert(seen[a] == v@[a] && seen[b] == v@[b]);
                    }
                }
                assert(!has_key(seen, pair.0@)) by {
                    if has_key(seen, pair.0@) {
                        let a = key_index(seen, pair.0@);
                        assert(seen[a] == v@[a]);
                        assert(v@[a].0@ != v@[i as int].0@);
                    }
                }
                assert(!has_key(before, pair.0@)) by {
                    if has_key(before, pair.0@) {
                        assert(map_of_pairs(before).dom().contains(pair.0@));
                        assert(map_of_pairs(seen).dom().contains(pair.0@));
                    }
                }
                lemma_inserted_pair(before, pos as int, pair);
                lemma_inserted_pair(seen, i as int, pair);
                assert(seen.insert(i as int, pair) == v@.take(i + 1));
            }
            assert(v@.take(i + 1) == v@.take(i as int).push(v@[i as int]));
            vstd::seq_lib::to_multiset_build(v@.take(i as int), v@[i as int]);
            assert forall|a: int, b: int| 0 <= a < b < after.len() implies !text_less(
                (#[trigger] after[b]).0@,
                (#[trigger] after[a]).0@,
            ) by {
                if b < pos {
                    assert(after[a] == before[a] && after[b] == before[b]);
                } else if b == pos {
                    assert(after[a] == before[a]);
                } else if a < pos {
                    assert(after[a] == before[a] && after[b] == before[b - 1]);
                } else if a == pos {
                    // the pair at pos in before comes after the key, and
                    // what follows it comes no earlier than it
                    assert(after[b] == before[b - 1]);
                    assert(text_less(key@, before[pos as int].0@));
                    lemma_text_less_total(key@, before[pos as int].0@);
                    if b - 1 > pos && text_less(before[b - 1].0@, key@) {
                        lemma_text_less_transitive(
                            before[b - 1].0@,
                            key@,
                            before[pos as int].0@,
                        );
                    }
                } else {
                    assert(after[a] == before[a - 1] && after[b] == before[b - 1]);
                }
            }
        }
        i += 1;
    }
    assert(v@.take(v.len() as int) == v@);
    r
}

} // verus!
