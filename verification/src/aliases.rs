//! The alias table: a finite map from alias to canonical repository name.
//!
//! The table is kept as a list of pairs in which no alias occurs twice, and
//! is viewed as a `Map` from alias to name.

use vstd::prelude::*;

verus! {

/// Whether no two pairs of `s` have the same first component.
pub open spec fn distinct_keys(s: Seq<(String, String)>) -> bool {
    forall|i: int, j: int| 0 <= i < j < s.len() ==> (#[trigger] s[i]).0@ != (#[trigger] s[j]).0@
}

/// Whether some pair of `s` has `k` as its first component.
pub open spec fn has_key(s: Seq<(String, String)>, k: Seq<char>) -> bool {
    exists|i: int| 0 <= i < s.len() && (#[trigger] s[i]).0@ == k
}

/// The position of a pair of `s` with `k` as its first component.
pub open spec fn key_index(s: Seq<(String, String)>, k: Seq<char>) -> int {
    choose|i: int| 0 <= i < s.len() && (#[trigger] s[i]).0@ == k
}

/// The map that the pairs of `s` spell out, read with distinct keys.
pub open spec fn map_of_pairs(s: Seq<(String, String)>) -> Map<Seq<char>, Seq<char>> {
    Map::new(|k: Seq<char>| has_key(s, k), |k: Seq<char>| s[key_index(s, k)].1@)
}

/// The map built by inserting the pairs of `s` one after the other, so that
/// a later pair replaces an earlier one with the same key.
pub open spec fn map_by_insertion(s: Seq<(String, String)>) -> Map<Seq<char>, Seq<char>>
    decreases s.len(),
{
    if s.len() == 0 {
        Map::empty()
    } else {
        map_by_insertion(s.drop_last()).insert(s.last().0@, s.last().1@)
    }
}

/// With distinct keys the map of a list of pairs holds each pair of it.
pub proof fn lemma_map_of_pairs(s: Seq<(String, String)>, i: int)
    requires
        distinct_keys(s),
        0 <= i < s.len(),
    ensures
        map_of_pairs(s).dom().contains(s[i].0@),
        map_of_pairs(s)[s[i].0@] == s[i].1@,
{
    let k = s[i].0@;
    assert(has_key(s, k));
    let j = key_index(s, k);
    assert(0 <= j < s.len() && s[j].0@ == k);
    if i < j {
        assert(s[i].0@ != s[j].0@);
    } else if j < i {
        assert(s[j].0@ != s[i].0@);
    }
}

/// A finite map from alias to canonical name.
#[derive(Debug)]
pub struct AliasTable {
    pairs: Vec<(String, String)>,
}

impl View for AliasTable {
    type V = Map<Seq<char>, Seq<char>>;

    closed spec fn view(&self) -> Map<Seq<char>, Seq<char>> {
        map_of_pairs(self.pairs@)
    }
}

impl AliasTable {
    /// No alias occurs twice in the table.
    #[verifier::type_invariant]
    pub closed spec fn wf(self) -> bool {
        distinct_keys(self.pairs@)
    }

    /// The table without any alias.
    pub fn new() -> (r: AliasTable)
        ensures
            r@ == Map::<Seq<char>, Seq<char>>::empty(),
    {
        let r = AliasTable { pairs: Vec::new() };
        assert(r@ =~= Map::<Seq<char>, Seq<char>>::empty());
        r
    }

    /// The position of the pair for `key`, or the length of the list where
    /// there is none.
    fn position(&self, key: &str) -> (i: usize)
        ensures
            i <= self.pairs.len(),
            i < self.pairs.len() ==> self.pairs@[i as int].0@ == key@,
            i == self.pairs.len() ==> !has_key(self.pairs@, key@),
    {
        let mut i: usize = 0;
        while i < self.pairs.len()
            invariant
                i <= self.pairs.len(),
                forall|k: int| 0 <= k < i ==> (#[trigger] self.pairs@[k]).0@ != key@,
            decreases self.pairs.len() - i,
        {
            if self.pairs[i].0.as_str().eq(key) {
                return i;
            }
            i += 1;
        }
        i
    }

    /// Whether `key` is an alias of the table.
    pub fn contains_key(&self, key: &str) -> (r: bool)
        ensures
            r == self@.dom().contains(key@),
    {
        self.position(key) < self.pairs.len()
    }

    /// The name that `key` stands for.
    pub fn get(&self, key: &str) -> (r: Option<&String>)
        ensures
            r is Some <==> self@.dom().contains(key@),
            r matches Some(v) ==> v@ == self@[key@],
    {
        let i = self.position(key);
        if i < self.pairs.len() {
            proof {
                use_type_invariant(self);
                lemma_map_of_pairs(self.pairs@, i as int);
            }
            Some(&self.pairs[i].1)
        } else {
            None
        }
    }

    /// Whether the table holds no alias.
    pub fn is_empty(&self) -> (r: bool)
        ensures
            r == (self@ == Map::<Seq<char>, Seq<char>>::empty()),
    {
        let r = self.pairs.len() == 0;
        proof {
            if r {
                assert(self@ =~= Map::<Seq<char>, Seq<char>>::empty());
            } else {
                assert(has_key(self.pairs@, self.pairs@[0].0@));
                assert(self@.dom().contains(self.pairs@[0].0@));
            }
        }
        r
    }

    /// Lets `key` stand for `value`, and returns the name it stood for
    /// before.
    pub fn insert(&mut self, key: String, value: String) -> (r: Option<String>)
        ensures
            final(self)@ == old(self)@.insert(key@, value@),
            r is Some <==> old(self)@.dom().contains(key@),
            r matches Some(v) ==> v@ == old(self)@[key@],
    {
        proof {
            use_type_invariant(&*self);
        }
        let i = self.position(key.as_str());
        let ghost before = self.pairs@;
        let mut pairs: Vec<(String, String)> = Vec::new();
        core::mem::swap(&mut self.pairs, &mut pairs);
        if i < pairs.len() {
            let previous = pairs[i].1.clone();
            proof {
                lemma_map_of_pairs(before, i as int);
            }
            pairs.set(i, (key, value));
            proof {
                let after = pairs@;
                assert(distinct_keys(after)) by {
                    assert forall|a: int, b: int| 0 <= a < b < after.len() implies (
                    #[trigger] after[a]).0@ != (#[trigger] after[b]).0@ by {
                        assert(after[a].0@ == before[a].0@);
                        assert(after[b].0@ == before[b].0@);
                    }
                }
                assert forall|k: Seq<char>| has_key(after, k) == has_key(before, k) by {
                    if has_key(after, k) {
                        let a = key_index(after, k);
                        assert(before[a].0@ == k);
                    }
                    if has_key(before, k) {
                        let a = key_index(before, k);
                        assert(after[a].0@ == k);
                    }
                }
                assert forall|k: Seq<char>| has_key(after, k) implies #[trigger] map_of_pairs(
                    after,
                )[k] == before_or(before, k, key@, value@) by {
                    let a = key_index(after, k);
                    lemma_map_of_pairs(after, a);
                    if a != i {
                        assert(before[a] == after[a]);
                        lemma_map_of_pairs(before, a);
                    }
                }
                assert(map_of_pairs(after) =~= map_of_pairs(before).insert(key@, value@));
            }
            self.pairs = pairs;
            Some(previous)
        } else {
            pairs.push((key, value));
            proof {
                let after = pairs@;
                assert(distinct_keys(after)) by {
                    assert forall|a: int, b: int| 0 <= a < b < after.len() implies (
                    #[trigger] after[a]).0@ != (#[trigger] after[b]).0@ by {
                        assert(after[a] == before[a]);
                        if b < before.len() {
                            assert(after[b] == before[b]);
                        }
                    }
                }
                assert forall|k: Seq<char>| has_key(after, k) == (has_key(before, k) || k
                    == key@) by {
                    if has_key(after, k) {
                        let a = key_index(after, k);
                        if a < before.len() {
                            assert(before[a].0@ == k);
                        }
                    }
                    if has_key(before, k) {
                        let a = key_index(before, k);
                        assert(after[a].0@ == k);
                    }
                    if k == key@ {
                        assert(after[before.len() as int].0@ == k);
                    }
                }
                assert forall|k: Seq<char>| has_key(after, k) implies #[trigger] map_of_pairs(
                    after,
                )[k] == before_or(before, k, key@, value@) by {
                    let a = key_index(after, k);
                    lemma_map_of_pairs(after, a);
                    if a < before.len() {
                        assert(before[a] == after[a]);
                        lemma_map_of_pairs(before, a);
                    }
                }
                assert(map_of_pairs(after) =~= map_of_pairs(before).insert(key@, value@));
            }
            self.pairs = pairs;
            None
        }
    }

    /// Removes the alias `key`, and returns the name it stood for.
    pub fn remove(&mut self, key: &str) -> (r: Option<String>)
        ensures
            final(self)@ == old(self)@.remove(key@),
            r is Some <==> old(self)@.dom().contains(key@),
            r matches Some(v) ==> v@ == old(self)@[key@],
    {
        proof {
            use_type_invariant(&*self);
        }
        let i = self.position(key);
        let ghost before = self.pairs@;
        if i < self.pairs.len() {
            proof {
                lemma_map_of_pairs(before, i as int);
            }
            let mut pairs: Vec<(String, String)> = Vec::new();
            core::mem::swap(&mut self.pairs, &mut pairs);
            let removed = pairs.remove(i);
            proof {
                lemma_removed_pair(before, i as int);
                assert(pairs@ == before.remove(i as int));
            }
            self.pairs = pairs;
            Some(removed.1)
        } else {
            assert(map_of_pairs(before).remove(key@) =~= map_of_pairs(before));
            None
        }
    }

    /// Removes every alias that stands for `target`, and returns those
    /// aliases, each once.
    pub fn remove_targeting(&mut self, target: &str) -> (r: Vec<String>)
        ensures
            final(self)@ == old(self)@.remove_keys(aliases_of(old(self)@, target@)),
            forall|k: Seq<char>|
                aliases_of(old(self)@, target@).contains(k) <==> exists|i: int|
                    0 <= i < r.len() && (#[trigger] r@[i])@ == k,
            forall|i: int, j: int| 0 <= i < j < r.len() ==> (#[trigger] r@[i])@ != (#[trigger] r@[j])@,
    {
        proof {
            use_type_invariant(&*self);
        }
        let ghost before = self.pairs@;
        let mut kept: Vec<(String, String)> = Vec::new();
        let mut removed: Vec<String> = Vec::new();
        let ghost mut kept_from: Seq<int> = Seq::empty();
        let ghost mut removed_from: Seq<int> = Seq::empty();
        let mut i: usize = 0;
        while i < self.pairs.len()
            invariant
                i <= self.pairs.len(),
                self.pairs@ == before,
                distinct_keys(before),
                kept_from.len() == kept.len(),
                removed_from.len() == removed.len(),
                forall|a: int|
                    0 <= a < kept.len() ==> 0 <= #[trigger] kept_from[a] < i && kept@[a]
                        == before[kept_from[a]] && before[kept_from[a]].1@ != target@,
                forall|a: int, b: int|
                    0 <= a < b < kept.len() ==> #[trigger] kept_from[a] < #[trigger] kept_from[b],
                forall|a: int|
                    0 <= a < removed.len() ==> 0 <= #[trigger] removed_from[a] < i && removed@[a]@
                        == before[removed_from[a]].0@ && before[removed_from[a]].1@ == target@,
                forall|a: int, b: int|
                    0 <= a < b < removed.len() ==> #[trigger] removed_from[a]
                        < #[trigger] removed_from[b],
                forall|x: int|
                    0 <= x < i && (#[trigger] before[x]).1@ != target@ ==> exists|a: int|
                        0 <= a < kept.len() && #[trigger] kept_from[a] == x,
                forall|x: int|
                    0 <= x < i && (#[trigger] before[x]).1@ == target@ ==> exists|a: int|
                        0 <= a < removed.len() && #[trigger] removed_from[a] == x,
            decreases self.pairs.len() - i,
        {
            let ghost old_kept_from = kept_from;
            let ghost old_removed_from = removed_from;
            if self.pairs[i].1.as_str().eq(target) {
                removed.push(self.pairs[i].0.clone());
                proof {
                    removed_from = removed_from.push(i as int);
                    assert forall|x: int|
                        0 <= x < i + 1 && (#[trigger] before[x]).1@ == target@ implies exists|
                        a: int,
                    |
                        0 <= a < removed.len() && #[trigger] removed_from[a] == x by {
                        if x < i {
                            let a = choose|a: int|
                                0 <= a < old_removed_from.len() && #[trigger] old_removed_from[a]
                                    == x;
                            assert(removed_from[a] == x);
                        } else {
                            assert(removed_from[removed.len() - 1] == x);
                        }
                    }
                }
            } else {
                kept.push((self.pairs[i].0.clone(), self.pairs[i].1.clone()));
                proof {
                    kept_from = kept_from.push(i as int);
                    assert forall|x: int|
                        0 <= x < i + 1 && (#[trigger] before[x]).1@ != target@ implies exists|
                        a: int,
                    |
                        0 <= a < kept.len() && #[trigger] kept_from[a] == x by {
                        if x < i {
                            let a = choose|a: int|
                                0 <= a < old_kept_from.len() && #[trigger] old_kept_from[a] == x;
                            assert(kept_from[a] == x);
                        } else {
                            assert(kept_from[kept.len() - 1] == x);
                        }
                    }
                }
            }
            i += 1;
        }
        proof {
            let after = kept@;
            let gone = aliases_of(map_of_pairs(before), target@);
            assert(distinct_keys(after)) by {
                assert forall|a: int, b: int| 0 <= a < b < after.len() implies (
                #[trigger] after[a]).0@ != (#[trigger] after[b]).0@ by {
                    assert(kept_from[a] < kept_from[b]);
                    assert(before[kept_from[a]].0@ != before[kept_from[b]].0@);
                }
            }
            assert forall|k: Seq<char>| gone.contains(k) <==> exists|x: int|
                0 <= x < removed.len() && (#[trigger] removed@[x])@ == k by {
                if gone.contains(k) {
                    let x = key_index(before, k);
                    lemma_map_of_pairs(before, x);
                    let a = choose|a: int|
                        0 <= a < removed.len() && #[trigger] removed_from[a] == x;
                    assert(removed@[a]@ == k);
                }
                if exists|x: int| 0 <= x < removed.len() && (#[trigger] removed@[x])@ == k {
                    let a = choose|x: int| 0 <= x < removed.len() && (#[trigger] removed@[x])@ == k;
                    lemma_map_of_pairs(before, removed_from[a]);
                }
            }
            assert forall|a: int, b: int| 0 <= a < b < removed.len() implies (
            #[trigger] removed@[a])@ != (#[trigger] removed@[b])@ by {
                assert(removed_from[a] < removed_from[b]);
                assert(before[removed_from[a]].0@ != before[removed_from[b]].0@);
            }
            assert forall|k: Seq<char>| has_key(after, k) <==> (has_key(before, k)
                && !gone.contains(k)) by {
                if has_key(after, k) {
                    let a = key_index(after, k);
                    lemma_map_of_pairs(before, kept_from[a]);
                }
                if has_key(before, k) && !gone.contains(k) {
                    let x = key_index(before, k);
                    lemma_map_of_pairs(before, x);
                    let a = choose|a: int| 0 <= a < kept.len() && #[trigger] kept_from[a] == x;
                    assert(after[a].0@ == k);
                }
            }
            assert forall|k: Seq<char>| has_key(after, k) implies #[trigger] map_of_pairs(after)[k]
                == map_of_pairs(before)[k] by {
                let a = key_index(after, k);
                lemma_map_of_pairs(after, a);
                lemma_map_of_pairs(before, kept_from[a]);
            }
            assert(map_of_pairs(after) =~= map_of_pairs(before).remove_keys(gone));
        }
        self.pairs = kept;
        removed
    }

    /// The pairs of the table, alias first, each alias once.
    pub fn to_pairs(&self) -> (r: Vec<(String, String)>)
        ensures
            distinct_keys(r@),
            map_of_pairs(r@) == self@,
            r@ == self.pairs_spec(),
    {
        proof {
            use_type_invariant(self);
        }
        let mut r: Vec<(String, String)> = Vec::new();
        let mut i: usize = 0;
        while i < self.pairs.len()
            invariant
                i <= self.pairs.len(),
                r@ == self.pairs@.take(i as int),
            decreases self.pairs.len() - i,
        {
            r.push((self.pairs[i].0.clone(), self.pairs[i].1.clone()));
            assert(self.pairs@.take(i + 1) == self.pairs@.take(i as int).push(self.pairs@[i as int]));
            i += 1;
        }
        assert(self.pairs@.take(self.pairs.len() as int) == self.pairs@);
        r
    }

    /// The pairs of the table in the order in which it keeps them.
    pub closed spec fn pairs_spec(&self) -> Seq<(String, String)> {
        self.pairs@
    }

    /// The table made by inserting the pairs of `pairs` one after the other.
    pub fn from_pairs(pairs: Vec<(String, String)>) -> (r: AliasTable)
        ensures
            r@ == map_by_insertion(pairs@),
    {
        let mut table = AliasTable::new();
        let mut i: usize = 0;
        assert(pairs@.take(0) == Seq::<(String, String)>::empty());
        while i < pairs.len()
            invariant
                i <= pairs.len(),
                table@ == map_by_insertion(pairs@.take(i as int)),
            decreases pairs.len() - i,
        {
            let previous = table.insert(pairs[i].0.clone(), pairs[i].1.clone());
            assert(pairs@.take(i + 1).drop_last() == pairs@.take(i as int));
            i += 1;
        }
        assert(pairs@.take(pairs.len() as int) == pairs@);
        table
    }
}

/// The value that `k` has after `key` was given `value` in the map of
/// `before`.
pub open spec fn before_or(
    before: Seq<(String, String)>,
    k: Seq<char>,
    key: Seq<char>,
    value: Seq<char>,
) -> Seq<char> {
    if k == key {
        value
    } else {
        map_of_pairs(before)[k]
    }
}

/// The aliases of `m` that stand for `target`.
pub open spec fn aliases_of(m: Map<Seq<char>, Seq<char>>, target: Seq<char>) -> Set<Seq<char>> {
    Set::new(|k: Seq<char>| m.dom().contains(k) && m[k] == target)
}

/// Taking a pair out of a list with distinct keys takes its key out of the
/// map, and leaves the keys distinct.
pub proof fn lemma_removed_pair(s: Seq<(String, String)>, i: int)
    requires
        distinct_keys(s),
        0 <= i < s.len(),
    ensures
        distinct_keys(s.remove(i)),
        map_of_pairs(s.remove(i)) == map_of_pairs(s).remove(s[i].0@),
{
    let t = s.remove(i);
    assert forall|a: int, b: int| 0 <= a < b < t.len() implies (#[trigger] t[a]).0@ != (
    #[trigger] t[b]).0@ by {
        let a0 = if a < i {
            a
        } else {
            a + 1
        };
        let b0 = if b < i {
            b
        } else {
            b + 1
        };
        assert(t[a] == s[a0]);
        assert(t[b] == s[b0]);
    }
    assert forall|k: Seq<char>| has_key(t, k) <==> (has_key(s, k) && k != s[i].0@) by {
        if has_key(t, k) {
            let a = key_index(t, k);
            let a0 = if a < i {
                a
            } else {
                a + 1
            };
            assert(t[a] == s[a0]);
            if a0 < i {
                assert(s[a0].0@ != s[i].0@);
            } else {
                assert(s[i].0@ != s[a0].0@);
            }
        }
        if has_key(s, k) && k != s[i].0@ {
            let a0 = key_index(s, k);
            let a = if a0 < i {
                a0
            } else {
                a0 - 1
            };
            assert(t[a] == s[a0]);
        }
    }
    assert forall|k: Seq<char>| has_key(t, k) implies #[trigger] map_of_pairs(t)[k] == map_of_pairs(
        s,
    )[k] by {
        let a = key_index(t, k);
        let a0 = if a < i {
            a
        } else {
            a + 1
        };
        assert(t[a] == s[a0]);
        lemma_map_of_pairs(t, a);
        lemma_map_of_pairs(s, a0);
    }
    assert(map_of_pairs(t) =~= map_of_pairs(s).remove(s[i].0@));
}

/// Putting a pair with a new key into a list with distinct keys puts it
/// into the map, and leaves the keys distinct.
pub proof fn lemma_inserted_pair(s: Seq<(String, String)>, pos: int, p: (String, String))
    requires
        distinct_keys(s),
        !has_key(s, p.0@),
        0 <= pos <= s.len(),
    ensures
        distinct_keys(s.insert(pos, p)),
        map_of_pairs(s.insert(pos, p)) == map_of_pairs(s).insert(p.0@, p.1@),
{
    let t = s.insert(pos, p);
    assert forall|a: int| 0 <= a < t.len() && a != pos implies (#[trigger] t[a]).0@ != p.0@ by {
        let a0 = if a < pos {
            a
        } else {
            a - 1
        };
        assert(t[a] == s[a0]);
    }
    assert forall|a: int, b: int| 0 <= a < b < t.len() implies (#[trigger] t[a]).0@ != (
    #[trigger] t[b]).0@ by {
        if a != pos && b != pos {
            let a0 = if a < pos {
                a
            } else {
                a - 1
            };
            let b0 = if b < pos {
                b
            } else {
                b - 1
            };
            assert(t[a] == s[a0]);
            assert(t[b] == s[b0]);
        }
    }
    assert forall|k: Seq<char>| has_key(t, k) <==> (has_key(s, k) || k == p.0@) by {
        if has_key(t, k) {
            let a = key_index(t, k);
            if a != pos {
                let a0 = if a < pos {
                    a
                } else {
                    a - 1
                };
                assert(t[a] == s[a0]);
            }
        }
        if has_key(s, k) {
            let a0 = key_index(s, k);
            let a = if a0 < pos {
                a0
            } else {
                a0 + 1
            };
            assert(t[a] == s[a0]);
        }
        if k == p.0@ {
            assert(t[pos] == p);
        }
    }
    assert forall|k: Seq<char>| has_key(t, k) implies #[trigger] map_of_pairs(t)[k] == (if k
        == p.0@ {
        p.1@
    } else {
        map_of_pairs(s)[k]
    }) by {
        let a = key_index(t, k);
        lemma_map_of_pairs(t, a);
        if a != pos {
            let a0 = if a < pos {
                a
            } else {
                a - 1
            };
            assert(t[a] == s[a0]);
            lemma_map_of_pairs(s, a0);
        }
    }
    assert(map_of_pairs(t) =~= map_of_pairs(s).insert(p.0@, p.1@));
}

} // verus!
