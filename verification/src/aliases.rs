//! The table of model aliases: a map from alias to model name, held as a
//! list of pairs in which no alias occurs twice.
use vstd::prelude::*;

verus! {

/// The pairs of a list of owned texts, taken by their characters.
pub open spec fn text_pairs(v: Seq<(String, String)>) -> Seq<(Seq<char>, Seq<char>)> {
    v.map_values(|p: (String, String)| (p.0@, p.1@))
}

/// The map that a list of pairs describes when each pair, in order,
/// overwrites what came before it under the same key.
pub open spec fn pairs_map(s: Seq<(Seq<char>, Seq<char>)>) -> Map<Seq<char>, Seq<char>>
    decreases s.len(),
{
    if s.len() == 0 {
        Map::empty()
    } else {
        pairs_map(s.drop_last()).insert(s.last().0, s.last().1)
    }
}

/// No key occurs twice in the list.
pub open spec fn keys_distinct(s: Seq<(Seq<char>, Seq<char>)>) -> bool {
    forall|i: int, j: int| 0 <= i < j < s.len() ==> #[trigger] s[i].0 != #[trigger] s[j].0
}

/// In the map of a list of pairs, a key takes the value of its last pair.
pub proof fn lemma_pairs_map_last_wins(s: Seq<(Seq<char>, Seq<char>)>, i: int)
    requires
        0 <= i < s.len(),
        forall|j: int| i < j < s.len() ==> #[trigger] s[j].0 != s[i].0,
    ensures
        pairs_map(s).dom().contains(s[i].0),
        pairs_map(s)[s[i].0] == s[i].1,
    decreases s.len(),
{
    if i < s.len() - 1 {
        assert forall|j: int| i < j < s.drop_last().len() implies #[trigger] s.drop_last()[j].0 != s.drop_last()[i].0 by {
            assert(s.drop_last()[j] == s[j]);
        }
        assert(s.drop_last()[i] == s[i]);
        lemma_pairs_map_last_wins(s.drop_last(), i);
        assert(s[s.len() - 1].0 != s[i].0);
    }
}

pub proof fn lemma_pairs_map_dom(s: Seq<(Seq<char>, Seq<char>)>, k: Seq<char>)
    ensures
        pairs_map(s).dom().contains(k) <==> exists|i: int| 0 <= i < s.len() && #[trigger] s[i].0 == k,
    decreases s.len(),
{
    if s.len() > 0 {
        lemma_pairs_map_dom(s.drop_last(), k);
        if pairs_map(s).dom().contains(k) && k != s.last().0 {
            let i = choose|i: int| 0 <= i < s.drop_last().len() && #[trigger] s.drop_last()[i].0 == k;
            assert(s[i].0 == k);
        }
        if exists|i: int| 0 <= i < s.len() && #[trigger] s[i].0 == k {
            let i = choose|i: int| 0 <= i < s.len() && #[trigger] s[i].0 == k;
            if i < s.len() - 1 {
                assert(s.drop_last()[i].0 == k);
            }
        }
    }
}

pub proof fn lemma_pairs_map_at(s: Seq<(Seq<char>, Seq<char>)>, i: int)
    requires
        keys_distinct(s),
        0 <= i < s.len(),
    ensures
        pairs_map(s).dom().contains(s[i].0),
        pairs_map(s)[s[i].0] == s[i].1,
    decreases s.len(),
{
    if i < s.len() - 1 {
        assert(s.drop_last()[i] == s[i]);
        lemma_pairs_map_at(s.drop_last(), i);
        assert(s[i].0 != s[s.len() - 1].0);
    }
}

pub proof fn lemma_pairs_map_update(s: Seq<(Seq<char>, Seq<char>)>, i: int, v: Seq<char>)
    requires
        keys_distinct(s),
        0 <= i < s.len(),
    ensures
        pairs_map(s.update(i, (s[i].0, v))) == pairs_map(s).insert(s[i].0, v),
    decreases s.len(),
{
    let t = s.update(i, (s[i].0, v));
    if i == s.len() - 1 {
        assert(t.drop_last() =~= s.drop_last());
        assert(pairs_map(t) =~= pairs_map(s).insert(s[i].0, v));
    } else {
        assert(t.drop_last() =~= s.drop_last().update(i, (s[i].0, v)));
        assert(s.drop_last()[i] == s[i]);
        lemma_pairs_map_update(s.drop_last(), i, v);
        assert(s[i].0 != s.last().0);
        assert(pairs_map(t) =~= pairs_map(s).insert(s[i].0, v));
    }
}

/// Aliases of model names. Each alias occurs once; inserting an alias that is
/// already there replaces its model name.
pub struct AliasTable {
    entries: Vec<(String, String)>,
}

impl AliasTable {
    #[verifier::type_invariant]
    spec fn keys_unique(self) -> bool {
        keys_distinct(text_pairs(self.entries@))
    }

    /// The pairs of the table, in the order in which aliases came in.
    pub closed spec fn pairs(self) -> Seq<(Seq<char>, Seq<char>)> {
        text_pairs(self.entries@)
    }

    /// The table as a map from alias to model name.
    pub open spec fn map(self) -> Map<Seq<char>, Seq<char>> {
        pairs_map(self.pairs())
    }

    /// An empty table.
    pub fn new() -> (r: AliasTable)
        ensures
            r.map() == Map::<Seq<char>, Seq<char>>::empty(),
            r.pairs().len() == 0,
    {
        let r = AliasTable { entries: Vec::new() };
        assert(r.pairs() =~= Seq::<(Seq<char>, Seq<char>)>::empty());
        r
    }

    /// The table made by inserting each pair in turn: where an alias occurs
    /// more than once, its last model name stays.
    pub fn from_pairs(pairs: Vec<(String, String)>) -> (r: AliasTable)
        ensures
            r.map() == pairs_map(text_pairs(pairs@)),
    {
        let mut table = AliasTable::new();
        table.insert_all(&pairs);
        assert(Map::<Seq<char>, Seq<char>>::empty().union_prefer_right(pairs_map(text_pairs(pairs@)))
            =~= pairs_map(text_pairs(pairs@)));
        table
    }

    /// The pairs of the table, each alias once.
    pub fn entries(&self) -> (r: &Vec<(String, String)>)
        ensures
            text_pairs(r@) == self.pairs(),
            keys_distinct(text_pairs(r@)),
            pairs_map(text_pairs(r@)) == self.map(),
    {
        proof {
            use_type_invariant(self);
        }
        &self.entries
    }

    /// Index of `key` in the entries, if it is there.
    fn position(entries: &Vec<(String, String)>, key: &String) -> (r: Option<usize>)
        ensures
            match r {
                Some(i) => i < entries@.len() && entries@[i as int].0@ == key@,
                None => forall|i: int| 0 <= i < entries@.len() ==> #[trigger] entries@[i].0@ != key@,
            },
    {
        let n = entries.len();
        let mut i: usize = 0;
        while i < n
            invariant
                n == entries@.len(),
                i <= n,
                forall|k: int| 0 <= k < i ==> #[trigger] entries@[k].0@ != key@,
            decreases n - i,
        {
            if entries[i].0 == *key {
                return Some(i);
            }
            i = i + 1;
        }
        None
    }

    /// Sets the model name of `key` to `value`, adding the alias if it is not
    /// there yet.
    pub fn insert(&mut self, key: String, value: String)
        ensures
            final(self).map() == old(self).map().insert(key@, value@),
    {
        proof {
            use_type_invariant(&*self);
        }
        let mut entries: Vec<(String, String)> = Vec::new();
        std::mem::swap(&mut entries, &mut self.entries);
        let ghost before = text_pairs(entries@);
        assert(before == old(self).pairs());
        match Self::position(&entries, &key) {
            Some(i) => {
                proof {
                    lemma_pairs_map_update(before, i as int, value@);
                }
                entries.set(i, (key, value));
                assert(text_pairs(entries@) =~= before.update(i as int, (before[i as int].0, value@)));
            },
            None => {
                entries.push((key, value));
                let ghost after = text_pairs(entries@);
                assert(after.drop_last() =~= before);
                assert(after.last() == (key@, value@));
                assert forall|a: int, b: int| 0 <= a < b < after.len() implies #[trigger] after[a].0
                    != #[trigger] after[b].0 by {
                    if b == after.len() - 1 {
                        assert(after[a].0 == entries@[a].0@);
                    } else {
                        assert(after[a] == before[a]);
                        assert(after[b] == before[b]);
                    }
                };
            },
        }
        self.entries = entries;
    }

    /// Inserts each pair in turn.
    pub fn insert_all(&mut self, pairs: &Vec<(String, String)>)
        ensures
            final(self).map() == old(self).map().union_prefer_right(pairs_map(text_pairs(pairs@))),
    {
        let ghost start = self.map();
        let ghost all = text_pairs(pairs@);
        proof {
            assert(all.take(0) =~= Seq::<(Seq<char>, Seq<char>)>::empty());
            assert(start.union_prefer_right(Map::empty()) =~= start);
        }
        let n = pairs.len();
        let mut i: usize = 0;
        while i < n
            invariant
                n == all.len(),
                all == text_pairs(pairs@),
                i <= n,
                self.map() == start.union_prefer_right(pairs_map(all.take(i as int))),
            decreases n - i,
        {
            let k = pairs[i].0.clone();
            let v = pairs[i].1.clone();
            proof {
                assert(all.take(i + 1).drop_last() =~= all.take(i as int));
                assert(all.take(i + 1).last() == all[i as int]);
            }
            self.insert(k, v);
            proof {
                assert(self.map() =~= start.union_prefer_right(pairs_map(all.take(i + 1))));
            }
            i = i + 1;
        }
        assert(all.take(n as int) =~= all);
    }

    /// The model name of `key`, if the table holds the alias.
    pub fn get(&self, key: &str) -> (r: Option<String>)
        ensures
            match r {
                Some(v) => self.map().dom().contains(key@) && v@ == self.map()[key@],
                None => !self.map().dom().contains(key@),
            },
    {
        proof {
            use_type_invariant(self);
        }
        let k = String::from_str(key);
        match Self::position(&self.entries, &k) {
            Some(i) => {
                proof {
                    lemma_pairs_map_at(self.pairs(), i as int);
                }
                Some(self.entries[i].1.clone())
            },
            None => {
                proof {
                    lemma_pairs_map_dom(self.pairs(), key@);
                    if self.map().dom().contains(key@) {
                        let j = choose|j: int| 0 <= j < self.pairs().len() && #[trigger] self.pairs()[j].0 == key@;
                        assert(self.entries@[j].0@ == key@);
                    }
                }
                None
            },
        }
    }
}

/// A lookup after an insert gives the inserted model name, and leaves every
/// other alias as it was.
pub proof fn law_insert_then_lookup(
    before: Map<Seq<char>, Seq<char>>,
    after: Map<Seq<char>, Seq<char>>,
    alias: Seq<char>,
    model: Seq<char>,
    other: Seq<char>,
)
    requires
        after == before.insert(alias, model),
    ensures
        after.dom().contains(alias) && after[alias] == model,
        other != alias ==> (after.dom().contains(other) <==> before.dom().contains(other)),
        other != alias && before.dom().contains(other) ==> after[other] == before[other],
{
}

/// Inserting the same alias twice keeps the later model name only.
pub proof fn law_insert_overwrites(m: Map<Seq<char>, Seq<char>>, alias: Seq<char>, first: Seq<char>, second: Seq<char>)
    ensures
        m.insert(alias, first).insert(alias, second) == m.insert(alias, second),
{
    assert(m.insert(alias, first).insert(alias, second) =~= m.insert(alias, second));
}

} // verus!
