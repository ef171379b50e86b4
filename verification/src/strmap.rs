//! A small association table from string keys to values, read in
//! specifications as a mathematical `Map`. A later insertion for a key
//! shadows any earlier one, which matches the index-overwriting behaviour the
//! analysis relies on.

use vstd::prelude::*;

verus! {

/// The map described by an association list: later pairs shadow earlier ones.
pub open spec fn assoc_map_of<V>(pairs: Seq<(String, V)>) -> Map<Seq<char>, V>
    decreases pairs.len(),
{
    if pairs.len() == 0 {
        Map::empty()
    } else {
        assoc_map_of(pairs.drop_last()).insert(pairs.last().0@, pairs.last().1)
    }
}

proof fn lemma_assoc_map_of_found<V>(pairs: Seq<(String, V)>, k: Seq<char>, j: int)
    requires
        0 <= j < pairs.len(),
        pairs[j].0@ == k,
        forall|j2: int| j < j2 < pairs.len() ==> pairs[j2].0@ != k,
    ensures
        assoc_map_of(pairs).contains_key(k),
        assoc_map_of(pairs)[k] == pairs[j].1,
    decreases pairs.len(),
{
    if j == pairs.len() - 1 {
    } else {
        assert(pairs.last().0@ != k);
        assert(forall|j2: int|
            j < j2 < pairs.drop_last().len() ==> pairs.drop_last()[j2].0@ != k);
        lemma_assoc_map_of_found(pairs.drop_last(), k, j);
    }
}

proof fn lemma_assoc_map_of_absent<V>(pairs: Seq<(String, V)>, k: Seq<char>)
    requires
        forall|j: int| 0 <= j < pairs.len() ==> pairs[j].0@ != k,
    ensures
        !assoc_map_of(pairs).contains_key(k),
    decreases pairs.len(),
{
    if pairs.len() > 0 {
        lemma_assoc_map_of_absent(pairs.drop_last(), k);
    }
}

/// An association table with `String` keys, viewed as a `Map<Seq<char>, V>`.
#[derive(Debug)]
pub struct StrMap<V> {
    pairs: Vec<(String, V)>,
}

impl<V> View for StrMap<V> {
    type V = Map<Seq<char>, V>;

    closed spec fn view(&self) -> Map<Seq<char>, V> {
        assoc_map_of(self.pairs@)
    }
}

impl<V> StrMap<V> {
    pub fn new() -> (m: Self)
        ensures
            m@ == Map::<Seq<char>, V>::empty(),
    {
        StrMap { pairs: Vec::new() }
    }

    /// Bind `key` to `value`, shadowing any earlier binding.
    pub fn insert(&mut self, key: String, value: V)
        ensures
            final(self)@ == old(self)@.insert(key@, value),
    {
        let ghost pairs0 = self.pairs@;
        let ghost k = key@;
        let ghost gv = value;
        self.pairs.push((key, value));
        proof {
            assert(self.pairs@.drop_last() =~= pairs0);
            assert(self.pairs@.last().0@ == k);
            assert(self.pairs@.last().1 == gv);
            assert(assoc_map_of(self.pairs@) == assoc_map_of(pairs0).insert(k, gv));
        }
    }

    /// The value most recently bound to `key`, if any.
    pub fn get(&self, key: &String) -> (r: Option<&V>)
        ensures
            match r {
                Some(v) => self@.contains_key(key@) && *v == self@[key@],
                None => !self@.contains_key(key@),
            },
    {
        let mut j = self.pairs.len();
        while j > 0
            invariant
                j <= self.pairs.len(),
                forall|j2: int| j <= j2 < self.pairs@.len() ==> self.pairs@[j2].0@ != key@,
            decreases j,
        {
            j = j - 1;
            if self.pairs[j].0 == *key {
                proof {
                    lemma_assoc_map_of_found(self.pairs@, key@, j as int);
                }
                return Some(&self.pairs[j].1);
            }
        }
        proof {
            lemma_assoc_map_of_absent(self.pairs@, key@);
        }
        None
    }

    /// Whether any binding for `key` exists.
    pub fn contains_key(&self, key: &String) -> (b: bool)
        ensures
            b == self@.contains_key(key@),
    {
        match self.get(key) {
            Some(_) => true,
            None => false,
        }
    }
}

} // verus!
