use vstd::prelude::*;

verus! {

/// The map that a sequence of (key, value) insertions builds: a later pair
/// overrides an earlier one with the same key.
pub open spec fn map_of_pairs(pairs: Seq<(Seq<char>, Seq<char>)>) -> Map<Seq<char>, Seq<char>>
    decreases pairs.len(),
{
    if pairs.len() == 0 {
        Map::empty()
    } else {
        map_of_pairs(pairs.drop_last()).insert(pairs.last().0, pairs.last().1)
    }
}

/// The value of the last pair with key `k` is the one the map holds.
proof fn lemma_last_pair_wins(pairs: Seq<(Seq<char>, Seq<char>)>, k: Seq<char>, j: int)
    requires
        0 <= j < pairs.len(),
        pairs[j].0 == k,
        forall|i: int| j < i < pairs.len() ==> pairs[i].0 != k,
    ensures
        map_of_pairs(pairs).contains_key(k),
        map_of_pairs(pairs)[k] == pairs[j].1,
    decreases pairs.len(),
{
    if j < pairs.len() - 1 {
        let prefix = pairs.drop_last();
        assert forall|i: int| j < i < prefix.len() implies prefix[i].0 != k by {
            assert(prefix[i] == pairs[i]);
        }
        lemma_last_pair_wins(prefix, k, j);
    }
}

/// A key that no pair carries is absent from the map.
proof fn lemma_key_absent(pairs: Seq<(Seq<char>, Seq<char>)>, k: Seq<char>)
    requires
        forall|i: int| 0 <= i < pairs.len() ==> pairs[i].0 != k,
    ensures
        !map_of_pairs(pairs).contains_key(k),
    decreases pairs.len(),
{
    if pairs.len() > 0 {
        let prefix = pairs.drop_last();
        assert forall|i: int| 0 <= i < prefix.len() implies prefix[i].0 != k by {
            assert(prefix[i] == pairs[i]);
        }
        lemma_key_absent(prefix, k);
    }
}

pub open spec fn pair_view(e: (String, String)) -> (Seq<char>, Seq<char>) {
    (e.0@, e.1@)
}

/// The resolution of profile output patterns to concrete output names.
/// Held as a vector of pairs: for std's hash maps keyed by `String`, Verus
/// proves nothing of lookups.
pub struct NameMap {
    pairs: Vec<(String, String)>,
}

impl View for NameMap {
    type V = Map<Seq<char>, Seq<char>>;

    closed spec fn view(&self) -> Map<Seq<char>, Seq<char>> {
        map_of_pairs(self.pairs@.map_values(|e: (String, String)| pair_view(e)))
    }
}

impl NameMap {
    pub fn new() -> (r: NameMap)
        ensures
            r@ == Map::<Seq<char>, Seq<char>>::empty(),
    {
        let r = NameMap { pairs: Vec::new() };
        assert(r.pairs@.map_values(|e: (String, String)| pair_view(e)) =~= Seq::empty());
        r
    }

    /// Maps `key` to `value`, replacing what `key` mapped to before.
    pub fn insert(&mut self, key: String, value: String)
        ensures
            final(self)@ == old(self)@.insert(key@, value@),
    {
        let ghost before = self.pairs@.map_values(|e: (String, String)| pair_view(e));
        self.pairs.push((key, value));
        let ghost after = self.pairs@.map_values(|e: (String, String)| pair_view(e));
        assert(after.drop_last() =~= before);
    }

    pub fn get(&self, key: &str) -> (r: Option<&String>)
        ensures
            match r {
                Some(v) => self@.contains_key(key@) && self@[key@] == v@,
                None => !self@.contains_key(key@),
            },
    {
        let ghost pairs = self.pairs@.map_values(|e: (String, String)| pair_view(e));
        let wanted = key.to_owned();
        let mut i: usize = self.pairs.len();
        while i > 0
            invariant
                i <= self.pairs@.len(),
                pairs == self.pairs@.map_values(|e: (String, String)| pair_view(e)),
                wanted@ == key@,
                forall|j: int| i <= j < pairs.len() ==> pairs[j].0 != key@,
            decreases i,
        {
            i = i - 1;
            if self.pairs[i].0 == wanted {
                proof {
                    lemma_last_pair_wins(pairs, key@, i as int);
                }
                return Some(&self.pairs[i].1);
            }
        }
        proof {
            lemma_key_absent(pairs, key@);
        }
        None
    }
}

} // verus!
