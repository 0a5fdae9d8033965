//! A builder that turns a list of key/value pairs into a hash map.

use std::collections::HashMap;
use std::hash::Hash;
use vstd::prelude::*;

verus! {

broadcast use vstd::std_specs::hash::group_hash_axioms;

/// The map that the pairs describe: every key of the list maps to the
/// value it was last paired with; no other key is present. The order in
/// which distinct keys appear plays no role.
pub open spec fn map_of<K, V>(pairs: Seq<(K, V)>) -> Map<K, V>
    decreases pairs.len(),
{
    if pairs.len() == 0 {
        Map::empty()
    } else {
        map_of(pairs.drop_last()).insert(pairs.last().0, pairs.last().1)
    }
}

/// Builds the map that `pairs` describes, inserting the pairs in order so
/// that a later pair wins over an earlier one with the same key.
pub fn map_from_pairs<K: Copy + Eq + Hash, V: Copy>(pairs: &Vec<(K, V)>) -> (m: HashMap<K, V>)
    requires
        vstd::std_specs::hash::obeys_key_model::<K>(),
    ensures
        m@ == map_of(pairs@),
{
    let mut m: HashMap<K, V> = HashMap::new();
    let mut i: usize = 0;
    while i < pairs.len()
        invariant
            vstd::std_specs::hash::obeys_key_model::<K>(),
            i <= pairs.len(),
            m@ == map_of(pairs@.take(i as int)),
        decreases pairs.len() - i,
    {
        let pair = pairs[i];
        m.insert(pair.0, pair.1);
        proof {
            assert(pairs@.take(i + 1).drop_last() =~= pairs@.take(i as int));
            assert(pairs@.take(i + 1).last() == pairs@[i as int]);
        }
        i = i + 1;
    }
    proof {
        assert(pairs@.take(pairs@.len() as int) =~= pairs@);
    }
    m
}

} // verus!
