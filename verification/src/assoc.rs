use vstd::prelude::*;

verus! {

/// The mapping denoted by a list of key/value pairs. A later pair with the
/// same key overwrites an earlier one, exactly as repeated insertion into a
/// map would.
pub open spec fn assoc_map(pairs: Seq<(String, String)>) -> Map<Seq<char>, Seq<char>>
    decreases pairs.len(),
{
    if pairs.len() == 0 {
        Map::empty()
    } else {
        assoc_map(pairs.drop_last()).insert(pairs.last().0@, pairs.last().1@)
    }
}

/// Appending a pair inserts its binding into the denoted mapping.
pub proof fn lemma_assoc_map_push(pairs: Seq<(String, String)>, k: String, v: String)
    ensures
        assoc_map(pairs.push((k, v))) == assoc_map(pairs).insert(k@, v@),
{
    assert(pairs.push((k, v)).drop_last() =~= pairs);
    assert(pairs.push((k, v)).last() == (k, v));
}

/// Looks a key up in the mapping denoted by `pairs`; when two pairs share the
/// key, the later one wins.
pub fn assoc_get<'a>(pairs: &'a Vec<(String, String)>, key: &String) -> (r: Option<&'a String>)
    ensures
        match r {
            Some(v) => assoc_map(pairs@).contains_key(key@) && v@ == assoc_map(pairs@)[key@],
            None => !assoc_map(pairs@).contains_key(key@),
        },
{
    proof {
        assert(pairs@.take(pairs@.len() as int) =~= pairs@);
    }
    let mut i = pairs.len();
    while i > 0
        invariant
            i <= pairs@.len(),
            assoc_map(pairs@).contains_key(key@) == assoc_map(pairs@.take(i as int)).contains_key(
                key@,
            ),
            assoc_map(pairs@).contains_key(key@) ==> assoc_map(pairs@)[key@] == assoc_map(
                pairs@.take(i as int),
            )[key@],
        decreases i,
    {
        i = i - 1;
        proof {
            assert(pairs@.take(i as int + 1).drop_last() =~= pairs@.take(i as int));
            assert(pairs@.take(i as int + 1).last() == pairs@[i as int]);
        }
        if pairs[i].0 == *key {
            return Some(&pairs[i].1);
        }
    }
    proof {
        assert(pairs@.take(0) =~= Seq::<(String, String)>::empty());
    }
    None
}

} // verus!
