//! Lists of string pairs used as small maps: labels, annotations, hash fields.

use vstd::prelude::*;

verus! {

/// A list of string pairs as a sequence of character pairs.
pub open spec fn pairs_view(v: Seq<(String, String)>) -> Seq<(Seq<char>, Seq<char>)> {
    v.map_values(|p: (String, String)| (p.0@, p.1@))
}

/// No key occurs twice.
pub open spec fn distinct_keys(s: Seq<(Seq<char>, Seq<char>)>) -> bool {
    forall|i: int, j: int| 0 <= i < j < s.len() ==> s[i].0 != s[j].0
}

/// The value stored under `key`; the last pair with that key wins.
pub open spec fn lookup(s: Seq<(Seq<char>, Seq<char>)>, key: Seq<char>) -> Option<Seq<char>>
    decreases s.len(),
{
    if s.len() == 0 {
        None
    } else if s.last().0 == key {
        Some(s.last().1)
    } else {
        lookup(s.drop_last(), key)
    }
}

/// The view of an optional string.
pub open spec fn opt_view(o: Option<String>) -> Option<Seq<char>> {
    match o {
        Some(s) => Some(s@),
        None => None,
    }
}

/// The value stored under `key`, read from the end of the list: the last pair with that key.
pub fn find_value<'a>(pairs: &'a Vec<(String, String)>, key: &str) -> (r: Option<&'a String>)
    ensures
        match r {
            Some(v) => lookup(pairs_view(pairs@), key@) == Some(v@),
            None => lookup(pairs_view(pairs@), key@) is None,
        },
{
    let ghost all = pairs_view(pairs@);
    let needle = String::from_str(key);
    let mut i: usize = pairs.len();
    assert(all.take(i as int) =~= all);
    while i > 0
        invariant
            i <= pairs@.len(),
            all == pairs_view(pairs@),
            needle@ == key@,
            lookup(all, key@) == lookup(all.take(i as int), key@),
        decreases i,
    {
        let k = &pairs[i - 1].0;
        proof {
            assert(all.take(i as int).drop_last() =~= all.take(i - 1));
            assert(all.take(i as int).last() == (pairs@[i - 1].0@, pairs@[i - 1].1@));
        }
        if *k == needle {
            return Some(&pairs[i - 1].1);
        }
        i = i - 1;
    }
    assert(all.take(0) =~= Seq::<(Seq<char>, Seq<char>)>::empty());
    None
}

/// A pair of strings made from two string slices.
pub fn pair(key: &str, value: &str) -> (r: (String, String))
    ensures
        r.0@ == key@,
        r.1@ == value@,
{
    (String::from_str(key), String::from_str(value))
}

} // verus!
