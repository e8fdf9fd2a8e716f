//! Lists of string key/value pairs, viewed as a mapping in which the
//! last occurrence of a key wins.  Configuration values and header
//! mappings are both carried this way.

use vstd::prelude::*;
use crate::text::str_eq;

verus! {

/// The mapping denoted by a list of pairs: later pairs overwrite
/// earlier ones, so a duplicated key denotes its last value.
pub open spec fn kv_map(s: Seq<(String, String)>) -> Map<Seq<char>, Seq<char>>
    decreases s.len(),
{
    if s.len() == 0 {
        Map::empty()
    } else {
        kv_map(s.drop_last()).insert(s.last().0@, s.last().1@)
    }
}

/// A key absent from every pair is absent from the mapping.
pub proof fn lemma_kv_absent(s: Seq<(String, String)>, k: Seq<char>)
    requires
        forall|i: int| 0 <= i < s.len() ==> s[i].0@ != k,
    ensures
        !kv_map(s).contains_key(k),
    decreases s.len(),
{
    if s.len() > 0 {
        lemma_kv_absent(s.drop_last(), k);
    }
}

/// A pair whose key does not recur later in the list gives the key's
/// value in the mapping: the last occurrence wins.
pub proof fn lemma_kv_found(s: Seq<(String, String)>, i: int)
    requires
        0 <= i < s.len(),
        forall|j: int| i < j < s.len() ==> s[j].0@ != s[i].0@,
    ensures
        kv_map(s).contains_key(s[i].0@),
        kv_map(s)[s[i].0@] == s[i].1@,
    decreases s.len(),
{
    if i < s.len() - 1 {
        lemma_kv_found(s.drop_last(), i);
    }
}

/// Look a key up in a list of pairs, returning the value of its last
/// occurrence, exactly as the mapping view does.
pub fn kv_get<'a>(pairs: &'a Vec<(String, String)>, key: &str) -> (r: Option<&'a String>)
    ensures
        match r {
            Some(v) => kv_map(pairs@).contains_key(key@) && v@ == kv_map(pairs@)[key@],
            None => !kv_map(pairs@).contains_key(key@),
        },
{
    let n = pairs.len();
    let mut i: usize = n;
    while i > 0
        invariant
            n == pairs@.len(),
            0 <= i <= n,
            forall|j: int| i <= j < n ==> pairs@[j].0@ != key@,
        decreases i,
    {
        i = i - 1;
        if str_eq(pairs[i].0.as_str(), key) {
            proof {
                lemma_kv_found(pairs@, i as int);
            }
            return Some(&pairs[i].1);
        }
    }
    proof {
        lemma_kv_absent(pairs@, key@);
    }
    None
}

} // verus!
